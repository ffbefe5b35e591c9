use sysprocalc::console::{
    byte_index_to_char_index, efer_register_descriptor, error_caret_padding, is_whitespace, read_input,
    result_bit_count, ConsoleInput,
};

#[test]
fn whitespace_matches_std() {
    for c in (0u32..=0x10ffff).filter_map(char::from_u32) {
        assert_eq!(is_whitespace(c), c.is_whitespace(), "{:?}", c);
    }
}

#[test]
fn reading_input() {
    assert_eq!(read_input("q"), ConsoleInput::Exit);
    assert_eq!(read_input("  quit  "), ConsoleInput::Exit);
    assert_eq!(read_input("exit now"), ConsoleInput::Exit);
    assert_eq!(read_input("efer"), ConsoleInput::ShowRegister(None));
    assert_eq!(read_input(" efer 0xd01 "), ConsoleInput::ShowRegister(Some("0xd01".to_string())));
    assert_eq!(read_input("efer 1 + 2"), ConsoleInput::ShowRegister(Some("1 + 2".to_string())));
    assert_eq!(read_input("efer "), ConsoleInput::ShowRegister(None));
    assert_eq!(read_input(""), ConsoleInput::Blank);
    assert_eq!(read_input(" \t\n"), ConsoleInput::Blank);
    assert_eq!(read_input("1 + 2"), ConsoleInput::Expression);
    assert_eq!(read_input("quitter"), ConsoleInput::Expression);
    assert_eq!(read_input("\u{3000}q\u{2028}"), ConsoleInput::Exit);
}

#[test]
fn char_indices() {
    assert_eq!(byte_index_to_char_index("abc", 0), 0);
    assert_eq!(byte_index_to_char_index("abc", 2), 2);
    assert_eq!(byte_index_to_char_index("é+1", 2), 1);
    assert_eq!(byte_index_to_char_index("é+1", 3), 2);
    assert_eq!(error_caret_padding("é+1", 3, None), 4);
    assert_eq!(error_caret_padding("1+x", 2, Some(5)), 9);
}

#[test]
fn result_bit_counts() {
    assert_eq!(result_bit_count(0), (1, "bit"));
    assert_eq!(result_bit_count(1), (1, "bit"));
    assert_eq!(result_bit_count(2), (2, "bits"));
    assert_eq!(result_bit_count(0xff), (8, "bits"));
    assert_eq!(result_bit_count(u64::MAX), (64, "bits"));
}

#[test]
fn console_efer_descriptor() {
    let d = efer_register_descriptor();
    assert_eq!(d.name(), "EFER");
    assert_eq!(d.arch(), "x86");
    assert_eq!(d.bit_count(), 32);
    assert_eq!(d.bit_ranges().len(), 7);
    assert_eq!(d.bit_ranges()[5].name, "LMSL");
}

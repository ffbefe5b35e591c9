use sysprocalc::text::radix_text;

#[test]
fn radix_text_matches_std_formatting() {
    let values = [0u64, 1, 7, 8, 15, 16, 0xd01, 0x1234_5678_9abc_def0, u64::MAX, 1 << 63];
    for v in values {
        assert_eq!(radix_text(v, 16, "0x", 16), format!("{:#018x}", v));
        assert_eq!(radix_text(v, 16, "0x", 0), format!("{:#x}", v));
        assert_eq!(radix_text(v, 8, "0o", 20), format!("{:#022o}", v));
        assert_eq!(radix_text(v, 8, "0o", 0), format!("{:#o}", v));
        assert_eq!(radix_text(v, 2, "", 0), format!("{:b}", v));
        assert_eq!(radix_text(v, 10, "", 0), format!("{}", v));
    }
}

#[test]
fn radix_text_exact_values() {
    assert_eq!(radix_text(255, 16, "0x", 4), "0x00ff");
    assert_eq!(radix_text(0xabcdef, 16, "0x", 2), "0xabcdef");
    assert_eq!(radix_text(u64::MAX, 8, "0o", 20), "0o1777777777777777777777");
    assert_eq!(radix_text(0, 8, "0o", 0), "0o0");
}

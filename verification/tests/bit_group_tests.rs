use std::ops::Range;

use sysprocalc::bit_group::{
    fmt_as_spaced_binary, fmt_binary_ruler, fmt_bit_group, validate_bit_group, BitGroup, BitGroupDescriptor,
    BitGroupError, BitGroupKind, ByteOrder,
};

#[test]
fn bit_group_test_valid_bit_group() {
    let gen_bits = BitGroup::new(
        "generic".to_owned(),
        "x86".to_owned(),
        "cpu".to_owned(),
        ByteOrder::LittleEndian,
        64,
        vec![],
        vec![
            BitGroupDescriptor::new(
                Range { start: 0, end: 0 },
                BitGroupKind::Normal,
                "Gen 0".to_owned(),
                "Generic 0".to_owned(),
                "Generic 0 bit enable".to_owned(),
            ),
            BitGroupDescriptor::new(
                Range { start: 8, end: 8 },
                BitGroupKind::Normal,
                "Gen 1".to_owned(),
                "Generic 1".to_owned(),
                "Generic 1 bit enable".to_owned(),
            ),
        ],
    );
    let res_fmt = validate_bit_group(&gen_bits);
    assert!(res_fmt.is_ok());
}

#[test]
fn bit_group_test_invalid_bit_group() {
    let pair_invalid_bit_sets = [
        // Invalid bit count
        (
            BitGroup::new(
                "generic".to_owned(),
                "x86".to_owned(),
                "cpu".to_owned(),
                ByteOrder::LittleEndian,
                128,
                vec![],
                vec![
                    BitGroupDescriptor::new(
                        Range { start: 0, end: 0 },
                        BitGroupKind::Normal,
                        "Gen 0".to_owned(),
                        "Gen 0".to_owned(),
                        "Gen 0".to_owned(),
                    ),
                    BitGroupDescriptor::new(
                        Range { start: 8, end: 8 },
                        BitGroupKind::Normal,
                        "Gen 1".to_owned(),
                        "Gen 1".to_owned(),
                        "Gen 1".to_owned(),
                    ),
                ],
            ),
            BitGroupError::InvalidBitCount,
        ),
    ];

    for bs in &pair_invalid_bit_sets {
        let res_fmt = validate_bit_group(&bs.0);
        assert!(res_fmt.is_err(), "{:?}", bs.0);
        assert_eq!(res_fmt.err().unwrap(), bs.1);
    }
}

fn group(bit_count: u8, chunks: Vec<u8>, described: bool) -> BitGroup {
    let desc = if described {
        vec![BitGroupDescriptor::new(
            Range { start: 0, end: 1 },
            BitGroupKind::Normal,
            "Gen 0".to_owned(),
            "Gen 0".to_owned(),
            "Gen 0".to_owned(),
        )]
    } else {
        vec![]
    };
    BitGroup::new("generic".to_owned(), "x86".to_owned(), "cpu".to_owned(), ByteOrder::BigEndian, bit_count, chunks, desc)
}

#[test]
fn bit_group_chunk_and_description_errors() {
    assert_eq!(validate_bit_group(&group(32, (0..64).collect(), true)), Err(BitGroupError::InvalidChunksLength));
    assert_eq!(validate_bit_group(&group(32, vec![0, 1, 0], true)), Err(BitGroupError::DuplicateChunkIndex));
    assert_eq!(validate_bit_group(&group(32, vec![0, 1, 2, 3], false)), Err(BitGroupError::MissingDescription));
    assert_eq!(validate_bit_group(&group(32, vec![3, 2, 1, 0], true)), Ok(()));
    assert_eq!(fmt_bit_group(&group(32, vec![3, 2, 1, 0], true)), Ok("Testing_Impl".to_string()));
    assert_eq!(fmt_bit_group(&group(65, vec![], true)), Err(BitGroupError::InvalidBitCount));
    assert_eq!(BitGroupError::DuplicateChunkIndex.message(), "duplicate index in chunks");
}

#[test]
fn bit_group_binary_formats() {
    assert_eq!(fmt_as_spaced_binary(0), "0");
    assert_eq!(fmt_as_spaced_binary(0x3ff), "11 1111 1111");
    assert_eq!(fmt_binary_ruler(7), "");
    assert_eq!(fmt_binary_ruler(10), "   |  7:0  |");
    assert_eq!(fmt_binary_ruler(12), "     |  7:0  |");
    assert_eq!(fmt_binary_ruler(12).len(), fmt_as_spaced_binary(0xfff).len());
}

use std::ops::Range;

use sysprocalc::sys_bit_set::{
    fmt_as_spaced_binary, fmt_binary_ruler, fmt_sys_bit_set, validate_sys_bit_set, SysBitSet, SysBitSetDescription,
    SysBitSetError, SysBitSetKind, ByteOrder,
};

#[test]
fn test_valid_sys_bit_set() {
    let gen_bits = SysBitSet::new(
        "generic".to_owned(),
        "x86".to_owned(),
        "cpu".to_owned(),
        ByteOrder::LittleEndian,
        64,
        vec![],
        vec![
            SysBitSetDescription::new(
                Range { start: 0, end: 0 },
                SysBitSetKind::Normal,
                "Gen 0".to_owned(),
                "Generic 0".to_owned(),
                "Generic 0 bit enable".to_owned(),
            ),
            SysBitSetDescription::new(
                Range { start: 8, end: 8 },
                SysBitSetKind::Normal,
                "Gen 1".to_owned(),
                "Generic 1".to_owned(),
                "Generic 1 bit enable".to_owned(),
            ),
        ],
    );
    let res_fmt = validate_sys_bit_set(&gen_bits);
    assert!(res_fmt.is_ok());
}

#[test]
fn test_invalid_sys_bit_set() {
    let pair_invalid_bit_sets = [
        // Invalid bit count
        (
            SysBitSet::new(
                "generic".to_owned(),
                "x86".to_owned(),
                "cpu".to_owned(),
                ByteOrder::LittleEndian,
                128,
                vec![],
                vec![
                    SysBitSetDescription::new(
                        Range { start: 0, end: 0 },
                        SysBitSetKind::Normal,
                        "Gen 0".to_owned(),
                        "Gen 0".to_owned(),
                        "Gen 0".to_owned(),
                    ),
                    SysBitSetDescription::new(
                        Range { start: 8, end: 8 },
                        SysBitSetKind::Normal,
                        "Gen 1".to_owned(),
                        "Gen 1".to_owned(),
                        "Gen 1".to_owned(),
                    ),
                ],
            ),
            SysBitSetError::InvalidBitCount,
        ),
    ];

    for bs in &pair_invalid_bit_sets {
        let res_fmt = validate_sys_bit_set(&bs.0);
        assert!(res_fmt.is_err(), "{:?}", bs.0);
        assert_eq!(res_fmt.err().unwrap(), bs.1);
    }
}

fn bit_set(bit_count: u8, chunks: Vec<u8>, described: bool) -> SysBitSet {
    let desc = if described {
        vec![SysBitSetDescription::new(
            Range { start: 0, end: 1 },
            SysBitSetKind::Normal,
            "Gen 0".to_owned(),
            "Gen 0".to_owned(),
            "Gen 0".to_owned(),
        )]
    } else {
        vec![]
    };
    SysBitSet::new("generic".to_owned(), "x86".to_owned(), "cpu".to_owned(), ByteOrder::BigEndian, bit_count, chunks, desc)
}

#[test]
fn sys_bit_set_chunk_and_description_errors() {
    assert_eq!(validate_sys_bit_set(&bit_set(32, (0..64).collect(), true)), Err(SysBitSetError::InvalidChunksLength));
    assert_eq!(validate_sys_bit_set(&bit_set(32, vec![0, 1, 0], true)), Err(SysBitSetError::DuplicateChunkIndex));
    assert_eq!(validate_sys_bit_set(&bit_set(32, vec![0, 1, 2, 3], false)), Err(SysBitSetError::MissingDescription));
    assert_eq!(validate_sys_bit_set(&bit_set(32, vec![3, 2, 1, 0], true)), Ok(()));
    assert_eq!(fmt_sys_bit_set(&bit_set(32, vec![3, 2, 1, 0], true)), Ok("Testing_Impl".to_string()));
    assert_eq!(fmt_sys_bit_set(&bit_set(65, vec![], true)), Err(SysBitSetError::InvalidBitCount));
    assert_eq!(SysBitSetError::DuplicateChunkIndex.message(), "duplicate index in chunks");
}

#[test]
fn sys_bit_set_binary_formats() {
    assert_eq!(fmt_as_spaced_binary(0), "0");
    assert_eq!(fmt_as_spaced_binary(0x3ff), "11 1111 1111");
    assert_eq!(fmt_binary_ruler(7), "");
    assert_eq!(fmt_binary_ruler(10), "   |  7:0  |");
    assert_eq!(fmt_binary_ruler(12), "     |  7:0  |");
    assert_eq!(fmt_binary_ruler(12).len(), fmt_as_spaced_binary(0xfff).len());
}

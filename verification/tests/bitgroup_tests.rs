use std::ops::RangeInclusive;

use sysprocalc::bitgroup::{BitGroup, BitGroupError, BitSpan, BitSpanKind, ByteOrder, MAX_BITCOUNT};

#[test]
fn unit_tests_test_valid_bit_group() {
    let gen_bits: BitGroup<u64> = BitGroup::new(
        String::from("generic"),
        String::from("x86"),
        String::from("cpu"),
        String::from("description"),
        ByteOrder::LittleEndian,
        vec![
            BitSpan::new(
                RangeInclusive::new(0, 0),
                BitSpanKind::Normal,
                false,
                String::from("Gen 0"),
                String::from("Generic 0"),
                String::from("Generic Bit 0"),
            ),
            BitSpan::new(
                RangeInclusive::new(8, 8),
                BitSpanKind::Normal,
                false,
                String::from("Gen 1"),
                String::from("Generic 1"),
                String::from("Generic Bit 1"),
            ),
        ],
    );
    let res_fmt = gen_bits.validate();
    assert!(res_fmt.is_ok());
}

fn invalid_group(spans: Vec<(usize, usize, &str, &str, &str)>) -> BitGroup<u64> {
    BitGroup::<u64>::new(
        String::from("generic"),
        String::from("x86"),
        String::from("cpu"),
        String::from("description"),
        ByteOrder::LittleEndian,
        spans
            .into_iter()
            .map(|(first, last, name, short, long)| {
                BitSpan::new(
                    RangeInclusive::new(first, last),
                    BitSpanKind::Normal,
                    false,
                    String::from(name),
                    String::from(short),
                    String::from(long),
                )
            })
            .collect(),
    )
}

#[test]
fn unit_tests_test_invalid_bit_group() {
    let pair_invalid_64 = [
        // Overlapping bit ranges (0..5) and (5..7)
        (
            invalid_group(vec![(0, 5, "Inv 0", "Inv 0", "Inv Bit 0"), (5, 7, "Inv 1", "Inv 1", "Inv Bit 1")]),
            BitGroupError::OverlappingBitRange,
        ),
        // Overlapping bit ranges (63..63) and (32..63)
        (
            invalid_group(vec![(63, 63, "Inv 1", "Inv 1", "Inv Bit 1"), (32, 63, "Inv 0", "Inv 0", "Inv Bit 0")]),
            BitGroupError::OverlappingBitRange,
        ),
        // Invalid bit range (1..0)
        (invalid_group(vec![(1, 0, "Inv 0", "Inv 0", "Inv Bit 0")]), BitGroupError::InvalidBitRange),
        // Invalid bit range (0..MAX_BITCOUNT)
        (invalid_group(vec![(0, MAX_BITCOUNT, "Inv 0", "Inv 0", "Inv Bit 0")]), BitGroupError::InvalidBitRange),
        // Invalid bit range (bit_count+1..bit_count+2)
        (invalid_group(vec![(64, 65, "Inv 0", "Inv 0", "Inv Bit 0")]), BitGroupError::InvalidBitRange),
        // Invalid bit range (bit_count+1..0)
        (invalid_group(vec![(64, 0, "Inv 0", "Inv 0", "Inv Bit 0")]), BitGroupError::InvalidBitRange),
    ];

    for bg in &pair_invalid_64 {
        let res_fmt = bg.0.validate();
        assert!(res_fmt.is_err(), "{:?}", bg.0);
        assert_eq!(res_fmt.err().unwrap(), bg.1);
    }
}

#[test]
fn bit_group_with_no_spans_is_missing_its_description() {
    let group = invalid_group(vec![]);
    assert_eq!(group.validate(), Err(BitGroupError::MissingDescription));
}

#[test]
fn bit_group_spans_need_names_and_descriptions() {
    let group = invalid_group(vec![(0, 3, "", "Short", "Long")]);
    assert_eq!(group.validate(), Err(BitGroupError::MissingBitName));
    let group = invalid_group(vec![(0, 3, "Name", "", "Long")]);
    assert_eq!(group.validate(), Err(BitGroupError::MissingBitDescription));
}

#[test]
fn bit_group_in_a_narrow_word_refuses_high_bits() {
    let group: BitGroup<u8> = BitGroup::new(
        String::from("narrow"),
        String::from("x86"),
        String::from("cpu"),
        String::from("description"),
        ByteOrder::BigEndian,
        vec![BitSpan::new(
            RangeInclusive::new(4, 8),
            BitSpanKind::ReservedMustBeZero,
            true,
            String::from("High"),
            String::from("High"),
            String::from("High bits"),
        )],
    );
    assert_eq!(group.validate(), Err(BitGroupError::InvalidBitRange));
}

#[test]
fn fmt_bit_group_reports_a_valid_group() {
    let group = invalid_group(vec![(0, 3, "Low", "Low", "Low bits"), (4, 7, "High", "High", "High bits")]);
    assert_eq!(sysprocalc::bitgroup::fmt_bit_group(&group), Ok(String::from("Validates Okay")));
    let group = invalid_group(vec![(0, 3, "Low", "Low", "Low bits"), (3, 7, "High", "High", "High bits")]);
    assert_eq!(sysprocalc::bitgroup::fmt_bit_group(&group), Err(BitGroupError::OverlappingBitRange));
}

#[test]
fn bitgroup_binary_string_and_ruler() {
    assert_eq!(sysprocalc::bitgroup::get_binary_string(0), "0");
    assert_eq!(sysprocalc::bitgroup::get_binary_string(0x1f), "1 1111");
    assert_eq!(sysprocalc::bitgroup::get_binary_ruler_string(7), "");
    assert_eq!(sysprocalc::bitgroup::get_binary_ruler_string(8), "|  7:0  |");
}

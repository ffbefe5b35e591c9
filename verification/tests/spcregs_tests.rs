use sysprocalc::spcregs::bit_range::{BitRange, BitRangeKind, BitSpan, ByteOrder};
use sysprocalc::spcregs::register::{Register, RegisterError, MAX_BIT_COUNT};
use sysprocalc::spcregs::register_descriptor::{BitRangeElement, RegisterDescriptor, RegisterDescriptorError};
use sysprocalc::spcregs::register_map::RegisterMap;
use sysprocalc::spcregs::registers::{x86_cpu_efer, Registers};
use sysprocalc::spcregs::utils::{get_binary_ruler_string, get_binary_string};
use sysprocalc::spcregs::x86::efer;

fn range(first: u16, last: u16, name: &str, short: &str, long: &str) -> BitRange {
    BitRange::new(
        BitSpan::new(first, last),
        BitRangeKind::Normal,
        true,
        String::from(name),
        String::from(short),
        String::from(long),
    )
}

fn descriptor(
    arch: &str,
    device: &str,
    name: &str,
    desc: &str,
    ranges: Vec<BitRange>,
) -> Result<RegisterDescriptor, RegisterDescriptorError> {
    RegisterDescriptor::new(
        String::from(arch),
        String::from(device),
        String::from(name),
        String::from(desc),
        u64::BITS as usize,
        ByteOrder::LittleEndian,
        ranges,
    )
}

#[test]
fn test_valid_register_descriptor() {
    let res = descriptor(
        "x86",
        "cpu",
        "generic",
        "description",
        vec![
            range(0, 0, "Gen 0", "Generic 0", "Generic Bit 0"),
            range(8, 8, "Gen 1", "Generic 1", "Generic Bit 1"),
        ],
    );
    assert!(res.is_ok());
}

#[test]
fn test_invalid_register_descriptor() {
    // Overlapping bit ranges (0..5) and (5..7)
    let res = descriptor(
        "x86",
        "cpu",
        "generic",
        "description",
        vec![range(0, 5, "Inv 0", "Inv 0", "Inv Bit 0"), range(5, 7, "Inv 1", "Inv 1", "Inv Bit 1")],
    );
    assert_eq!(res.unwrap_err(), RegisterDescriptorError::OverlappingBitRange);

    // Overlapping bit ranges (63..63) and (32..63)
    let res = descriptor(
        "x86",
        "cpu",
        "generic",
        "description",
        vec![range(63, 63, "Inv 1", "Inv 1", "Inv Bit 1"), range(32, 63, "Inv 0", "Inv 0", "Inv Bit 0")],
    );
    assert_eq!(res.unwrap_err(), RegisterDescriptorError::OverlappingBitRange);

    // Invalid bit range (1..0)
    let res = descriptor("x86", "cpu", "generic", "description", vec![range(1, 0, "Inv 0", "Inv 0", "Inv Bit 0")]);
    assert_eq!(res.unwrap_err(), RegisterDescriptorError::InvalidBitRange);

    // Invalid bit range (0..MAX_BIT_COUNT)
    let res = descriptor(
        "x86",
        "cpu",
        "generic",
        "description",
        vec![range(0, MAX_BIT_COUNT as u16, "Inv 0", "Inv 0", "Inv Bit 0")],
    );
    assert_eq!(res.unwrap_err(), RegisterDescriptorError::InvalidBitRange);

    // Invalid bit range (bit_count+1..bit_count+2)
    let res = descriptor("x86", "cpu", "generic", "description", vec![range(64, 65, "Inv 0", "Inv 0", "Inv Bit 0")]);
    assert_eq!(res.unwrap_err(), RegisterDescriptorError::InvalidBitRange);

    // Invalid bit range (bit_count+1..0)
    let res = descriptor("x86", "cpu", "generic", "description", vec![range(64, 0, "Inv 0", "Inv 0", "Inv Bit 0")]);
    assert_eq!(res.unwrap_err(), RegisterDescriptorError::InvalidBitRange);

    // Invalid bit range order
    let res = descriptor(
        "x86",
        "cpu",
        "generic",
        "description",
        vec![range(2, 63, "Inv 0", "Inv 0", "Inv Bit 0"), range(0, 1, "Inv 0", "Inv 0", "Inv Bit 0")],
    );
    assert_eq!(res.unwrap_err(), RegisterDescriptorError::InvalidBitRangeOrder);

    // Invalid bit range order
    let res = descriptor(
        "x86",
        "cpu",
        "generic",
        "description",
        vec![
            range(0, 0, "Inv 0", "Inv 0", "Inv Bit 0"),
            range(33, 63, "Inv 0", "Inv 0", "Inv Bit 0"),
            range(1, 32, "Inv 0", "Inv 0", "Inv Bit 0"),
        ],
    );
    assert_eq!(res.unwrap_err(), RegisterDescriptorError::InvalidBitRangeOrder);

    // Missing bit range
    let res = descriptor("x86", "cpu", "generic", "description", vec![]);
    assert_eq!(res.unwrap_err(), RegisterDescriptorError::MissingBitRanges);

    // Missing arch
    let res = descriptor("", "cpu", "generic", "description", vec![range(0, 5, "Inv 0", "Inv 0", "Inv Bit 0")]);
    assert_eq!(res.unwrap_err(), RegisterDescriptorError::MissingArch);

    // Missing device
    let res = descriptor("x86", "", "generic", "description", vec![range(0, 5, "Inv 0", "Inv 0", "Inv Bit 0")]);
    assert_eq!(res.unwrap_err(), RegisterDescriptorError::MissingDevice);

    // Missing name
    let res = descriptor("x86", "cpu", "", "description", vec![range(0, 5, "Inv 0", "Inv 0", "Inv Bit 0")]);
    assert_eq!(res.unwrap_err(), RegisterDescriptorError::MissingName);

    // Missing description
    let res = descriptor("x86", "cpu", "generic", "", vec![range(0, 5, "Inv 0", "Inv 0", "Inv Bit 0")]);
    assert_eq!(res.unwrap_err(), RegisterDescriptorError::MissingDescription);
}

#[test]
fn x86_test_x86_cpu_efer() {
    let bits = Vec::from([
        range(0, 0, "SCE", "SC Extensions", "System Call Extensions."),
        range(8, 8, "LME", "LM Enable", "Long Mode Enable."),
        range(10, 10, "LMA", "LM Active", "Long Mode Active."),
        range(11, 11, "NXE", "NX Enable", "No-Execute Enable."),
        range(12, 12, "SVME", "SVM Enable", "Secure Virtual Machine Enable (AMD)."),
        range(13, 13, "LMSLE", "LMSL Enable", "Long Mode Segment Limit Enable (AMD)."),
        range(14, 14, "FFXSR", "Fast FXSAVE/FXRSTOR", "Fast FXSAVE/FXRSTOR support."),
    ]);
    let efer = efer();
    assert_eq!(efer.arch(), "x86");
    assert_eq!(efer.device(), "cpu");
    assert_eq!(efer.name(), "efer");
    assert_eq!(efer.description(), "Extended Feature Register");
    assert_eq!(efer.bit_count(), 32);
    assert_eq!(efer.byte_order(), ByteOrder::LittleEndian);
    assert_eq!(efer.bit_ranges(), &bits);
}

#[test]
fn cpu_x86_registers_test_x86_cpu_efer() {
    let bits = Vec::from([
        range(0, 0, "SCE", "SC Extensions", "System Call Extensions"),
        range(8, 8, "LME", "LM Enable", "Long Mode Enable"),
        range(10, 10, "LMA", "LM Active", "Long Mode Active"),
        range(11, 11, "NXE", "NX Enable", "No-Execute Enable"),
        range(12, 12, "SVME", "SVM Enable", "Secure Virtual Machine Enable (AMD)"),
        range(13, 13, "LMSLE", "LMSL Enable", "Long Mode Segment Limit Enable (AMD)"),
        range(14, 14, "FFXSR", "Fast FXSAVE/FXRSTOR", "Fast FXSAVE/FXRSTOR support"),
    ]);
    let efer = x86_cpu_efer();
    assert_eq!(efer.arch(), "X86");
    assert_eq!(efer.device(), "CPU");
    assert_eq!(efer.name(), "EFER");
    assert_eq!(efer.description(), "Extended Feature Register");
    assert_eq!(efer.bit_count(), 64);
    assert_eq!(efer.byte_order(), ByteOrder::LittleEndian);
    assert_eq!(efer.bit_ranges(), &bits);
}

#[test]
fn register_map_holds_the_x86_registers() {
    let mut map = RegisterMap::new();
    assert_eq!(map.len(), 3);
    assert!(!map.is_empty());
    assert_eq!(map.get("cr0").unwrap().bit_ranges().len(), 11);
    assert_eq!(map.get("cr4").unwrap().bit_ranges().len(), 26);
    assert_eq!(map.get("efer").unwrap().name(), "efer");
    assert!(map.get("cr3").is_none());
    let replaced = map.insert("cr0", x86_cpu_efer());
    assert_eq!(replaced.unwrap().name(), "cr0");
    assert_eq!(map.len(), 3);
    assert_eq!(map.get("cr0").unwrap().name(), "EFER");
    assert!(map.insert("efer64", x86_cpu_efer()).is_none());
    assert_eq!(map.len(), 4);
    let default_map = RegisterMap::default();
    assert_eq!(default_map.len(), 3);
}

#[test]
fn registers_start_with_the_efer() {
    let mut regs = Registers::new();
    let old = regs.insert("EFER", efer());
    assert_eq!(old.unwrap().bit_count(), 64);
    assert!(regs.insert("cr0", efer()).is_none());
}

#[test]
fn register_needs_a_wide_enough_word() {
    assert_eq!(Register::<u32>::new(x86_cpu_efer()).err(), Some(RegisterError::InvalidBitCount));
    assert!(Register::<u64>::new(x86_cpu_efer()).is_ok());
    assert!(Register::<u32>::new(efer()).is_ok());
    assert!(Register::<u16>::new(efer()).is_err());
}

#[test]
fn register_descriptor_columns() {
    let efer = efer();
    assert_eq!(efer.column_width(BitRangeElement::Bits), 2);
    assert_eq!(efer.column_width(BitRangeElement::Name), 5);
    assert_eq!(efer.column_width(BitRangeElement::Short), 19);
    assert_eq!(efer.column_width(BitRangeElement::Long), 37);
    assert!(efer.has_bit(0));
    assert!(!efer.has_bit(1));
    assert!(efer.has_bit(14));
    let wide = descriptor(
        "x86",
        "cpu",
        "wide",
        "A wide register",
        vec![range(0, 3, "Low", "Low nibble", "The low nibble"), range(4, 4, "B4", "Bit 4", "Bit four")],
    )
    .unwrap();
    assert_eq!(wide.column_width(BitRangeElement::Bits), 5);
}

#[test]
fn register_descriptor_text() {
    let d = descriptor(
        "x86",
        "cpu",
        "small",
        "A small register",
        vec![range(0, 3, "Low", "Low nibble", "The low nibble"), range(4, 4, "B4", "Bit 4", "Bit four")],
    )
    .unwrap();
    let expected = "    4   B4  Bit 4       Bit four\n  3:0  Low  Low nibble  The low nibble\n";
    assert_eq!(d.to_text(), expected);
}

#[test]
fn register_diagram_text() {
    let d = RegisterDescriptor::new(
        String::from("x86"),
        String::from("cpu"),
        String::from("tiny"),
        String::from("A tiny register"),
        8,
        ByteOrder::LittleEndian,
        vec![range(0, 0, "A", "Bit A", "Bit A"), range(4, 5, "BC", "Bits B C", "Bits B C")],
    )
    .unwrap();
    let mut reg: Register<u8> = Register::new(d).unwrap();
    assert_eq!(reg.to_text(true), reg.get_descriptor().to_text());
    reg.set_value(0b0001_0001);
    let expected = " 0001 0001\n   ||    | \n   ||    +-- A  (    0) *\n   ++------- BC (    4) *\n";
    assert_eq!(reg.to_text(true), expected);
    reg.clear_value();
    assert_eq!(reg.to_text(false), reg.get_descriptor().to_text());
}

#[test]
fn binary_strings() {
    assert_eq!(get_binary_string(0, None), "0");
    assert_eq!(get_binary_string(5, None), "101");
    assert_eq!(get_binary_string(0x1234, None), "1 0010 0011 0100");
    assert_eq!(get_binary_string(5, Some(8)), "0000 0101");
    assert_eq!(get_binary_string(5, Some(0)), "1");
    assert_eq!(get_binary_string(5, Some(65)), "101");
    assert_eq!(get_binary_string(u64::MAX, None).len(), 64 + 15);
}

#[test]
fn binary_rulers() {
    assert_eq!(get_binary_ruler_string(0), "");
    assert_eq!(get_binary_ruler_string(8), "|  7:0  |");
    assert_eq!(get_binary_ruler_string(10), "   |  7:0  |");
    assert_eq!(get_binary_ruler_string(16), "| 15:8  | |  7:0  |");
    assert_eq!(
        get_binary_ruler_string(64),
        "| 63:56 | | 55:48 | | 47:40 | | 39:32 | | 31:24 | | 23:16 | | 15:8  | |  7:0  |"
    );
    for bits in 8..=64u8 {
        let value = u64::MAX >> (64 - bits as u32);
        assert_eq!(get_binary_ruler_string(bits).len(), get_binary_string(value, None).len());
    }
}

#[test]
fn efer_register_diagram() {
    let mut reg: Register<u32> = Register::new(efer()).unwrap();
    reg.set_value(0xd01);
    let expected = " 0000 0000 0000 0000 0000 1101 0000 0001\n                      ||| || |         | \n                      ||| || |         +-- SCE   ( 0) *\n                      ||| || +------------ LME   ( 8) *\n                      ||| |+-------------- LMA   (10) *\n                      ||| +--------------- NXE   (11) *\n                      ||+----------------- SVME  (12)\n                      |+------------------ LMSLE (13)\n                      +------------------- FFXSR (14)\n";
    assert_eq!(reg.to_text(true), expected);
    let boxed = reg.to_text(false);
    assert_eq!(boxed.lines().count(), 9);
    assert!(boxed.contains("\u{2514}\u{2500}\u{2500} SCE   ( 0) *"));
}

#[test]
fn ruler_lines_up_under_binary_string() {
    for bits in 0..8u8 {
        assert_eq!(get_binary_ruler_string(bits), "");
    }
    for bits in 8..=64u8 {
        let s = get_binary_ruler_string(bits);
        let value = u64::MAX >> (64 - bits as u32);
        assert_eq!(s.len(), get_binary_string(value, None).len());
        assert!(s.ends_with("|  7:0  |"));
        assert_eq!(s.matches(':').count(), (bits / 8) as usize);
        assert_eq!(s.starts_with(' '), bits % 8 != 0);
    }
}

#[test]
fn register_diagram_lines() {
    let value: u64 = 0xd01;
    let mut reg: Register<u32> = Register::new(efer()).unwrap();
    reg.set_value(value as u32);
    let text = reg.to_text(true);
    let lines: Vec<&str> = text.lines().collect();
    assert_eq!(lines[0], format!(" {}", get_binary_string(value, Some(32))));
    // Names start at column 4 + n + (n - 1) / 4 of their line.
    let column = 4 + 32 + 31 / 4;
    let ranges = reg.get_descriptor().bit_ranges();
    assert_eq!(lines.len(), 2 + ranges.len());
    for (k, r) in ranges.iter().enumerate() {
        let line = lines[k + 2];
        assert_eq!(&line[column..column + r.name.len()], r.name.as_str());
        assert_eq!(line.ends_with(" *"), (value >> r.span.first) & 1 == 1);
    }
}

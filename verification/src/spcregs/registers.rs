//! Registers by name, starting with the 64-bit x86 extended feature
//! register.

use vstd::prelude::*;

use crate::spcregs::bit_range::{BitRangeKind, BitSpan, ByteOrder};
use crate::spcregs::named_table::NamedTable;
use crate::spcregs::register_descriptor::{describe, describes, RegisterDescriptor};

verus! {

/// The extended feature register of x86 CPUs, described as a 64-bit register.
pub fn x86_cpu_efer() -> (r: RegisterDescriptor)
    ensures
        describes(r, "X86"@, "CPU"@, "EFER"@, "Extended Feature Register"@, 64, rows_x86_cpu_efer()),
{
    let rows: [(u16, u16, &str, &str, &str); 7] = [
        (0, 0, "SCE", "SC Extensions", "System Call Extensions"),
        (8, 8, "LME", "LM Enable", "Long Mode Enable"),
        (10, 10, "LMA", "LM Active", "Long Mode Active"),
        (11, 11, "NXE", "NX Enable", "No-Execute Enable"),
        (12, 12, "SVME", "SVM Enable", "Secure Virtual Machine Enable (AMD)"),
        (13, 13, "LMSLE", "LMSL Enable", "Long Mode Segment Limit Enable (AMD)"),
        (14, 14, "FFXSR", "Fast FXSAVE/FXRSTOR", "Fast FXSAVE/FXRSTOR support"),
    ];
    proof {
        reveal_strlit("CPU");
        reveal_strlit("EFER");
        reveal_strlit("Extended Feature Register");
        reveal_strlit("FFXSR");
        reveal_strlit("Fast FXSAVE/FXRSTOR");
        reveal_strlit("LM Active");
        reveal_strlit("LM Enable");
        reveal_strlit("LMA");
        reveal_strlit("LME");
        reveal_strlit("LMSL Enable");
        reveal_strlit("LMSLE");
        reveal_strlit("NX Enable");
        reveal_strlit("NXE");
        reveal_strlit("SC Extensions");
        reveal_strlit("SCE");
        reveal_strlit("SVM Enable");
        reveal_strlit("SVME");
        reveal_strlit("X86");
        assert(rows@ =~= seq![
            (0u16, 0u16, "SCE", "SC Extensions", "System Call Extensions"),
            (8u16, 8u16, "LME", "LM Enable", "Long Mode Enable"),
            (10u16, 10u16, "LMA", "LM Active", "Long Mode Active"),
            (11u16, 11u16, "NXE", "NX Enable", "No-Execute Enable"),
            (12u16, 12u16, "SVME", "SVM Enable", "Secure Virtual Machine Enable (AMD)"),
            (13u16, 13u16, "LMSLE", "LMSL Enable", "Long Mode Segment Limit Enable (AMD)"),
            (14u16, 14u16, "FFXSR", "Fast FXSAVE/FXRSTOR", "Fast FXSAVE/FXRSTOR support"),
        ]);
    }
    let r = describe("X86", "CPU", "EFER", "Extended Feature Register", 64, rows.as_slice());
    proof {
        assert forall|i: int| 0 <= i < 7 implies #[trigger] rows_x86_cpu_efer()[i] == (BitSpan { first: rows@[i].0, last: rows@[i].1 }, rows@[i].2@, rows@[i].3@, rows@[i].4@) by {}
    }
    r
}

/// The bit ranges of `x86_cpu_efer`: span, name, short and long description.
pub open spec fn rows_x86_cpu_efer() -> Seq<(BitSpan, Seq<char>, Seq<char>, Seq<char>)> {
    seq![
        (BitSpan { first: 0, last: 0 }, "SCE"@, "SC Extensions"@, "System Call Extensions"@),
        (BitSpan { first: 8, last: 8 }, "LME"@, "LM Enable"@, "Long Mode Enable"@),
        (BitSpan { first: 10, last: 10 }, "LMA"@, "LM Active"@, "Long Mode Active"@),
        (BitSpan { first: 11, last: 11 }, "NXE"@, "NX Enable"@, "No-Execute Enable"@),
        (BitSpan { first: 12, last: 12 }, "SVME"@, "SVM Enable"@, "Secure Virtual Machine Enable (AMD)"@),
        (BitSpan { first: 13, last: 13 }, "LMSLE"@, "LMSL Enable"@, "Long Mode Segment Limit Enable (AMD)"@),
        (BitSpan { first: 14, last: 14 }, "FFXSR"@, "Fast FXSAVE/FXRSTOR"@, "Fast FXSAVE/FXRSTOR support"@),
    ]
}

/// The 64-bit extended feature register (`EFER`), as described: 64 bits whose ranges are, in order,
/// SCE 0, LME 8, LMA 10, NXE 11, SVME 12, LMSLE 13, FFXSR 14, each with the short and long
/// description below.
pub proof fn lemma_x86_cpu_efer_layout(d: RegisterDescriptor)
    requires
        describes(d, "X86"@, "CPU"@, "EFER"@, "Extended Feature Register"@, 64, rows_x86_cpu_efer()),
    ensures
        d.spec_bit_count() == 64,
        d.spec_bit_ranges().len() == 7,
        d.spec_bit_ranges()[0].span == (BitSpan { first: 0, last: 0 }) && d.spec_bit_ranges()[0].name@ == "SCE"@
            && d.spec_bit_ranges()[0].short@ == "SC Extensions"@ && d.spec_bit_ranges()[0].long@ == "System Call Extensions"@,
        d.spec_bit_ranges()[1].span == (BitSpan { first: 8, last: 8 }) && d.spec_bit_ranges()[1].name@ == "LME"@
            && d.spec_bit_ranges()[1].short@ == "LM Enable"@ && d.spec_bit_ranges()[1].long@ == "Long Mode Enable"@,
        d.spec_bit_ranges()[2].span == (BitSpan { first: 10, last: 10 }) && d.spec_bit_ranges()[2].name@ == "LMA"@
            && d.spec_bit_ranges()[2].short@ == "LM Active"@ && d.spec_bit_ranges()[2].long@ == "Long Mode Active"@,
        d.spec_bit_ranges()[3].span == (BitSpan { first: 11, last: 11 }) && d.spec_bit_ranges()[3].name@ == "NXE"@
            && d.spec_bit_ranges()[3].short@ == "NX Enable"@ && d.spec_bit_ranges()[3].long@ == "No-Execute Enable"@,
        d.spec_bit_ranges()[4].span == (BitSpan { first: 12, last: 12 }) && d.spec_bit_ranges()[4].name@ == "SVME"@
            && d.spec_bit_ranges()[4].short@ == "SVM Enable"@ && d.spec_bit_ranges()[4].long@ == "Secure Virtual Machine Enable (AMD)"@,
        d.spec_bit_ranges()[5].span == (BitSpan { first: 13, last: 13 }) && d.spec_bit_ranges()[5].name@ == "LMSLE"@
            && d.spec_bit_ranges()[5].short@ == "LMSL Enable"@ && d.spec_bit_ranges()[5].long@ == "Long Mode Segment Limit Enable (AMD)"@,
        d.spec_bit_ranges()[6].span == (BitSpan { first: 14, last: 14 }) && d.spec_bit_ranges()[6].name@ == "FFXSR"@
            && d.spec_bit_ranges()[6].short@ == "Fast FXSAVE/FXRSTOR"@ && d.spec_bit_ranges()[6].long@ == "Fast FXSAVE/FXRSTOR support"@,
{
}

/// Register descriptors looked up by name.
pub struct Registers {
    registers: NamedTable<RegisterDescriptor>,
}

impl View for Registers {
    type V = Map<Seq<char>, RegisterDescriptor>;

    closed spec fn view(&self) -> Map<Seq<char>, RegisterDescriptor> {
        self.registers@
    }
}

impl Registers {
    /// The x86 extended feature register under its name.
    pub fn new() -> (r: Self)
        ensures
            r@.dom() == set!["EFER"@],
            describes(
                r@["EFER"@],
                "X86"@,
                "CPU"@,
                "EFER"@,
                "Extended Feature Register"@,
                64,
                rows_x86_cpu_efer(),
            ),
    {
        let mut registers = NamedTable::new();
        let desc = x86_cpu_efer();
        let key = String::from_str(desc.name());
        registers.insert(key.as_str(), desc);
        proof {
            assert(registers@.dom() =~= set!["EFER"@]);
        }
        Self { registers }
    }

    /// Sets the descriptor of `name`, and gives back the one it replaced.
    pub fn insert(&mut self, name: &str, reg: RegisterDescriptor) -> (r: Option<RegisterDescriptor>)
        ensures
            final(self)@ == old(self)@.insert(name@, reg),
            r == (if old(self)@.contains_key(name@) {
                Some(old(self)@[name@])
            } else {
                None::<RegisterDescriptor>
            }),
    {
        self.registers.insert(name, reg)
    }
}

} // verus!

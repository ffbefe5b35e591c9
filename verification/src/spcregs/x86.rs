//! The x86 CPU registers the library describes.

use vstd::prelude::*;

use crate::spcregs::bit_range::{BitRangeKind, BitSpan, ByteOrder};
use crate::spcregs::register_descriptor::{describe, describes, RegisterDescriptor};

verus! {

/// Control register 0 of x86 CPUs.
pub fn cr0() -> (r: RegisterDescriptor)
    ensures
        describes(r, "x86"@, "cpu"@, "cr0"@, "Control Register 0"@, 32, rows_cr0()),
{
    let rows: [(u16, u16, &str, &str, &str); 11] = [
        (0, 0, "PE", "Protected Mode Enable", "Protected Mode Enable."),
        (1, 1, "MP", "Monitor Co-Processor", "Controls interaction of WAIT/FWAIT instructions with CR0.TS."),
        (2, 2, "EM", "Emulation", "If set, no x87 FPU emulation."),
        (3, 3, "TS", "Task Switched", "If set, save FPU context on FPU instruction after a task switch."),
        (4, 4, "ET", "Extension Type", "On 386, specified if math coprocessor was an 80287 or 80387."),
        (5, 5, "NE", "Numeric Error", "If set, enables x87 FPU error reporting."),
        (16, 16, "WP", "Write Protect", "Controls whether the CPU can write to pages marked read-only."),
        (18, 18, "AM", "Alignment Mask", "If set, enables alignment check for CPL=3 when EFLAGS.AC is set."),
        (29, 29, "NW", "Not Write-Through", "Controls write-back or write-through for writes that hit the cache."),
        (30, 30, "CD", "Cache Disable", "If set, disables memory caching."),
        (31, 31, "PG", "Paging", "If set, enables memory paging."),
    ];
    proof {
        reveal_strlit("AM");
        reveal_strlit("Alignment Mask");
        reveal_strlit("CD");
        reveal_strlit("Cache Disable");
        reveal_strlit("Control Register 0");
        reveal_strlit("EM");
        reveal_strlit("ET");
        reveal_strlit("Emulation");
        reveal_strlit("Extension Type");
        reveal_strlit("MP");
        reveal_strlit("Monitor Co-Processor");
        reveal_strlit("NE");
        reveal_strlit("NW");
        reveal_strlit("Not Write-Through");
        reveal_strlit("Numeric Error");
        reveal_strlit("PE");
        reveal_strlit("PG");
        reveal_strlit("Paging");
        reveal_strlit("Protected Mode Enable");
        reveal_strlit("TS");
        reveal_strlit("Task Switched");
        reveal_strlit("WP");
        reveal_strlit("Write Protect");
        reveal_strlit("cpu");
        reveal_strlit("cr0");
        reveal_strlit("x86");
        assert(rows@ =~= seq![
            (0u16, 0u16, "PE", "Protected Mode Enable", "Protected Mode Enable."),
            (1u16, 1u16, "MP", "Monitor Co-Processor", "Controls interaction of WAIT/FWAIT instructions with CR0.TS."),
            (2u16, 2u16, "EM", "Emulation", "If set, no x87 FPU emulation."),
            (3u16, 3u16, "TS", "Task Switched", "If set, save FPU context on FPU instruction after a task switch."),
            (4u16, 4u16, "ET", "Extension Type", "On 386, specified if math coprocessor was an 80287 or 80387."),
            (5u16, 5u16, "NE", "Numeric Error", "If set, enables x87 FPU error reporting."),
            (16u16, 16u16, "WP", "Write Protect", "Controls whether the CPU can write to pages marked read-only."),
            (18u16, 18u16, "AM", "Alignment Mask", "If set, enables alignment check for CPL=3 when EFLAGS.AC is set."),
            (29u16, 29u16, "NW", "Not Write-Through", "Controls write-back or write-through for writes that hit the cache."),
            (30u16, 30u16, "CD", "Cache Disable", "If set, disables memory caching."),
            (31u16, 31u16, "PG", "Paging", "If set, enables memory paging."),
        ]);
    }
    let r = describe("x86", "cpu", "cr0", "Control Register 0", 32, rows.as_slice());
    proof {
        assert forall|i: int| 0 <= i < 11 implies #[trigger] rows_cr0()[i] == (BitSpan { first: rows@[i].0, last: rows@[i].1 }, rows@[i].2@, rows@[i].3@, rows@[i].4@) by {}
    }
    r
}

/// The bit ranges of `cr0`: span, name, short and long description.
pub open spec fn rows_cr0() -> Seq<(BitSpan, Seq<char>, Seq<char>, Seq<char>)> {
    seq![
        (BitSpan { first: 0, last: 0 }, "PE"@, "Protected Mode Enable"@, "Protected Mode Enable."@),
        (BitSpan { first: 1, last: 1 }, "MP"@, "Monitor Co-Processor"@, "Controls interaction of WAIT/FWAIT instructions with CR0.TS."@),
        (BitSpan { first: 2, last: 2 }, "EM"@, "Emulation"@, "If set, no x87 FPU emulation."@),
        (BitSpan { first: 3, last: 3 }, "TS"@, "Task Switched"@, "If set, save FPU context on FPU instruction after a task switch."@),
        (BitSpan { first: 4, last: 4 }, "ET"@, "Extension Type"@, "On 386, specified if math coprocessor was an 80287 or 80387."@),
        (BitSpan { first: 5, last: 5 }, "NE"@, "Numeric Error"@, "If set, enables x87 FPU error reporting."@),
        (BitSpan { first: 16, last: 16 }, "WP"@, "Write Protect"@, "Controls whether the CPU can write to pages marked read-only."@),
        (BitSpan { first: 18, last: 18 }, "AM"@, "Alignment Mask"@, "If set, enables alignment check for CPL=3 when EFLAGS.AC is set."@),
        (BitSpan { first: 29, last: 29 }, "NW"@, "Not Write-Through"@, "Controls write-back or write-through for writes that hit the cache."@),
        (BitSpan { first: 30, last: 30 }, "CD"@, "Cache Disable"@, "If set, disables memory caching."@),
        (BitSpan { first: 31, last: 31 }, "PG"@, "Paging"@, "If set, enables memory paging."@),
    ]
}

/// The control register 0 (`cr0`), as described: 32 bits whose ranges are, in order, PE 0, MP 1, EM
/// 2, TS 3, ET 4, NE 5, WP 16, AM 18, NW 29, CD 30, PG 31, each with the short and long description
/// below.
pub proof fn lemma_cr0_layout(d: RegisterDescriptor)
    requires
        describes(d, "x86"@, "cpu"@, "cr0"@, "Control Register 0"@, 32, rows_cr0()),
    ensures
        d.spec_bit_count() == 32,
        d.spec_bit_ranges().len() == 11,
        d.spec_bit_ranges()[0].span == (BitSpan { first: 0, last: 0 }) && d.spec_bit_ranges()[0].name@ == "PE"@
            && d.spec_bit_ranges()[0].short@ == "Protected Mode Enable"@ && d.spec_bit_ranges()[0].long@ == "Protected Mode Enable."@,
        d.spec_bit_ranges()[1].span == (BitSpan { first: 1, last: 1 }) && d.spec_bit_ranges()[1].name@ == "MP"@
            && d.spec_bit_ranges()[1].short@ == "Monitor Co-Processor"@ && d.spec_bit_ranges()[1].long@ == "Controls interaction of WAIT/FWAIT instructions with CR0.TS."@,
        d.spec_bit_ranges()[2].span == (BitSpan { first: 2, last: 2 }) && d.spec_bit_ranges()[2].name@ == "EM"@
            && d.spec_bit_ranges()[2].short@ == "Emulation"@ && d.spec_bit_ranges()[2].long@ == "If set, no x87 FPU emulation."@,
        d.spec_bit_ranges()[3].span == (BitSpan { first: 3, last: 3 }) && d.spec_bit_ranges()[3].name@ == "TS"@
            && d.spec_bit_ranges()[3].short@ == "Task Switched"@ && d.spec_bit_ranges()[3].long@ == "If set, save FPU context on FPU instruction after a task switch."@,
        d.spec_bit_ranges()[4].span == (BitSpan { first: 4, last: 4 }) && d.spec_bit_ranges()[4].name@ == "ET"@
            && d.spec_bit_ranges()[4].short@ == "Extension Type"@ && d.spec_bit_ranges()[4].long@ == "On 386, specified if math coprocessor was an 80287 or 80387."@,
        d.spec_bit_ranges()[5].span == (BitSpan { first: 5, last: 5 }) && d.spec_bit_ranges()[5].name@ == "NE"@
            && d.spec_bit_ranges()[5].short@ == "Numeric Error"@ && d.spec_bit_ranges()[5].long@ == "If set, enables x87 FPU error reporting."@,
        d.spec_bit_ranges()[6].span == (BitSpan { first: 16, last: 16 }) && d.spec_bit_ranges()[6].name@ == "WP"@
            && d.spec_bit_ranges()[6].short@ == "Write Protect"@ && d.spec_bit_ranges()[6].long@ == "Controls whether the CPU can write to pages marked read-only."@,
        d.spec_bit_ranges()[7].span == (BitSpan { first: 18, last: 18 }) && d.spec_bit_ranges()[7].name@ == "AM"@
            && d.spec_bit_ranges()[7].short@ == "Alignment Mask"@ && d.spec_bit_ranges()[7].long@ == "If set, enables alignment check for CPL=3 when EFLAGS.AC is set."@,
        d.spec_bit_ranges()[8].span == (BitSpan { first: 29, last: 29 }) && d.spec_bit_ranges()[8].name@ == "NW"@
            && d.spec_bit_ranges()[8].short@ == "Not Write-Through"@ && d.spec_bit_ranges()[8].long@ == "Controls write-back or write-through for writes that hit the cache."@,
        d.spec_bit_ranges()[9].span == (BitSpan { first: 30, last: 30 }) && d.spec_bit_ranges()[9].name@ == "CD"@
            && d.spec_bit_ranges()[9].short@ == "Cache Disable"@ && d.spec_bit_ranges()[9].long@ == "If set, disables memory caching."@,
        d.spec_bit_ranges()[10].span == (BitSpan { first: 31, last: 31 }) && d.spec_bit_ranges()[10].name@ == "PG"@
            && d.spec_bit_ranges()[10].short@ == "Paging"@ && d.spec_bit_ranges()[10].long@ == "If set, enables memory paging."@,
{
}

/// Control register 4 of x86 CPUs.
pub fn cr4() -> (r: RegisterDescriptor)
    ensures
        describes(r, "x86"@, "cpu"@, "cr4"@, "Control Register 4"@, 32, rows_cr4()),
{
    let rows: [(u16, u16, &str, &str, &str); 26] = [
        (0, 0, "VME", "V86 Mode Extensions", "If set, enables virtual-interrupt flag in virtual-8086 mode."),
        (1, 1, "PVI", "Protected Mode Virtual Interrupts", "If set, enables virtual-interrupt flag in protected mode."),
        (2, 2, "TSD", "TimeStamp Disable", "If set, RDTSC can execute only in ring-0."),
        (3, 3, "DE", "Debug Extensions", "If set, enables debug register breakpoints on I/O accesses."),
        (4, 4, "PSE", "Page Size Extension", "If set, enables 4MiB pages in 32-bit paging."),
        (5, 5, "PAE", "Physical Address Extension", "If set, extends 32-bit page tables to translate 36-bit physical address."),
        (6, 6, "MCE", "Machine Check Exception", "If set, enables machine-check exceptions to occur."),
        (7, 7, "PGE", "Page Global Enable", "If set, address translation (PDE/PTE) maybe shared between address spaces."),
        (8, 8, "PCE", "Performance-Monitoring Counter Enable", "If set, RDPMC can execute in any privilege level."),
        (9, 9, "OSFXSR", "OS Support For FXSAVE/FXRSTOR", "If set, enables SSE and FXSAVE/FXRSTOR instructions."),
        (10, 10, "OSXMMXCPT", "OS Support For Unmasked SIMD Exceptions", "If set, enables unmasked SSE exceptions."),
        (11, 11, "UMIP", "User-Mode Instruction Preventiion", "If set, #GP on SGDT, SIDT, SLDT, SMSW, STR instructions when CPL > 0."),
        (12, 12, "LA57", "57-bit Linear Address", "If set, enables 5-level paging."),
        (13, 13, "VMXE", "Virtual Machine Extensions", "If set, enables VMX operation. (Intel)"),
        (14, 14, "SMXE", "Secure Virtual Machine Extensions", "If set, enables SVM operation. (AMD)"),
        (16, 16, "FSGSBASE", "FSGSBASE Enable", "If set, enables RDFSBASE, RDGSBASE, WRFSBASE, WRGSBASE instructions."),
        (17, 17, "PCIDE", "Process-Context IDs Enable", "If set, enables per-process IDs for TLB."),
        (18, 18, "OSXSAVE", "OS Support for XSAVE", "If set, enables XSAVE and related instructions."),
        (19, 19, "KL", "Key Locker Enable", "If set, enables the AES key locker instructions."),
        (20, 20, "SMEP", "Supervisor Mode Execution Prevention", "If set, code execution in a higher ring than CPL causes a fault."),
        (21, 21, "SMAP", "Supervisor Mode Access Prevention", "If set, data access in a higher ring than CPL causes a fault."),
        (22, 22, "PKE", "Protection Key Enable", "If set, enables key-based control of user-mode linear addresses and RDPKRU/WRPKRU instructions."),
        (23, 23, "CET", "Control-Flow Enforcement Technology", "If set, enables CET when CR0.WP IS SET."),
        (24, 24, "PKS", "Protection Key For Supervisor Pages", "If set, enables protection keys for supervisor pages."),
        (25, 25, "UINTR", "User Interrupts", "If set, enables user-mode interrupts."),
        (28, 28, "LAM_SUP", "Linear-Address Masking For Supervisor", "If set, enables linear-address masking for supervisor pointers."),
    ];
    proof {
        reveal_strlit("57-bit Linear Address");
        reveal_strlit("CET");
        reveal_strlit("Control Register 4");
        reveal_strlit("Control-Flow Enforcement Technology");
        reveal_strlit("DE");
        reveal_strlit("Debug Extensions");
        reveal_strlit("FSGSBASE");
        reveal_strlit("FSGSBASE Enable");
        reveal_strlit("KL");
        reveal_strlit("Key Locker Enable");
        reveal_strlit("LA57");
        reveal_strlit("LAM_SUP");
        reveal_strlit("Linear-Address Masking For Supervisor");
        reveal_strlit("MCE");
        reveal_strlit("Machine Check Exception");
        reveal_strlit("OS Support For FXSAVE/FXRSTOR");
        reveal_strlit("OS Support For Unmasked SIMD Exceptions");
        reveal_strlit("OS Support for XSAVE");
        reveal_strlit("OSFXSR");
        reveal_strlit("OSXMMXCPT");
        reveal_strlit("OSXSAVE");
        reveal_strlit("PAE");
        reveal_strlit("PCE");
        reveal_strlit("PCIDE");
        reveal_strlit("PGE");
        reveal_strlit("PKE");
        reveal_strlit("PKS");
        reveal_strlit("PSE");
        reveal_strlit("PVI");
        reveal_strlit("Page Global Enable");
        reveal_strlit("Page Size Extension");
        reveal_strlit("Performance-Monitoring Counter Enable");
        reveal_strlit("Physical Address Extension");
        reveal_strlit("Process-Context IDs Enable");
        reveal_strlit("Protected Mode Virtual Interrupts");
        reveal_strlit("Protection Key Enable");
        reveal_strlit("Protection Key For Supervisor Pages");
        reveal_strlit("SMAP");
        reveal_strlit("SMEP");
        reveal_strlit("SMXE");
        reveal_strlit("Secure Virtual Machine Extensions");
        reveal_strlit("Supervisor Mode Access Prevention");
        reveal_strlit("Supervisor Mode Execution Prevention");
        reveal_strlit("TSD");
        reveal_strlit("TimeStamp Disable");
        reveal_strlit("UINTR");
        reveal_strlit("UMIP");
        reveal_strlit("User Interrupts");
        reveal_strlit("User-Mode Instruction Preventiion");
        reveal_strlit("V86 Mode Extensions");
        reveal_strlit("VME");
        reveal_strlit("VMXE");
        reveal_strlit("Virtual Machine Extensions");
        reveal_strlit("cpu");
        reveal_strlit("cr4");
        reveal_strlit("x86");
        assert(rows@ =~= seq![
            (0u16, 0u16, "VME", "V86 Mode Extensions", "If set, enables virtual-interrupt flag in virtual-8086 mode."),
            (1u16, 1u16, "PVI", "Protected Mode Virtual Interrupts", "If set, enables virtual-interrupt flag in protected mode."),
            (2u16, 2u16, "TSD", "TimeStamp Disable", "If set, RDTSC can execute only in ring-0."),
            (3u16, 3u16, "DE", "Debug Extensions", "If set, enables debug register breakpoints on I/O accesses."),
            (4u16, 4u16, "PSE", "Page Size Extension", "If set, enables 4MiB pages in 32-bit paging."),
            (5u16, 5u16, "PAE", "Physical Address Extension", "If set, extends 32-bit page tables to translate 36-bit physical address."),
            (6u16, 6u16, "MCE", "Machine Check Exception", "If set, enables machine-check exceptions to occur."),
            (7u16, 7u16, "PGE", "Page Global Enable", "If set, address translation (PDE/PTE) maybe shared between address spaces."),
            (8u16, 8u16, "PCE", "Performance-Monitoring Counter Enable", "If set, RDPMC can execute in any privilege level."),
            (9u16, 9u16, "OSFXSR", "OS Support For FXSAVE/FXRSTOR", "If set, enables SSE and FXSAVE/FXRSTOR instructions."),
            (10u16, 10u16, "OSXMMXCPT", "OS Support For Unmasked SIMD Exceptions", "If set, enables unmasked SSE exceptions."),
            (11u16, 11u16, "UMIP", "User-Mode Instruction Preventiion", "If set, #GP on SGDT, SIDT, SLDT, SMSW, STR instructions when CPL > 0."),
            (12u16, 12u16, "LA57", "57-bit Linear Address", "If set, enables 5-level paging."),
            (13u16, 13u16, "VMXE", "Virtual Machine Extensions", "If set, enables VMX operation. (Intel)"),
            (14u16, 14u16, "SMXE", "Secure Virtual Machine Extensions", "If set, enables SVM operation. (AMD)"),
            (16u16, 16u16, "FSGSBASE", "FSGSBASE Enable", "If set, enables RDFSBASE, RDGSBASE, WRFSBASE, WRGSBASE instructions."),
            (17u16, 17u16, "PCIDE", "Process-Context IDs Enable", "If set, enables per-process IDs for TLB."),
            (18u16, 18u16, "OSXSAVE", "OS Support for XSAVE", "If set, enables XSAVE and related instructions."),
            (19u16, 19u16, "KL", "Key Locker Enable", "If set, enables the AES key locker instructions."),
            (20u16, 20u16, "SMEP", "Supervisor Mode Execution Prevention", "If set, code execution in a higher ring than CPL causes a fault."),
            (21u16, 21u16, "SMAP", "Supervisor Mode Access Prevention", "If set, data access in a higher ring than CPL causes a fault."),
            (22u16, 22u16, "PKE", "Protection Key Enable", "If set, enables key-based control of user-mode linear addresses and RDPKRU/WRPKRU instructions."),
            (23u16, 23u16, "CET", "Control-Flow Enforcement Technology", "If set, enables CET when CR0.WP IS SET."),
            (24u16, 24u16, "PKS", "Protection Key For Supervisor Pages", "If set, enables protection keys for supervisor pages."),
            (25u16, 25u16, "UINTR", "User Interrupts", "If set, enables user-mode interrupts."),
            (28u16, 28u16, "LAM_SUP", "Linear-Address Masking For Supervisor", "If set, enables linear-address masking for supervisor pointers."),
        ]);
    }
    let r = describe("x86", "cpu", "cr4", "Control Register 4", 32, rows.as_slice());
    proof {
        assert forall|i: int| 0 <= i < 26 implies #[trigger] rows_cr4()[i] == (BitSpan { first: rows@[i].0, last: rows@[i].1 }, rows@[i].2@, rows@[i].3@, rows@[i].4@) by {}
    }
    r
}

/// The bit ranges of `cr4`: span, name, short and long description.
pub open spec fn rows_cr4() -> Seq<(BitSpan, Seq<char>, Seq<char>, Seq<char>)> {
    seq![
        (BitSpan { first: 0, last: 0 }, "VME"@, "V86 Mode Extensions"@, "If set, enables virtual-interrupt flag in virtual-8086 mode."@),
        (BitSpan { first: 1, last: 1 }, "PVI"@, "Protected Mode Virtual Interrupts"@, "If set, enables virtual-interrupt flag in protected mode."@),
        (BitSpan { first: 2, last: 2 }, "TSD"@, "TimeStamp Disable"@, "If set, RDTSC can execute only in ring-0."@),
        (BitSpan { first: 3, last: 3 }, "DE"@, "Debug Extensions"@, "If set, enables debug register breakpoints on I/O accesses."@),
        (BitSpan { first: 4, last: 4 }, "PSE"@, "Page Size Extension"@, "If set, enables 4MiB pages in 32-bit paging."@),
        (BitSpan { first: 5, last: 5 }, "PAE"@, "Physical Address Extension"@, "If set, extends 32-bit page tables to translate 36-bit physical address."@),
        (BitSpan { first: 6, last: 6 }, "MCE"@, "Machine Check Exception"@, "If set, enables machine-check exceptions to occur."@),
        (BitSpan { first: 7, last: 7 }, "PGE"@, "Page Global Enable"@, "If set, address translation (PDE/PTE) maybe shared between address spaces."@),
        (BitSpan { first: 8, last: 8 }, "PCE"@, "Performance-Monitoring Counter Enable"@, "If set, RDPMC can execute in any privilege level."@),
        (BitSpan { first: 9, last: 9 }, "OSFXSR"@, "OS Support For FXSAVE/FXRSTOR"@, "If set, enables SSE and FXSAVE/FXRSTOR instructions."@),
        (BitSpan { first: 10, last: 10 }, "OSXMMXCPT"@, "OS Support For Unmasked SIMD Exceptions"@, "If set, enables unmasked SSE exceptions."@),
        (BitSpan { first: 11, last: 11 }, "UMIP"@, "User-Mode Instruction Preventiion"@, "If set, #GP on SGDT, SIDT, SLDT, SMSW, STR instructions when CPL > 0."@),
        (BitSpan { first: 12, last: 12 }, "LA57"@, "57-bit Linear Address"@, "If set, enables 5-level paging."@),
        (BitSpan { first: 13, last: 13 }, "VMXE"@, "Virtual Machine Extensions"@, "If set, enables VMX operation. (Intel)"@),
        (BitSpan { first: 14, last: 14 }, "SMXE"@, "Secure Virtual Machine Extensions"@, "If set, enables SVM operation. (AMD)"@),
        (BitSpan { first: 16, last: 16 }, "FSGSBASE"@, "FSGSBASE Enable"@, "If set, enables RDFSBASE, RDGSBASE, WRFSBASE, WRGSBASE instructions."@),
        (BitSpan { first: 17, last: 17 }, "PCIDE"@, "Process-Context IDs Enable"@, "If set, enables per-process IDs for TLB."@),
        (BitSpan { first: 18, last: 18 }, "OSXSAVE"@, "OS Support for XSAVE"@, "If set, enables XSAVE and related instructions."@),
        (BitSpan { first: 19, last: 19 }, "KL"@, "Key Locker Enable"@, "If set, enables the AES key locker instructions."@),
        (BitSpan { first: 20, last: 20 }, "SMEP"@, "Supervisor Mode Execution Prevention"@, "If set, code execution in a higher ring than CPL causes a fault."@),
        (BitSpan { first: 21, last: 21 }, "SMAP"@, "Supervisor Mode Access Prevention"@, "If set, data access in a higher ring than CPL causes a fault."@),
        (BitSpan { first: 22, last: 22 }, "PKE"@, "Protection Key Enable"@, "If set, enables key-based control of user-mode linear addresses and RDPKRU/WRPKRU instructions."@),
        (BitSpan { first: 23, last: 23 }, "CET"@, "Control-Flow Enforcement Technology"@, "If set, enables CET when CR0.WP IS SET."@),
        (BitSpan { first: 24, last: 24 }, "PKS"@, "Protection Key For Supervisor Pages"@, "If set, enables protection keys for supervisor pages."@),
        (BitSpan { first: 25, last: 25 }, "UINTR"@, "User Interrupts"@, "If set, enables user-mode interrupts."@),
        (BitSpan { first: 28, last: 28 }, "LAM_SUP"@, "Linear-Address Masking For Supervisor"@, "If set, enables linear-address masking for supervisor pointers."@),
    ]
}

/// The control register 4 (`cr4`), as described: 32 bits whose ranges are, in order, VME 0, PVI 1,
/// TSD 2, DE 3, PSE 4, PAE 5, MCE 6, PGE 7, PCE 8, OSFXSR 9, OSXMMXCPT 10, UMIP 11, LA57 12, VMXE
/// 13, SMXE 14, FSGSBASE 16, PCIDE 17, OSXSAVE 18, KL 19, SMEP 20, SMAP 21, PKE 22, CET 23, PKS 24,
/// UINTR 25, LAM_SUP 28, each with the short and long description below.
pub proof fn lemma_cr4_layout(d: RegisterDescriptor)
    requires
        describes(d, "x86"@, "cpu"@, "cr4"@, "Control Register 4"@, 32, rows_cr4()),
    ensures
        d.spec_bit_count() == 32,
        d.spec_bit_ranges().len() == 26,
        d.spec_bit_ranges()[0].span == (BitSpan { first: 0, last: 0 }) && d.spec_bit_ranges()[0].name@ == "VME"@
            && d.spec_bit_ranges()[0].short@ == "V86 Mode Extensions"@ && d.spec_bit_ranges()[0].long@ == "If set, enables virtual-interrupt flag in virtual-8086 mode."@,
        d.spec_bit_ranges()[1].span == (BitSpan { first: 1, last: 1 }) && d.spec_bit_ranges()[1].name@ == "PVI"@
            && d.spec_bit_ranges()[1].short@ == "Protected Mode Virtual Interrupts"@ && d.spec_bit_ranges()[1].long@ == "If set, enables virtual-interrupt flag in protected mode."@,
        d.spec_bit_ranges()[2].span == (BitSpan { first: 2, last: 2 }) && d.spec_bit_ranges()[2].name@ == "TSD"@
            && d.spec_bit_ranges()[2].short@ == "TimeStamp Disable"@ && d.spec_bit_ranges()[2].long@ == "If set, RDTSC can execute only in ring-0."@,
        d.spec_bit_ranges()[3].span == (BitSpan { first: 3, last: 3 }) && d.spec_bit_ranges()[3].name@ == "DE"@
            && d.spec_bit_ranges()[3].short@ == "Debug Extensions"@ && d.spec_bit_ranges()[3].long@ == "If set, enables debug register breakpoints on I/O accesses."@,
        d.spec_bit_ranges()[4].span == (BitSpan { first: 4, last: 4 }) && d.spec_bit_ranges()[4].name@ == "PSE"@
            && d.spec_bit_ranges()[4].short@ == "Page Size Extension"@ && d.spec_bit_ranges()[4].long@ == "If set, enables 4MiB pages in 32-bit paging."@,
        d.spec_bit_ranges()[5].span == (BitSpan { first: 5, last: 5 }) && d.spec_bit_ranges()[5].name@ == "PAE"@
            && d.spec_bit_ranges()[5].short@ == "Physical Address Extension"@ && d.spec_bit_ranges()[5].long@ == "If set, extends 32-bit page tables to translate 36-bit physical address."@,
        d.spec_bit_ranges()[6].span == (BitSpan { first: 6, last: 6 }) && d.spec_bit_ranges()[6].name@ == "MCE"@
            && d.spec_bit_ranges()[6].short@ == "Machine Check Exception"@ && d.spec_bit_ranges()[6].long@ == "If set, enables machine-check exceptions to occur."@,
        d.spec_bit_ranges()[7].span == (BitSpan { first: 7, last: 7 }) && d.spec_bit_ranges()[7].name@ == "PGE"@
            && d.spec_bit_ranges()[7].short@ == "Page Global Enable"@ && d.spec_bit_ranges()[7].long@ == "If set, address translation (PDE/PTE) maybe shared between address spaces."@,
        d.spec_bit_ranges()[8].span == (BitSpan { first: 8, last: 8 }) && d.spec_bit_ranges()[8].name@ == "PCE"@
            && d.spec_bit_ranges()[8].short@ == "Performance-Monitoring Counter Enable"@ && d.spec_bit_ranges()[8].long@ == "If set, RDPMC can execute in any privilege level."@,
        d.spec_bit_ranges()[9].span == (BitSpan { first: 9, last: 9 }) && d.spec_bit_ranges()[9].name@ == "OSFXSR"@
            && d.spec_bit_ranges()[9].short@ == "OS Support For FXSAVE/FXRSTOR"@ && d.spec_bit_ranges()[9].long@ == "If set, enables SSE and FXSAVE/FXRSTOR instructions."@,
        d.spec_bit_ranges()[10].span == (BitSpan { first: 10, last: 10 }) && d.spec_bit_ranges()[10].name@ == "OSXMMXCPT"@
            && d.spec_bit_ranges()[10].short@ == "OS Support For Unmasked SIMD Exceptions"@ && d.spec_bit_ranges()[10].long@ == "If set, enables unmasked SSE exceptions."@,
        d.spec_bit_ranges()[11].span == (BitSpan { first: 11, last: 11 }) && d.spec_bit_ranges()[11].name@ == "UMIP"@
            && d.spec_bit_ranges()[11].short@ == "User-Mode Instruction Preventiion"@ && d.spec_bit_ranges()[11].long@ == "If set, #GP on SGDT, SIDT, SLDT, SMSW, STR instructions when CPL > 0."@,
        d.spec_bit_ranges()[12].span == (BitSpan { first: 12, last: 12 }) && d.spec_bit_ranges()[12].name@ == "LA57"@
            && d.spec_bit_ranges()[12].short@ == "57-bit Linear Address"@ && d.spec_bit_ranges()[12].long@ == "If set, enables 5-level paging."@,
        d.spec_bit_ranges()[13].span == (BitSpan { first: 13, last: 13 }) && d.spec_bit_ranges()[13].name@ == "VMXE"@
            && d.spec_bit_ranges()[13].short@ == "Virtual Machine Extensions"@ && d.spec_bit_ranges()[13].long@ == "If set, enables VMX operation. (Intel)"@,
        d.spec_bit_ranges()[14].span == (BitSpan { first: 14, last: 14 }) && d.spec_bit_ranges()[14].name@ == "SMXE"@
            && d.spec_bit_ranges()[14].short@ == "Secure Virtual Machine Extensions"@ && d.spec_bit_ranges()[14].long@ == "If set, enables SVM operation. (AMD)"@,
        d.spec_bit_ranges()[15].span == (BitSpan { first: 16, last: 16 }) && d.spec_bit_ranges()[15].name@ == "FSGSBASE"@
            && d.spec_bit_ranges()[15].short@ == "FSGSBASE Enable"@ && d.spec_bit_ranges()[15].long@ == "If set, enables RDFSBASE, RDGSBASE, WRFSBASE, WRGSBASE instructions."@,
        d.spec_bit_ranges()[16].span == (BitSpan { first: 17, last: 17 }) && d.spec_bit_ranges()[16].name@ == "PCIDE"@
            && d.spec_bit_ranges()[16].short@ == "Process-Context IDs Enable"@ && d.spec_bit_ranges()[16].long@ == "If set, enables per-process IDs for TLB."@,
        d.spec_bit_ranges()[17].span == (BitSpan { first: 18, last: 18 }) && d.spec_bit_ranges()[17].name@ == "OSXSAVE"@
            && d.spec_bit_ranges()[17].short@ == "OS Support for XSAVE"@ && d.spec_bit_ranges()[17].long@ == "If set, enables XSAVE and related instructions."@,
        d.spec_bit_ranges()[18].span == (BitSpan { first: 19, last: 19 }) && d.spec_bit_ranges()[18].name@ == "KL"@
            && d.spec_bit_ranges()[18].short@ == "Key Locker Enable"@ && d.spec_bit_ranges()[18].long@ == "If set, enables the AES key locker instructions."@,
        d.spec_bit_ranges()[19].span == (BitSpan { first: 20, last: 20 }) && d.spec_bit_ranges()[19].name@ == "SMEP"@
            && d.spec_bit_ranges()[19].short@ == "Supervisor Mode Execution Prevention"@ && d.spec_bit_ranges()[19].long@ == "If set, code execution in a higher ring than CPL causes a fault."@,
        d.spec_bit_ranges()[20].span == (BitSpan { first: 21, last: 21 }) && d.spec_bit_ranges()[20].name@ == "SMAP"@
            && d.spec_bit_ranges()[20].short@ == "Supervisor Mode Access Prevention"@ && d.spec_bit_ranges()[20].long@ == "If set, data access in a higher ring than CPL causes a fault."@,
        d.spec_bit_ranges()[21].span == (BitSpan { first: 22, last: 22 }) && d.spec_bit_ranges()[21].name@ == "PKE"@
            && d.spec_bit_ranges()[21].short@ == "Protection Key Enable"@ && d.spec_bit_ranges()[21].long@ == "If set, enables key-based control of user-mode linear addresses and RDPKRU/WRPKRU instructions."@,
        d.spec_bit_ranges()[22].span == (BitSpan { first: 23, last: 23 }) && d.spec_bit_ranges()[22].name@ == "CET"@
            && d.spec_bit_ranges()[22].short@ == "Control-Flow Enforcement Technology"@ && d.spec_bit_ranges()[22].long@ == "If set, enables CET when CR0.WP IS SET."@,
        d.spec_bit_ranges()[23].span == (BitSpan { first: 24, last: 24 }) && d.spec_bit_ranges()[23].name@ == "PKS"@
            && d.spec_bit_ranges()[23].short@ == "Protection Key For Supervisor Pages"@ && d.spec_bit_ranges()[23].long@ == "If set, enables protection keys for supervisor pages."@,
        d.spec_bit_ranges()[24].span == (BitSpan { first: 25, last: 25 }) && d.spec_bit_ranges()[24].name@ == "UINTR"@
            && d.spec_bit_ranges()[24].short@ == "User Interrupts"@ && d.spec_bit_ranges()[24].long@ == "If set, enables user-mode interrupts."@,
        d.spec_bit_ranges()[25].span == (BitSpan { first: 28, last: 28 }) && d.spec_bit_ranges()[25].name@ == "LAM_SUP"@
            && d.spec_bit_ranges()[25].short@ == "Linear-Address Masking For Supervisor"@ && d.spec_bit_ranges()[25].long@ == "If set, enables linear-address masking for supervisor pointers."@,
{
}

/// The extended feature register of x86 CPUs.
pub fn efer() -> (r: RegisterDescriptor)
    ensures
        describes(r, "x86"@, "cpu"@, "efer"@, "Extended Feature Register"@, 32, rows_efer()),
{
    let rows: [(u16, u16, &str, &str, &str); 7] = [
        (0, 0, "SCE", "SC Extensions", "System Call Extensions."),
        (8, 8, "LME", "LM Enable", "Long Mode Enable."),
        (10, 10, "LMA", "LM Active", "Long Mode Active."),
        (11, 11, "NXE", "NX Enable", "No-Execute Enable."),
        (12, 12, "SVME", "SVM Enable", "Secure Virtual Machine Enable (AMD)."),
        (13, 13, "LMSLE", "LMSL Enable", "Long Mode Segment Limit Enable (AMD)."),
        (14, 14, "FFXSR", "Fast FXSAVE/FXRSTOR", "Fast FXSAVE/FXRSTOR support."),
    ];
    proof {
        reveal_strlit("Extended Feature Register");
        reveal_strlit("FFXSR");
        reveal_strlit("Fast FXSAVE/FXRSTOR");
        reveal_strlit("LM Active");
        reveal_strlit("LM Enable");
        reveal_strlit("LMA");
        reveal_strlit("LME");
        reveal_strlit("LMSL Enable");
        reveal_strlit("LMSLE");
        reveal_strlit("NX Enable");
        reveal_strlit("NXE");
        reveal_strlit("SC Extensions");
        reveal_strlit("SCE");
        reveal_strlit("SVM Enable");
        reveal_strlit("SVME");
        reveal_strlit("cpu");
        reveal_strlit("efer");
        reveal_strlit("x86");
        assert(rows@ =~= seq![
            (0u16, 0u16, "SCE", "SC Extensions", "System Call Extensions."),
            (8u16, 8u16, "LME", "LM Enable", "Long Mode Enable."),
            (10u16, 10u16, "LMA", "LM Active", "Long Mode Active."),
            (11u16, 11u16, "NXE", "NX Enable", "No-Execute Enable."),
            (12u16, 12u16, "SVME", "SVM Enable", "Secure Virtual Machine Enable (AMD)."),
            (13u16, 13u16, "LMSLE", "LMSL Enable", "Long Mode Segment Limit Enable (AMD)."),
            (14u16, 14u16, "FFXSR", "Fast FXSAVE/FXRSTOR", "Fast FXSAVE/FXRSTOR support."),
        ]);
    }
    let r = describe("x86", "cpu", "efer", "Extended Feature Register", 32, rows.as_slice());
    proof {
        assert forall|i: int| 0 <= i < 7 implies #[trigger] rows_efer()[i] == (BitSpan { first: rows@[i].0, last: rows@[i].1 }, rows@[i].2@, rows@[i].3@, rows@[i].4@) by {}
    }
    r
}

/// The bit ranges of `efer`: span, name, short and long description.
pub open spec fn rows_efer() -> Seq<(BitSpan, Seq<char>, Seq<char>, Seq<char>)> {
    seq![
        (BitSpan { first: 0, last: 0 }, "SCE"@, "SC Extensions"@, "System Call Extensions."@),
        (BitSpan { first: 8, last: 8 }, "LME"@, "LM Enable"@, "Long Mode Enable."@),
        (BitSpan { first: 10, last: 10 }, "LMA"@, "LM Active"@, "Long Mode Active."@),
        (BitSpan { first: 11, last: 11 }, "NXE"@, "NX Enable"@, "No-Execute Enable."@),
        (BitSpan { first: 12, last: 12 }, "SVME"@, "SVM Enable"@, "Secure Virtual Machine Enable (AMD)."@),
        (BitSpan { first: 13, last: 13 }, "LMSLE"@, "LMSL Enable"@, "Long Mode Segment Limit Enable (AMD)."@),
        (BitSpan { first: 14, last: 14 }, "FFXSR"@, "Fast FXSAVE/FXRSTOR"@, "Fast FXSAVE/FXRSTOR support."@),
    ]
}

/// The extended feature register (`efer`), as described: 32 bits whose ranges are, in order, SCE 0,
/// LME 8, LMA 10, NXE 11, SVME 12, LMSLE 13, FFXSR 14, each with the short and long description
/// below.
pub proof fn lemma_efer_layout(d: RegisterDescriptor)
    requires
        describes(d, "x86"@, "cpu"@, "efer"@, "Extended Feature Register"@, 32, rows_efer()),
    ensures
        d.spec_bit_count() == 32,
        d.spec_bit_ranges().len() == 7,
        d.spec_bit_ranges()[0].span == (BitSpan { first: 0, last: 0 }) && d.spec_bit_ranges()[0].name@ == "SCE"@
            && d.spec_bit_ranges()[0].short@ == "SC Extensions"@ && d.spec_bit_ranges()[0].long@ == "System Call Extensions."@,
        d.spec_bit_ranges()[1].span == (BitSpan { first: 8, last: 8 }) && d.spec_bit_ranges()[1].name@ == "LME"@
            && d.spec_bit_ranges()[1].short@ == "LM Enable"@ && d.spec_bit_ranges()[1].long@ == "Long Mode Enable."@,
        d.spec_bit_ranges()[2].span == (BitSpan { first: 10, last: 10 }) && d.spec_bit_ranges()[2].name@ == "LMA"@
            && d.spec_bit_ranges()[2].short@ == "LM Active"@ && d.spec_bit_ranges()[2].long@ == "Long Mode Active."@,
        d.spec_bit_ranges()[3].span == (BitSpan { first: 11, last: 11 }) && d.spec_bit_ranges()[3].name@ == "NXE"@
            && d.spec_bit_ranges()[3].short@ == "NX Enable"@ && d.spec_bit_ranges()[3].long@ == "No-Execute Enable."@,
        d.spec_bit_ranges()[4].span == (BitSpan { first: 12, last: 12 }) && d.spec_bit_ranges()[4].name@ == "SVME"@
            && d.spec_bit_ranges()[4].short@ == "SVM Enable"@ && d.spec_bit_ranges()[4].long@ == "Secure Virtual Machine Enable (AMD)."@,
        d.spec_bit_ranges()[5].span == (BitSpan { first: 13, last: 13 }) && d.spec_bit_ranges()[5].name@ == "LMSLE"@
            && d.spec_bit_ranges()[5].short@ == "LMSL Enable"@ && d.spec_bit_ranges()[5].long@ == "Long Mode Segment Limit Enable (AMD)."@,
        d.spec_bit_ranges()[6].span == (BitSpan { first: 14, last: 14 }) && d.spec_bit_ranges()[6].name@ == "FFXSR"@
            && d.spec_bit_ranges()[6].short@ == "Fast FXSAVE/FXRSTOR"@ && d.spec_bit_ranges()[6].long@ == "Fast FXSAVE/FXRSTOR support."@,
{
}

} // verus!

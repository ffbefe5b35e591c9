//! The decisions of the interactive console: what a line of input asks for,
//! how many bits a result is written with, and where an error caret goes.

use vstd::prelude::*;

use crate::spcregs::bit_range::{BitRangeKind, BitSpan, ByteOrder};
use crate::spcregs::register_descriptor::{describe, describes, RegisterDescriptor};
use crate::spcregs::utils::{bit_length, significant_bits};
use crate::text::str_eq;

verus! {

/// The prompt shown before each line of input.
pub open spec fn user_prompt() -> Seq<char> {
    seq!['>', ' ']
}

/// Whether `c` is white space in the sense of Unicode's `White_Space`
/// property (what `char::is_whitespace` tests).
pub open spec fn spec_is_whitespace(c: char) -> bool {
    ('\u{9}' <= c && c <= '\u{d}') || c == ' ' || c == '\u{85}' || c == '\u{a0}' || c == '\u{1680}'
        || ('\u{2000}' <= c && c <= '\u{200a}') || c == '\u{2028}' || c == '\u{2029}' || c
        == '\u{202f}' || c == '\u{205f}' || c == '\u{3000}'
}

/// Whether `c` is white space (Unicode `White_Space`).
pub fn is_whitespace(c: char) -> (r: bool)
    ensures
        r == spec_is_whitespace(c),
{
    ('\u{9}' <= c && c <= '\u{d}') || c == ' ' || c == '\u{85}' || c == '\u{a0}' || c == '\u{1680}'
        || ('\u{2000}' <= c && c <= '\u{200a}') || c == '\u{2028}' || c == '\u{2029}' || c
        == '\u{202f}' || c == '\u{205f}' || c == '\u{3000}'
}

/// The number of leading white-space characters of `s`.
pub open spec fn leading_whitespace(s: Seq<char>) -> nat
    decreases s.len(),
{
    if s.len() > 0 && spec_is_whitespace(s[0]) {
        1 + leading_whitespace(s.drop_first())
    } else {
        0
    }
}

/// The number of trailing white-space characters of `s`.
pub open spec fn trailing_whitespace(s: Seq<char>) -> nat
    decreases s.len(),
{
    if s.len() > 0 && spec_is_whitespace(s.last()) {
        1 + trailing_whitespace(s.drop_last())
    } else {
        0
    }
}

/// `s` without its leading and trailing white space (as `str::trim`).
pub open spec fn trimmed(s: Seq<char>) -> Seq<char> {
    let t = s.skip(leading_whitespace(s) as int);
    t.take(t.len() - trailing_whitespace(t))
}

/// What a line of input asks for.
#[derive(Debug, PartialEq, Eq)]
pub enum ConsoleInput {
    /// Leave the console (`q`, `quit` or `exit`).
    Exit,
    /// Show the extended feature register, with the value of the expression
    /// that follows the command, if any.
    ShowRegister(Option<String>),
    /// Nothing but white space.
    Blank,
    /// Evaluate the whole line as an expression.
    Expression,
}

/// The command word of trimmed input: everything before the first space.
pub open spec fn command_word(t: Seq<char>) -> Seq<char> {
    if exists|i: int| 0 <= i < t.len() && t[i] == ' ' {
        t.take(first_space(t))
    } else {
        t
    }
}

/// The position of the first space of `t`.
pub open spec fn first_space(t: Seq<char>) -> int {
    choose|i: int| 0 <= i < t.len() && t[i] == ' ' && forall|j: int| 0 <= j < i ==> t[j] != ' '
}

/// The arguments of trimmed input: everything after the first space.
pub open spec fn command_args(t: Seq<char>) -> Option<Seq<char>> {
    if exists|i: int| 0 <= i < t.len() && t[i] == ' ' {
        Some(t.skip(first_space(t) + 1))
    } else {
        None
    }
}

/// Counts the leading white space of `input`.
fn leading_whitespace_len(input: &str, n: usize) -> (r: usize)
    requires
        n == input@.len(),
    ensures
        r == leading_whitespace(input@),
        r <= n,
{
    let mut start: usize = 0;
    assert(input@.skip(0) =~= input@);
    while start < n && is_whitespace(input.get_char(start))
        invariant
            n == input@.len(),
            start <= n,
            leading_whitespace(input@) == start + leading_whitespace(input@.skip(start as int)),
        decreases n - start,
    {
        proof {
            assert(input@.skip(start as int).drop_first() =~= input@.skip(start + 1));
        }
        start = start + 1;
    }
    start
}

/// Counts the trailing white space of `input[start..]`.
fn trailing_whitespace_len(input: &str, n: usize, start: usize) -> (r: usize)
    requires
        n == input@.len(),
        start <= n,
    ensures
        r == trailing_whitespace(input@.skip(start as int)),
        r <= n - start,
{
    let ghost t = input@.skip(start as int);
    let mut end: usize = n;
    assert(t.take(n - start) =~= t);
    while end > start && is_whitespace(input.get_char(end - 1))
        invariant
            n == input@.len(),
            start <= end <= n,
            t == input@.skip(start as int),
            trailing_whitespace(t) == (n - end) + trailing_whitespace(t.take(end - start)),
        decreases end,
    {
        proof {
            assert(t.take(end - start).drop_last() =~= t.take(end - start - 1));
            assert(t.take(end - start).last() == input@[end - 1]);
        }
        end = end - 1;
    }
    proof {
        if end == start {
            assert(t.take(0) =~= Seq::<char>::empty());
        }
    }
    n - end
}

/// Decides what a line of input asks for. The line is trimmed of white
/// space and split at its first space into a command word and arguments:
/// `q`, `quit` and `exit` leave, `efer` shows the extended feature register
/// (with the arguments as the expression of its value), an empty line asks
/// for nothing, and anything else is an expression.
pub fn read_input(input: &str) -> (r: ConsoleInput)
    ensures
        ({
            let t = trimmed(input@);
            let cmd = command_word(t);
            &&& (r is Exit <==> (cmd == "q"@ || cmd == "quit"@ || cmd == "exit"@))
            &&& (r is ShowRegister <==> cmd == "efer"@)
            &&& (r is Blank <==> cmd.len() == 0)
            &&& (r matches ConsoleInput::ShowRegister(a) ==> match a {
                Some(s) => command_args(t) == Some(s@),
                None => command_args(t) is None,
            })
        }),
{
    let n = input.unicode_len();
    let start = leading_whitespace_len(input, n);
    let trail = trailing_whitespace_len(input, n, start);
    let end = n - trail;
    let ghost t = trimmed(input@);
    assert(t =~= input@.subrange(start as int, end as int));
    // Look for the first space of the trimmed text.
    let mut idx: usize = start;
    while idx < end && input.get_char(idx) != ' '
        invariant
            n == input@.len(),
            start <= idx <= end <= n,
            forall|j: int| start <= j < idx ==> input@[j] != ' ',
        decreases end - idx,
    {
        idx = idx + 1;
    }
    let has_space = idx < end;
    proof {
        if has_space {
            let k = idx - start;
            assert(t[k] == ' ' && forall|j: int| 0 <= j < k ==> t[j] != ' ');
            assert(exists|i: int| 0 <= i < t.len() && t[i] == ' ');
            let f = first_space(t);
            assert(t[f] == ' ' && forall|j: int| 0 <= j < f ==> t[j] != ' ');
            if f < k {
                assert(t[f] != ' ');
            }
            if f > k {
                assert(t[k] != ' ');
            }
            assert(f == k);
            assert(command_word(t) =~= input@.subrange(start as int, idx as int));
            assert(t.skip(k + 1) =~= input@.subrange(idx + 1, end as int));
        } else {
            assert forall|i: int| 0 <= i < t.len() implies t[i] != ' ' by {
                assert(t[i] == input@[start + i]);
            }
            assert(command_word(t) =~= input@.subrange(start as int, end as int));
        }
    }
    let cmd = input.substring_char(start, idx);
    proof {
        reveal_strlit("q");
        reveal_strlit("quit");
        reveal_strlit("exit");
        reveal_strlit("efer");
        assert("efer"@[0] != "quit"@[0]);
        assert("efer"@[1] != "exit"@[1]);
        assert("efer"@ != "q"@);
    }
    if str_eq(cmd, "q") || str_eq(cmd, "quit") || str_eq(cmd, "exit") {
        ConsoleInput::Exit
    } else if str_eq(cmd, "efer") {
        if has_space {
            let args = input.substring_char(idx + 1, end);
            ConsoleInput::ShowRegister(Some(String::from_str(args)))
        } else {
            ConsoleInput::ShowRegister(None)
        }
    } else if start == idx {
        ConsoleInput::Blank
    } else {
        ConsoleInput::Expression
    }
}

/// The number of character boundaries of `bytes` before position `n`.
pub open spec fn char_boundaries_before(bytes: Seq<u8>, n: int) -> nat
    decreases n,
{
    if n <= 0 {
        0
    } else {
        char_boundaries_before(bytes, n - 1) + (if vstd::utf8::is_char_boundary(bytes, n - 1) {
            1nat
        } else {
            0nat
        })
    }
}

/// The character index of byte index `idx_byte` of `str_expr`: the number
/// of character boundaries before it.
pub fn byte_index_to_char_index(str_expr: &str, idx_byte: usize) -> (r: usize)
    ensures
        r == char_boundaries_before(vstd::utf8::encode_utf8(str_expr@), idx_byte as int),
        r <= idx_byte,
{
    let mut idx_char: usize = 0;
    let mut i: usize = 0;
    while i < idx_byte
        invariant
            i <= idx_byte,
            idx_char == char_boundaries_before(vstd::utf8::encode_utf8(str_expr@), i as int),
            idx_char <= i,
        decreases idx_byte - i,
    {
        if str_expr.is_char_boundary(i) {
            idx_char = idx_char + 1;
        }
        i = i + 1;
    }
    idx_char
}

/// The column of the caret that marks byte `idx_byte` of an expression:
/// after the prompt and any extra padding (such as a command before the
/// expression), at the character index of the byte.
pub fn error_caret_padding(str_expr: &str, idx_byte: usize, extra_padding: Option<usize>) -> (r:
    usize)
    requires
        idx_byte + user_prompt().len() + (match extra_padding {
            Some(p) => p as int,
            None => 0,
        }) <= usize::MAX,
    ensures
        r == char_boundaries_before(vstd::utf8::encode_utf8(str_expr@), idx_byte as int) + user_prompt().len()
            + (match extra_padding {
            Some(p) => p as int,
            None => 0,
        }),
{
    let idx_char = byte_index_to_char_index(str_expr, idx_byte);
    let prompt = "> ";
    proof {
        reveal_strlit("> ");
    }
    let user_prompt_padding = prompt.unicode_len();
    match extra_padding {
        Some(p) => idx_char + user_prompt_padding + p,
        None => idx_char + user_prompt_padding,
    }
}

/// The number of bits a result is shown with, and the unit to write after
/// it: the bits the value needs, but at least one, with "bit" for one and
/// "bits" otherwise.
pub fn result_bit_count(value: u64) -> (r: (u32, &'static str))
    ensures
        bit_length(value) < 2 ==> r.0 == 1 && r.1@ == "bit"@,
        bit_length(value) >= 2 ==> r.0 == bit_length(value) && r.1@ == "bits"@,
{
    let bit_count = significant_bits(value);
    if bit_count < 2 {
        (1, "bit")
    } else {
        (bit_count, "bits")
    }
}

/// The extended feature register that the console shows.
pub fn efer_register_descriptor() -> (r: RegisterDescriptor)
    ensures
        describes(r, "x86"@, "cpu"@, "EFER"@, "Extended Feature Register"@, 32, rows_efer_register_descriptor()),
{
    let rows: [(u16, u16, &str, &str, &str); 7] = [
        (0, 0, "SCE", "SysCall", "System Call Extensions"),
        (8, 8, "LME", "Long mode enable", "Long mode enable"),
        (10, 10, "LMA", "Long mode active", "Long mode active"),
        (11, 11, "NXE", "No-execute enable", "No-execute enable"),
        (12, 12, "SVME", "SVM enable", "Secure virtual machine enable (AMD)"),
        (13, 13, "LMSL", "LMSL enable", "Long mode segment limit enable (AMD)"),
        (14, 14, "FFXSR", "Fast FXSAVE/FXRSTOR", "Fast FXSAVE/FXRSTOR"),
    ];
    proof {
        reveal_strlit("EFER");
        reveal_strlit("Extended Feature Register");
        reveal_strlit("FFXSR");
        reveal_strlit("Fast FXSAVE/FXRSTOR");
        reveal_strlit("LMA");
        reveal_strlit("LME");
        reveal_strlit("LMSL");
        reveal_strlit("LMSL enable");
        reveal_strlit("Long mode active");
        reveal_strlit("Long mode enable");
        reveal_strlit("NXE");
        reveal_strlit("No-execute enable");
        reveal_strlit("SCE");
        reveal_strlit("SVM enable");
        reveal_strlit("SVME");
        reveal_strlit("SysCall");
        reveal_strlit("cpu");
        reveal_strlit("x86");
        assert(rows@ =~= seq![
            (0u16, 0u16, "SCE", "SysCall", "System Call Extensions"),
            (8u16, 8u16, "LME", "Long mode enable", "Long mode enable"),
            (10u16, 10u16, "LMA", "Long mode active", "Long mode active"),
            (11u16, 11u16, "NXE", "No-execute enable", "No-execute enable"),
            (12u16, 12u16, "SVME", "SVM enable", "Secure virtual machine enable (AMD)"),
            (13u16, 13u16, "LMSL", "LMSL enable", "Long mode segment limit enable (AMD)"),
            (14u16, 14u16, "FFXSR", "Fast FXSAVE/FXRSTOR", "Fast FXSAVE/FXRSTOR"),
        ]);
    }
    let r = describe("x86", "cpu", "EFER", "Extended Feature Register", 32, rows.as_slice());
    proof {
        assert forall|i: int| 0 <= i < 7 implies #[trigger] rows_efer_register_descriptor()[i] == (BitSpan { first: rows@[i].0, last: rows@[i].1 }, rows@[i].2@, rows@[i].3@, rows@[i].4@) by {}
    }
    r
}

/// The bit ranges of `efer_register_descriptor`: span, name, short and long description.
pub open spec fn rows_efer_register_descriptor() -> Seq<(BitSpan, Seq<char>, Seq<char>, Seq<char>)> {
    seq![
        (BitSpan { first: 0, last: 0 }, "SCE"@, "SysCall"@, "System Call Extensions"@),
        (BitSpan { first: 8, last: 8 }, "LME"@, "Long mode enable"@, "Long mode enable"@),
        (BitSpan { first: 10, last: 10 }, "LMA"@, "Long mode active"@, "Long mode active"@),
        (BitSpan { first: 11, last: 11 }, "NXE"@, "No-execute enable"@, "No-execute enable"@),
        (BitSpan { first: 12, last: 12 }, "SVME"@, "SVM enable"@, "Secure virtual machine enable (AMD)"@),
        (BitSpan { first: 13, last: 13 }, "LMSL"@, "LMSL enable"@, "Long mode segment limit enable (AMD)"@),
        (BitSpan { first: 14, last: 14 }, "FFXSR"@, "Fast FXSAVE/FXRSTOR"@, "Fast FXSAVE/FXRSTOR"@),
    ]
}

/// The extended feature register the console shows, as described: 32 bits whose ranges are, in
/// order, SCE 0, LME 8, LMA 10, NXE 11, SVME 12, LMSL 13, FFXSR 14, each with the short and long
/// description below.
pub proof fn lemma_console_efer_layout(d: RegisterDescriptor)
    requires
        describes(d, "x86"@, "cpu"@, "EFER"@, "Extended Feature Register"@, 32, rows_efer_register_descriptor()),
    ensures
        d.spec_bit_count() == 32,
        d.spec_bit_ranges().len() == 7,
        d.spec_bit_ranges()[0].span == (BitSpan { first: 0, last: 0 }) && d.spec_bit_ranges()[0].name@ == "SCE"@
            && d.spec_bit_ranges()[0].short@ == "SysCall"@ && d.spec_bit_ranges()[0].long@ == "System Call Extensions"@,
        d.spec_bit_ranges()[1].span == (BitSpan { first: 8, last: 8 }) && d.spec_bit_ranges()[1].name@ == "LME"@
            && d.spec_bit_ranges()[1].short@ == "Long mode enable"@ && d.spec_bit_ranges()[1].long@ == "Long mode enable"@,
        d.spec_bit_ranges()[2].span == (BitSpan { first: 10, last: 10 }) && d.spec_bit_ranges()[2].name@ == "LMA"@
            && d.spec_bit_ranges()[2].short@ == "Long mode active"@ && d.spec_bit_ranges()[2].long@ == "Long mode active"@,
        d.spec_bit_ranges()[3].span == (BitSpan { first: 11, last: 11 }) && d.spec_bit_ranges()[3].name@ == "NXE"@
            && d.spec_bit_ranges()[3].short@ == "No-execute enable"@ && d.spec_bit_ranges()[3].long@ == "No-execute enable"@,
        d.spec_bit_ranges()[4].span == (BitSpan { first: 12, last: 12 }) && d.spec_bit_ranges()[4].name@ == "SVME"@
            && d.spec_bit_ranges()[4].short@ == "SVM enable"@ && d.spec_bit_ranges()[4].long@ == "Secure virtual machine enable (AMD)"@,
        d.spec_bit_ranges()[5].span == (BitSpan { first: 13, last: 13 }) && d.spec_bit_ranges()[5].name@ == "LMSL"@
            && d.spec_bit_ranges()[5].short@ == "LMSL enable"@ && d.spec_bit_ranges()[5].long@ == "Long mode segment limit enable (AMD)"@,
        d.spec_bit_ranges()[6].span == (BitSpan { first: 14, last: 14 }) && d.spec_bit_ranges()[6].name@ == "FFXSR"@
            && d.spec_bit_ranges()[6].short@ == "Fast FXSAVE/FXRSTOR"@ && d.spec_bit_ranges()[6].long@ == "Fast FXSAVE/FXRSTOR"@,
{
}

} // verus!

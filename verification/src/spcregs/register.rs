use vstd::prelude::*;

use crate::spcregs::bit_range::BitRange;
use crate::spcregs::register_descriptor::{
    column_width_of, descriptor_text, ranges_well_formed, span_has, BitRangeElement,
    RegisterDescriptor,
};
use crate::spcregs::utils::{binary_width, push_spaced_binary, spaced_binary};
use crate::text::{decimal, pad_left, pad_right, spaces, push_decimal, push_padded_left, push_padded_right, push_str};
use crate::word::UnsignedWord;

verus! {

/// The maximum number of bits a register can describe (the width of `u64`).
pub const MAX_BIT_COUNT: usize = 64;

/// A register: a descriptor and, when it has one, a value held in a word of
/// type `T`.
pub struct Register<T> {
    value: Option<T>,
    descriptor: RegisterDescriptor,
}

/// The reasons a register cannot be made.
#[derive(Debug, PartialEq, Eq, Structural, Copy, Clone)]
pub enum RegisterError {
    InvalidBitCount,
}

impl RegisterError {
    /// The human-readable text of the error.
    pub open spec fn spec_message(&self) -> Seq<char> {
        match self {
            RegisterError::InvalidBitCount => "register size insufficient to describe all its bits"@,
        }
    }

    /// The human-readable text of the error.
    pub fn message(&self) -> (r: &'static str)
        ensures
            r@ == self.spec_message(),
    {
        match self {
            RegisterError::InvalidBitCount => "register size insufficient to describe all its bits",
        }
    }
}

/// The characters that draw the lines of a register diagram.
pub open spec fn line_chars(ascii: bool) -> (char, char, char) {
    if ascii {
        ('-', '|', '+')
    } else {
        ('\u{2500}', '\u{2502}', '\u{2514}')
    }
}

/// The characters for columns `hi - 1` down to `lo`, column `i` giving
/// `cell(i)`.
pub open spec fn columns(cell: spec_fn(int) -> Seq<char>, hi: int, lo: int) -> Seq<char>
    decreases hi - lo,
{
    if hi <= lo {
        seq![]
    } else {
        cell(hi - 1) + columns(cell, hi - 1, lo)
    }
}

/// Whether some range of the sequence holds bit `bit`.
pub open spec fn ranges_have_bit(ranges: Seq<BitRange>, bit: int) -> bool {
    exists|k: int| 0 <= k < ranges.len() && #[trigger] span_has(ranges[k].span, bit)
}

/// A column of the line under the binary digits: a vertical line under every
/// described bit, and a space after every fourth bit.
pub open spec fn stem_cell(ranges: Seq<BitRange>, vert: char) -> spec_fn(int) -> Seq<char> {
    |i: int|
        (if ranges_have_bit(ranges, i) {
            seq![vert]
        } else {
            seq![' ']
        }) + (if i % 4 == 0 {
            seq![' ']
        } else {
            seq![]
        })
}

/// A column of the line that describes range `r`: corners under the bits of
/// the range, vertical lines under the described bits above it, horizontal
/// lines from the range to the label, spaces elsewhere; after every fourth bit
/// (but the lowest) the current fill character.
pub open spec fn row_cell(ranges: Seq<BitRange>, r: BitRange, horiz: char, vert: char, edge: char) -> spec_fn(
    int,
) -> Seq<char> {
    |i: int|
        {
            let c = if span_has(r.span, i) {
                edge
            } else if i > r.span.last {
                if ranges_have_bit(ranges, i) {
                    vert
                } else {
                    ' '
                }
            } else {
                horiz
            };
            let fill = if i > r.span.last {
                ' '
            } else {
                horiz
            };
            seq![c] + (if i > 0 && i % 4 == 0 {
                seq![fill]
            } else {
                seq![]
            })
        }
}

/// The line that describes range `r` of a register of `n` bits holding `val`:
/// the drawing, the name, the first bit, and ` *` when that bit is set.
pub open spec fn register_row(
    ranges: Seq<BitRange>,
    r: BitRange,
    n: int,
    val: u64,
    ascii: bool,
    name_w: int,
    bits_w: int,
) -> Seq<char> {
    let (horiz, vert, edge) = line_chars(ascii);
    seq![' '] + columns(row_cell(ranges, r, horiz, vert, edge), n, 0) + seq![horiz, horiz, ' ']
        + pad_right(r.name@, name_w) + seq![' ', '('] + pad_left(decimal(r.span.first as nat), bits_w)
        + seq![')'] + (if (val >> (r.span.first as u64)) & 1u64 == 1u64 {
        seq![' ', '*']
    } else {
        seq![]
    }) + seq!['\n']
}

/// The lines of the ranges `k..` of a register.
pub open spec fn register_rows(
    ranges: Seq<BitRange>,
    k: int,
    n: int,
    val: u64,
    ascii: bool,
    name_w: int,
    bits_w: int,
) -> Seq<char>
    decreases ranges.len() - k,
{
    if k >= ranges.len() {
        seq![]
    } else {
        register_row(ranges, ranges[k], n, val, ascii, name_w, bits_w) + register_rows(
            ranges,
            k + 1,
            n,
            val,
            ascii,
            name_w,
            bits_w,
        )
    }
}

/// The diagram of a register of `n` bits holding `val`: its binary digits,
/// a line of stems under the described bits, and one line per range.
pub open spec fn register_diagram(ranges: Seq<BitRange>, n: int, val: u64, ascii: bool) -> Seq<char> {
    let (horiz, vert, edge) = line_chars(ascii);
    seq![' '] + spaced_binary(val, n as nat) + seq!['\n'] + seq![' '] + columns(
        stem_cell(ranges, vert),
        n,
        0,
    ) + seq!['\n'] + register_rows(
        ranges,
        0,
        n,
        val,
        ascii,
        column_width_of(ranges, BitRangeElement::Name) as int,
        column_width_of(ranges, BitRangeElement::Bits) as int,
    )
}

/// The column at which a range's name starts in its line of a register
/// diagram of `n` bits: after a space, the drawing of the bits (one
/// character per bit and one more after every fourth), two horizontal lines
/// and a space.
pub open spec fn row_label_column(n: int) -> int {
    4 + n + (n - 1) / 4
}

proof fn lemma_row_columns_len(cell: spec_fn(int) -> Seq<char>, hi: int)
    requires
        0 <= hi,
        forall|i: int|
            0 <= i < hi ==> (#[trigger] cell(i)).len() == 1 + (if i > 0 && i % 4 == 0 {
                1int
            } else {
                0int
            }),
    ensures
        columns(cell, hi, 0).len() == hi + (if hi > 0 { (hi - 1) / 4 } else { 0 }),
    decreases hi,
{
    if hi > 0 {
        lemma_row_columns_len(cell, hi - 1);
    }
}

/// The line of range `k` in the diagram of a register of `n` bits holding
/// `val`.
pub open spec fn diagram_row(ranges: Seq<BitRange>, k: int, n: int, val: u64, ascii: bool) -> Seq<
    char,
> {
    register_row(
        ranges,
        ranges[k],
        n,
        val,
        ascii,
        column_width_of(ranges, BitRangeElement::Name) as int,
        column_width_of(ranges, BitRangeElement::Bits) as int,
    )
}

/// The lines of a register diagram. Its first line is a space and the
/// binary string of the value written with as many bits as the register
/// has (what `get_binary_string(val, Some(n))` gives); the lines that follow
/// the line of stems are one per bit range, in order. The line of range `k`
/// ends with a newline, shows the range's name from column
/// `row_label_column(n)` on, and ends with ` *` exactly when the first bit
/// of the range is set in the value.
pub proof fn lemma_register_diagram_lines(ranges: Seq<BitRange>, n: int, val: u64, ascii: bool)
    requires
        1 <= n <= 64,
    ensures
        ({
            let first = seq![' '] + spaced_binary(val, binary_width(val, Some(n as u32))) + seq!['\n'];
            first.is_prefix_of(register_diagram(ranges, n, val, ascii))
        }),
        ({
            let nw = column_width_of(ranges, BitRangeElement::Name) as int;
            let bw = column_width_of(ranges, BitRangeElement::Bits) as int;
            &&& register_rows(ranges, ranges.len() as int, n, val, ascii, nw, bw).len() == 0
            &&& forall|k: int|
                0 <= k < ranges.len() ==> #[trigger] register_rows(ranges, k, n, val, ascii, nw, bw)
                    == diagram_row(ranges, k, n, val, ascii) + register_rows(
                    ranges,
                    k + 1,
                    n,
                    val,
                    ascii,
                    nw,
                    bw,
                )
        }),
        forall|k: int|
            0 <= k < ranges.len() ==> {
                let row = #[trigger] diagram_row(ranges, k, n, val, ascii);
                let c = row_label_column(n);
                let name = ranges[k].name@;
                &&& row.len() >= c + name.len() + 3
                &&& row.last() == '\n'
                &&& row.subrange(c, c + name.len()) == name
                &&& (row.subrange(row.len() - 3, row.len() as int) == seq![' ', '*', '\n'] <==> (val
                    >> (ranges[k].span.first as u64)) & 1u64 == 1u64)
            },
{
    let nw = column_width_of(ranges, BitRangeElement::Name) as int;
    let bw = column_width_of(ranges, BitRangeElement::Bits) as int;
    assert(binary_width(val, Some(n as u32)) == n);
    let (horiz, vert, edge) = line_chars(ascii);
    let first = seq![' '] + spaced_binary(val, n as nat) + seq!['\n'];
    let d = register_diagram(ranges, n, val, ascii);
    assert(d.subrange(0, first.len() as int) =~= first);
    assert forall|k: int| 0 <= k < ranges.len() implies {
        let row = #[trigger] diagram_row(ranges, k, n, val, ascii);
        let c = row_label_column(n);
        let name = ranges[k].name@;
        &&& row.len() >= c + name.len() + 3
        &&& row.last() == '\n'
        &&& row.subrange(c, c + name.len()) == name
        &&& (row.subrange(row.len() - 3, row.len() as int) == seq![' ', '*', '\n'] <==> (val >> (
            ranges[k].span.first as u64)) & 1u64 == 1u64)
    } by {
        let r = ranges[k];
        let cell = row_cell(ranges, r, horiz, vert, edge);
        lemma_row_columns_len(cell, n);
        let head = seq![' '] + columns(cell, n, 0) + seq![horiz, horiz, ' '];
        let mark = if (val >> (r.span.first as u64)) & 1u64 == 1u64 {
            seq![' ', '*']
        } else {
            seq![]
        };
        let tail = seq![' ', '('] + pad_left(decimal(r.span.first as nat), bw) + seq![')'] + mark
            + seq!['\n'];
        let rest = spaces(nw - r.name@.len()) + tail;
        let row = register_row(ranges, r, n, val, ascii, nw, bw);
        assert(head.len() == row_label_column(n));
        assert(row =~= head + (r.name@ + rest));
        assert(row.subrange(head.len() as int, (head.len() + r.name@.len()) as int) =~= r.name@);
        if (val >> (r.span.first as u64)) & 1u64 == 1u64 {
            assert(row.subrange(row.len() - 3, row.len() as int) =~= seq![' ', '*', '\n']);
        } else {
            assert(row[row.len() - 2] == ')');
        }
    }
}

impl<T: UnsignedWord> Register<T> {
    /// Makes a register without a value; the word type must have at least as
    /// many bits as the descriptor describes.
    pub fn new(descriptor: RegisterDescriptor) -> (r: Result<Self, RegisterError>)
        ensures
            T::spec_bits() >= descriptor.spec_bit_count() ==> (r matches Ok(reg) && reg.spec_value()
                is None && reg.spec_descriptor() == descriptor),
            T::spec_bits() < descriptor.spec_bit_count() ==> r == Err::<Self, RegisterError>(
                RegisterError::InvalidBitCount,
            ),
    {
        if Self::bit_capacity() >= descriptor.bit_count() {
            Ok(Self { value: None, descriptor })
        } else {
            Err(RegisterError::InvalidBitCount)
        }
    }

    pub closed spec fn spec_value(&self) -> Option<T> {
        self.value
    }

    pub closed spec fn spec_descriptor(&self) -> RegisterDescriptor {
        self.descriptor
    }

    pub fn set_value(&mut self, value: T)
        ensures
            final(self).spec_value() == Some(value),
            final(self).spec_descriptor() == old(self).spec_descriptor(),
    {
        self.value = Some(value);
    }

    pub fn clear_value(&mut self)
        ensures
            final(self).spec_value() is None,
            final(self).spec_descriptor() == old(self).spec_descriptor(),
    {
        self.value = None;
    }

    /// The number of bits the word type holds.
    fn bit_capacity() -> (r: usize)
        ensures
            r == T::spec_bits(),
    {
        T::bits()
    }

    pub fn get_descriptor(&self) -> (r: &RegisterDescriptor)
        ensures
            *r == self.spec_descriptor(),
    {
        &self.descriptor
    }

    /// The register as text. Without a value it is the descriptor's text;
    /// with one it is a diagram of its binary digits with a line drawn from
    /// every described range to its name, marked with ` *` when the range's
    /// first bit is set. `ascii` draws the lines with ASCII characters rather
    /// than box-drawing ones.
    pub fn to_text(&self, ascii: bool) -> (r: String)
        ensures
            match self.spec_value() {
                None => r@ == descriptor_text(self.spec_descriptor().spec_bit_ranges()),
                Some(v) => r@ == register_diagram(
                    self.spec_descriptor().spec_bit_ranges(),
                    self.spec_descriptor().spec_bit_count() as int,
                    v.spec_value() as u64,
                    ascii,
                ),
            },
    {
        match self.value {
            None => self.descriptor.to_text(),
            Some(v) => {
                let val = v.to_u64();
                register_diagram_text(&self.descriptor, val, ascii)
            },
        }
    }
}

/// Draws the diagram of a register described by `d` holding `val`.
fn register_diagram_text(d: &RegisterDescriptor, val: u64, ascii: bool) -> (r: String)
    ensures
        r@ == register_diagram(d.spec_bit_ranges(), d.spec_bit_count() as int, val, ascii),
{
    let bit_count = d.bit_count();
    let ranges = d.bit_ranges();
    let (horiz, vert, edge) = if ascii {
        ('-', '|', '+')
    } else {
        ('\u{2500}', '\u{2502}', '\u{2514}')
    };
    let ghost n = bit_count as int;
    proof {
        // The first range lies inside the register, so it has at least one bit.
        assert(ranges@[0].span.last < bit_count);
    }
    let mut out = String::new();
    // First the binary digits, grouped by four.
    out.push(' ');
    push_spaced_binary(&mut out, val, bit_count as u32);
    out.push('\n');
    // Then a line of stems under the described bits.
    out.push(' ');
    let ghost stems_start = out@;
    let ghost stem = stem_cell(ranges@, vert);
    let mut idx: usize = bit_count;
    while idx > 0
        invariant
            idx <= bit_count <= 64,
            ranges@ == d.spec_bit_ranges(),
            stem == stem_cell(ranges@, vert),
            out@ + columns(stem, idx as int, 0) == stems_start + columns(stem, bit_count as int, 0),
        decreases idx,
    {
        idx = idx - 1;
        let ghost before = out@;
        if d.has_bit(idx) {
            out.push(vert);
        } else {
            out.push(' ');
        }
        if idx % 4 == 0 {
            out.push(' ');
        }
        proof {
            assert(d.spec_has_bit(idx as int) == ranges_have_bit(ranges@, idx as int));
            assert(out@ =~= before + stem(idx as int));
            assert(out@ + columns(stem, idx as int, 0) =~= before + columns(stem, idx + 1, 0));
        }
    }
    assert(out@ =~= stems_start + columns(stem, bit_count as int, 0));
    out.push('\n');
    let ghost rows_start = out@;
    let name_width = d.column_width(BitRangeElement::Name);
    let bits_width = d.column_width(BitRangeElement::Bits);
    // Then one line per range, drawing a line from the range to its name.
    let mut k: usize = 0;
    while k < ranges.len()
        invariant
            k <= ranges@.len(),
            bit_count <= 64,
            bit_count == d.spec_bit_count(),
            ranges@ == d.spec_bit_ranges(),
            ranges_well_formed(ranges@, ranges@.len() as int, bit_count as int),
            (horiz, vert, edge) == line_chars(ascii),
            name_width == column_width_of(ranges@, BitRangeElement::Name),
            bits_width == column_width_of(ranges@, BitRangeElement::Bits),
            out@ + register_rows(ranges@, k as int, bit_count as int, val, ascii, name_width as int, bits_width as int)
                == rows_start + register_rows(ranges@, 0, bit_count as int, val, ascii, name_width as int, bits_width as int),
        decreases ranges@.len() - k,
    {
        let r = &ranges[k];
        let ghost before = out@;
        push_register_row(&mut out, d, r, bit_count, val, ascii, name_width, bits_width);
        proof {
            assert(out@ + register_rows(ranges@, k + 1, bit_count as int, val, ascii, name_width as int, bits_width as int)
                =~= before + register_rows(ranges@, k as int, bit_count as int, val, ascii, name_width as int, bits_width as int));
        }
        k = k + 1;
    }
    assert(out@ =~= register_diagram(d.spec_bit_ranges(), d.spec_bit_count() as int, val, ascii));
    out
}

/// Appends the line that describes range `r` of the register described by
/// `d`.
fn push_register_row(
    out: &mut String,
    d: &RegisterDescriptor,
    r: &BitRange,
    bit_count: usize,
    val: u64,
    ascii: bool,
    name_width: usize,
    bits_width: usize,
)
    requires
        bit_count == d.spec_bit_count(),
        bit_count <= 64,
        r.span.first <= r.span.last,
        r.span.last < bit_count,
    ensures
        final(out)@ == old(out)@ + register_row(
            d.spec_bit_ranges(),
            *r,
            bit_count as int,
            val,
            ascii,
            name_width as int,
            bits_width as int,
        ),
{
    let (horiz, vert, edge) = if ascii {
        ('-', '|', '+')
    } else {
        ('\u{2500}', '\u{2502}', '\u{2514}')
    };
    let ghost cell = row_cell(d.spec_bit_ranges(), *r, horiz, vert, edge);
    out.push(' ');
    let ghost cells_start = out@;
    let first = r.span.first as usize;
    let last = r.span.last as usize;
    let mut cur_bit: usize = bit_count;
    let mut fill_char: char = ' ';
    let mut idx: usize = bit_count;
    while idx > 0
        invariant
            idx <= bit_count <= 64,
            first <= last < bit_count,
            first == r.span.first,
            last == r.span.last,
            cell == row_cell(d.spec_bit_ranges(), *r, horiz, vert, edge),
            (horiz, vert, edge) == line_chars(ascii),
            idx > last ==> cur_bit == bit_count && fill_char == ' ',
            idx <= last ==> cur_bit == (if idx >= first { idx as int } else { first as int })
                && fill_char == horiz,
            out@ + columns(cell, idx as int, 0) == cells_start + columns(cell, bit_count as int, 0),
        decreases idx,
    {
        idx = idx - 1;
        let ghost before = out@;
        if first <= idx && idx <= last {
            out.push(edge);
            cur_bit = idx;
            fill_char = horiz;
        } else {
            if d.has_bit(idx) {
                if cur_bit == bit_count {
                    out.push(vert);
                } else {
                    out.push(fill_char);
                }
            } else {
                out.push(fill_char);
            }
        }
        if idx > 0 && idx % 4 == 0 {
            out.push(fill_char);
        }
        proof {
            assert(d.spec_has_bit(idx as int) == ranges_have_bit(d.spec_bit_ranges(), idx as int));
            assert(out@ =~= before + cell(idx as int));
            assert(out@ + columns(cell, idx as int, 0) =~= before + columns(cell, idx + 1, 0));
        }
    }
    assert(out@ =~= cells_start + columns(cell, bit_count as int, 0));
    out.push(horiz);
    out.push(horiz);
    out.push(' ');
    push_padded_right(out, r.name.as_str(), name_width);
    out.push(' ');
    out.push('(');
    let mut bit_text = String::new();
    push_decimal(&mut bit_text, r.span.first as u64);
    push_padded_left(out, bit_text.as_str(), bits_width);
    out.push(')');
    assert(cur_bit == first);
    if val & (1u64 << (cur_bit as u64)) != 0 {
        assert((val >> (first as u64)) & 1u64 == 1u64) by (bit_vector)
            requires
                val & (1u64 << (first as u64)) != 0,
                first < 64,
        ;
        out.push(' ');
        out.push('*');
    } else {
        assert((val >> (first as u64)) & 1u64 != 1u64) by (bit_vector)
            requires
                val & (1u64 << (first as u64)) == 0,
                first < 64,
        ;
    }
    out.push('\n');
    assert(out@ =~= old(out)@ + register_row(
        d.spec_bit_ranges(),
        *r,
        bit_count as int,
        val,
        ascii,
        name_width as int,
        bits_width as int,
    ));
}

} // verus!

//! Groups of described bits of a register held in an unsigned word.

use vstd::prelude::*;

use core::marker::PhantomData;
use core::ops::RangeInclusive;

use crate::spcregs::utils::{binary_ruler, binary_width, spaced_binary};
use crate::word::UnsignedWord;

pub mod register;
pub mod registers;

verus! {

/// The maximum number of bits a group can describe.
pub const MAX_BITCOUNT: usize = 64;

/// Byte order of a bit group.
#[derive(Debug, Clone, Copy, PartialEq, Eq, Structural)]
pub enum ByteOrder {
    LittleEndian,
    BigEndian,
}

/// Kind of a span of bits.
#[derive(Debug, Clone, Copy, PartialEq, Eq, Structural)]
pub enum BitSpanKind {
    Normal,
    ReservedMustBeZero,
    ReservedMustBeOne,
    ReservedUndefined,
    ReservedIgnored,
}

/// A described, inclusive span of bit positions.
#[derive(Debug)]
pub struct BitSpan {
    spans: RangeInclusive<usize>,
    kind: BitSpanKind,
    show_rsvd: bool,
    name: String,
    short: String,
    long: String,
}

impl BitSpan {
    pub fn new(
        spans: RangeInclusive<usize>,
        kind: BitSpanKind,
        show_rsvd: bool,
        name: String,
        short: String,
        long: String,
    ) -> (r: Self)
        ensures
            r.spec_first() == spans@.start,
            r.spec_last() == spans@.end,
            r.spec_is_empty() == (spans@.exhausted || spans@.start > spans@.end),
            r.spec_name() == name@,
            r.spec_short() == short@,
            r.spec_long() == long@,
            r.spec_kind() == kind,
            r.spec_show_rsvd() == show_rsvd,
    {
        BitSpan { spans, kind, show_rsvd, name, short, long }
    }

    /// The first bit of the span.
    pub closed spec fn spec_first(&self) -> usize {
        self.spans@.start
    }

    /// The last bit of the span (inclusive).
    pub closed spec fn spec_last(&self) -> usize {
        self.spans@.end
    }

    /// Whether the span holds no bit position.
    pub closed spec fn spec_is_empty(&self) -> bool {
        self.spans@.exhausted || self.spans@.start > self.spans@.end
    }

    pub closed spec fn spec_name(&self) -> Seq<char> {
        self.name@
    }

    pub closed spec fn spec_short(&self) -> Seq<char> {
        self.short@
    }

    pub closed spec fn spec_long(&self) -> Seq<char> {
        self.long@
    }

    pub closed spec fn spec_kind(&self) -> BitSpanKind {
        self.kind
    }

    pub closed spec fn spec_show_rsvd(&self) -> bool {
        self.show_rsvd
    }
}

/// A group of described bits held in a register of type `T`.
#[derive(Debug)]
pub struct BitGroup<T> {
    name: String,
    arch: String,
    device: String,
    desc: String,
    byte_order: ByteOrder,
    bit_spans: Vec<BitSpan>,
    word: PhantomData<T>,
}

/// The reasons a bit group is refused.
#[derive(Debug, Clone, Copy, PartialEq, Eq, Structural)]
pub enum BitGroupError {
    MissingName,
    MissingArch,
    MissingDevice,
    UnknownArch,
    InvalidBitCount,
    InvalidChunkIndex,
    InvalidChunksLength,
    DuplicateChunkIndex,
    MissingDescription,
    InvalidBitRange,
    OverlappingBitRange,
    MissingBitName,
    MissingBitDescription,
}

impl BitGroupError {
    /// The human-readable text of the error.
    pub open spec fn spec_message(&self) -> Seq<char> {
        match self {
            BitGroupError::MissingName => "missing name"@,
            BitGroupError::MissingArch => "missing architecture"@,
            BitGroupError::MissingDevice => "missing device"@,
            BitGroupError::UnknownArch => "unknown architecture"@,
            BitGroupError::InvalidBitCount => "invalid number of bits"@,
            BitGroupError::InvalidChunkIndex => "invalid index in chunks'"@,
            BitGroupError::InvalidChunksLength => "invalid number of chunks"@,
            BitGroupError::DuplicateChunkIndex => "duplicate index in chunks"@,
            BitGroupError::MissingDescription => "missing description"@,
            BitGroupError::InvalidBitRange => "invalid bit range"@,
            BitGroupError::OverlappingBitRange => "overlapping bit range"@,
            BitGroupError::MissingBitName => "empty bit name"@,
            BitGroupError::MissingBitDescription => "missing bit description"@,
        }
    }

    /// The human-readable text of the error.
    pub fn message(&self) -> (r: &'static str)
        ensures
            r@ == self.spec_message(),
    {
        match self {
            BitGroupError::MissingName => "missing name",
            BitGroupError::MissingArch => "missing architecture",
            BitGroupError::MissingDevice => "missing device",
            BitGroupError::UnknownArch => "unknown architecture",
            BitGroupError::InvalidBitCount => "invalid number of bits",
            BitGroupError::InvalidChunkIndex => "invalid index in chunks'",
            BitGroupError::InvalidChunksLength => "invalid number of chunks",
            BitGroupError::DuplicateChunkIndex => "duplicate index in chunks",
            BitGroupError::MissingDescription => "missing description",
            BitGroupError::InvalidBitRange => "invalid bit range",
            BitGroupError::OverlappingBitRange => "overlapping bit range",
            BitGroupError::MissingBitName => "empty bit name",
            BitGroupError::MissingBitDescription => "missing bit description",
        }
    }
}

/// Whether two non-empty spans share a bit position.
pub open spec fn bit_spans_overlap(a: BitSpan, b: BitSpan) -> bool {
    a.spec_first() <= b.spec_last() && b.spec_first() <= a.spec_last()
}

/// Whether bit position `bit` lies inside the span.
pub open spec fn bit_span_has(span: BitSpan, bit: int) -> bool {
    span.spec_first() <= bit && bit <= span.spec_last()
}

/// The error (if any) that the `i`-th span raises, given that every span
/// before it was accepted.
pub open spec fn bit_span_error(spans: Seq<BitSpan>, i: int, bit_count: int) -> Option<
    BitGroupError,
> {
    let s = spans[i];
    if s.spec_is_empty() || s.spec_last() >= bit_count {
        Some(BitGroupError::InvalidBitRange)
    } else if s.spec_name().len() == 0 {
        Some(BitGroupError::MissingBitName)
    } else if s.spec_short().len() == 0 {
        Some(BitGroupError::MissingBitDescription)
    } else if exists|k: int| 0 <= k < i && #[trigger] bit_spans_overlap(spans[k], s) {
        Some(BitGroupError::OverlappingBitRange)
    } else {
        None
    }
}

/// The first error raised by the first `n` spans, checked in order.
pub open spec fn bit_spans_error(spans: Seq<BitSpan>, n: int, bit_count: int) -> Option<
    BitGroupError,
>
    decreases n,
{
    if n <= 0 {
        None
    } else {
        match bit_spans_error(spans, n - 1, bit_count) {
            Some(e) => Some(e),
            None => bit_span_error(spans, n - 1, bit_count),
        }
    }
}

/// The error (if any) of the bit descriptions of a group of `bit_count`
/// bits.
pub open spec fn bit_group_desc_error(spans: Seq<BitSpan>, bit_count: int) -> Option<
    BitGroupError,
> {
    if spans.len() > 64 {
        Some(BitGroupError::InvalidBitCount)
    } else {
        bit_spans_error(spans, spans.len() as int, bit_count)
    }
}

/// The error (if any) of a group of `bit_count` bits with these spans.
pub open spec fn bit_group_error(spans: Seq<BitSpan>, bit_count: int) -> Option<BitGroupError> {
    if bit_count > 64 {
        Some(BitGroupError::InvalidBitCount)
    } else if spans.len() == 0 {
        Some(BitGroupError::MissingDescription)
    } else {
        bit_group_desc_error(spans, bit_count)
    }
}

/// Once a prefix of the spans raises an error, every longer prefix raises
/// the same error.
proof fn lemma_span_error_persists(spans: Seq<BitSpan>, m: int, n: int, bit_count: int)
    requires
        m <= n,
        bit_spans_error(spans, m, bit_count) is Some,
    ensures
        bit_spans_error(spans, n, bit_count) == bit_spans_error(spans, m, bit_count),
    decreases n - m,
{
    if m < n {
        lemma_span_error_persists(spans, m, n - 1, bit_count);
    }
}

/// The spans of an accepted prefix are non-empty, inside the group, named,
/// described and pairwise disjoint.
pub open spec fn bit_spans_well_formed(spans: Seq<BitSpan>, n: int, bit_count: int) -> bool {
    &&& forall|i: int|
        0 <= i < n ==> {
            &&& !(#[trigger] spans[i]).spec_is_empty()
            &&& spans[i].spec_first() <= spans[i].spec_last()
            &&& spans[i].spec_last() < bit_count
            &&& spans[i].spec_name().len() > 0
            &&& spans[i].spec_short().len() > 0
        }
    &&& forall|i: int, j: int|
        0 <= i < j < n ==> !bit_spans_overlap(#[trigger] spans[i], #[trigger] spans[j])
}

/// The first `n` spans raise no error exactly when they are well formed.
pub proof fn lemma_bit_spans_accepted(spans: Seq<BitSpan>, n: int, bit_count: int)
    requires
        0 <= n <= spans.len(),
    ensures
        bit_spans_error(spans, n, bit_count) is None <==> bit_spans_well_formed(spans, n, bit_count),
    decreases n,
{
    if n > 0 {
        lemma_bit_spans_accepted(spans, n - 1, bit_count);
        let i = n - 1;
        if bit_spans_error(spans, n, bit_count) is None {
            assert(bit_spans_error(spans, i, bit_count) is None);
            assert(bit_span_error(spans, i, bit_count) is None);
            assert forall|k: int| 0 <= k < i implies !bit_spans_overlap(spans[k], spans[i]) by {
                if bit_spans_overlap(spans[k], spans[i]) {
                    assert(exists|k2: int|
                        0 <= k2 < i && #[trigger] bit_spans_overlap(spans[k2], spans[i]));
                }
            }
        }
        if bit_spans_well_formed(spans, n, bit_count) {
            assert(bit_spans_well_formed(spans, i, bit_count));
            assert(!(exists|k: int| 0 <= k < i && #[trigger] bit_spans_overlap(spans[k], spans[i])));
        }
    }
}

/// Checking the spans never finds too many bits.
proof fn lemma_span_errors_not_bit_count(spans: Seq<BitSpan>, n: int, bit_count: int)
    ensures
        bit_spans_error(spans, n, bit_count) != Some(BitGroupError::InvalidBitCount),
    decreases n,
{
    if n > 0 {
        lemma_span_errors_not_bit_count(spans, n - 1, bit_count);
    }
}

/// A group is accepted exactly when its word has at most 64 bits, it
/// describes some bits, and its spans are non-empty, inside the word, named,
/// described and pairwise disjoint: in particular a group may describe every
/// bit of its word with one span per bit. A word of at most 64 bits is
/// refused for too many bits exactly when it has more than 64 spans.
pub proof fn lemma_bit_group_accepted(spans: Seq<BitSpan>, bit_count: int)
    ensures
        bit_group_error(spans, bit_count) is None <==> {
            &&& bit_count <= 64
            &&& 0 < spans.len() <= 64
            &&& bit_spans_well_formed(spans, spans.len() as int, bit_count)
        },
        bit_count <= 64 && spans.len() > 64 ==> bit_group_error(spans, bit_count) == Some(
            BitGroupError::InvalidBitCount,
        ),
        bit_count <= 64 && spans.len() <= 64 ==> bit_group_error(spans, bit_count) != Some(
            BitGroupError::InvalidBitCount,
        ),
{
    lemma_bit_spans_accepted(spans, spans.len() as int, bit_count);
    lemma_span_errors_not_bit_count(spans, spans.len() as int, bit_count);
}

impl<T: UnsignedWord> BitGroup<T> {
    pub fn new(
        name: String,
        arch: String,
        device: String,
        desc: String,
        byte_order: ByteOrder,
        bit_spans: Vec<BitSpan>,
    ) -> (r: Self)
        ensures
            r.spec_name() == name@,
            r.spec_arch() == arch@,
            r.spec_device() == device@,
            r.spec_description() == desc@,
            r.spec_byte_order() == byte_order,
            r.spec_bit_spans() == bit_spans@,
    {
        BitGroup { name, arch, device, desc, byte_order, bit_spans, word: PhantomData }
    }

    pub closed spec fn spec_name(&self) -> Seq<char> {
        self.name@
    }

    pub closed spec fn spec_arch(&self) -> Seq<char> {
        self.arch@
    }

    pub closed spec fn spec_device(&self) -> Seq<char> {
        self.device@
    }

    pub closed spec fn spec_description(&self) -> Seq<char> {
        self.desc@
    }

    pub closed spec fn spec_byte_order(&self) -> ByteOrder {
        self.byte_order
    }

    pub closed spec fn spec_bit_spans(&self) -> Seq<BitSpan> {
        self.bit_spans@
    }

    /// The number of bits of the group: the width of its word type.
    pub open spec fn spec_bit_count(&self) -> nat {
        T::spec_bits()
    }

    /// Checks the group: the word must be at most 64 bits wide, some bits
    /// must be described, and every span must be non-empty, inside the word,
    /// named, described and disjoint from the spans before it.
    pub fn validate(&self) -> (r: Result<(), BitGroupError>)
        ensures
            match bit_group_error(self.spec_bit_spans(), self.spec_bit_count() as int) {
                Some(e) => r == Err::<(), BitGroupError>(e),
                None => r is Ok,
            },
    {
        validate_bit_group(self)
    }
}

/// Checks the bit descriptions of a group of at most 64 bits.
fn validate_bit_group_desc<T: UnsignedWord>(bits: &BitGroup<T>) -> (r: Result<(), BitGroupError>)
    requires
        bits.spec_bit_count() <= 64,
    ensures
        match bit_group_desc_error(bits.spec_bit_spans(), bits.spec_bit_count() as int) {
            Some(e) => r == Err::<(), BitGroupError>(e),
            None => r is Ok,
        },
{
    let bit_count = T::bits();
    let spans = &bits.bit_spans;
    if spans.len() > MAX_BITCOUNT {
        return Err(BitGroupError::InvalidBitCount);
    }
    // used[b] tells whether an earlier span already covers bit position b.
    let mut used: Vec<bool> = Vec::new();
    let mut b: usize = 0;
    while b < bit_count
        invariant
            b <= bit_count,
            used@.len() == b,
            forall|p: int| 0 <= p < b ==> !used@[p],
        decreases bit_count - b,
    {
        used.push(false);
        b = b + 1;
    }
    let mut i: usize = 0;
    while i < spans.len()
        invariant
            bit_count <= 64,
            bit_count == bits.spec_bit_count(),
            spans@ == bits.spec_bit_spans(),
            spans@.len() <= 64,
            i <= spans@.len(),
            used@.len() == bit_count,
            bit_spans_error(spans@, i as int, bit_count as int) is None,
            forall|k: int|
                0 <= k < i ==> (#[trigger] spans@[k]).spec_first() <= spans@[k].spec_last()
                    && spans@[k].spec_last() < bit_count,
            forall|p: int|
                0 <= p < bit_count ==> (used@[p] <==> exists|k: int|
                    0 <= k < i && #[trigger] bit_span_has(spans@[k], p)),
        decreases spans@.len() - i,
    {
        let s = &spans[i];
        proof {
            if bit_span_error(spans@, i as int, bit_count as int) is Some {
                assert(bit_spans_error(spans@, i + 1, bit_count as int) == bit_span_error(
                    spans@,
                    i as int,
                    bit_count as int,
                ));
                lemma_span_error_persists(spans@, i + 1, spans@.len() as int, bit_count as int);
            }
        }
        if crate::range_specs::usize_range_is_empty(&s.spans) || *s.spans.end() >= bit_count {
            return Err(BitGroupError::InvalidBitRange);
        }
        if s.name.as_str().is_empty() {
            return Err(BitGroupError::MissingBitName);
        }
        if s.short.as_str().is_empty() {
            return Err(BitGroupError::MissingBitDescription);
        }
        let first = *s.spans.start();
        let last = *s.spans.end();
        // Look for a bit of this span that an earlier span covers.
        let mut p: usize = first;
        let mut overlap = false;
        while p <= last
            invariant
                first <= p <= last + 1,
                last < bit_count,
                used@.len() == bit_count,
                overlap <==> exists|q: int| first <= q < p && used@[q],
            decreases last + 1 - p,
        {
            if used[p] {
                overlap = true;
            }
            p = p + 1;
        }
        proof {
            let ghost cur = spans@[i as int];
            if overlap {
                let q = choose|q: int| first <= q <= last && used@[q];
                let k = choose|k: int| 0 <= k < i && #[trigger] bit_span_has(spans@[k], q);
                assert(bit_spans_overlap(spans@[k], cur));
            } else {
                assert forall|k: int| 0 <= k < i implies !#[trigger] bit_spans_overlap(
                    spans@[k],
                    cur,
                ) by {
                    if bit_spans_overlap(spans@[k], cur) {
                        let q = if spans@[k].spec_first() <= cur.spec_first() {
                            cur.spec_first() as int
                        } else {
                            spans@[k].spec_first() as int
                        };
                        assert(bit_span_has(spans@[k], q));
                        assert(used@[q]);
                    }
                }
            }
        }
        if overlap {
            return Err(BitGroupError::OverlappingBitRange);
        }
        // Mark the bits of this span as covered.
        let ghost before = used@;
        assert forall|q: int| 0 <= q < bit_count implies (before[q] <==> exists|k: int|
            0 <= k < i && #[trigger] bit_span_has(spans@[k], q)) by {}
        let mut p: usize = first;
        while p <= last
            invariant
                first <= p <= last + 1,
                last < bit_count,
                used@.len() == bit_count,
                before.len() == bit_count,
                forall|q: int|
                    0 <= q < bit_count ==> (used@[q] <==> (before[q] || (first <= q && q < p))),
            decreases last + 1 - p,
        {
            used.set(p, true);
            p = p + 1;
        }
        proof {
            assert forall|q: int|
                0 <= q < bit_count implies (used@[q] <==> exists|k: int|
                    0 <= k < i + 1 && #[trigger] bit_span_has(spans@[k], q)) by {
                if before[q] {
                    let k = choose|k: int| 0 <= k < i && #[trigger] bit_span_has(spans@[k], q);
                    assert(0 <= k < i + 1 && bit_span_has(spans@[k], q));
                } else if first <= q && q <= last {
                    assert(bit_span_has(spans@[i as int], q));
                } else {
                    assert forall|k: int| 0 <= k < i + 1 implies !#[trigger] bit_span_has(
                        spans@[k],
                        q,
                    ) by {
                        if k < i && bit_span_has(spans@[k], q) {
                            assert(before[q]);
                        }
                    }
                }
            }
        }
        i = i + 1;
    }
    Ok(())
}

/// Checks a bit group; see `BitGroup::validate`.
fn validate_bit_group<T: UnsignedWord>(bits: &BitGroup<T>) -> (r: Result<(), BitGroupError>)
    ensures
        match bit_group_error(bits.spec_bit_spans(), bits.spec_bit_count() as int) {
            Some(e) => r == Err::<(), BitGroupError>(e),
            None => r is Ok,
        },
{
    if T::bits() > MAX_BITCOUNT {
        Err(BitGroupError::InvalidBitCount)
    } else if bits.bit_spans.len() == 0 {
        Err(BitGroupError::MissingDescription)
    } else {
        validate_bit_group_desc(bits)
    }
}

/// Formats the number as binary digits with a space (from the right) after
/// every four digits, writing as many digits as the value needs.
pub fn get_binary_string(val: u64) -> (r: String)
    ensures
        r@ == spaced_binary(val, binary_width(val, None)),
{
    crate::spcregs::utils::get_binary_string(val, None)
}

/// Makes a ruler labelling every 8 bits of a binary string of `num_bits`
/// digits; it is empty for fewer than 8 bits.
pub fn get_binary_ruler_string(num_bits: u8) -> (r: String)
    requires
        num_bits <= 64,
    ensures
        r@ == binary_ruler(num_bits as nat),
{
    crate::spcregs::utils::get_binary_ruler_string(num_bits)
}

/// Validates the group and, when it is valid, says so.
pub fn fmt_bit_group<T: UnsignedWord>(bits: &BitGroup<T>) -> (r: Result<String, BitGroupError>)
    ensures
        match bit_group_error(bits.spec_bit_spans(), bits.spec_bit_count() as int) {
            Some(e) => r == Err::<String, BitGroupError>(e),
            None => r matches Ok(s) && s@ == "Validates Okay"@,
        },
{
    validate_bit_group(bits)?;
    Ok(String::from_str("Validates Okay"))
}

} // verus!

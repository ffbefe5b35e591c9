use vstd::prelude::*;

use crate::spcregs::bit_range::{BitRange, BitRangeKind, BitSpan, ByteOrder};
use crate::spcregs::register::MAX_BIT_COUNT;
use crate::text::{
    decimal, pad_left, pad_right, push_decimal, push_padded_left, push_padded_right, push_str,
};

verus! {

/// Whether two spans share at least one bit position.
pub open spec fn spans_overlap(a: BitSpan, b: BitSpan) -> bool {
    a.first <= b.last && b.first <= a.last
}

/// Whether bit position `bit` lies inside `span`.
pub open spec fn span_has(span: BitSpan, bit: int) -> bool {
    span.first <= bit && bit <= span.last
}

/// The error (if any) that the `i`-th bit range raises, given that every
/// range before it was accepted.
pub open spec fn bit_range_error(ranges: Seq<BitRange>, i: int, bit_count: int) -> Option<
    RegisterDescriptorError,
> {
    let r = ranges[i];
    if r.name@.len() == 0 {
        Some(RegisterDescriptorError::MissingBitName)
    } else if r.short@.len() == 0 {
        Some(RegisterDescriptorError::MissingBitRangeDescription)
    } else if r.span.last < r.span.first || r.span.last >= bit_count {
        Some(RegisterDescriptorError::InvalidBitRange)
    } else if exists|k: int| 0 <= k < i && #[trigger] spans_overlap(ranges[k].span, r.span) {
        Some(RegisterDescriptorError::OverlappingBitRange)
    } else if i > 0 && r.span.first < ranges[i - 1].span.first {
        Some(RegisterDescriptorError::InvalidBitRangeOrder)
    } else {
        None
    }
}

/// The first error raised by the first `n` bit ranges, checked in order.
pub open spec fn bit_ranges_error(ranges: Seq<BitRange>, n: int, bit_count: int) -> Option<
    RegisterDescriptorError,
>
    decreases n,
{
    if n <= 0 {
        None
    } else {
        match bit_ranges_error(ranges, n - 1, bit_count) {
            Some(e) => Some(e),
            None => bit_range_error(ranges, n - 1, bit_count),
        }
    }
}

/// The error that describing a register with these values raises, if any.
pub open spec fn descriptor_error(
    arch: Seq<char>,
    device: Seq<char>,
    name: Seq<char>,
    desc: Seq<char>,
    bit_count: int,
    ranges: Seq<BitRange>,
) -> Option<RegisterDescriptorError> {
    if ranges.len() == 0 {
        Some(RegisterDescriptorError::MissingBitRanges)
    } else if bit_count > 64 {
        Some(RegisterDescriptorError::InvalidBitCount)
    } else if arch.len() == 0 {
        Some(RegisterDescriptorError::MissingArch)
    } else if device.len() == 0 {
        Some(RegisterDescriptorError::MissingDevice)
    } else if name.len() == 0 {
        Some(RegisterDescriptorError::MissingName)
    } else if desc.len() == 0 {
        Some(RegisterDescriptorError::MissingDescription)
    } else {
        bit_ranges_error(ranges, ranges.len() as int, bit_count)
    }
}

/// If no range of a prefix raises an error, the ranges of that prefix are
/// well formed, pairwise disjoint and sorted by their first bit.
pub open spec fn ranges_well_formed(ranges: Seq<BitRange>, n: int, bit_count: int) -> bool {
    &&& forall|i: int|
        0 <= i < n ==> {
            &&& (#[trigger] ranges[i]).name@.len() > 0
            &&& ranges[i].short@.len() > 0
            &&& ranges[i].span.first <= ranges[i].span.last
            &&& ranges[i].span.last < bit_count
        }
    &&& forall|i: int, j: int|
        0 <= i < j < n ==> !spans_overlap(#[trigger] ranges[i].span, #[trigger] ranges[j].span)
    &&& forall|i: int, j: int|
        0 <= i < j < n ==> #[trigger] ranges[i].span.last < #[trigger] ranges[j].span.first
}

/// Ranges that are each non-empty, inside the register, named and
/// described, each one starting after the previous one ends.
pub open spec fn ranges_ascending(ranges: Seq<BitRange>, bit_count: int) -> bool {
    &&& forall|i: int|
        0 <= i < ranges.len() ==> {
            &&& (#[trigger] ranges[i]).name@.len() > 0
            &&& ranges[i].short@.len() > 0
            &&& ranges[i].span.first <= ranges[i].span.last
            &&& ranges[i].span.last < bit_count
        }
    &&& forall|i: int| 0 <= i < ranges.len() - 1 ==> #[trigger] ranges[i].span.last < ranges[i + 1].span.first
}

/// In ascending ranges every range ends before any later range starts.
proof fn lemma_ascending_ordered(ranges: Seq<BitRange>, bit_count: int, i: int, j: int)
    requires
        ranges_ascending(ranges, bit_count),
        0 <= i < j < ranges.len(),
    ensures
        ranges[i].span.last < ranges[j].span.first,
    decreases j - i,
{
    assert(ranges[j - 1].span.last < ranges[j].span.first);
    if i < j - 1 {
        lemma_ascending_ordered(ranges, bit_count, i, j - 1);
    }
}

/// Ascending ranges raise no error.
pub proof fn lemma_ascending_accepted(ranges: Seq<BitRange>, n: int, bit_count: int)
    requires
        ranges_ascending(ranges, bit_count),
        0 <= n <= ranges.len(),
    ensures
        bit_ranges_error(ranges, n, bit_count) is None,
    decreases n,
{
    if n > 0 {
        lemma_ascending_accepted(ranges, n - 1, bit_count);
        let i = n - 1;
        assert forall|k: int| 0 <= k < i implies !#[trigger] spans_overlap(ranges[k].span, ranges[i].span) by {
            lemma_ascending_ordered(ranges, bit_count, k, i);
        }
        if i > 0 {
            lemma_ascending_ordered(ranges, bit_count, i - 1, i);
        }
    }
}

/// The bit ranges of a register are accepted exactly when each is named,
/// described, non-empty and inside the register, and each starts after the
/// previous one ends.
pub proof fn lemma_ranges_accepted_iff_ascending(ranges: Seq<BitRange>, bit_count: int)
    ensures
        bit_ranges_error(ranges, ranges.len() as int, bit_count) is None <==> ranges_ascending(
            ranges,
            bit_count,
        ),
{
    if bit_ranges_error(ranges, ranges.len() as int, bit_count) is None {
        lemma_no_error_well_formed(ranges, ranges.len() as int, bit_count);
        assert forall|i: int| 0 <= i < ranges.len() - 1 implies #[trigger] ranges[i].span.last
            < ranges[i + 1].span.first by {
            assert(ranges[i].span.last < ranges[i + 1].span.first);
        }
    }
    if ranges_ascending(ranges, bit_count) {
        lemma_ascending_accepted(ranges, ranges.len() as int, bit_count);
    }
}

/// A register description is accepted exactly when it has some bit ranges,
/// at most 64 bits, a non-empty architecture, device, name and description,
/// and ranges that are each named, described, non-empty and inside the
/// register, each starting after the previous one ends.
pub proof fn lemma_descriptor_accepted(
    arch: Seq<char>,
    device: Seq<char>,
    name: Seq<char>,
    desc: Seq<char>,
    bit_count: int,
    ranges: Seq<BitRange>,
)
    ensures
        descriptor_error(arch, device, name, desc, bit_count, ranges) is None <==> {
            &&& ranges.len() > 0
            &&& bit_count <= 64
            &&& arch.len() > 0
            &&& device.len() > 0
            &&& name.len() > 0
            &&& desc.len() > 0
            &&& ranges_ascending(ranges, bit_count)
        },
{
    lemma_ranges_accepted_iff_ascending(ranges, bit_count);
}

/// A described register: its identity, width, byte order and bit ranges.
#[derive(Debug)]
pub struct RegisterDescriptor {
    arch: String,
    device: String,
    name: String,
    desc: String,
    bit_count: usize,
    byte_order: ByteOrder,
    bit_ranges: Vec<BitRange>,
}

/// The reasons a register description is refused.
#[derive(Debug, PartialEq, Eq, Structural, Copy, Clone)]
pub enum RegisterDescriptorError {
    InvalidBitCount,
    InvalidBitRange,
    InvalidBitRangeOrder,
    MissingArch,
    MissingBitName,
    MissingBitRanges,
    MissingBitRangeDescription,
    MissingDescription,
    MissingDevice,
    MissingName,
    OverlappingBitRange,
    UnknownArch,
}

impl RegisterDescriptorError {
    /// The human-readable text of the error.
    pub open spec fn spec_message(&self) -> Seq<char> {
        match self {
            RegisterDescriptorError::InvalidBitCount => "invalid bit count"@,
            RegisterDescriptorError::InvalidBitRange => "invalid bit range"@,
            RegisterDescriptorError::InvalidBitRangeOrder => "invalid bit range order"@,
            RegisterDescriptorError::MissingArch => "missing architecture"@,
            RegisterDescriptorError::MissingBitName => "empty bit name"@,
            RegisterDescriptorError::MissingBitRanges => "missing bit ranges"@,
            RegisterDescriptorError::MissingBitRangeDescription => "missing bit description"@,
            RegisterDescriptorError::MissingDescription => "missing description"@,
            RegisterDescriptorError::MissingDevice => "missing device"@,
            RegisterDescriptorError::MissingName => "missing name"@,
            RegisterDescriptorError::OverlappingBitRange => "overlapping bit range"@,
            RegisterDescriptorError::UnknownArch => "unknown architecture"@,
        }
    }

    /// The human-readable text of the error.
    pub fn message(&self) -> (r: &'static str)
        ensures
            r@ == self.spec_message(),
    {
        match self {
            RegisterDescriptorError::InvalidBitCount => "invalid bit count",
            RegisterDescriptorError::InvalidBitRange => "invalid bit range",
            RegisterDescriptorError::InvalidBitRangeOrder => "invalid bit range order",
            RegisterDescriptorError::MissingArch => "missing architecture",
            RegisterDescriptorError::MissingBitName => "empty bit name",
            RegisterDescriptorError::MissingBitRanges => "missing bit ranges",
            RegisterDescriptorError::MissingBitRangeDescription => "missing bit description",
            RegisterDescriptorError::MissingDescription => "missing description",
            RegisterDescriptorError::MissingDevice => "missing device",
            RegisterDescriptorError::MissingName => "missing name",
            RegisterDescriptorError::OverlappingBitRange => "overlapping bit range",
            RegisterDescriptorError::UnknownArch => "unknown architecture",
        }
    }
}

/// A bit position covered by both spans, when they overlap.
proof fn lemma_overlap_witness(a: BitSpan, b: BitSpan)
    requires
        spans_overlap(a, b),
        a.first <= a.last,
        b.first <= b.last,
    ensures
        span_has(a, if a.first <= b.first { b.first as int } else { a.first as int }),
        span_has(b, if a.first <= b.first { b.first as int } else { a.first as int }),
{
}

/// The first `n` ranges raise no error exactly when they are well formed.
pub proof fn lemma_no_error_well_formed(ranges: Seq<BitRange>, n: int, bit_count: int)
    requires
        0 <= n <= ranges.len(),
        bit_ranges_error(ranges, n, bit_count) is None,
    ensures
        ranges_well_formed(ranges, n, bit_count),
    decreases n,
{
    if n > 0 {
        lemma_no_error_well_formed(ranges, n - 1, bit_count);
        let i = n - 1;
        assert(bit_range_error(ranges, i, bit_count) is None);
        assert forall|k: int| 0 <= k < i implies !spans_overlap(ranges[k].span, ranges[i].span) by {
            if spans_overlap(ranges[k].span, ranges[i].span) {
                assert(exists|k2: int|
                    0 <= k2 < i && #[trigger] spans_overlap(ranges[k2].span, ranges[i].span));
            }
        }
        if i > 0 {
            assert(ranges[i - 1].span.first <= ranges[i].span.first);
            assert(!spans_overlap(ranges[i - 1].span, ranges[i].span));
            assert(ranges[i - 1].span.last < ranges[i].span.first);
        }
        assert forall|a: int, b: int|
            0 <= a < b < n implies #[trigger] ranges[a].span.last < #[trigger] ranges[b].span.first by {
            if b == i && a < i - 1 {
                assert(ranges[a].span.last < ranges[i - 1].span.first);
            }
        }
    }
}

/// Once a prefix of the ranges raises an error, every longer prefix raises
/// the same error.
proof fn lemma_error_persists(ranges: Seq<BitRange>, m: int, n: int, bit_count: int)
    requires
        m <= n,
        bit_ranges_error(ranges, m, bit_count) is Some,
    ensures
        bit_ranges_error(ranges, n, bit_count) == bit_ranges_error(ranges, m, bit_count),
    decreases n - m,
{
    if m < n {
        lemma_error_persists(ranges, m, n - 1, bit_count);
    }
}

impl RegisterDescriptor {
    /// The register's architecture.
    pub closed spec fn spec_arch(&self) -> Seq<char> {
        self.arch@
    }

    /// The register's device.
    pub closed spec fn spec_device(&self) -> Seq<char> {
        self.device@
    }

    /// The register's name.
    pub closed spec fn spec_name(&self) -> Seq<char> {
        self.name@
    }

    /// The register's description.
    pub closed spec fn spec_description(&self) -> Seq<char> {
        self.desc@
    }

    /// The number of bits in the register.
    pub closed spec fn spec_bit_count(&self) -> nat {
        self.bit_count as nat
    }

    /// The register's byte order.
    pub closed spec fn spec_byte_order(&self) -> ByteOrder {
        self.byte_order
    }

    /// The register's bit ranges, in order.
    pub closed spec fn spec_bit_ranges(&self) -> Seq<BitRange> {
        self.bit_ranges@
    }

    /// Every descriptor that exists was accepted by `new`: it has a non-empty
    /// identity, at most 64 bits, and well-formed, disjoint, sorted ranges.
    #[verifier::type_invariant]
    pub closed spec fn wf(&self) -> bool {
        &&& descriptor_error(
            self.arch@,
            self.device@,
            self.name@,
            self.desc@,
            self.bit_count as int,
            self.bit_ranges@,
        ) is None
        &&& ranges_well_formed(self.bit_ranges@, self.bit_ranges@.len() as int, self.bit_count as int)
        &&& self.bit_ranges@.len() > 0
        &&& self.bit_count <= 64
    }

    /// Describes a register, refusing descriptions that are incomplete, too
    /// wide, or whose bit ranges are invalid, overlapping or out of order.
    pub fn new(
        arch: String,
        device: String,
        name: String,
        desc: String,
        bit_count: usize,
        byte_order: ByteOrder,
        bit_ranges: Vec<BitRange>,
    ) -> (r: Result<Self, RegisterDescriptorError>)
        ensures
            match descriptor_error(arch@, device@, name@, desc@, bit_count as int, bit_ranges@) {
                Some(e) => r == Err::<Self, RegisterDescriptorError>(e),
                None => r matches Ok(d) && {
                    &&& ranges_well_formed(bit_ranges@, bit_ranges@.len() as int, bit_count as int)
                    &&& bit_count <= 64
                    &&& d.spec_arch() == arch@
                    &&& d.spec_device() == device@
                    &&& d.spec_name() == name@
                    &&& d.spec_description() == desc@
                    &&& d.spec_bit_count() == bit_count
                    &&& d.spec_byte_order() == byte_order
                    &&& d.spec_bit_ranges() == bit_ranges@
                },
            },
    {
        if bit_ranges.len() == 0 {
            return Err(RegisterDescriptorError::MissingBitRanges);
        }
        if bit_count > MAX_BIT_COUNT {
            return Err(RegisterDescriptorError::InvalidBitCount);
        }
        if arch.as_str().is_empty() {
            return Err(RegisterDescriptorError::MissingArch);
        }
        if device.as_str().is_empty() {
            return Err(RegisterDescriptorError::MissingDevice);
        }
        if name.as_str().is_empty() {
            return Err(RegisterDescriptorError::MissingName);
        }
        if desc.as_str().is_empty() {
            return Err(RegisterDescriptorError::MissingDescription);
        }
        match check_bit_ranges(&bit_ranges, bit_count) {
            Some(e) => Err(e),
            None => {
                proof {
                    lemma_no_error_well_formed(
                        bit_ranges@,
                        bit_ranges@.len() as int,
                        bit_count as int,
                    );
                }
                Ok(Self { arch, device, name, desc, bit_count, byte_order, bit_ranges })
            },
        }
    }

    pub fn name(&self) -> (r: &str)
        ensures
            r@ == self.spec_name(),
    {
        self.name.as_str()
    }

    pub fn description(&self) -> (r: &str)
        ensures
            r@ == self.spec_description(),
    {
        self.desc.as_str()
    }

    pub fn device(&self) -> (r: &str)
        ensures
            r@ == self.spec_device(),
    {
        self.device.as_str()
    }

    pub fn arch(&self) -> (r: &str)
        ensures
            r@ == self.spec_arch(),
    {
        self.arch.as_str()
    }

    pub fn bit_count(&self) -> (r: usize)
        ensures
            r == self.spec_bit_count(),
            r <= 64,
    {
        proof {
            use_type_invariant(self);
        }
        self.bit_count
    }

    pub fn byte_order(&self) -> (r: ByteOrder)
        ensures
            r == self.spec_byte_order(),
    {
        self.byte_order
    }

    /// The bit ranges: non-empty, inside the register, named, described,
    /// pairwise disjoint and sorted.
    pub fn bit_ranges(&self) -> (r: &Vec<BitRange>)
        ensures
            r@ == self.spec_bit_ranges(),
            r@.len() > 0,
            ranges_well_formed(r@, r@.len() as int, self.spec_bit_count() as int),
            self.spec_bit_count() <= 64,
    {
        proof {
            use_type_invariant(self);
        }
        &self.bit_ranges
    }
}

/// Whether `d` describes the little-endian register `name` (`desc`) of
/// `bit_count` bits of device `device` of architecture `arch`, whose bit
/// ranges are the given rows (span, name, short and long description), each
/// of normal kind and shown.
pub open spec fn describes(
    d: RegisterDescriptor,
    arch: Seq<char>,
    device: Seq<char>,
    name: Seq<char>,
    desc: Seq<char>,
    bit_count: nat,
    rows: Seq<(BitSpan, Seq<char>, Seq<char>, Seq<char>)>,
) -> bool {
    &&& d.spec_arch() == arch
    &&& d.spec_device() == device
    &&& d.spec_name() == name
    &&& d.spec_description() == desc
    &&& d.spec_bit_count() == bit_count
    &&& d.spec_byte_order() == ByteOrder::LittleEndian
    &&& d.spec_bit_ranges().len() == rows.len()
    &&& forall|i: int|
        0 <= i < rows.len() ==> {
            let b = #[trigger] d.spec_bit_ranges()[i];
            &&& b.span == rows[i].0
            &&& b.kind == BitRangeKind::Normal
            &&& b.show
            &&& b.name@ == rows[i].1
            &&& b.short@ == rows[i].2
            &&& b.long@ == rows[i].3
        }
}

/// Describes a little-endian register from rows of normal, shown bit ranges
/// `(first, last, name, short, long)`, given in ascending order.
#[verifier::spinoff_prover]
#[verifier::rlimit(40)]
pub(crate) fn describe(
    arch: &str,
    device: &str,
    name: &str,
    desc: &str,
    bit_count: usize,
    rows: &[(u16, u16, &str, &str, &str)],
) -> (r: RegisterDescriptor)
    requires
        arch@.len() > 0,
        device@.len() > 0,
        name@.len() > 0,
        desc@.len() > 0,
        bit_count <= 64,
        rows@.len() > 0,
        forall|i: int|
            0 <= i < rows@.len() ==> (#[trigger] rows@[i]).0 <= rows@[i].1 && rows@[i].1 < bit_count
                && rows@[i].2@.len() > 0 && rows@[i].3@.len() > 0,
        forall|i: int| 0 <= i < rows@.len() - 1 ==> (#[trigger] rows@[i]).1 < rows@[i + 1].0,
    ensures
        r.spec_arch() == arch@,
        r.spec_device() == device@,
        r.spec_name() == name@,
        r.spec_description() == desc@,
        r.spec_bit_count() == bit_count,
        r.spec_byte_order() == ByteOrder::LittleEndian,
        r.spec_bit_ranges().len() == rows@.len(),
        forall|i: int|
            0 <= i < rows@.len() ==> {
                let b = #[trigger] r.spec_bit_ranges()[i];
                &&& b.span == BitSpan { first: rows@[i].0, last: rows@[i].1 }
                &&& b.kind == BitRangeKind::Normal
                &&& b.show
                &&& b.name@ == rows@[i].2@
                &&& b.short@ == rows@[i].3@
                &&& b.long@ == rows@[i].4@
            },
{
    let mut ranges: Vec<BitRange> = Vec::new();
    let mut i: usize = 0;
    while i < rows.len()
        invariant
            i <= rows@.len(),
            ranges@.len() == i,
            forall|j: int|
                0 <= j < i ==> {
                    let b = #[trigger] ranges@[j];
                    &&& b.span == BitSpan { first: rows@[j].0, last: rows@[j].1 }
                    &&& b.kind == BitRangeKind::Normal
                    &&& b.show
                    &&& b.name@ == rows@[j].2@
                    &&& b.short@ == rows@[j].3@
                    &&& b.long@ == rows@[j].4@
                },
        decreases rows@.len() - i,
    {
        let row = rows[i];
        ranges.push(
            BitRange::new(
                BitSpan::new(row.0, row.1),
                BitRangeKind::Normal,
                true,
                String::from_str(row.2),
                String::from_str(row.3),
                String::from_str(row.4),
            ),
        );
        i = i + 1;
    }
    proof {
        assert(ranges_ascending(ranges@, bit_count as int)) by {
            assert forall|j: int| 0 <= j < ranges@.len() - 1 implies #[trigger] ranges@[j].span.last
                < ranges@[j + 1].span.first by {
                assert(rows@[j].1 < rows@[j + 1].0);
            }
        }
        lemma_ascending_accepted(ranges@, ranges@.len() as int, bit_count as int);
    }
    let ghost rs = ranges@;
    let a = String::from_str(arch);
    let d = String::from_str(device);
    let n = String::from_str(name);
    let t = String::from_str(desc);
    assert(descriptor_error(a@, d@, n@, t@, bit_count as int, rs) is None);
    let r = RegisterDescriptor::new(
        a,
        d,
        n,
        t,
        bit_count,
        ByteOrder::LittleEndian,
        ranges,
    );
    r.unwrap()
}

/// Checks the bit ranges in order against a register of `bit_count` bits and
/// returns the first error found.
#[verifier::spinoff_prover]
fn check_bit_ranges(ranges: &Vec<BitRange>, bit_count: usize) -> (r: Option<
    RegisterDescriptorError,
>)
    requires
        bit_count <= 64,
    ensures
        r == bit_ranges_error(ranges@, ranges@.len() as int, bit_count as int),
{
    // used[b] tells whether an earlier range already covers bit position b.
    let mut used: Vec<bool> = Vec::new();
    let mut b: usize = 0;
    while b < bit_count
        invariant
            b <= bit_count,
            used@.len() == b,
            forall|p: int| 0 <= p < b ==> !used@[p],
        decreases bit_count - b,
    {
        used.push(false);
        b = b + 1;
    }
    let mut i: usize = 0;
    while i < ranges.len()
        invariant
            bit_count <= 64,
            i <= ranges@.len(),
            used@.len() == bit_count,
            bit_ranges_error(ranges@, i as int, bit_count as int) is None,
            forall|p: int|
                0 <= p < bit_count ==> (used@[p] <==> exists|k: int|
                    0 <= k < i && #[trigger] span_has(ranges@[k].span, p)),
            forall|k: int| 0 <= k < i ==> (#[trigger] ranges@[k]).span.last < bit_count,
            forall|k: int| 0 <= k < i ==> (#[trigger] ranges@[k]).span.first <= ranges@[k].span.last,
        decreases ranges@.len() - i,
    {
        let r = &ranges[i];
        proof {
            if bit_range_error(ranges@, i as int, bit_count as int) is Some {
                assert(bit_ranges_error(ranges@, i + 1, bit_count as int) == bit_range_error(
                    ranges@,
                    i as int,
                    bit_count as int,
                ));
                lemma_error_persists(ranges@, i + 1, ranges@.len() as int, bit_count as int);
            }
        }
        if r.name.as_str().is_empty() {
            return Some(RegisterDescriptorError::MissingBitName);
        }
        if r.short.as_str().is_empty() {
            return Some(RegisterDescriptorError::MissingBitRangeDescription);
        }
        if r.span.is_empty() || r.span.last as usize >= bit_count {
            return Some(RegisterDescriptorError::InvalidBitRange);
        }
        let first = r.span.first as usize;
        let last = r.span.last as usize;
        // Look for a bit of this range that an earlier range covers.
        let mut p: usize = first;
        let mut overlap = false;
        while p <= last
            invariant
                first <= p <= last + 1,
                last < bit_count,
                used@.len() == bit_count,
                overlap <==> exists|q: int| first <= q < p && used@[q],
            decreases last + 1 - p,
        {
            if used[p] {
                overlap = true;
            }
            p = p + 1;
        }
        proof {
            let ghost cur = ranges@[i as int].span;
            if overlap {
                let q = choose|q: int| first <= q <= last && used@[q];
                let k = choose|k: int| 0 <= k < i && #[trigger] span_has(ranges@[k].span, q);
                assert(spans_overlap(ranges@[k].span, cur));
            } else {
                assert forall|k: int| 0 <= k < i implies !#[trigger] spans_overlap(
                    ranges@[k].span,
                    cur,
                ) by {
                    if spans_overlap(ranges@[k].span, cur) {
                        lemma_overlap_witness(ranges@[k].span, cur);
                        let q = if ranges@[k].span.first <= cur.first {
                            cur.first as int
                        } else {
                            ranges@[k].span.first as int
                        };
                        assert(span_has(ranges@[k].span, q));
                        assert(used@[q]);
                    }
                }
            }
        }
        if overlap {
            return Some(RegisterDescriptorError::OverlappingBitRange);
        }
        if i > 0 && r.span.first < ranges[i - 1].span.first {
            return Some(RegisterDescriptorError::InvalidBitRangeOrder);
        }
        // Mark the bits of this range as covered.
        let ghost before = used@;
        assert forall|q: int| 0 <= q < bit_count implies (before[q] <==> exists|k: int|
            0 <= k < i && #[trigger] span_has(ranges@[k].span, q)) by {}
        let mut p: usize = first;
        while p <= last
            invariant
                first <= p <= last + 1,
                last < bit_count,
                used@.len() == bit_count,
                before.len() == bit_count,
                forall|q: int|
                    0 <= q < bit_count ==> (used@[q] <==> (before[q] || (first <= q && q < p))),
            decreases last + 1 - p,
        {
            used.set(p, true);
            p = p + 1;
        }
        proof {
            assert forall|q: int|
                0 <= q < bit_count implies (used@[q] <==> exists|k: int|
                    0 <= k < i + 1 && #[trigger] span_has(ranges@[k].span, q)) by {
                if before[q] {
                    let k = choose|k: int| 0 <= k < i && #[trigger] span_has(ranges@[k].span, q);
                    assert(0 <= k < i + 1 && span_has(ranges@[k].span, q));
                } else if first <= q && q <= last {
                    assert(span_has(ranges@[i as int].span, q));
                } else {
                    assert forall|k: int| 0 <= k < i + 1 implies !#[trigger] span_has(
                        ranges@[k].span,
                        q,
                    ) by {
                        if k < i && span_has(ranges@[k].span, q) {
                            assert(before[q]);
                        }
                    }
                }
            }
        }
        i = i + 1;
    }
    None
}

/// The elements of a bit range that are laid out in columns.
#[derive(Debug, PartialEq, Eq, Structural, Copy, Clone)]
pub enum BitRangeElement {
    Bits,
    Name,
    Short,
    Long,
}

/// The separator between the last and the first bit of a range.
pub open spec fn bit_range_sep() -> Seq<char> {
    seq![':']
}

/// The number of bytes of the UTF-8 encoding of `s`, as `str::len`
/// reports it.
pub open spec fn utf8_len(s: Seq<char>) -> nat {
    (vstd::utf8::encode_utf8(s).len() as usize) as nat
}

/// The text of an element of a bit range (empty for the bit positions).
pub open spec fn element_text(r: BitRange, element: BitRangeElement) -> Seq<char> {
    match element {
        BitRangeElement::Name => r.name@,
        BitRangeElement::Short => r.short@,
        BitRangeElement::Long => r.long@,
        BitRangeElement::Bits => seq![],
    }
}

/// The largest UTF-8 length of the element among the first `n` ranges.
pub open spec fn max_element_len(ranges: Seq<BitRange>, n: int, element: BitRangeElement) -> nat
    decreases n,
{
    if n <= 0 {
        0
    } else {
        let rest = max_element_len(ranges, n - 1, element);
        let len = utf8_len(element_text(ranges[n - 1], element));
        if len > rest {
            len
        } else {
            rest
        }
    }
}

/// Whether some range spans more than one bit.
pub open spec fn has_multi_bit_range(ranges: Seq<BitRange>) -> bool {
    exists|i: int| 0 <= i < ranges.len() && #[trigger] ranges[i].span.last > ranges[i].span.first
}

/// The width of the column of an element: for the bit positions, room for
/// `64:64` when some range spans several bits and for `64` otherwise; for
/// the texts, the longest of them in bytes.
pub open spec fn column_width_of(ranges: Seq<BitRange>, element: BitRangeElement) -> nat {
    match element {
        BitRangeElement::Bits => if has_multi_bit_range(ranges) {
            (decimal(64) + bit_range_sep() + decimal(64)).len()
        } else {
            decimal(64).len()
        },
        _ => max_element_len(ranges, ranges.len() as int, element),
    }
}

/// The bit positions of a span: `first` for one bit, `last:first` otherwise.
pub open spec fn bit_pos_text(span: BitSpan) -> Seq<char> {
    if span.last == span.first {
        decimal(span.first as nat)
    } else {
        decimal(span.last as nat) + bit_range_sep() + decimal(span.first as nat)
    }
}

/// The two spaces between columns.
pub open spec fn column_sep() -> Seq<char> {
    seq![' ', ' ']
}

/// One line of a descriptor's text: bit positions and name right-aligned,
/// short description left-aligned, then the long description.
pub open spec fn descriptor_row(r: BitRange, bits_w: int, name_w: int, short_w: int) -> Seq<char> {
    pad_left(bit_pos_text(r.span), bits_w) + column_sep() + pad_left(r.name@, name_w) + column_sep()
        + pad_right(r.short@, short_w) + column_sep() + r.long@ + seq!['\n']
}

/// The lines of the first `n` ranges, the last range first.
pub open spec fn descriptor_rows(ranges: Seq<BitRange>, n: int, bits_w: int, name_w: int, short_w: int) -> Seq<
    char,
>
    decreases n,
{
    if n <= 0 {
        seq![]
    } else {
        descriptor_row(ranges[n - 1], bits_w, name_w, short_w) + descriptor_rows(
            ranges,
            n - 1,
            bits_w,
            name_w,
            short_w,
        )
    }
}

/// The text of a descriptor: one line per bit range, from the highest range
/// down, in aligned columns.
pub open spec fn descriptor_text(ranges: Seq<BitRange>) -> Seq<char> {
    descriptor_rows(
        ranges,
        ranges.len() as int,
        column_width_of(ranges, BitRangeElement::Bits) as int,
        column_width_of(ranges, BitRangeElement::Name) as int,
        column_width_of(ranges, BitRangeElement::Short) as int,
    )
}

/// Appends the bit positions of a span.
fn push_bit_pos(s: &mut String, span: BitSpan)
    ensures
        final(s)@ == old(s)@ + bit_pos_text(span),
{
    if span.last == span.first {
        push_decimal(s, span.first as u64);
    } else {
        push_decimal(s, span.last as u64);
        s.push(':');
        push_decimal(s, span.first as u64);
        assert(s@ =~= old(s)@ + bit_pos_text(span));
    }
}

impl RegisterDescriptor {
    /// Whether some bit range holds bit position `bit`.
    pub open spec fn spec_has_bit(&self, bit: int) -> bool {
        exists|k: int| 0 <= k < self.spec_bit_ranges().len() && #[trigger] span_has(self.spec_bit_ranges()[k].span, bit)
    }

    /// Whether some bit range holds bit position `bit`.
    pub fn has_bit(&self, bit: usize) -> (r: bool)
        ensures
            r == self.spec_has_bit(bit as int),
    {
        let ranges = &self.bit_ranges;
        let mut k: usize = 0;
        while k < ranges.len()
            invariant
                ranges@ == self.spec_bit_ranges(),
                k <= ranges@.len(),
                forall|j: int| 0 <= j < k ==> !#[trigger] span_has(ranges@[j].span, bit as int),
            decreases ranges@.len() - k,
        {
            let span = ranges[k].span;
            if span.first as usize <= bit && bit <= span.last as usize {
                assert(span_has(ranges@[k as int].span, bit as int));
                return true;
            }
            k = k + 1;
        }
        false
    }

    /// The width of the column in which the element is laid out.
    pub fn column_width(&self, element: BitRangeElement) -> (r: usize)
        ensures
            r == column_width_of(self.spec_bit_ranges(), element),
    {
        let ranges = &self.bit_ranges;
        match element {
            BitRangeElement::Bits => {
                let mut has_ranges = false;
                let mut k: usize = 0;
                while k < ranges.len()
                    invariant
                        k <= ranges@.len(),
                        has_ranges <==> exists|j: int|
                            0 <= j < k && #[trigger] ranges@[j].span.last > ranges@[j].span.first,
                    decreases ranges@.len() - k,
                {
                    if ranges[k].span.last > ranges[k].span.first {
                        has_ranges = true;
                    }
                    k = k + 1;
                }
                let mut text = String::new();
                push_decimal(&mut text, MAX_BIT_COUNT as u64);
                if has_ranges {
                    text.push(':');
                    push_decimal(&mut text, MAX_BIT_COUNT as u64);
                }
                let w = text.as_str().unicode_len();
                assert(has_ranges == has_multi_bit_range(ranges@));
                if has_ranges {
                    assert(text@ =~= decimal(64) + bit_range_sep() + decimal(64));
                } else {
                    assert(text@ =~= decimal(64));
                }
                w
            },
            _ => {
                let mut col_len: usize = 0;
                let mut k: usize = 0;
                while k < ranges.len()
                    invariant
                        element != BitRangeElement::Bits,
                        k <= ranges@.len(),
                        col_len == max_element_len(ranges@, k as int, element),
                    decreases ranges@.len() - k,
                {
                    let r = &ranges[k];
                    let len = match element {
                        BitRangeElement::Name => r.name.as_str().len(),
                        BitRangeElement::Short => r.short.as_str().len(),
                        _ => r.long.as_str().len(),
                    };
                    if len > col_len {
                        col_len = len;
                    }
                    k = k + 1;
                }
                col_len
            },
        }
    }

    /// The descriptor as text: one line per bit range, from the highest range
    /// down, with the bit positions and the name right-aligned, the short
    /// description left-aligned, and the long description last.
    pub fn to_text(&self) -> (r: String)
        ensures
            r@ == descriptor_text(self.spec_bit_ranges()),
    {
        let name_width = self.column_width(BitRangeElement::Name);
        let short_width = self.column_width(BitRangeElement::Short);
        let bits_width = self.column_width(BitRangeElement::Bits);
        let ranges = &self.bit_ranges;
        let mut out = String::new();
        let mut i: usize = ranges.len();
        while i > 0
            invariant
                i <= ranges@.len(),
                ranges@ == self.spec_bit_ranges(),
                name_width == column_width_of(ranges@, BitRangeElement::Name),
                short_width == column_width_of(ranges@, BitRangeElement::Short),
                bits_width == column_width_of(ranges@, BitRangeElement::Bits),
                out@ + descriptor_rows(ranges@, i as int, bits_width as int, name_width as int, short_width as int)
                    == descriptor_rows(ranges@, ranges@.len() as int, bits_width as int, name_width as int, short_width as int),
            decreases i,
        {
            i = i - 1;
            let r = &ranges[i];
            let ghost before = out@;
            let mut pos = String::new();
            push_bit_pos(&mut pos, r.span);
            push_padded_left(&mut out, pos.as_str(), bits_width);
            push_str(&mut out, "  ");
            push_padded_left(&mut out, r.name.as_str(), name_width);
            push_str(&mut out, "  ");
            push_padded_right(&mut out, r.short.as_str(), short_width);
            push_str(&mut out, "  ");
            push_str(&mut out, r.long.as_str());
            out.push('\n');
            proof {
                reveal_strlit("  ");
                assert(out@ =~= before + descriptor_row(*r, bits_width as int, name_width as int, short_width as int));
                assert(out@ + descriptor_rows(ranges@, i as int, bits_width as int, name_width as int, short_width as int)
                    =~= before + descriptor_rows(ranges@, i + 1, bits_width as int, name_width as int, short_width as int));
            }
        }
        assert(out@ =~= descriptor_text(self.spec_bit_ranges()));
        out
    }
}

} // verus!

use vstd::prelude::*;

verus! {

/// Byte order of a register.
#[derive(Debug, PartialEq, Eq, Structural, Copy, Clone)]
pub enum ByteOrder {
    LittleEndian,
    BigEndian,
}

/// Kind of a range of bits in a register.
#[derive(Debug, PartialEq, Eq, Structural, Copy, Clone)]
pub enum BitRangeKind {
    Normal,
    ReservedMustBeZero,
    ReservedMustBeOne,
    ReservedUndefined,
    ReservedIgnored,
}

/// An inclusive span of bit positions `first..=last`.
#[derive(Debug, PartialEq, Eq, Structural, Copy, Clone)]
pub struct BitSpan {
    pub first: u16,
    pub last: u16,
}

impl BitSpan {
    pub fn new(first: u16, last: u16) -> (r: Self)
        ensures
            r.first == first,
            r.last == last,
    {
        Self { first, last }
    }

    /// Whether `item` lies within the span.
    pub fn contains(&self, item: &u16) -> (r: bool)
        ensures
            r == (self.first <= *item && *item <= self.last),
    {
        *item >= self.first && *item <= self.last
    }

    /// Whether the span holds no bit at all (its last bit precedes its first).
    pub fn is_empty(&self) -> (r: bool)
        ensures
            r == (self.last < self.first),
    {
        self.last < self.first
    }
}

/// A described range of bits within a register.
#[derive(Debug)]
pub struct BitRange {
    pub span: BitSpan,
    pub kind: BitRangeKind,
    pub show: bool,
    pub name: String,
    pub short: String,
    pub long: String,
}

impl BitRange {
    pub fn new(
        span: BitSpan,
        kind: BitRangeKind,
        show: bool,
        name: String,
        short: String,
        long: String,
    ) -> (r: Self)
        ensures
            r.span == span,
            r.kind == kind,
            r.show == show,
            r.name@ == name@,
            r.short@ == short@,
            r.long@ == long@,
    {
        Self { span, kind, show, name, short, long }
    }
}

impl PartialEq for BitRange {
    fn eq(&self, other: &Self) -> (r: bool) {
        self.span == other.span && self.kind == other.kind && self.show == other.show
            && self.name == other.name && self.short == other.short && self.long == other.long
    }
}

impl vstd::std_specs::cmp::PartialEqSpecImpl for BitRange {
    open spec fn obeys_eq_spec() -> bool {
        true
    }

    open spec fn eq_spec(&self, other: &Self) -> bool {
        &&& self.span == other.span
        &&& self.kind == other.kind
        &&& self.show == other.show
        &&& self.name@ == other.name@
        &&& self.short@ == other.short@
        &&& self.long@ == other.long@
    }
}

} // verus!

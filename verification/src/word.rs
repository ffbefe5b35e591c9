//! The unsigned integer types a register value can be held in.

use vstd::prelude::*;

verus! {

/// An unsigned integer type of at most 64 bits that holds register values.
pub trait UnsignedWord: Copy {
    /// The width of the type in bits.
    spec fn spec_bits() -> nat;

    /// The value as a mathematical integer.
    spec fn spec_value(&self) -> nat;

    /// The width of the type in bits (`BITS` of the type).
    fn bits() -> (r: usize)
        ensures
            r == Self::spec_bits(),
            1 <= r <= 64,
    ;

    /// The value widened to `u64`.
    fn to_u64(self) -> (r: u64)
        ensures
            r == self.spec_value(),
    ;
}

impl UnsignedWord for u8 {
    open spec fn spec_bits() -> nat {
        8
    }

    open spec fn spec_value(&self) -> nat {
        *self as nat
    }

    fn bits() -> (r: usize) {
        8
    }

    fn to_u64(self) -> (r: u64) {
        self as u64
    }
}

impl UnsignedWord for u16 {
    open spec fn spec_bits() -> nat {
        16
    }

    open spec fn spec_value(&self) -> nat {
        *self as nat
    }

    fn bits() -> (r: usize) {
        16
    }

    fn to_u64(self) -> (r: u64) {
        self as u64
    }
}

impl UnsignedWord for u32 {
    open spec fn spec_bits() -> nat {
        32
    }

    open spec fn spec_value(&self) -> nat {
        *self as nat
    }

    fn bits() -> (r: usize) {
        32
    }

    fn to_u64(self) -> (r: u64) {
        self as u64
    }
}

impl UnsignedWord for u64 {
    open spec fn spec_bits() -> nat {
        64
    }

    open spec fn spec_value(&self) -> nat {
        *self as nat
    }

    fn bits() -> (r: usize) {
        64
    }

    fn to_u64(self) -> (r: u64) {
        self
    }
}

} // verus!

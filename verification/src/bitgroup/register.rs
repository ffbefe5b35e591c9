use vstd::prelude::*;

use crate::spcregs::register_descriptor::RegisterDescriptor;
use crate::word::UnsignedWord;

verus! {

/// A register whose value, when it has one, is held in a word of type `T`.
pub struct Register<T> {
    value: Option<T>,
    descriptor: RegisterDescriptor,
}

/// The reasons a register cannot be made.
#[derive(Debug, PartialEq, Eq, Structural, Copy, Clone)]
pub enum RegisterError {
    InvalidBitCount,
}

impl RegisterError {
    /// The human-readable text of the error.
    pub open spec fn spec_message(&self) -> Seq<char> {
        match self {
            RegisterError::InvalidBitCount => "invalid bit count"@,
        }
    }

    /// The human-readable text of the error.
    pub fn message(&self) -> (r: &'static str)
        ensures
            r@ == self.spec_message(),
    {
        match self {
            RegisterError::InvalidBitCount => "invalid bit count",
        }
    }
}

impl<T: UnsignedWord> Register<T> {
    /// Makes a register without a value; the word type must have at least as
    /// many bits as the descriptor describes.
    pub fn new(descriptor: RegisterDescriptor) -> (r: Result<Self, RegisterError>)
        ensures
            T::spec_bits() < descriptor.spec_bit_count() ==> r == Err::<Self, RegisterError>(
                RegisterError::InvalidBitCount,
            ),
            T::spec_bits() >= descriptor.spec_bit_count() ==> (r matches Ok(reg) && reg.spec_value()
                is None && reg.spec_descriptor() == descriptor),
    {
        if Self::bit_capacity() < descriptor.bit_count() {
            Err(RegisterError::InvalidBitCount)
        } else {
            Ok(Self { value: None, descriptor })
        }
    }

    pub closed spec fn spec_value(&self) -> Option<T> {
        self.value
    }

    pub closed spec fn spec_descriptor(&self) -> RegisterDescriptor {
        self.descriptor
    }

    /// Sets (or clears, with `None`) the register's value.
    pub fn set(&mut self, value: Option<T>)
        ensures
            final(self).spec_value() == value,
            final(self).spec_descriptor() == old(self).spec_descriptor(),
    {
        self.value = value;
    }

    /// The number of bits the word type holds.
    fn bit_capacity() -> (r: usize)
        ensures
            r == T::spec_bits(),
    {
        T::bits()
    }
}

} // verus!

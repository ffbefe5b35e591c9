//! The bit-group registers of the console, looked up by name.

use vstd::prelude::*;

use std::collections::BTreeMap;

use crate::bitgroup::BitGroup;

verus! {

/// A bit group held in a 64-bit or a 32-bit register.
pub enum BitRegister {
    Reg64(BitGroup<u64>),
    Reg32(BitGroup<u32>),
}

/// Bit-group registers by name.
pub struct Registers {
    registers: BTreeMap<String, BitRegister>,
}

impl Registers {
    /// No registers.
    pub fn new() -> (r: Self)
        ensures
            r.spec_registers().len() == 0,
    {
        Self { registers: BTreeMap::new() }
    }

    pub closed spec fn spec_registers(&self) -> Map<String, BitRegister> {
        self.registers@
    }
}

} // verus!

use vstd::prelude::*;

use std::collections::BTreeMap;

use crate::bitgroup::BitGroup;

verus! {

/// A bit group held in a 64-bit or a 32-bit register.
pub enum BitRegister {
    Reg64(BitGroup<u64>),
    Reg32(BitGroup<u32>),
}

/// Named bit-group registers, and the value being examined.
pub struct Registers {
    registers: BTreeMap<String, BitRegister>,
    value: Option<u64>,
}

impl Registers {
    /// No registers and no value.
    pub fn new() -> (r: Self)
        ensures
            r.spec_registers().len() == 0,
            r.spec_value() is None,
    {
        Self { registers: BTreeMap::new(), value: None }
    }

    pub closed spec fn spec_registers(&self) -> Map<String, BitRegister> {
        self.registers@
    }

    pub closed spec fn spec_value(&self) -> Option<u64> {
        self.value
    }

    /// Sets the value being examined.
    pub fn set_value(&mut self, value: u64)
        ensures
            final(self).spec_value() == Some(value),
            final(self).spec_registers() == old(self).spec_registers(),
    {
        self.value = Some(value);
    }

    /// Clears the value being examined.
    pub fn clear_value(&mut self)
        ensures
            final(self).spec_value() is None,
            final(self).spec_registers() == old(self).spec_registers(),
    {
        self.value = None;
    }
}

} // verus!

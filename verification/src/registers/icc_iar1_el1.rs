//! Interrupt Controller Interrupt Acknowledge Register 1.

use crate::fields::{field_read_u32, lemma_fields_u32};
use vstd::prelude::*;

verus! {

/// The contents of the register.
#[derive(Clone, Copy, PartialEq, Eq, Debug, Default, Structural)]
pub struct Reg {
    /// The register as it was read or as it is to be written.
    pub value: u32,
}

impl Reg {
    /// The register with the given contents.
    pub fn new(value: u32) -> (r: Self)
        ensures
            r.value == value,
    {
        Reg { value }
    }

    /// The contents of the register.
    pub fn get(&self) -> (r: u32)
        ensures
            r == self.value,
    {
        self.value
    }

    /// Replaces the contents of the register.
    pub fn set(&mut self, value: u32)
        ensures
            final(self).value == value,
    {
        self.value = value;
    }

    /// The INTID of the signaled interrupt. These are the lowest 24 bits of the register.
    pub fn get_pending_interrupt(&self) -> (r: u32)
        ensures
            r == self.value & 0xffffff,
    {
        proof {
            lemma_fields_u32(self.value);
        }
        field_read_u32(0xffffff, 0, self.value)
    }
}

} // verus!

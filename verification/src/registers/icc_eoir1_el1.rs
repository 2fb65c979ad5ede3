//! Interrupt Controller End Of Interrupt Register 1: a PE writes to this register to inform
//! the CPU interface that it has completed the processing of the specified Group 1 interrupt.

use crate::fields::{field_val_u32, lemma_fields_u32};
use vstd::prelude::*;

verus! {

/// The contents of the register.
#[derive(Clone, Copy, PartialEq, Eq, Debug, Default, Structural)]
pub struct Reg {
    /// The register as it was read or as it is to be written.
    pub value: u32,
}

impl Reg {
    /// The register with the given contents.
    pub fn new(value: u32) -> (r: Self)
        ensures
            r.value == value,
    {
        Reg { value }
    }

    /// The contents of the register.
    pub fn get(&self) -> (r: u32)
        ensures
            r == self.value,
    {
        self.value
    }

    /// Replaces the contents of the register.
    pub fn set(&mut self, value: u32)
        ensures
            final(self).value == value,
    {
        self.value = value;
    }

    /// Writes the register anew, with its lowest 24 bits set to those of `irq_num` and every
    /// other bit clear.
    pub fn mark_completed(&mut self, irq_num: u32)
        ensures
            final(self).value == irq_num & 0xffffff,
    {
        proof {
            lemma_fields_u32(irq_num);
        }
        self.value = field_val_u32(0xffffff, 0, irq_num);
    }
}

} // verus!

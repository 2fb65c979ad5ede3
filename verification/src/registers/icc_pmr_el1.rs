//! Interrupt Controller Interrupt Priority Mask Register.

use crate::fields::{field_read_u32, field_val_u32, lemma_fields_u32};
use vstd::prelude::*;

verus! {

/// The contents of the register.
#[derive(Clone, Copy, PartialEq, Eq, Debug, Default, Structural)]
pub struct Reg {
    /// The register as it was read or as it is to be written.
    pub value: u32,
}

impl Reg {
    /// The register with the given contents.
    pub fn new(value: u32) -> (r: Self)
        ensures
            r.value == value,
    {
        Reg { value }
    }

    /// The contents of the register.
    pub fn get(&self) -> (r: u32)
        ensures
            r == self.value,
    {
        self.value
    }

    /// Replaces the contents of the register.
    pub fn set(&mut self, value: u32)
        ensures
            final(self).value == value,
    {
        self.value = value;
    }

    /// The priority mask level for the CPU interface. These are the lowest 8 bits of the register.
    pub fn get_priority(&self) -> (r: u32)
        ensures
            r == self.value & 0xff,
    {
        proof {
            lemma_fields_u32(self.value);
        }
        field_read_u32(0xff, 0, self.value)
    }

    /// Writes the register anew, with its lowest 8 bits set to those of `priority` and every
    /// other bit clear.
    pub fn set_priority(&mut self, priority: u32)
        ensures
            final(self).value == priority & 0xff,
    {
        proof {
            lemma_fields_u32(priority);
        }
        self.value = field_val_u32(0xff, 0, priority);
    }
}

} // verus!

//! Interrupt Controller System Register Enable register (EL1).

use crate::fields::{field_read_u32, field_val_u32, lemma_fields_u32};
use vstd::prelude::*;

verus! {

/// The contents of the register.
#[derive(Clone, Copy, PartialEq, Eq, Debug, Default, Structural)]
pub struct Reg {
    /// The register as it was read or as it is to be written.
    pub value: u32,
}

impl Reg {
    /// The register with the given contents.
    pub fn new(value: u32) -> (r: Self)
        ensures
            r.value == value,
    {
        Reg { value }
    }

    /// The contents of the register.
    pub fn get(&self) -> (r: u32)
        ensures
            r == self.value,
    {
        self.value
    }

    /// Replaces the contents of the register.
    pub fn set(&mut self, value: u32)
        ensures
            final(self).value == value,
    {
        self.value = value;
    }

    /// Whether the system register interface is enabled. This is bit 0 of the register.
    pub fn get_sre(&self) -> (r: bool)
        ensures
            r == (self.value & 0x1 != 0),
    {
        proof {
            lemma_fields_u32(self.value);
        }
        field_read_u32(0x1, 0, self.value) == 1
    }

    /// Writes the register anew, with bit 0 set to `sre` and every other bit clear.
    pub fn set_sre(&mut self, sre: bool)
        ensures
            final(self).value == if sre {
                0x1u32
            } else {
                0u32
            },
    {
        proof {
            lemma_fields_u32(0);
        }
        let bit: u32 = if sre {
            1
        } else {
            0
        };
        self.value = field_val_u32(0x1, 0, bit);
    }
}

} // verus!

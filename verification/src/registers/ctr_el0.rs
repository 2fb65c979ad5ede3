//! Cache Type Register
//!
//! Provides information about the architecture of the caches.

use crate::fields::field_read;
use vstd::prelude::*;

verus! {

/// The contents of the register.
#[derive(Clone, Copy, PartialEq, Eq, Debug, Default, Structural)]
pub struct Reg {
    /// The register as it was read.
    pub value: u64,
}

impl Reg {
    /// The register with the given contents.
    pub fn new(value: u64) -> (r: Self)
        ensures
            r.value == value,
    {
        Reg { value }
    }

    /// The contents of the register.
    pub fn get(&self) -> (r: u64)
        ensures
            r == self.value,
    {
        self.value
    }

    /// Log2 of the number of words in the smallest cache line of all the data caches and
    /// unified caches that are controlled by the PE: bits 16 to 19 of the register.
    pub fn get_dminline(&self) -> (r: u64)
        ensures
            r == (self.value >> 16) & 0xf,
    {
        let value: u64 = self.value;
        assert((value & (0xfu64 << 16u64)) >> 16u64 == (value >> 16) & 0xf) by (bit_vector);
        field_read(0xf, 16, value)
    }

    /// Log2 of the number of words in the smallest cache line of all the instruction caches
    /// that are controlled by the PE: bits 0 to 3 of the register.
    pub fn get_iminline(&self) -> (r: u64)
        ensures
            r == self.value & 0xf,
    {
        let value: u64 = self.value;
        assert((value & (0xfu64 << 0u64)) >> 0u64 == value & 0xf) by (bit_vector);
        field_read(0xf, 0, value)
    }
}

} // verus!

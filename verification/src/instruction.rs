//! The instructions that the library asks its caller to execute, and what it computes
//! from identification registers.

use vstd::prelude::*;

verus! {

/// The observers that have to see the effect of a barrier, and the accesses that it orders.
#[derive(Clone, Copy, PartialEq, Eq, Debug, Structural)]
pub enum Shareability {
    /// The full system, all accesses (`SY`).
    FullSystem,
    /// The inner shareable domain, all accesses (`ISH`).
    InnerShareable,
    /// The inner shareable domain, stores only (`ISHST`).
    InnerShareableStore,
    /// The executing core only, all accesses (`NSH`).
    NonShareable,
    /// The executing core only, stores only (`NSHST`).
    NonShareableStore,
}

/// One instruction for the caller to execute.
#[derive(Clone, Copy, PartialEq, Eq, Debug, Structural)]
pub enum Instruction {
    /// Data memory barrier.
    Dmb(Shareability),
    /// Data synchronization barrier.
    Dsb(Shareability),
    /// Instruction synchronization barrier.
    Isb,
    /// Invalidate all stage 1 translations used at EL1, in the inner shareable domain
    /// (`tlbi vmalle1is`).
    TlbiVmalle1is,
    /// Invalidate all stage 1 translations used at EL1, on the executing core
    /// (`tlbi vmalle1`).
    TlbiVmalle1,
    /// Invalidate the translations of the page with the given number, for all address space
    /// identifiers, in the inner shareable domain (`tlbi vaae1is`).
    TlbiVaae1is(u64),
    /// Translate the given address as a stage 1 read at EL1 (`at s1e1r`).
    AtS1e1r(u64),
    /// Wait for an interrupt.
    Wfi,
}

/// The number of the executing core in its cluster: the two lowest bits of the
/// multiprocessor affinity register.
pub fn cpuid(mpidr_el1: u64) -> (r: usize)
    ensures
        r == mpidr_el1 % 4,
{
    let low = mpidr_el1 & 3;
    assert(low == mpidr_el1 % 4) by (bit_vector)
        requires
            low == mpidr_el1 & 3,
    ;
    crate::bits::u64_to_usize(low)
}

/// The instruction that stops the processor until the next interrupt arrives.
pub fn halt() -> (r: Instruction)
    ensures
        r == Instruction::Wfi,
{
    Instruction::Wfi
}

} // verus!

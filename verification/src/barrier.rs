//! Barriers, each for the observers and accesses that its argument names.

use crate::instruction::{Instruction, Shareability};
use vstd::prelude::*;

verus! {

/// A barrier argument that a data memory barrier accepts.
pub trait Dmb {
    /// The observers and accesses that the argument names.
    spec fn shareability(&self) -> Shareability;

    /// The data memory barrier for this argument.
    fn __dmb(&self) -> (r: Instruction)
        ensures
            r == Instruction::Dmb(self.shareability()),
    ;
}

/// A barrier argument that a data synchronization barrier accepts.
pub trait Dsb {
    /// The observers and accesses that the argument names.
    spec fn shareability(&self) -> Shareability;

    /// The data synchronization barrier for this argument.
    fn __dsb(&self) -> (r: Instruction)
        ensures
            r == Instruction::Dsb(self.shareability()),
    ;
}

/// A barrier argument that an instruction synchronization barrier accepts.
pub trait Isb {
    /// The instruction synchronization barrier for this argument.
    fn __isb(&self) -> (r: Instruction)
        ensures
            r == Instruction::Isb,
    ;
}

/// The full system.
#[derive(Copy, Clone)]
pub struct SY;

/// The inner shareable domain.
#[derive(Copy, Clone)]
pub struct ISH;

/// Stores in the inner shareable domain.
#[derive(Copy, Clone)]
pub struct ISHST;

impl Dmb for SY {
    open spec fn shareability(&self) -> Shareability {
        Shareability::FullSystem
    }

    fn __dmb(&self) -> (r: Instruction) {
        Instruction::Dmb(Shareability::FullSystem)
    }
}

impl Dsb for SY {
    open spec fn shareability(&self) -> Shareability {
        Shareability::FullSystem
    }

    fn __dsb(&self) -> (r: Instruction) {
        Instruction::Dsb(Shareability::FullSystem)
    }
}

impl Dmb for ISH {
    open spec fn shareability(&self) -> Shareability {
        Shareability::InnerShareable
    }

    fn __dmb(&self) -> (r: Instruction) {
        Instruction::Dmb(Shareability::InnerShareable)
    }
}

impl Dsb for ISH {
    open spec fn shareability(&self) -> Shareability {
        Shareability::InnerShareable
    }

    fn __dsb(&self) -> (r: Instruction) {
        Instruction::Dsb(Shareability::InnerShareable)
    }
}

impl Dmb for ISHST {
    open spec fn shareability(&self) -> Shareability {
        Shareability::InnerShareableStore
    }

    fn __dmb(&self) -> (r: Instruction) {
        Instruction::Dmb(Shareability::InnerShareableStore)
    }
}

impl Dsb for ISHST {
    open spec fn shareability(&self) -> Shareability {
        Shareability::InnerShareableStore
    }

    fn __dsb(&self) -> (r: Instruction) {
        Instruction::Dsb(Shareability::InnerShareableStore)
    }
}

impl Isb for SY {
    fn __isb(&self) -> (r: Instruction) {
        Instruction::Isb
    }
}

/// The data memory barrier for the given argument.
pub fn dmb<A: Dmb>(arg: A) -> (r: Instruction)
    ensures
        r == Instruction::Dmb(arg.shareability()),
{
    arg.__dmb()
}

/// The data synchronization barrier for the given argument.
pub fn dsb<A: Dsb>(arg: A) -> (r: Instruction)
    ensures
        r == Instruction::Dsb(arg.shareability()),
{
    arg.__dsb()
}

/// The instruction synchronization barrier for the given argument.
pub fn isb<A: Isb>(arg: A) -> (r: Instruction)
    ensures
        r == Instruction::Isb,
{
    arg.__isb()
}

} // verus!

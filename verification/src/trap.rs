//! The registers that are saved when a trap is taken.

use vstd::prelude::*;

verus! {

/// Saved registers on a trap.
#[derive(Debug, Default, Clone, Copy, Eq, PartialEq)]
pub struct UserContext {
    /// Trap num: Source and Kind
    pub trap_num: usize,
    /// Reserved for internal use
    pub __reserved: usize,
    /// Exception Link Register, elr_el1
    pub elr: usize,
    /// Saved Process Status Register, spsr_el1
    pub spsr: usize,
    /// Stack Pointer, sp_el0
    pub sp: usize,
    /// Software Thread ID Register, tpidr_el0
    pub tpidr: usize,
    /// General registers
    /// Must be last in this struct
    pub general: GeneralRegs,
}

/// General registers
#[derive(Debug, Default, Clone, Copy, Eq, PartialEq)]
pub struct GeneralRegs {
    pub x1: usize,
    pub x2: usize,
    pub x3: usize,
    pub x4: usize,
    pub x5: usize,
    pub x6: usize,
    pub x7: usize,
    pub x8: usize,
    pub x9: usize,
    pub x10: usize,
    pub x11: usize,
    pub x12: usize,
    pub x13: usize,
    pub x14: usize,
    pub x15: usize,
    pub x16: usize,
    pub x17: usize,
    pub x18: usize,
    pub x19: usize,
    pub x20: usize,
    pub x21: usize,
    pub x22: usize,
    pub x23: usize,
    pub x24: usize,
    pub x25: usize,
    pub x26: usize,
    pub x27: usize,
    pub x28: usize,
    pub x29: usize,
    /// For alignment.
    pub __reserved: usize,
    pub x30: usize,
    /// Stands last for the ease of the code that saves the registers.
    pub x0: usize,
}

impl UserContext {
    /// Get number of syscall
    pub fn get_syscall_num(&self) -> (r: usize)
        ensures
            r == self.general.x8,
    {
        self.general.x8
    }

    /// Get return value of syscall
    pub fn get_syscall_ret(&self) -> (r: usize)
        ensures
            r == self.general.x0,
    {
        self.general.x0
    }

    /// Set return value of syscall
    pub fn set_syscall_ret(&mut self, ret: usize)
        ensures
            *final(self) == (UserContext {
                general: GeneralRegs { x0: ret, ..old(self).general },
                ..*old(self)
            }),
    {
        self.general.x0 = ret;
    }

    /// Get syscall args
    pub fn get_syscall_args(&self) -> (r: [usize; 6])
        ensures
            r@ == seq![
                self.general.x0,
                self.general.x1,
                self.general.x2,
                self.general.x3,
                self.general.x4,
                self.general.x5,
            ],
    {
        let r = [
            self.general.x0,
            self.general.x1,
            self.general.x2,
            self.general.x3,
            self.general.x4,
            self.general.x5,
        ];
        assert(r@ =~= seq![
            self.general.x0,
            self.general.x1,
            self.general.x2,
            self.general.x3,
            self.general.x4,
            self.general.x5,
        ]);
        r
    }

    /// Set instruction pointer
    pub fn set_ip(&mut self, ip: usize)
        ensures
            *final(self) == (UserContext { elr: ip, ..*old(self) }),
    {
        self.elr = ip;
    }

    /// Set stack pointer
    pub fn set_sp(&mut self, sp: usize)
        ensures
            *final(self) == (UserContext { sp, ..*old(self) }),
    {
        self.sp = sp;
    }

    /// Get stack pointer
    pub fn get_sp(&self) -> (r: usize)
        ensures
            r == self.sp,
    {
        self.sp
    }

    /// Set tls pointer
    pub fn set_tls(&mut self, tls: usize)
        ensures
            *final(self) == (UserContext { tpidr: tls, ..*old(self) }),
    {
        self.tpidr = tls;
    }
}

/// Trap frame of kernel interrupt
#[derive(Debug, Default, Clone, Copy)]
pub struct TrapFrame {
    /// Trap num: Source and Kind
    pub trap_num: usize,
    /// Reserved for internal use
    pub __reserved: usize,
    /// Exception Link Register, elr_el1
    pub elr: usize,
    /// Saved Process Status Register, spsr_el1
    pub spsr: usize,
    /// Stack Pointer, sp_el1
    pub sp: usize,
    /// Software Thread ID Register, tpidr_el1
    pub tpidr: usize,
    /// General registers
    /// Must be last in this struct
    pub general: GeneralRegs,
}

} // verus!

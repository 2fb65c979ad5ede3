//! Bounded integers: an index into a translation table and the offsets inside a page.

use vstd::prelude::*;

verus! {

/// A 9-bit index into a translation table.
#[derive(Clone, Copy, PartialEq, Eq, PartialOrd, Ord, Hash, Debug)]
pub struct PageTableIndex(u16);

impl PageTableIndex {
    #[verifier::type_invariant]
    spec fn inv(self) -> bool {
        self.0 < 512
    }

    /// The index as a number.
    pub closed spec fn value(self) -> u16 {
        self.0
    }

    /// Creates an index. The value must be below 512.
    pub fn new(index: u16) -> (r: Self)
        requires
            index < 512,
        ensures
            r.value() == index,
    {
        PageTableIndex(index)
    }

    /// Creates an index from the lowest nine bits of `index`.
    pub fn new_truncate(index: u16) -> (r: Self)
        ensures
            r.value() == index % 512,
    {
        PageTableIndex(index % 512)
    }

    /// The index as a `u16`, below 512.
    pub fn as_u16(self) -> (r: u16)
        ensures
            r == self.value(),
            r < 512,
    {
        proof {
            use_type_invariant(self);
        }
        self.0
    }

    /// The index as a `u64`, below 512.
    pub fn as_u64(self) -> (r: u64)
        ensures
            r == self.value(),
            r < 512,
    {
        proof {
            use_type_invariant(self);
        }
        self.0 as u64
    }

    /// The index as a `usize`, below 512.
    pub fn as_usize(self) -> (r: usize)
        ensures
            r == self.value(),
            r < 512,
    {
        proof {
            use_type_invariant(self);
        }
        self.0 as usize
    }
}

/// A 12-bit offset into a 4 KiB page.
#[derive(Clone, Copy, PartialEq, Eq, PartialOrd, Ord, Hash, Debug)]
pub struct PageOffset(u16);

impl PageOffset {
    #[verifier::type_invariant]
    spec fn inv(self) -> bool {
        self.0 < 4096
    }

    /// The offset as a number.
    pub closed spec fn value(self) -> u16 {
        self.0
    }

    /// Creates an offset. The value must be below 4096.
    pub fn new(offset: u16) -> (r: Self)
        requires
            offset < 4096,
        ensures
            r.value() == offset,
    {
        PageOffset(offset)
    }

    /// The offset as a `u64`, below 4096.
    pub fn as_u64(self) -> (r: u64)
        ensures
            r == self.value(),
            r < 4096,
    {
        proof {
            use_type_invariant(self);
        }
        self.0 as u64
    }
}

/// A 21-bit offset into a 2 MiB page.
#[derive(Clone, Copy, PartialEq, Eq, PartialOrd, Ord, Hash, Debug)]
pub struct LargePageOffset(u32);

impl LargePageOffset {
    #[verifier::type_invariant]
    spec fn inv(self) -> bool {
        self.0 < 0x20_0000
    }

    /// The offset as a number.
    pub closed spec fn value(self) -> u32 {
        self.0
    }

    /// Creates an offset. The value must be below 2 MiB.
    pub fn new(offset: u32) -> (r: Self)
        requires
            offset < 0x20_0000,
        ensures
            r.value() == offset,
    {
        LargePageOffset(offset)
    }

    /// The offset as a `u64`, below 2 MiB.
    pub fn as_u64(self) -> (r: u64)
        ensures
            r == self.value(),
            r < 0x20_0000,
    {
        proof {
            use_type_invariant(self);
        }
        self.0 as u64
    }
}

} // verus!

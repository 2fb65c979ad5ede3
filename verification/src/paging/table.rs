//! Translation tables and their entries.

use super::frame::Frame;
use super::{lemma_size_is_power_of_two, PageSize, Size4KiB};
use crate::addr::{spec_align_down, PhysAddr};
use crate::fields::{field_value, field_value_sum};
use crate::index::PageTableIndex;
use vstd::prelude::*;

verus! {

/// The bits of an entry that hold the output address: bits 12 to 47.
pub const ADDR_MASK: u64 = 0x0000_ffff_ffff_f000;

/// The bits of an entry that hold the memory attributes: the shareability field (bits 8 and
/// 9) and the attribute index (bits 2 to 4).
pub const MEMORY_ATTR_MASK: u64 = 0x0000_0000_0000_031c;

/// The bits of an entry that hold flags.
pub const FLAGS_MASK: u64 = 0xfff8_0000_0000_0cc3;

/// The flags of a translation table entry.
#[derive(Clone, Copy, PartialEq, Eq, Hash, Debug, Structural)]
pub struct PageTableFlags {
    /// The flags, each at its place in an entry.
    pub bits: u64,
}

impl PageTableFlags {
    /// Identifies whether the descriptor is valid.
    pub fn valid() -> (r: Self)
        ensures
            r.bits == 0x1,
    {
        PageTableFlags { bits: 0x1 }
    }

    /// The descriptor type: clear for a block, set for a table or a page.
    pub fn table_or_page() -> (r: Self)
        ensures
            r.bits == 0x2,
    {
        PageTableFlags { bits: 0x2 }
    }

    /// Access permission: accessible at EL0.
    pub fn ap_el0() -> (r: Self)
        ensures
            r.bits == 0x40,
    {
        PageTableFlags { bits: 0x40 }
    }

    /// Access permission: read-only.
    pub fn ap_ro() -> (r: Self)
        ensures
            r.bits == 0x80,
    {
        PageTableFlags { bits: 0x80 }
    }

    /// Access flag.
    pub fn af() -> (r: Self)
        ensures
            r.bits == 0x400,
    {
        PageTableFlags { bits: 0x400 }
    }

    /// Not global.
    pub fn ng() -> (r: Self)
        ensures
            r.bits == 0x800,
    {
        PageTableFlags { bits: 0x800 }
    }

    /// Dirty bit modifier.
    pub fn dbm() -> (r: Self)
        ensures
            r.bits == 0x8000000000000,
    {
        PageTableFlags { bits: 0x8000000000000 }
    }

    /// The entry is one of a contiguous set of entries.
    pub fn contiguous() -> (r: Self)
        ensures
            r.bits == 0x10000000000000,
    {
        PageTableFlags { bits: 0x10000000000000 }
    }

    /// Privileged execute-never.
    pub fn pxn() -> (r: Self)
        ensures
            r.bits == 0x20000000000000,
    {
        PageTableFlags { bits: 0x20000000000000 }
    }

    /// Unprivileged execute-never.
    pub fn uxn() -> (r: Self)
        ensures
            r.bits == 0x40000000000000,
    {
        PageTableFlags { bits: 0x40000000000000 }
    }

    /// Software dirty bit.
    pub fn dirty() -> (r: Self)
        ensures
            r.bits == 0x80000000000000,
    {
        PageTableFlags { bits: 0x80000000000000 }
    }

    /// Software swapped bit.
    pub fn swapped() -> (r: Self)
        ensures
            r.bits == 0x100000000000000,
    {
        PageTableFlags { bits: 0x100000000000000 }
    }

    /// Software writable shared bit, for copy on write.
    pub fn writable_shared() -> (r: Self)
        ensures
            r.bits == 0x200000000000000,
    {
        PageTableFlags { bits: 0x200000000000000 }
    }

    /// Software read-only shared bit, for copy on write.
    pub fn readonly_shared() -> (r: Self)
        ensures
            r.bits == 0x400000000000000,
    {
        PageTableFlags { bits: 0x400000000000000 }
    }

    /// Privileged execute-never for table descriptors.
    pub fn pxn_table() -> (r: Self)
        ensures
            r.bits == 0x800000000000000,
    {
        PageTableFlags { bits: 0x800000000000000 }
    }

    /// Execute-never for table descriptors.
    pub fn xn_table() -> (r: Self)
        ensures
            r.bits == 0x1000000000000000,
    {
        PageTableFlags { bits: 0x1000000000000000 }
    }

    /// Access permission for table descriptors: no access at EL0.
    pub fn ap_no_el0_table() -> (r: Self)
        ensures
            r.bits == 0x2000000000000000,
    {
        PageTableFlags { bits: 0x2000000000000000 }
    }

    /// Access permission for table descriptors: read-only.
    pub fn ap_ro_table() -> (r: Self)
        ensures
            r.bits == 0x4000000000000000,
    {
        PageTableFlags { bits: 0x4000000000000000 }
    }

    /// Non-secure for table descriptors.
    pub fn ns_table() -> (r: Self)
        ensures
            r.bits == 0x8000000000000000,
    {
        PageTableFlags { bits: 0x8000000000000000 }
    }

    /// No flag.
    pub fn empty() -> (r: Self)
        ensures
            r.bits == 0,
    {
        PageTableFlags { bits: 0 }
    }

    /// Every flag.
    pub fn all() -> (r: Self)
        ensures
            r.bits == FLAGS_MASK,
    {
        PageTableFlags { bits: FLAGS_MASK }
    }

    /// The flags among `bits`; bits that are no flag are dropped.
    pub fn from_bits_truncate(bits: u64) -> (r: Self)
        ensures
            r.bits == bits & FLAGS_MASK,
    {
        PageTableFlags { bits: bits & FLAGS_MASK }
    }

    /// The flags as they stand in an entry.
    pub fn bits(&self) -> (r: u64)
        ensures
            r == self.bits,
    {
        self.bits
    }

    /// Whether every flag of `other` is set.
    pub open spec fn spec_contains(&self, other: Self) -> bool {
        self.bits & other.bits == other.bits
    }

    /// Whether every flag of `other` is set.
    #[verifier::when_used_as_spec(spec_contains)]
    pub fn contains(&self, other: Self) -> (r: bool)
        ensures
            r == self.spec_contains(other),
    {
        self.bits & other.bits == other.bits
    }

    /// The flags of both.
    pub fn union(self, other: Self) -> (r: Self)
        ensures
            r.bits == self.bits | other.bits,
    {
        PageTableFlags { bits: self.bits | other.bits }
    }

    /// The flags of an entry that points to a table of the next level.
    pub fn default_table() -> (r: Self)
        ensures
            r.bits == 3,
    {
        let r = Self::valid().union(Self::table_or_page());
        assert(1u64 | 2u64 == 3u64) by (bit_vector);
        r
    }
}

impl core::ops::BitOr<PageTableFlags> for PageTableFlags {
    type Output = PageTableFlags;

    fn bitor(self, rhs: PageTableFlags) -> (r: PageTableFlags) {
        PageTableFlags { bits: self.bits | rhs.bits }
    }
}

impl vstd::std_specs::ops::BitOrSpecImpl<PageTableFlags> for PageTableFlags {
    open spec fn obeys_bitor_spec() -> bool {
        true
    }

    open spec fn bitor_req(self, rhs: PageTableFlags) -> bool {
        true
    }

    open spec fn bitor_spec(self, rhs: PageTableFlags) -> PageTableFlags {
        PageTableFlags { bits: self.bits | rhs.bits }
    }
}

/// The memory attributes of an entry: a shareability and an index into the memory attribute
/// indirection register, each at its place in an entry.
#[derive(Clone, Copy, PartialEq, Eq, Debug, Structural)]
pub struct PageTableAttribute {
    /// The bits that the attribute covers.
    pub mask: u64,
    /// The value of those bits.
    pub value: u64,
}

impl PageTableAttribute {
    /// The attribute that holds `value` in the field of the given mask and shift. The shift
    /// must be below 64.
    pub fn new(mask: u64, shift: usize, value: u64) -> (r: Self)
        requires
            shift < 64,
        ensures
            r.mask == mask << (shift as u64),
            r.value == (value & mask) << (shift as u64),
    {
        let (mask, value) = field_value(mask, shift, value);
        PageTableAttribute { mask, value }
    }

    /// The attribute that sets the fields of both.
    pub fn combine(self, other: Self) -> (r: Self)
        ensures
            r.mask == self.mask | other.mask,
            r.value == (self.value & self.mask) | (other.value & other.mask),
    {
        let (mask, value) = field_value_sum((self.mask, self.value), (other.mask, other.value));
        PageTableAttribute { mask, value }
    }
}

/// Why an entry does not decode to the frame of a next-level table.
#[derive(Clone, Copy, PartialEq, Eq, Debug, Structural)]
pub enum FrameError {
    /// The entry is not valid, so it isn't currently mapped to a frame.
    FrameNotPresent,
    /// The entry is a block: it maps memory itself and points to no table.
    HugeFrame,
}

/// A 64-bit translation table entry.
#[derive(Clone, Copy, PartialEq, Eq, Debug, Structural)]
pub struct PageTableEntry {
    /// The descriptor as the hardware reads it.
    pub entry: u64,
}

impl PageTableEntry {
    /// Whether the entry is zero.
    pub open spec fn spec_is_unused(&self) -> bool {
        self.entry == 0
    }

    /// Whether the valid bit is set.
    pub open spec fn is_valid(self) -> bool {
        self.entry & 1 == 1
    }

    /// Whether the entry is a block: the table-or-page bit is clear.
    pub open spec fn spec_is_block(&self) -> bool {
        self.entry & 2 == 0
    }

    /// The output address that the entry holds.
    pub open spec fn spec_addr(&self) -> PhysAddr {
        PhysAddr(self.entry & ADDR_MASK)
    }

    /// What the entry decodes to when a table of the next level is expected.
    pub open spec fn spec_frame(&self) -> Result<Frame<Size4KiB>, FrameError> {
        if !self.is_valid() {
            Err(FrameError::FrameNotPresent)
        } else if self.spec_is_block() {
            Err(FrameError::HugeFrame)
        } else {
            Ok(Frame::spec_containing(self.spec_addr()))
        }
    }

    /// The entry that holds the given address, flags and attribute.
    pub open spec fn spec_encode(
        addr: PhysAddr,
        flags: PageTableFlags,
        attr: PageTableAttribute,
    ) -> PageTableEntry {
        PageTableEntry { entry: addr.value() | flags.bits | attr.value }
    }

    /// The valid flag and the table-or-page flag of the entry are the two lowest bits.
    pub proof fn lemma_flag_bits(self)
        ensures
            ((self.entry & FLAGS_MASK) & 1 == 1) == self.is_valid(),
            ((self.entry & FLAGS_MASK) & 2 == 2) == !self.spec_is_block(),
    {
        let entry: u64 = self.entry;
        assert(((entry & 0xfff8_0000_0000_0cc3u64) & 1u64 == 1u64) == (entry & 1 == 1) && ((entry
            & 0xfff8_0000_0000_0cc3u64) & 2u64 == 2u64) == !(entry & 2 == 0)) by (bit_vector);
    }

    /// Creates an unused entry.
    pub fn new() -> (r: Self)
        ensures
            r.entry == 0,
    {
        PageTableEntry { entry: 0 }
    }

    /// Returns whether this entry is zero.
    #[verifier::when_used_as_spec(spec_is_unused)]
    pub fn is_unused(&self) -> (r: bool)
        ensures
            r == self.spec_is_unused(),
    {
        self.entry == 0
    }

    /// Sets this entry to zero.
    pub fn set_unused(&mut self)
        ensures
            final(self).entry == 0,
    {
        self.entry = 0;
    }

    /// Returns the flags of this entry.
    pub fn flags(&self) -> (r: PageTableFlags)
        ensures
            r.bits == self.entry & FLAGS_MASK,
    {
        PageTableFlags::from_bits_truncate(self.entry)
    }

    /// Returns the physical address mapped by this entry, might be zero.
    #[verifier::when_used_as_spec(spec_addr)]
    pub fn addr(&self) -> (r: PhysAddr)
        ensures
            r == self.spec_addr(),
    {
        PhysAddr::new(self.entry & ADDR_MASK)
    }

    /// Returns the memory attribute fields of this entry.
    pub fn attr(&self) -> (r: PageTableAttribute)
        ensures
            r.mask == MEMORY_ATTR_MASK,
            r.value == self.entry & MEMORY_ATTR_MASK,
    {
        let r = PageTableAttribute::new(MEMORY_ATTR_MASK, 0, self.entry);
        let entry: u64 = self.entry;
        assert(0x31cu64 << 0u64 == 0x31cu64 && (entry & 0x31cu64) << 0u64 == entry & 0x31cu64)
            by (bit_vector);
        r
    }

    /// Returns whether this entry is mapped to a block.
    #[verifier::when_used_as_spec(spec_is_block)]
    pub fn is_block(&self) -> (r: bool)
        ensures
            r == self.spec_is_block(),
    {
        proof {
            self.lemma_flag_bits();
        }
        !self.flags().contains(PageTableFlags::table_or_page())
    }

    /// Returns the physical frame of the next-level table that this entry points to.
    ///
    /// Returns the following errors:
    ///
    /// - `FrameError::FrameNotPresent` if the entry is not valid.
    /// - `FrameError::HugeFrame` if the entry is a block (for a block the `addr` function
    ///   must be used)
    #[verifier::when_used_as_spec(spec_frame)]
    pub fn frame(&self) -> (r: Result<Frame<Size4KiB>, FrameError>)
        ensures
            r == self.spec_frame(),
    {
        proof {
            self.lemma_flag_bits();
        }
        if !self.flags().contains(PageTableFlags::valid()) {
            Err(FrameError::FrameNotPresent)
        } else if self.is_block() {
            Err(FrameError::HugeFrame)
        } else {
            Ok(Frame::containing_address(self.addr()))
        }
    }

    /// Map the entry to the specified physical address with the specified flags and memory
    /// attribute.
    pub fn set_addr(&mut self, addr: PhysAddr, flags: PageTableFlags, attr: PageTableAttribute)
        ensures
            *final(self) == Self::spec_encode(addr, flags, attr),
    {
        self.entry = addr.as_u64() | flags.bits() | attr.value;
    }

    /// Map the entry to the specified physical frame with the specified flags and memory
    /// attribute.
    pub fn set_frame(
        &mut self,
        frame: Frame<Size4KiB>,
        flags: PageTableFlags,
        attr: PageTableAttribute,
    )
        ensures
            *final(self) == Self::spec_encode(frame.start(), flags, attr),
    {
        self.set_addr(frame.start_address(), flags, attr);
    }

    /// Map the entry to the block of size `S` that contains `addr`, with the specified flags
    /// and memory attribute.
    pub fn set_block<S: PageSize>(
        &mut self,
        addr: PhysAddr,
        flags: PageTableFlags,
        attr: PageTableAttribute,
    )
        ensures
            *final(self) == Self::spec_encode(
                PhysAddr(spec_align_down(addr.value(), S::SIZE) as u64),
                flags,
                attr,
            ),
    {
        proof {
            lemma_size_is_power_of_two::<S>();
        }
        self.set_addr(addr.align_down(S::SIZE), flags, attr);
    }

    /// Sets the flags of this entry.
    pub fn modify_flags(&mut self, flags: PageTableFlags)
        ensures
            final(self).entry == (old(self).entry & !FLAGS_MASK) | flags.bits,
    {
        self.entry = (self.entry & !FLAGS_MASK) | flags.bits();
    }

    /// Sets the memory attribute fields of this entry.
    pub fn modify_attr(&mut self, attr: PageTableAttribute)
        ensures
            final(self).entry == (old(self).entry & !MEMORY_ATTR_MASK) | attr.value,
    {
        self.entry = (self.entry & !MEMORY_ATTR_MASK) | attr.value;
    }
}

/// A translation table: 512 entries.
#[derive(Clone, PartialEq, Eq, Debug)]
pub struct PageTable {
    entries: [PageTableEntry; 512],
}

/// The entries of a table that holds nothing.
pub open spec fn empty_entries() -> Seq<PageTableEntry> {
    Seq::new(512, |i: int| PageTableEntry { entry: 0 })
}

impl PageTable {
    /// The 512 entries of the table.
    pub closed spec fn view(&self) -> Seq<PageTableEntry> {
        self.entries@
    }

    /// A table always has 512 entries.
    pub broadcast proof fn lemma_len(self)
        ensures
            #[trigger] self@.len() == 512,
    {
    }

    /// Creates an empty page table.
    pub fn new() -> (r: Self)
        ensures
            r@ == empty_entries(),
    {
        let unused = PageTableEntry { entry: 0 };
        let entries: [PageTableEntry; 512] = [unused;512];
        assert forall|i: int| 0 <= i < 512 implies entries@[i] == unused by {
            assert(vstd::array::spec_array_fill_for_copy_type::<PageTableEntry, 512>(unused)@[i]
                == unused);
        }
        let r = PageTable { entries };
        assert(r@ =~= empty_entries());
        r
    }

    /// Clears all entries.
    pub fn clear(&mut self)
        ensures
            final(self)@ == empty_entries(),
    {
        let mut i: usize = 0;
        while i < 512
            invariant
                i <= 512,
                forall|j: int| 0 <= j < i ==> (#[trigger] self.entries@[j]).entry == 0,
            decreases 512 - i,
        {
            self.entries[i].set_unused();
            i += 1;
        }
        assert(self@ =~= empty_entries());
    }

    /// The entry at `index`.
    pub fn index(&self, index: PageTableIndex) -> (r: &PageTableEntry)
        ensures
            *r == self@[index.value() as int],
    {
        &self.entries[index.as_usize()]
    }

    /// The entry at `index`, to be changed in place.
    pub fn index_mut(&mut self, index: PageTableIndex) -> (r: &mut PageTableEntry)
        ensures
            *r == old(self)@[index.value() as int],
            final(self)@ == old(self)@.update(index.value() as int, *final(r)),
    {
        &mut self.entries[index.as_usize()]
    }
}

} // verus!

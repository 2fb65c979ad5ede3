//! Virtual and physical addresses.

use crate::bits::{bit_range, get_bits, u64_to_usize, usize_to_u64};
use crate::index::{LargePageOffset, PageOffset, PageTableIndex};
use vstd::arithmetic::power2::pow2;
use vstd::bits::{lemma_u64_low_bits_mask_is_mod, low_bits_mask};
use vstd::prelude::*;

verus! {

/// The size of a 4 KiB page in bytes.
pub const PAGE_SIZE_4KIB: u64 = 0x0000_1000;

/// The size of a 2 MiB page in bytes.
pub const PAGE_SIZE_2MIB: u64 = 0x0020_0000;

/// The size of a 1 GiB page in bytes.
pub const PAGE_SIZE_1GIB: u64 = 0x4000_0000;

/// `align` is one of the 64 powers of two that a `u64` can hold.
pub open spec fn is_power_of_two(align: u64) -> bool {
    exists|n: nat| n < 64 && align == #[trigger] pow2(n)
}

/// The greatest multiple of `align` that is not above `addr`.
pub open spec fn spec_align_down(addr: u64, align: u64) -> int {
    addr - addr % align
}

/// The smallest multiple of `align` that is not below `addr`.
pub open spec fn spec_align_up(addr: u64, align: u64) -> int {
    if addr % align == 0 {
        addr as int
    } else {
        addr - addr % align + align
    }
}

/// Below a power of two, masking and taking the remainder are the same.
pub proof fn lemma_mask_is_mod(addr: u64, align: u64)
    requires
        is_power_of_two(align),
    ensures
        align > 0,
        addr & ((align - 1) as u64) == addr % align,
        addr & !((align - 1) as u64) == addr - addr % align,
        addr | ((align - 1) as u64) == addr - addr % align + align - 1,
{
    let n = choose|n: nat| n < 64 && align == #[trigger] pow2(n);
    vstd::arithmetic::power2::lemma_pow2_pos(n);
    lemma_u64_low_bits_mask_is_mod(addr, n);
    assert(low_bits_mask(n) == align - 1);
    let m = (align - 1) as u64;
    assert((addr & !m) + (addr & m) == addr) by (bit_vector);
    assert((addr | m) == (addr & !m) + m) by (bit_vector);
}

/// Rounding down to a power of two gives a multiple of it.
pub proof fn lemma_align_down(addr: u64, align: u64)
    requires
        is_power_of_two(align),
    ensures
        align > 0,
        0 <= spec_align_down(addr, align) <= addr,
        spec_align_down(addr, align) % (align as int) == 0,
        addr % align == 0 <==> spec_align_down(addr, align) == addr,
{
    lemma_mask_is_mod(addr, align);
    vstd::arithmetic::div_mod::lemma_fundamental_div_mod(addr as int, align as int);
    vstd::arithmetic::div_mod::lemma_mod_multiples_basic(addr as int / align as int, align as int);
    assert(align as int * (addr as int / align as int) == (addr as int / align as int)
        * align as int) by (nonlinear_arith);
}

/// Align address downwards.
///
/// Returns the greatest x with alignment `align` so that x <= addr. The alignment must be
/// a power of 2.
pub fn align_down(addr: u64, align: u64) -> (r: u64)
    requires
        is_power_of_two(align),
    ensures
        r == spec_align_down(addr, align),
        r % align == 0,
{
    proof {
        lemma_mask_is_mod(addr, align);
        lemma_align_down(addr, align);
    }
    addr & !(align - 1)
}

/// Align address upwards.
///
/// Returns the smallest x with alignment `align` so that x >= addr. The alignment must be
/// a power of 2, and the result must fit in 64 bits.
pub fn align_up(addr: u64, align: u64) -> (r: u64)
    requires
        is_power_of_two(align),
        spec_align_up(addr, align) <= u64::MAX,
    ensures
        r == spec_align_up(addr, align),
{
    proof {
        lemma_mask_is_mod(addr, align);
    }
    let align_mask = align - 1;
    if addr & align_mask == 0 {
        addr
    } else {
        (addr | align_mask) + 1
    }
}

#[derive(Clone, Copy, Debug)]
pub enum VirtAddrRange {
    /// 0x0000000000000000 to 0x0000FFFFFFFFFFFF
    Bottom,
    /// 0xFFFF000000000000 to 0xFFFFFFFFFFFFFFFF.
    Top,
}

impl VirtAddrRange {
    /// Returns the address offset
    pub fn as_offset(&self) -> (r: u64)
        ensures
            r == match *self {
                VirtAddrRange::Bottom => 0u64,
                VirtAddrRange::Top => 0xFFFF_0000_0000_0000u64,
            },
    {
        match self {
            VirtAddrRange::Bottom => 0,
            VirtAddrRange::Top => 0xFFFF_0000_0000_0000,
        }
    }
}

/// Bits 48 to 63 of `addr` are all 0 or all 1.
pub open spec fn is_canonical(addr: u64) -> bool {
    addr >> 48 == 0 || addr >> 48 == 0xffff
}

/// A 64-bit virtual address.
#[derive(Clone, Copy, PartialEq, Eq, PartialOrd, Ord, Hash, Debug, Structural)]
pub struct VirtAddr(pub u64);

impl VirtAddr {
    /// The address as a number.
    pub open spec fn value(self) -> u64 {
        self.0
    }

    /// Creates an address without checking it.
    pub fn new(addr: u64) -> (r: Self)
        ensures
            r.value() == addr,
    {
        VirtAddr(addr)
    }

    /// Creates an address if `addr` is a valid one.
    pub fn try_new(addr: u64) -> (r: Option<Self>)
        ensures
            is_canonical(addr) ==> r.is_some() && r.unwrap().value() == addr,
            !is_canonical(addr) ==> r.is_none(),
    {
        let top = get_bits(addr, 48, 64);
        assert(bit_range(addr, 48, 64) == addr >> 48) by (bit_vector);
        if top == 0 || top == 0xffff {
            Some(VirtAddr(addr))
        } else {
            None
        }
    }

    /// Creates an address that points to `0`.
    pub fn zero() -> (r: Self)
        ensures
            r.value() == 0,
    {
        VirtAddr(0)
    }

    #[verifier::when_used_as_spec(value)]
    pub fn as_u64(self) -> (r: u64)
        ensures
            r == self.value(),
    {
        self.0
    }

    pub fn is_zero(self) -> (r: bool)
        ensures
            r == (self.value() == 0),
    {
        self.0 == 0
    }

    /// Creates a virtual address from the address that a pointer holds.
    pub fn from_ptr(ptr: usize) -> (r: Self)
        ensures
            r.value() == ptr,
    {
        Self::new(usize_to_u64(ptr))
    }

    /// The address as the number that a pointer to it holds.
    pub fn as_ptr(self) -> (r: usize)
        ensures
            r == self.value(),
    {
        u64_to_usize(self.as_u64())
    }

    /// The address as the number that a mutable pointer to it holds.
    pub fn as_mut_ptr(self) -> (r: usize)
        ensures
            r == self.value(),
    {
        self.as_ptr()
    }

    /// Offset within the 4 KiB page.
    pub fn page_offset(self) -> (r: PageOffset)
        ensures
            r.value() == self.value() % 4096,
    {
        let addr: u64 = self.0;
        let low = addr & (PAGE_SIZE_4KIB - 1);
        assert(low == addr % 4096 && low < 4096) by (bit_vector)
            requires
                low == addr & 0xfffu64,
        ;
        PageOffset::new(low as u16)
    }

    /// Offset within the 2 MiB page.
    pub fn large_page_offset(self) -> (r: LargePageOffset)
        ensures
            r.value() == self.value() % 0x20_0000,
    {
        let addr: u64 = self.0;
        let low = addr & (PAGE_SIZE_2MIB - 1);
        assert(low == addr % 0x20_0000 && low < 0x20_0000) by (bit_vector)
            requires
                low == addr & 0x1f_ffffu64,
        ;
        LargePageOffset::new(low as u32)
    }

    /// The range that the address lies in, if it is canonical.
    pub open spec fn spec_va_range(self) -> Option<VirtAddrRange> {
        if self.value() >> 48 == 0 {
            Some(VirtAddrRange::Bottom)
        } else if self.value() >> 48 == 0xffff {
            Some(VirtAddrRange::Top)
        } else {
            None
        }
    }

    /// Returns the VA range
    pub fn va_range(self) -> (r: Option<VirtAddrRange>)
        ensures
            r == self.spec_va_range(),
    {
        let top = self.va_range_bits();
        if top == 0x0000 {
            Some(VirtAddrRange::Bottom)
        } else if top == 0xffff {
            Some(VirtAddrRange::Top)
        } else {
            None
        }
    }

    /// Returns the top 16 bits
    pub fn va_range_bits(self) -> (r: u16)
        ensures
            r == self.value() >> 48,
    {
        let addr: u64 = self.0;
        let top = get_bits(addr, 48, 64);
        assert(bit_range(addr, 48, 64) == addr >> 48 && addr >> 48 <= 0xffff) by (bit_vector);
        top as u16
    }

    /// The 9-bit index into the table of the given level (1 to 4) that the walk to this
    /// address uses.
    pub open spec fn spec_index(self, level: nat) -> u64 {
        if level == 1 {
            (self.value() >> 12) & 0x1ff
        } else if level == 2 {
            (self.value() >> 21) & 0x1ff
        } else if level == 3 {
            (self.value() >> 30) & 0x1ff
        } else {
            (self.value() >> 39) & 0x1ff
        }
    }

    /// Returns the 9-bit level 1 page table index.
    pub fn p1_index(self) -> (r: PageTableIndex)
        ensures
            r.value() == self.spec_index(1),
    {
        let addr: u64 = self.0;
        let index = (addr >> 12) & 0o777;
        assert(index < 512) by (bit_vector)
            requires
                index == (addr >> 12) & 0x1ff,
        ;
        PageTableIndex::new(index as u16)
    }

    /// Returns the 9-bit level 2 page table index.
    pub fn p2_index(self) -> (r: PageTableIndex)
        ensures
            r.value() == self.spec_index(2),
    {
        let addr: u64 = self.0;
        let index = (addr >> 12 >> 9) & 0o777;
        assert(index < 512 && index == (addr >> 21) & 0x1ff) by (bit_vector)
            requires
                index == (addr >> 12 >> 9) & 0x1ff,
        ;
        PageTableIndex::new(index as u16)
    }

    /// Returns the 9-bit level 3 page table index.
    pub fn p3_index(self) -> (r: PageTableIndex)
        ensures
            r.value() == self.spec_index(3),
    {
        let addr: u64 = self.0;
        let index = (addr >> 12 >> 9 >> 9) & 0o777;
        assert(index < 512 && index == (addr >> 30) & 0x1ff) by (bit_vector)
            requires
                index == (addr >> 12 >> 9 >> 9) & 0x1ff,
        ;
        PageTableIndex::new(index as u16)
    }

    /// Returns the 9-bit level 4 page table index.
    pub fn p4_index(self) -> (r: PageTableIndex)
        ensures
            r.value() == self.spec_index(4),
    {
        let addr: u64 = self.0;
        let index = (addr >> 12 >> 9 >> 9 >> 9) & 0o777;
        assert(index < 512 && index == (addr >> 39) & 0x1ff) by (bit_vector)
            requires
                index == (addr >> 12 >> 9 >> 9 >> 9) & 0x1ff,
        ;
        PageTableIndex::new(index as u16)
    }

    /// Aligns the address upwards to the given alignment, a power of two. The result
    /// must fit in 64 bits.
    pub fn align_up(self, align: u64) -> (r: Self)
        requires
            is_power_of_two(align),
            spec_align_up(self.value(), align) <= u64::MAX,
        ensures
            r.value() == spec_align_up(self.value(), align),
    {
        VirtAddr(align_up(self.0, align))
    }

    /// Aligns the address downwards to the given alignment, a power of two.
    pub fn align_down(self, align: u64) -> (r: Self)
        requires
            is_power_of_two(align),
        ensures
            r.value() == spec_align_down(self.value(), align),
            r.value() % align == 0,
    {
        VirtAddr(align_down(self.0, align))
    }

    /// Checks whether the address has the demanded alignment, a power of two.
    pub fn is_aligned(self, align: u64) -> (r: bool)
        requires
            is_power_of_two(align),
        ensures
            r == (self.value() % align == 0),
    {
        proof {
            lemma_align_down(self.0, align);
        }
        self.align_down(align).0 == self.0
    }
}

impl From<u64> for VirtAddr {
    fn from(num: u64) -> (r: Self) {
        VirtAddr(num)
    }
}

impl vstd::std_specs::convert::FromSpecImpl<u64> for VirtAddr {
    open spec fn obeys_from_spec() -> bool {
        true
    }

    open spec fn from_spec(num: u64) -> Self {
        VirtAddr(num)
    }
}

impl From<VirtAddr> for u64 {
    fn from(addr: VirtAddr) -> (r: Self) {
        addr.0
    }
}

impl vstd::std_specs::convert::FromSpecImpl<VirtAddr> for u64 {
    open spec fn obeys_from_spec() -> bool {
        true
    }

    open spec fn from_spec(addr: VirtAddr) -> Self {
        addr.0
    }
}

impl core::ops::Add<VirtAddr> for VirtAddr {
    type Output = VirtAddr;

    fn add(self, rhs: VirtAddr) -> (r: VirtAddr) {
        VirtAddr(self.0 + rhs.0)
    }
}

impl vstd::std_specs::ops::AddSpecImpl<VirtAddr> for VirtAddr {
    open spec fn obeys_add_spec() -> bool {
        true
    }

    open spec fn add_req(self, rhs: VirtAddr) -> bool {
        self.0 + rhs.0 <= u64::MAX
    }

    open spec fn add_spec(self, rhs: VirtAddr) -> VirtAddr {
        VirtAddr((self.0 + rhs.0) as u64)
    }
}

impl core::ops::Add<u64> for VirtAddr {
    type Output = VirtAddr;

    fn add(self, rhs: u64) -> (r: VirtAddr) {
        VirtAddr(self.0 + rhs)
    }
}

impl vstd::std_specs::ops::AddSpecImpl<u64> for VirtAddr {
    open spec fn obeys_add_spec() -> bool {
        true
    }

    open spec fn add_req(self, rhs: u64) -> bool {
        self.0 + rhs <= u64::MAX
    }

    open spec fn add_spec(self, rhs: u64) -> VirtAddr {
        VirtAddr((self.0 + rhs) as u64)
    }
}

impl core::ops::Add<usize> for VirtAddr {
    type Output = VirtAddr;

    fn add(self, rhs: usize) -> (r: VirtAddr) {
        VirtAddr(self.0 + usize_to_u64(rhs))
    }
}

impl vstd::std_specs::ops::AddSpecImpl<usize> for VirtAddr {
    open spec fn obeys_add_spec() -> bool {
        true
    }

    open spec fn add_req(self, rhs: usize) -> bool {
        self.0 + rhs <= u64::MAX
    }

    open spec fn add_spec(self, rhs: usize) -> VirtAddr {
        VirtAddr((self.0 + rhs) as u64)
    }
}

impl core::ops::Sub<VirtAddr> for VirtAddr {
    type Output = u64;

    fn sub(self, rhs: VirtAddr) -> (r: u64) {
        self.0 - rhs.0
    }
}

impl vstd::std_specs::ops::SubSpecImpl<VirtAddr> for VirtAddr {
    open spec fn obeys_sub_spec() -> bool {
        true
    }

    open spec fn sub_req(self, rhs: VirtAddr) -> bool {
        self.0 >= rhs.0
    }

    open spec fn sub_spec(self, rhs: VirtAddr) -> u64 {
        (self.0 - rhs.0) as u64
    }
}

impl core::ops::Sub<u64> for VirtAddr {
    type Output = VirtAddr;

    fn sub(self, rhs: u64) -> (r: VirtAddr) {
        VirtAddr(self.0 - rhs)
    }
}

impl vstd::std_specs::ops::SubSpecImpl<u64> for VirtAddr {
    open spec fn obeys_sub_spec() -> bool {
        true
    }

    open spec fn sub_req(self, rhs: u64) -> bool {
        self.0 >= rhs
    }

    open spec fn sub_spec(self, rhs: u64) -> VirtAddr {
        VirtAddr((self.0 - rhs) as u64)
    }
}

impl core::ops::Sub<usize> for VirtAddr {
    type Output = VirtAddr;

    fn sub(self, rhs: usize) -> (r: VirtAddr) {
        VirtAddr(self.0 - usize_to_u64(rhs))
    }
}

impl vstd::std_specs::ops::SubSpecImpl<usize> for VirtAddr {
    open spec fn obeys_sub_spec() -> bool {
        true
    }

    open spec fn sub_req(self, rhs: usize) -> bool {
        self.0 >= rhs
    }

    open spec fn sub_spec(self, rhs: usize) -> VirtAddr {
        VirtAddr((self.0 - rhs) as u64)
    }
}

impl core::ops::Rem<VirtAddr> for VirtAddr {
    type Output = VirtAddr;

    fn rem(self, rhs: VirtAddr) -> (r: VirtAddr) {
        VirtAddr(self.0 % rhs.0)
    }
}

impl vstd::std_specs::ops::RemSpecImpl<VirtAddr> for VirtAddr {
    open spec fn obeys_rem_spec() -> bool {
        true
    }

    open spec fn rem_req(self, rhs: VirtAddr) -> bool {
        rhs.0 != 0
    }

    open spec fn rem_spec(self, rhs: VirtAddr) -> VirtAddr {
        VirtAddr(self.0 % rhs.0)
    }
}

impl core::ops::Rem<u64> for VirtAddr {
    type Output = u64;

    fn rem(self, rhs: u64) -> (r: u64) {
        self.0 % rhs
    }
}

impl vstd::std_specs::ops::RemSpecImpl<u64> for VirtAddr {
    open spec fn obeys_rem_spec() -> bool {
        true
    }

    open spec fn rem_req(self, rhs: u64) -> bool {
        rhs != 0
    }

    open spec fn rem_spec(self, rhs: u64) -> u64 {
        self.0 % rhs
    }
}

impl core::ops::BitAnd<VirtAddr> for VirtAddr {
    type Output = VirtAddr;

    fn bitand(self, rhs: VirtAddr) -> (r: VirtAddr) {
        VirtAddr(self.0 & rhs.0)
    }
}

impl vstd::std_specs::ops::BitAndSpecImpl<VirtAddr> for VirtAddr {
    open spec fn obeys_bitand_spec() -> bool {
        true
    }

    open spec fn bitand_req(self, rhs: VirtAddr) -> bool {
        true
    }

    open spec fn bitand_spec(self, rhs: VirtAddr) -> VirtAddr {
        VirtAddr(self.0 & rhs.0)
    }
}

impl core::ops::BitAnd<u64> for VirtAddr {
    type Output = VirtAddr;

    fn bitand(self, rhs: u64) -> (r: VirtAddr) {
        VirtAddr(self.0 & rhs)
    }
}

impl vstd::std_specs::ops::BitAndSpecImpl<u64> for VirtAddr {
    open spec fn obeys_bitand_spec() -> bool {
        true
    }

    open spec fn bitand_req(self, rhs: u64) -> bool {
        true
    }

    open spec fn bitand_spec(self, rhs: u64) -> VirtAddr {
        VirtAddr(self.0 & rhs)
    }
}

impl core::ops::BitOr<VirtAddr> for VirtAddr {
    type Output = VirtAddr;

    fn bitor(self, rhs: VirtAddr) -> (r: VirtAddr) {
        VirtAddr(self.0 | rhs.0)
    }
}

impl vstd::std_specs::ops::BitOrSpecImpl<VirtAddr> for VirtAddr {
    open spec fn obeys_bitor_spec() -> bool {
        true
    }

    open spec fn bitor_req(self, rhs: VirtAddr) -> bool {
        true
    }

    open spec fn bitor_spec(self, rhs: VirtAddr) -> VirtAddr {
        VirtAddr(self.0 | rhs.0)
    }
}

impl core::ops::BitOr<u64> for VirtAddr {
    type Output = VirtAddr;

    fn bitor(self, rhs: u64) -> (r: VirtAddr) {
        VirtAddr(self.0 | rhs)
    }
}

impl vstd::std_specs::ops::BitOrSpecImpl<u64> for VirtAddr {
    open spec fn obeys_bitor_spec() -> bool {
        true
    }

    open spec fn bitor_req(self, rhs: u64) -> bool {
        true
    }

    open spec fn bitor_spec(self, rhs: u64) -> VirtAddr {
        VirtAddr(self.0 | rhs)
    }
}

impl core::ops::Shr<u64> for VirtAddr {
    type Output = u64;

    fn shr(self, rhs: u64) -> (r: u64) {
        self.0 >> rhs
    }
}

impl vstd::std_specs::ops::ShrSpecImpl<u64> for VirtAddr {
    open spec fn obeys_shr_spec() -> bool {
        true
    }

    open spec fn shr_req(self, rhs: u64) -> bool {
        rhs < 64
    }

    open spec fn shr_spec(self, rhs: u64) -> u64 {
        self.0 >> rhs
    }
}

impl core::ops::AddAssign<VirtAddr> for VirtAddr {
    fn add_assign(&mut self, rhs: VirtAddr)
        requires
            old(self).0 + rhs.0 <= u64::MAX,
        ensures
            final(self).0 == old(self).0 + rhs.0,
    {
        *self = VirtAddr(self.0 + rhs.0);
    }
}

impl core::ops::AddAssign<u64> for VirtAddr {
    fn add_assign(&mut self, rhs: u64)
        requires
            old(self).0 + rhs <= u64::MAX,
        ensures
            final(self).0 == old(self).0 + rhs,
    {
        *self = VirtAddr(self.0 + rhs);
    }
}

impl core::ops::AddAssign<usize> for VirtAddr {
    fn add_assign(&mut self, rhs: usize)
        requires
            old(self).0 + rhs <= u64::MAX,
        ensures
            final(self).0 == old(self).0 + rhs,
    {
        *self = VirtAddr(self.0 + usize_to_u64(rhs));
    }
}

impl core::ops::SubAssign<u64> for VirtAddr {
    fn sub_assign(&mut self, rhs: u64)
        requires
            old(self).0 >= rhs,
        ensures
            final(self).0 == old(self).0 - rhs,
    {
        *self = VirtAddr(self.0 - rhs);
    }
}

impl core::ops::SubAssign<usize> for VirtAddr {
    fn sub_assign(&mut self, rhs: usize)
        requires
            old(self).0 >= rhs,
        ensures
            final(self).0 == old(self).0 - rhs,
    {
        *self = VirtAddr(self.0 - usize_to_u64(rhs));
    }
}

/// Bits 52 to 63 of `addr` are all 0.
pub open spec fn is_physical(addr: u64) -> bool {
    addr >> 52 == 0
}

/// A 64-bit physical address.
#[derive(Clone, Copy, PartialEq, Eq, PartialOrd, Ord, Hash, Debug, Structural)]
pub struct PhysAddr(pub u64);

impl PhysAddr {
    /// The address as a number.
    pub open spec fn value(self) -> u64 {
        self.0
    }

    /// Creates an address without checking it.
    pub fn new(addr: u64) -> (r: Self)
        ensures
            r.value() == addr,
    {
        PhysAddr(addr)
    }

    /// Creates an address if `addr` is a valid one.
    pub fn try_new(addr: u64) -> (r: Option<Self>)
        ensures
            is_physical(addr) ==> r.is_some() && r.unwrap().value() == addr,
            !is_physical(addr) ==> r.is_none(),
    {
        let top = get_bits(addr, 52, 64);
        assert(bit_range(addr, 52, 64) == addr >> 52) by (bit_vector);
        if top == 0 {
            Some(PhysAddr(addr))
        } else {
            None
        }
    }

    /// Creates an address that points to `0`.
    pub fn zero() -> (r: Self)
        ensures
            r.value() == 0,
    {
        PhysAddr(0)
    }

    #[verifier::when_used_as_spec(value)]
    pub fn as_u64(self) -> (r: u64)
        ensures
            r == self.value(),
    {
        self.0
    }

    pub fn is_zero(self) -> (r: bool)
        ensures
            r == (self.value() == 0),
    {
        self.0 == 0
    }

    /// Aligns the address upwards to the given alignment, a power of two. The result
    /// must fit in 64 bits.
    pub fn align_up(self, align: u64) -> (r: Self)
        requires
            is_power_of_two(align),
            spec_align_up(self.value(), align) <= u64::MAX,
        ensures
            r.value() == spec_align_up(self.value(), align),
    {
        PhysAddr(align_up(self.0, align))
    }

    /// Aligns the address downwards to the given alignment, a power of two.
    pub fn align_down(self, align: u64) -> (r: Self)
        requires
            is_power_of_two(align),
        ensures
            r.value() == spec_align_down(self.value(), align),
            r.value() % align == 0,
    {
        PhysAddr(align_down(self.0, align))
    }

    /// Checks whether the address has the demanded alignment, a power of two.
    pub fn is_aligned(self, align: u64) -> (r: bool)
        requires
            is_power_of_two(align),
        ensures
            r == (self.value() % align == 0),
    {
        proof {
            lemma_align_down(self.0, align);
        }
        self.align_down(align).0 == self.0
    }
}

impl From<u64> for PhysAddr {
    fn from(num: u64) -> (r: Self) {
        PhysAddr(num)
    }
}

impl vstd::std_specs::convert::FromSpecImpl<u64> for PhysAddr {
    open spec fn obeys_from_spec() -> bool {
        true
    }

    open spec fn from_spec(num: u64) -> Self {
        PhysAddr(num)
    }
}

impl From<PhysAddr> for u64 {
    fn from(addr: PhysAddr) -> (r: Self) {
        addr.0
    }
}

impl vstd::std_specs::convert::FromSpecImpl<PhysAddr> for u64 {
    open spec fn obeys_from_spec() -> bool {
        true
    }

    open spec fn from_spec(addr: PhysAddr) -> Self {
        addr.0
    }
}

impl core::ops::Add<PhysAddr> for PhysAddr {
    type Output = PhysAddr;

    fn add(self, rhs: PhysAddr) -> (r: PhysAddr) {
        PhysAddr(self.0 + rhs.0)
    }
}

impl vstd::std_specs::ops::AddSpecImpl<PhysAddr> for PhysAddr {
    open spec fn obeys_add_spec() -> bool {
        true
    }

    open spec fn add_req(self, rhs: PhysAddr) -> bool {
        self.0 + rhs.0 <= u64::MAX
    }

    open spec fn add_spec(self, rhs: PhysAddr) -> PhysAddr {
        PhysAddr((self.0 + rhs.0) as u64)
    }
}

impl core::ops::Add<u64> for PhysAddr {
    type Output = PhysAddr;

    fn add(self, rhs: u64) -> (r: PhysAddr) {
        PhysAddr(self.0 + rhs)
    }
}

impl vstd::std_specs::ops::AddSpecImpl<u64> for PhysAddr {
    open spec fn obeys_add_spec() -> bool {
        true
    }

    open spec fn add_req(self, rhs: u64) -> bool {
        self.0 + rhs <= u64::MAX
    }

    open spec fn add_spec(self, rhs: u64) -> PhysAddr {
        PhysAddr((self.0 + rhs) as u64)
    }
}

impl core::ops::Add<usize> for PhysAddr {
    type Output = PhysAddr;

    fn add(self, rhs: usize) -> (r: PhysAddr) {
        PhysAddr(self.0 + usize_to_u64(rhs))
    }
}

impl vstd::std_specs::ops::AddSpecImpl<usize> for PhysAddr {
    open spec fn obeys_add_spec() -> bool {
        true
    }

    open spec fn add_req(self, rhs: usize) -> bool {
        self.0 + rhs <= u64::MAX
    }

    open spec fn add_spec(self, rhs: usize) -> PhysAddr {
        PhysAddr((self.0 + rhs) as u64)
    }
}

impl core::ops::Sub<PhysAddr> for PhysAddr {
    type Output = u64;

    fn sub(self, rhs: PhysAddr) -> (r: u64) {
        self.0 - rhs.0
    }
}

impl vstd::std_specs::ops::SubSpecImpl<PhysAddr> for PhysAddr {
    open spec fn obeys_sub_spec() -> bool {
        true
    }

    open spec fn sub_req(self, rhs: PhysAddr) -> bool {
        self.0 >= rhs.0
    }

    open spec fn sub_spec(self, rhs: PhysAddr) -> u64 {
        (self.0 - rhs.0) as u64
    }
}

impl core::ops::Sub<u64> for PhysAddr {
    type Output = PhysAddr;

    fn sub(self, rhs: u64) -> (r: PhysAddr) {
        PhysAddr(self.0 - rhs)
    }
}

impl vstd::std_specs::ops::SubSpecImpl<u64> for PhysAddr {
    open spec fn obeys_sub_spec() -> bool {
        true
    }

    open spec fn sub_req(self, rhs: u64) -> bool {
        self.0 >= rhs
    }

    open spec fn sub_spec(self, rhs: u64) -> PhysAddr {
        PhysAddr((self.0 - rhs) as u64)
    }
}

impl core::ops::Sub<usize> for PhysAddr {
    type Output = PhysAddr;

    fn sub(self, rhs: usize) -> (r: PhysAddr) {
        PhysAddr(self.0 - usize_to_u64(rhs))
    }
}

impl vstd::std_specs::ops::SubSpecImpl<usize> for PhysAddr {
    open spec fn obeys_sub_spec() -> bool {
        true
    }

    open spec fn sub_req(self, rhs: usize) -> bool {
        self.0 >= rhs
    }

    open spec fn sub_spec(self, rhs: usize) -> PhysAddr {
        PhysAddr((self.0 - rhs) as u64)
    }
}

impl core::ops::Rem<PhysAddr> for PhysAddr {
    type Output = PhysAddr;

    fn rem(self, rhs: PhysAddr) -> (r: PhysAddr) {
        PhysAddr(self.0 % rhs.0)
    }
}

impl vstd::std_specs::ops::RemSpecImpl<PhysAddr> for PhysAddr {
    open spec fn obeys_rem_spec() -> bool {
        true
    }

    open spec fn rem_req(self, rhs: PhysAddr) -> bool {
        rhs.0 != 0
    }

    open spec fn rem_spec(self, rhs: PhysAddr) -> PhysAddr {
        PhysAddr(self.0 % rhs.0)
    }
}

impl core::ops::Rem<u64> for PhysAddr {
    type Output = u64;

    fn rem(self, rhs: u64) -> (r: u64) {
        self.0 % rhs
    }
}

impl vstd::std_specs::ops::RemSpecImpl<u64> for PhysAddr {
    open spec fn obeys_rem_spec() -> bool {
        true
    }

    open spec fn rem_req(self, rhs: u64) -> bool {
        rhs != 0
    }

    open spec fn rem_spec(self, rhs: u64) -> u64 {
        self.0 % rhs
    }
}

impl core::ops::BitAnd<PhysAddr> for PhysAddr {
    type Output = PhysAddr;

    fn bitand(self, rhs: PhysAddr) -> (r: PhysAddr) {
        PhysAddr(self.0 & rhs.0)
    }
}

impl vstd::std_specs::ops::BitAndSpecImpl<PhysAddr> for PhysAddr {
    open spec fn obeys_bitand_spec() -> bool {
        true
    }

    open spec fn bitand_req(self, rhs: PhysAddr) -> bool {
        true
    }

    open spec fn bitand_spec(self, rhs: PhysAddr) -> PhysAddr {
        PhysAddr(self.0 & rhs.0)
    }
}

impl core::ops::BitAnd<u64> for PhysAddr {
    type Output = PhysAddr;

    fn bitand(self, rhs: u64) -> (r: PhysAddr) {
        PhysAddr(self.0 & rhs)
    }
}

impl vstd::std_specs::ops::BitAndSpecImpl<u64> for PhysAddr {
    open spec fn obeys_bitand_spec() -> bool {
        true
    }

    open spec fn bitand_req(self, rhs: u64) -> bool {
        true
    }

    open spec fn bitand_spec(self, rhs: u64) -> PhysAddr {
        PhysAddr(self.0 & rhs)
    }
}

impl core::ops::BitOr<PhysAddr> for PhysAddr {
    type Output = PhysAddr;

    fn bitor(self, rhs: PhysAddr) -> (r: PhysAddr) {
        PhysAddr(self.0 | rhs.0)
    }
}

impl vstd::std_specs::ops::BitOrSpecImpl<PhysAddr> for PhysAddr {
    open spec fn obeys_bitor_spec() -> bool {
        true
    }

    open spec fn bitor_req(self, rhs: PhysAddr) -> bool {
        true
    }

    open spec fn bitor_spec(self, rhs: PhysAddr) -> PhysAddr {
        PhysAddr(self.0 | rhs.0)
    }
}

impl core::ops::BitOr<u64> for PhysAddr {
    type Output = PhysAddr;

    fn bitor(self, rhs: u64) -> (r: PhysAddr) {
        PhysAddr(self.0 | rhs)
    }
}

impl vstd::std_specs::ops::BitOrSpecImpl<u64> for PhysAddr {
    open spec fn obeys_bitor_spec() -> bool {
        true
    }

    open spec fn bitor_req(self, rhs: u64) -> bool {
        true
    }

    open spec fn bitor_spec(self, rhs: u64) -> PhysAddr {
        PhysAddr(self.0 | rhs)
    }
}

impl core::ops::Shr<u64> for PhysAddr {
    type Output = u64;

    fn shr(self, rhs: u64) -> (r: u64) {
        self.0 >> rhs
    }
}

impl vstd::std_specs::ops::ShrSpecImpl<u64> for PhysAddr {
    open spec fn obeys_shr_spec() -> bool {
        true
    }

    open spec fn shr_req(self, rhs: u64) -> bool {
        rhs < 64
    }

    open spec fn shr_spec(self, rhs: u64) -> u64 {
        self.0 >> rhs
    }
}

impl core::ops::AddAssign<PhysAddr> for PhysAddr {
    fn add_assign(&mut self, rhs: PhysAddr)
        requires
            old(self).0 + rhs.0 <= u64::MAX,
        ensures
            final(self).0 == old(self).0 + rhs.0,
    {
        *self = PhysAddr(self.0 + rhs.0);
    }
}

impl core::ops::AddAssign<u64> for PhysAddr {
    fn add_assign(&mut self, rhs: u64)
        requires
            old(self).0 + rhs <= u64::MAX,
        ensures
            final(self).0 == old(self).0 + rhs,
    {
        *self = PhysAddr(self.0 + rhs);
    }
}

impl core::ops::AddAssign<usize> for PhysAddr {
    fn add_assign(&mut self, rhs: usize)
        requires
            old(self).0 + rhs <= u64::MAX,
        ensures
            final(self).0 == old(self).0 + rhs,
    {
        *self = PhysAddr(self.0 + usize_to_u64(rhs));
    }
}

impl core::ops::SubAssign<u64> for PhysAddr {
    fn sub_assign(&mut self, rhs: u64)
        requires
            old(self).0 >= rhs,
        ensures
            final(self).0 == old(self).0 - rhs,
    {
        *self = PhysAddr(self.0 - rhs);
    }
}

impl core::ops::SubAssign<usize> for PhysAddr {
    fn sub_assign(&mut self, rhs: usize)
        requires
            old(self).0 >= rhs,
        ensures
            final(self).0 == old(self).0 - rhs,
    {
        *self = PhysAddr(self.0 - usize_to_u64(rhs));
    }
}

} // verus!

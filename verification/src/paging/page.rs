//! A virtual memory page.

use super::{lemma_size_is_power_of_two, PageSize, Size4KiB};
use crate::addr::{spec_align_down, VirtAddr};
use core::marker::PhantomData;
use vstd::prelude::*;
use super::{NotGiantPageSize, Size1GiB, Size2MiB};
use crate::addr::VirtAddrRange;
use crate::bits::{fits_bit_range, set_bits, with_bit_range};
use crate::index::PageTableIndex;
verus! {

/// A virtual memory page.
#[derive(PartialEq, Eq, PartialOrd, Ord, Debug)]
pub struct Page<S: PageSize = Size4KiB> {
    start_address: VirtAddr,
    size: PhantomData<S>,
}

impl<S: PageSize> Clone for Page<S> {
    fn clone(&self) -> (r: Self)
        ensures
            r == *self,
    {
        *self
    }
}

impl<S: PageSize> Copy for Page<S> {

}

impl<S: PageSize> Page<S> {
    #[verifier::type_invariant]
    spec fn inv(self) -> bool {
        self.start_address.value() % S::SIZE == 0
    }

    /// The address at which the page starts.
    pub closed spec fn start(self) -> VirtAddr {
        self.start_address
    }

    /// The start address is a multiple of the size; this holds of every page that a
    /// program can hold.
    pub open spec fn wf(self) -> bool {
        self.start().value() % S::SIZE == 0
    }

    /// The page that contains `address`.
    pub closed spec fn spec_containing(address: VirtAddr) -> Self {
        Page {
            start_address: VirtAddr(spec_align_down(address.value(), S::SIZE) as u64),
            size: PhantomData,
        }
    }

    /// A page is nothing but its start address.
    pub proof fn lemma_start_determines(a: Self, b: Self)
        requires
            a.start() == b.start(),
        ensures
            a == b,
    {
    }

    /// The page that contains an address starts at that address rounded down.
    pub proof fn lemma_containing_start(address: VirtAddr)
        ensures
            Self::spec_containing(address).start().value() == spec_align_down(
                address.value(),
                S::SIZE,
            ),
            Self::spec_containing(address).wf(),
    {
        lemma_size_is_power_of_two::<S>();
        crate::addr::lemma_align_down(address.value(), S::SIZE);
    }

    /// Returns the page that starts at the given address.
    ///
    /// Returns `None` if the address is not correctly aligned (i.e. is not a valid page
    /// start).
    pub fn from_start_address(address: VirtAddr) -> (r: Option<Self>)
        ensures
            address.value() % S::SIZE == 0 ==> r.is_some() && r.unwrap().start() == address,
            address.value() % S::SIZE != 0 ==> r.is_none(),
    {
        proof {
            lemma_size_is_power_of_two::<S>();
        }
        if address.is_aligned(S::SIZE) {
            Some(Self::containing_address(address))
        } else {
            None
        }
    }

    /// Returns the page that contains the given address.
    pub fn containing_address(address: VirtAddr) -> (r: Self)
        ensures
            r == Self::spec_containing(address),
            r.start().value() == spec_align_down(address.value(), S::SIZE),
            r.wf(),
    {
        proof {
            lemma_size_is_power_of_two::<S>();
        }
        Page { start_address: address.align_down(S::SIZE), size: PhantomData }
    }

    /// Returns the start address of the page.
    pub fn start_address(&self) -> (r: VirtAddr)
        ensures
            r == self.start(),
            self.wf(),
    {
        proof {
            use_type_invariant(self);
        }
        self.start_address
    }

    /// Returns the size of the page (4KB, 2MB or 1GB).
    pub fn size(&self) -> (r: u64)
        ensures
            r == S::SIZE,
    {
        S::SIZE
    }

    /// Returns the VA range
    pub fn va_range(&self) -> (r: Option<VirtAddrRange>)
        ensures
            r == self.start().spec_va_range(),
    {
        self.start_address().va_range()
    }

    /// Returns the level 4 page table index of this page.
    pub fn p4_index(&self) -> (r: PageTableIndex)
        ensures
            r.value() == self.start().spec_index(4),
    {
        self.start_address().p4_index()
    }

    /// Returns the level 3 page table index of this page.
    pub fn p3_index(&self) -> (r: PageTableIndex)
        ensures
            r.value() == self.start().spec_index(3),
    {
        self.start_address().p3_index()
    }

    /// Returns the page that contains the given address.
    pub fn of_addr(address: u64) -> (r: Self)
        ensures
            r == Self::spec_containing(VirtAddr(address)),
            r.start().value() == spec_align_down(address, S::SIZE),
    {
        Self::containing_address(VirtAddr::new(address))
    }

    /// The pages that hold the addresses from `begin` up to, but without, `end`.
    pub fn range_of(begin: u64, end: u64) -> (r: PageRange<S>)
        requires
            end > 0,
            spec_align_down((end - 1) as u64, S::SIZE) + S::SIZE <= u64::MAX,
        ensures
            r.start == Self::spec_containing(VirtAddr(begin)),
            r.end.start().value() == spec_align_down((end - 1) as u64, S::SIZE) + S::SIZE,
    {
        let last = Page::<S>::of_addr(end - 1);
        PageRange { start: Page::of_addr(begin), end: last + 1 }
    }

    /// The pages from `start` up to, but without, `end`.
    pub fn range(start: Self, end: Self) -> (r: PageRange<S>)
        ensures
            r.start == start,
            r.end == end,
    {
        PageRange { start, end }
    }

    /// The pages from `start` up to `end`, `end` included.
    pub fn range_inclusive(start: Self, end: Self) -> (r: PageRangeInclusive<S>)
        ensures
            r.start == start,
            r.end == end,
            !r.exhausted,
    {
        PageRangeInclusive { start, end, exhausted: false }
    }

    /// The page `count` places after this one, if there is one.
    pub open spec fn spec_forward(self, count: int) -> Option<Self> {
        if self.start().value() + count * S::SIZE <= u64::MAX {
            Some(Self::spec_containing(VirtAddr((self.start().value() + count * S::SIZE) as u64)))
        } else {
            None
        }
    }

    /// The page `count` places before this one, if there is one.
    pub open spec fn spec_backward(self, count: int) -> Option<Self> {
        if self.start().value() - count * S::SIZE >= 0 {
            Some(Self::spec_containing(VirtAddr((self.start().value() - count * S::SIZE) as u64)))
        } else {
            None
        }
    }

    /// A step from a well-formed page lands on the start address that the arithmetic gives.
    pub proof fn lemma_step_start(self, count: int)
        requires
            self.wf(),
            count >= 0,
        ensures
            self.spec_forward(count) matches Some(p) ==> p.start().value()
                == self.start().value() + count * S::SIZE && p.wf(),
            self.spec_backward(count) matches Some(p) ==> p.start().value()
                == self.start().value() - count * S::SIZE && p.wf(),
    {
        lemma_size_is_power_of_two::<S>();
        let size = S::SIZE as int;
        let base = self.start().value() as int;
        assert(count * size >= 0) by (nonlinear_arith)
            requires
                count >= 0,
                size > 0,
        ;
        assert(size * count == count * size) by (nonlinear_arith);
        assert(size * (-count) == -(count * size)) by (nonlinear_arith);
        if base + count * size <= u64::MAX {
            let sum = (base + count * size) as u64;
            vstd::arithmetic::div_mod::lemma_mod_multiples_vanish(count, base, size);
            Self::lemma_containing_start(VirtAddr(sum));
            crate::addr::lemma_align_down(sum, S::SIZE);
        }
        if base - count * size >= 0 {
            let diff = (base - count * size) as u64;
            vstd::arithmetic::div_mod::lemma_mod_multiples_vanish(-count, base, size);
            Self::lemma_containing_start(VirtAddr(diff));
            crate::addr::lemma_align_down(diff, S::SIZE);
        }
    }

    /// The number of steps from `start` forward to `end`, which must not lie before it.
    pub fn steps_between(start: &Self, end: &Self) -> (r: Option<usize>)
        requires
            start.start().value() <= end.start().value(),
        ensures
            r == Some(((end.start().value() - start.start().value()) / S::SIZE as int) as usize),
    {
        proof {
            lemma_size_is_power_of_two::<S>();
        }
        let distance: u64 = (end.start_address.0 - start.start_address.0) / S::SIZE;
        Some(crate::bits::u64_to_usize(distance))
    }

    /// The page `count` places after `start`, or `None` where the address space ends
    /// before it.
    pub fn forward_checked(start: Self, count: usize) -> (r: Option<Self>)
        ensures
            r == start.spec_forward(count as int),
    {
        proof {
            lemma_size_is_power_of_two::<S>();
            use_type_invariant(start);
            start.lemma_step_start(count as int);
        }
        let count: u64 = crate::bits::usize_to_u64(count);
        match count.checked_mul(S::SIZE) {
            Some(bytes) => match start.start_address.0.checked_add(bytes) {
                Some(address) => {
                    let r = Page { start_address: VirtAddr(address), size: PhantomData };
                    proof {
                        Self::lemma_start_determines(r, start.spec_forward(count as int).unwrap());
                    }
                    Some(r)
                },
                None => None,
            },
            None => {
                assert(start.start().value() + count * S::SIZE > u64::MAX);
                None
            },
        }
    }

    /// The page `count` places before `start`, or `None` where the address space starts
    /// after it.
    pub fn backward_checked(start: Self, count: usize) -> (r: Option<Self>)
        ensures
            r == start.spec_backward(count as int),
    {
        proof {
            lemma_size_is_power_of_two::<S>();
            use_type_invariant(start);
            start.lemma_step_start(count as int);
        }
        let count: u64 = crate::bits::usize_to_u64(count);
        match count.checked_mul(S::SIZE) {
            Some(bytes) => match start.start_address.0.checked_sub(bytes) {
                Some(address) => {
                    let r = Page { start_address: VirtAddr(address), size: PhantomData };
                    proof {
                        Self::lemma_start_determines(r, start.spec_backward(count as int).unwrap());
                    }
                    Some(r)
                },
                None => None,
            },
            None => {
                assert(start.start().value() - count * S::SIZE < 0);
                None
            },
        }
    }
}

impl<S: PageSize> core::ops::Add<u64> for Page<S> {
    type Output = Self;

    fn add(self, rhs: u64) -> (r: Self)
        ensures
            r.start().value() == self.start().value() + rhs * S::SIZE,
    {
        proof {
            lemma_size_is_power_of_two::<S>();
            use_type_invariant(self);
            self.lemma_step_start(rhs as int);
        }
        assert(rhs * S::SIZE <= u64::MAX) by (nonlinear_arith)
            requires
                self.start_address.0 + rhs * S::SIZE <= u64::MAX,
        ;
        Page::containing_address(self.start_address() + rhs * S::SIZE)
    }
}

impl<S: PageSize> vstd::std_specs::ops::AddSpecImpl<u64> for Page<S> {
    open spec fn obeys_add_spec() -> bool {
        true
    }

    open spec fn add_req(self, rhs: u64) -> bool {
        self.start().value() + rhs * S::SIZE <= u64::MAX
    }

    open spec fn add_spec(self, rhs: u64) -> Self {
        self.spec_forward(rhs as int).unwrap()
    }
}

impl<S: PageSize> core::ops::Sub<u64> for Page<S> {
    type Output = Self;

    fn sub(self, rhs: u64) -> (r: Self)
        ensures
            r.start().value() == self.start().value() - rhs * S::SIZE,
    {
        proof {
            lemma_size_is_power_of_two::<S>();
            use_type_invariant(self);
            self.lemma_step_start(rhs as int);
        }
        assert(rhs * S::SIZE <= u64::MAX) by (nonlinear_arith)
            requires
                self.start_address.0 - rhs * S::SIZE >= 0,
                rhs >= 0,
                S::SIZE >= 0,
        ;
        Page::containing_address(self.start_address() - rhs * S::SIZE)
    }
}

impl<S: PageSize> vstd::std_specs::ops::SubSpecImpl<u64> for Page<S> {
    open spec fn obeys_sub_spec() -> bool {
        true
    }

    open spec fn sub_req(self, rhs: u64) -> bool {
        self.start().value() - rhs * S::SIZE >= 0
    }

    open spec fn sub_spec(self, rhs: u64) -> Self {
        self.spec_backward(rhs as int).unwrap()
    }
}

impl<S: PageSize> core::ops::Sub<Page<S>> for Page<S> {
    type Output = u64;

    fn sub(self, rhs: Page<S>) -> (r: u64) {
        proof {
            lemma_size_is_power_of_two::<S>();
        }
        (self.start_address - rhs.start_address) / S::SIZE
    }
}

impl<S: PageSize> vstd::std_specs::ops::SubSpecImpl<Page<S>> for Page<S> {
    open spec fn obeys_sub_spec() -> bool {
        true
    }

    open spec fn sub_req(self, rhs: Page<S>) -> bool {
        self.start().value() >= rhs.start().value()
    }

    open spec fn sub_spec(self, rhs: Page<S>) -> u64 {
        ((self.start().value() - rhs.start().value()) / S::SIZE as int) as u64
    }
}

impl<S: PageSize> core::ops::AddAssign<u64> for Page<S> {
    fn add_assign(&mut self, rhs: u64)
        requires
            old(self).start().value() + rhs * S::SIZE <= u64::MAX,
        ensures
            Some(*final(self)) == old(self).spec_forward(rhs as int),
    {
        *self = *self + rhs;
    }
}

impl<S: PageSize> core::ops::SubAssign<u64> for Page<S> {
    fn sub_assign(&mut self, rhs: u64)
        requires
            old(self).start().value() - rhs * S::SIZE >= 0,
        ensures
            Some(*final(self)) == old(self).spec_backward(rhs as int),
    {
        *self = *self - rhs;
    }
}

/// Moving `n` pages forward and measuring the distance back gives `n`.
pub proof fn lemma_add_then_sub<S: PageSize>(f: Page<S>, n: u64)
    requires
        f.wf(),
        f.start().value() + n * S::SIZE <= u64::MAX,
    ensures
        f.spec_forward(n as int) matches Some(g) && g.start().value() >= f.start().value() && ((
        g.start().value() - f.start().value()) / S::SIZE as int) == n,
        vstd::std_specs::ops::AddSpec::add_req(f, n),
        vstd::std_specs::ops::SubSpec::sub_req(vstd::std_specs::ops::AddSpec::add_spec(f, n), f),
        vstd::std_specs::ops::SubSpec::sub_spec(vstd::std_specs::ops::AddSpec::add_spec(f, n), f)
            == n,
{
    lemma_size_is_power_of_two::<S>();
    f.lemma_step_start(n as int);
    let size = S::SIZE as int;
    assert((n * size) / size == n) by (nonlinear_arith)
        requires
            size > 0,
    ;
    assert(n * size >= 0) by (nonlinear_arith)
        requires
            size > 0,
            n >= 0,
    ;
}

impl<S: NotGiantPageSize> Page<S> {
    /// Returns the level 2 page table index of this page.
    pub fn p2_index(&self) -> (r: PageTableIndex)
        ensures
            r.value() == self.start().spec_index(2),
    {
        self.start_address().p2_index()
    }
}

/// The address whose range bits are those of `va_range` and whose four table indices are the
/// given ones, with a page offset of zero.
pub open spec fn indices_address(va_range: VirtAddrRange, p4: u64, p3: u64, p2: u64, p1: u64) -> u64 {
    let offset = match va_range {
        VirtAddrRange::Bottom => 0u64,
        VirtAddrRange::Top => 0xFFFF_0000_0000_0000u64,
    };
    offset | (p4 << 39) | (p3 << 30) | (p2 << 21) | (p1 << 12)
}

/// Writing the four indices into their bit ranges one after the other builds
/// `indices_address`, and each index can be read back from it.
pub proof fn lemma_indices_address(va_range: VirtAddrRange, p4: u64, p3: u64, p2: u64, p1: u64)
    requires
        p4 < 512,
        p3 < 512,
        p2 < 512,
        p1 < 512,
    ensures
        fits_bit_range(39, 48, p4),
        fits_bit_range(30, 39, p3),
        fits_bit_range(21, 30, p2),
        fits_bit_range(12, 21, p1),
        ({
            let offset = match va_range {
                VirtAddrRange::Bottom => 0u64,
                VirtAddrRange::Top => 0xFFFF_0000_0000_0000u64,
            };
            let a4 = with_bit_range(offset, 39, 48, p4);
            let a3 = with_bit_range(a4, 30, 39, p3);
            let a2 = with_bit_range(a3, 21, 30, p2);
            let a1 = with_bit_range(a2, 12, 21, p1);
            &&& a3 == indices_address(va_range, p4, p3, 0, 0)
            &&& a2 == indices_address(va_range, p4, p3, p2, 0)
            &&& a1 == indices_address(va_range, p4, p3, p2, p1)
            &&& a3 % 0x4000_0000 == 0
            &&& a2 % 0x20_0000 == 0
            &&& a1 % 0x1000 == 0
        }),
        VirtAddr(indices_address(va_range, p4, p3, p2, p1)).spec_index(4) == p4,
        VirtAddr(indices_address(va_range, p4, p3, p2, p1)).spec_index(3) == p3,
        VirtAddr(indices_address(va_range, p4, p3, p2, p1)).spec_index(2) == p2,
        VirtAddr(indices_address(va_range, p4, p3, p2, p1)).spec_index(1) == p1,
        VirtAddr(indices_address(va_range, p4, p3, p2, p1)).spec_va_range() == Some(va_range),
{
    let offset = match va_range {
        VirtAddrRange::Bottom => 0u64,
        VirtAddrRange::Top => 0xFFFF_0000_0000_0000u64,
    };
    assert(fits_bit_range(39, 48, p4) && fits_bit_range(30, 39, p3) && fits_bit_range(21, 30, p2)
        && fits_bit_range(12, 21, p1)) by (bit_vector)
        requires
            p4 < 512,
            p3 < 512,
            p2 < 512,
            p1 < 512,
    ;
    let a4 = with_bit_range(offset, 39, 48, p4);
    let a3 = with_bit_range(a4, 30, 39, p3);
    let a2 = with_bit_range(a3, 21, 30, p2);
    let a1 = with_bit_range(a2, 12, 21, p1);
    let full = offset | (p4 << 39) | (p3 << 30) | (p2 << 21) | (p1 << 12);
    assert(a3 == offset | (p4 << 39) | (p3 << 30) | (0u64 << 21) | (0u64 << 12) && a2 == offset | (
    p4 << 39) | (p3 << 30) | (p2 << 21) | (0u64 << 12) && a1 == full && a3 % 0x4000_0000 == 0 && a2
        % 0x20_0000 == 0 && a1 % 0x1000 == 0) by (bit_vector)
        requires
            offset == 0 || offset == 0xFFFF_0000_0000_0000u64,
            p4 < 512,
            p3 < 512,
            p2 < 512,
            p1 < 512,
            a4 == with_bit_range(offset, 39, 48, p4),
            a3 == with_bit_range(a4, 30, 39, p3),
            a2 == with_bit_range(a3, 21, 30, p2),
            a1 == with_bit_range(a2, 12, 21, p1),
            full == offset | (p4 << 39) | (p3 << 30) | (p2 << 21) | (p1 << 12),
    ;
    assert((full >> 39) & 0x1ff == p4 && (full >> 30) & 0x1ff == p3 && (full >> 21) & 0x1ff == p2
        && (full >> 12) & 0x1ff == p1 && (offset == 0 ==> full >> 48 == 0) && (offset != 0 ==> full
        >> 48 == 0xffff)) by (bit_vector)
        requires
            offset == 0 || offset == 0xFFFF_0000_0000_0000u64,
            p4 < 512,
            p3 < 512,
            p2 < 512,
            p1 < 512,
            full == offset | (p4 << 39) | (p3 << 30) | (p2 << 21) | (p1 << 12),
    ;
}

impl Page<Size1GiB> {
    /// Returns the 1GiB memory page with the specified page table indices.
    pub fn from_page_table_indices_1gib(
        va_range: VirtAddrRange,
        p4_index: PageTableIndex,
        p3_index: PageTableIndex,
    ) -> (r: Self)
        ensures
            r.start().value() == indices_address(
                va_range,
                p4_index.value() as u64,
                p3_index.value() as u64,
                0,
                0,
            ),
    {
        let p4: u64 = p4_index.as_u64();
        let p3: u64 = p3_index.as_u64();
        proof {
            lemma_indices_address(va_range, p4, p3, 0, 0);
        }
        let mut addr: u64 = va_range.as_offset();
        addr = set_bits(addr, 39, 48, p4);
        addr = set_bits(addr, 30, 39, p3);
        proof {
            lemma_size_is_power_of_two::<Size1GiB>();
            crate::addr::lemma_align_down(addr, Size1GiB::SIZE);
        }
        Page::containing_address(VirtAddr::new(addr))
    }
}

impl Page<Size2MiB> {
    /// Returns the 2MiB memory page with the specified page table indices.
    pub fn from_page_table_indices_2mib(
        va_range: VirtAddrRange,
        p4_index: PageTableIndex,
        p3_index: PageTableIndex,
        p2_index: PageTableIndex,
    ) -> (r: Self)
        ensures
            r.start().value() == indices_address(
                va_range,
                p4_index.value() as u64,
                p3_index.value() as u64,
                p2_index.value() as u64,
                0,
            ),
    {
        let p4: u64 = p4_index.as_u64();
        let p3: u64 = p3_index.as_u64();
        let p2: u64 = p2_index.as_u64();
        proof {
            lemma_indices_address(va_range, p4, p3, p2, 0);
        }
        let mut addr: u64 = va_range.as_offset();
        addr = set_bits(addr, 39, 48, p4);
        addr = set_bits(addr, 30, 39, p3);
        addr = set_bits(addr, 21, 30, p2);
        proof {
            lemma_size_is_power_of_two::<Size2MiB>();
            crate::addr::lemma_align_down(addr, Size2MiB::SIZE);
        }
        Page::containing_address(VirtAddr::new(addr))
    }
}

impl Page<Size4KiB> {
    /// Returns the 4KiB memory page with the specified page table indices.
    pub fn from_page_table_indices(
        va_range: VirtAddrRange,
        p4_index: PageTableIndex,
        p3_index: PageTableIndex,
        p2_index: PageTableIndex,
        p1_index: PageTableIndex,
    ) -> (r: Self)
        ensures
            r.start().value() == indices_address(
                va_range,
                p4_index.value() as u64,
                p3_index.value() as u64,
                p2_index.value() as u64,
                p1_index.value() as u64,
            ),
    {
        let p4: u64 = p4_index.as_u64();
        let p3: u64 = p3_index.as_u64();
        let p2: u64 = p2_index.as_u64();
        let p1: u64 = p1_index.as_u64();
        proof {
            lemma_indices_address(va_range, p4, p3, p2, p1);
        }
        let mut addr: u64 = va_range.as_offset();
        addr = set_bits(addr, 39, 48, p4);
        addr = set_bits(addr, 30, 39, p3);
        addr = set_bits(addr, 21, 30, p2);
        addr = set_bits(addr, 12, 21, p1);
        proof {
            lemma_size_is_power_of_two::<Size4KiB>();
            crate::addr::lemma_align_down(addr, Size4KiB::SIZE);
        }
        Page::containing_address(VirtAddr::new(addr))
    }

    /// Returns the level 1 page table index of this page.
    pub fn p1_index(&self) -> (r: PageTableIndex)
        ensures
            r.value() == self.start().spec_index(1),
    {
        self.start_address().p1_index()
    }
}

/// The pages from `start` up to, but without, `end`.
#[derive(Clone, PartialEq, Eq, Debug)]
pub struct PageRange<S: PageSize = Size4KiB> {
    /// The first page of the range.
    pub start: Page<S>,
    /// The page after the last one of the range.
    pub end: Page<S>,
}

impl<S: PageSize> PageRange<S> {
    /// Whether the range holds no page.
    pub fn is_empty(&self) -> (r: bool)
        ensures
            r == (self.start.start().value() >= self.end.start().value()),
    {
        self.start.start_address.0 >= self.end.start_address.0
    }

    /// Takes the first page out of the range, or returns `None` when the range is empty.
    pub fn next(&mut self) -> (r: Option<Page<S>>)
        ensures
            old(self).start.start().value() < old(self).end.start().value() ==> r == Some(
                old(self).start,
            ) && Some(final(self).start) == old(self).start.spec_forward(1) && final(self).end
                == old(self).end,
            old(self).start.start().value() >= old(self).end.start().value() ==> r.is_none()
                && *final(self) == *old(self),
    {
        if self.start.start_address.0 < self.end.start_address.0 {
            let first = self.start;
            proof {
                lemma_size_is_power_of_two::<S>();
                use_type_invariant(self.start);
                use_type_invariant(self.end);
                lemma_next_fits(
                    self.start.start_address.0 as int,
                    self.end.start_address.0 as int,
                    S::SIZE as int,
                );
            }
            self.start = first + 1;
            Some(first)
        } else {
            None
        }
    }
}

/// The pages from `start` up to `end`, `end` included.
#[derive(Clone, PartialEq, Eq, Debug)]
pub struct PageRangeInclusive<S: PageSize = Size4KiB> {
    /// The first page of the range.
    pub start: Page<S>,
    /// The last page of the range.
    pub end: Page<S>,
    /// Set once the last page has been taken out.
    pub exhausted: bool,
}

impl<S: PageSize> PageRangeInclusive<S> {
    /// Whether the range holds no page.
    pub fn is_empty(&self) -> (r: bool)
        ensures
            r == (self.exhausted || self.start.start().value() > self.end.start().value()),
    {
        self.exhausted || self.start.start_address.0 > self.end.start_address.0
    }

    /// Takes the first page out of the range, or returns `None` when the range is empty.
    pub fn next(&mut self) -> (r: Option<Page<S>>)
        ensures
            final(self).end == old(self).end,
            !old(self).exhausted && old(self).start.start().value() < old(
                self,
            ).end.start().value() ==> r == Some(old(self).start) && Some(final(self).start)
                == old(self).start.spec_forward(1) && !final(self).exhausted,
            !old(self).exhausted && old(self).start.start().value() == old(
                self,
            ).end.start().value() ==> r == Some(old(self).start) && final(self).start == old(
                self,
            ).start && final(self).exhausted,
            old(self).exhausted || old(self).start.start().value() > old(
                self,
            ).end.start().value() ==> r.is_none() && *final(self) == *old(self),
    {
        if self.exhausted || self.start.start_address.0 > self.end.start_address.0 {
            None
        } else if self.start.start_address.0 < self.end.start_address.0 {
            let first = self.start;
            proof {
                lemma_size_is_power_of_two::<S>();
                use_type_invariant(self.start);
                use_type_invariant(self.end);
                lemma_next_fits(
                    self.start.start_address.0 as int,
                    self.end.start_address.0 as int,
                    S::SIZE as int,
                );
            }
            self.start = first + 1;
            Some(first)
        } else {
            self.exhausted = true;
            Some(self.start)
        }
    }
}

/// Between two multiples of `size`, the lower one has room for one more `size`.
proof fn lemma_next_fits(low: int, high: int, size: int)
    requires
        size > 0,
        low % size == 0,
        high % size == 0,
        low < high,
    ensures
        low + 1 * size <= high,
{
    assert(low + size <= high) by (nonlinear_arith)
        requires
            size > 0,
            low % size == 0,
            high % size == 0,
            low < high,
    ;
}

} // verus!

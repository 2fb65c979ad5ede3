//! A physical memory frame.

use super::{lemma_size_is_power_of_two, PageSize, Size4KiB};
use crate::addr::{spec_align_down, PhysAddr};
use core::marker::PhantomData;
use vstd::prelude::*;
verus! {

/// A physical memory frame.
#[derive(PartialEq, Eq, PartialOrd, Ord, Debug)]
pub struct Frame<S: PageSize = Size4KiB> {
    start_address: PhysAddr,
    size: PhantomData<S>,
}

impl<S: PageSize> Clone for Frame<S> {
    fn clone(&self) -> (r: Self)
        ensures
            r == *self,
    {
        *self
    }
}

impl<S: PageSize> Copy for Frame<S> {

}

impl<S: PageSize> Frame<S> {
    #[verifier::type_invariant]
    spec fn inv(self) -> bool {
        self.start_address.value() % S::SIZE == 0
    }

    /// The address at which the frame starts.
    pub closed spec fn start(self) -> PhysAddr {
        self.start_address
    }

    /// The start address is a multiple of the size; this holds of every frame that a
    /// program can hold.
    pub open spec fn wf(self) -> bool {
        self.start().value() % S::SIZE == 0
    }

    /// The frame that contains `address`.
    pub closed spec fn spec_containing(address: PhysAddr) -> Self {
        Frame {
            start_address: PhysAddr(spec_align_down(address.value(), S::SIZE) as u64),
            size: PhantomData,
        }
    }

    /// A frame is nothing but its start address.
    pub proof fn lemma_start_determines(a: Self, b: Self)
        requires
            a.start() == b.start(),
        ensures
            a == b,
    {
    }

    /// The frame that contains an address starts at that address rounded down.
    pub proof fn lemma_containing_start(address: PhysAddr)
        ensures
            Self::spec_containing(address).start().value() == spec_align_down(
                address.value(),
                S::SIZE,
            ),
            Self::spec_containing(address).wf(),
    {
        lemma_size_is_power_of_two::<S>();
        crate::addr::lemma_align_down(address.value(), S::SIZE);
    }

    /// Returns the frame that starts at the given address.
    ///
    /// Returns `None` if the address is not correctly aligned (i.e. is not a valid frame
    /// start).
    pub fn from_start_address(address: PhysAddr) -> (r: Option<Self>)
        ensures
            address.value() % S::SIZE == 0 ==> r.is_some() && r.unwrap().start() == address,
            address.value() % S::SIZE != 0 ==> r.is_none(),
    {
        proof {
            lemma_size_is_power_of_two::<S>();
        }
        if address.is_aligned(S::SIZE) {
            Some(Self::containing_address(address))
        } else {
            None
        }
    }

    /// Returns the frame that contains the given address.
    pub fn containing_address(address: PhysAddr) -> (r: Self)
        ensures
            r == Self::spec_containing(address),
            r.start().value() == spec_align_down(address.value(), S::SIZE),
            r.wf(),
    {
        proof {
            lemma_size_is_power_of_two::<S>();
        }
        Frame { start_address: address.align_down(S::SIZE), size: PhantomData }
    }

    /// Returns the start address of the frame.
    pub fn start_address(self) -> (r: PhysAddr)
        ensures
            r == self.start(),
            self.wf(),
    {
        proof {
            use_type_invariant(self);
        }
        self.start_address
    }

    /// Returns the size of the frame (4KB, 2MB or 1GB).
    pub fn size(&self) -> (r: u64)
        ensures
            r == S::SIZE,
    {
        S::SIZE
    }

    /// Returns the frame that contains the given address.
    pub fn of_addr(address: u64) -> (r: Self)
        ensures
            r == Self::spec_containing(PhysAddr(address)),
            r.start().value() == spec_align_down(address, S::SIZE),
    {
        Self::containing_address(PhysAddr::new(address))
    }

    /// The frames from the one that holds `begin` up to, but without, the one that holds
    /// `end`.
    pub fn range_of(begin: u64, end: u64) -> (r: FrameRange<S>)
        ensures
            r.start == Self::spec_containing(PhysAddr(begin)),
            r.end == Self::spec_containing(PhysAddr(end)),
    {
        FrameRange { start: Frame::of_addr(begin), end: Frame::of_addr(end) }
    }

    /// The frames from `start` up to, but without, `end`.
    pub fn range(start: Self, end: Self) -> (r: FrameRange<S>)
        ensures
            r.start == start,
            r.end == end,
    {
        FrameRange { start, end }
    }

    /// The frames from `start` up to `end`, `end` included.
    pub fn range_inclusive(start: Self, end: Self) -> (r: FrameRangeInclusive<S>)
        ensures
            r.start == start,
            r.end == end,
            !r.exhausted,
    {
        FrameRangeInclusive { start, end, exhausted: false }
    }

    /// The frame `count` places after this one, if there is one.
    pub open spec fn spec_forward(self, count: int) -> Option<Self> {
        if self.start().value() + count * S::SIZE <= u64::MAX {
            Some(Self::spec_containing(PhysAddr((self.start().value() + count * S::SIZE) as u64)))
        } else {
            None
        }
    }

    /// The frame `count` places before this one, if there is one.
    pub open spec fn spec_backward(self, count: int) -> Option<Self> {
        if self.start().value() - count * S::SIZE >= 0 {
            Some(Self::spec_containing(PhysAddr((self.start().value() - count * S::SIZE) as u64)))
        } else {
            None
        }
    }

    /// A step from a well-formed frame lands on the start address that the arithmetic gives.
    pub proof fn lemma_step_start(self, count: int)
        requires
            self.wf(),
            count >= 0,
        ensures
            self.spec_forward(count) matches Some(p) ==> p.start().value()
                == self.start().value() + count * S::SIZE && p.wf(),
            self.spec_backward(count) matches Some(p) ==> p.start().value()
                == self.start().value() - count * S::SIZE && p.wf(),
    {
        lemma_size_is_power_of_two::<S>();
        let size = S::SIZE as int;
        let base = self.start().value() as int;
        assert(count * size >= 0) by (nonlinear_arith)
            requires
                count >= 0,
                size > 0,
        ;
        assert(size * count == count * size) by (nonlinear_arith);
        assert(size * (-count) == -(count * size)) by (nonlinear_arith);
        if base + count * size <= u64::MAX {
            let sum = (base + count * size) as u64;
            vstd::arithmetic::div_mod::lemma_mod_multiples_vanish(count, base, size);
            Self::lemma_containing_start(PhysAddr(sum));
            crate::addr::lemma_align_down(sum, S::SIZE);
        }
        if base - count * size >= 0 {
            let diff = (base - count * size) as u64;
            vstd::arithmetic::div_mod::lemma_mod_multiples_vanish(-count, base, size);
            Self::lemma_containing_start(PhysAddr(diff));
            crate::addr::lemma_align_down(diff, S::SIZE);
        }
    }

    /// The number of steps from `start` forward to `end`, which must not lie before it.
    pub fn steps_between(start: &Self, end: &Self) -> (r: Option<usize>)
        requires
            start.start().value() <= end.start().value(),
        ensures
            r == Some(((end.start().value() - start.start().value()) / S::SIZE as int) as usize),
    {
        proof {
            lemma_size_is_power_of_two::<S>();
        }
        let distance: u64 = (end.start_address.0 - start.start_address.0) / S::SIZE;
        Some(crate::bits::u64_to_usize(distance))
    }

    /// The frame `count` places after `start`, or `None` where the address space ends
    /// before it.
    pub fn forward_checked(start: Self, count: usize) -> (r: Option<Self>)
        ensures
            r == start.spec_forward(count as int),
    {
        proof {
            lemma_size_is_power_of_two::<S>();
            use_type_invariant(start);
            start.lemma_step_start(count as int);
        }
        let count: u64 = crate::bits::usize_to_u64(count);
        match count.checked_mul(S::SIZE) {
            Some(bytes) => match start.start_address.0.checked_add(bytes) {
                Some(address) => {
                    let r = Frame { start_address: PhysAddr(address), size: PhantomData };
                    proof {
                        Self::lemma_start_determines(r, start.spec_forward(count as int).unwrap());
                    }
                    Some(r)
                },
                None => None,
            },
            None => {
                assert(start.start().value() + count * S::SIZE > u64::MAX);
                None
            },
        }
    }

    /// The frame `count` places before `start`, or `None` where the address space starts
    /// after it.
    pub fn backward_checked(start: Self, count: usize) -> (r: Option<Self>)
        ensures
            r == start.spec_backward(count as int),
    {
        proof {
            lemma_size_is_power_of_two::<S>();
            use_type_invariant(start);
            start.lemma_step_start(count as int);
        }
        let count: u64 = crate::bits::usize_to_u64(count);
        match count.checked_mul(S::SIZE) {
            Some(bytes) => match start.start_address.0.checked_sub(bytes) {
                Some(address) => {
                    let r = Frame { start_address: PhysAddr(address), size: PhantomData };
                    proof {
                        Self::lemma_start_determines(r, start.spec_backward(count as int).unwrap());
                    }
                    Some(r)
                },
                None => None,
            },
            None => {
                assert(start.start().value() - count * S::SIZE < 0);
                None
            },
        }
    }
}

impl<S: PageSize> core::ops::Add<u64> for Frame<S> {
    type Output = Self;

    fn add(self, rhs: u64) -> (r: Self)
        ensures
            r.start().value() == self.start().value() + rhs * S::SIZE,
    {
        proof {
            lemma_size_is_power_of_two::<S>();
            use_type_invariant(self);
            self.lemma_step_start(rhs as int);
        }
        assert(rhs * S::SIZE <= u64::MAX) by (nonlinear_arith)
            requires
                self.start_address.0 + rhs * S::SIZE <= u64::MAX,
        ;
        Frame::containing_address(self.start_address() + rhs * S::SIZE)
    }
}

impl<S: PageSize> vstd::std_specs::ops::AddSpecImpl<u64> for Frame<S> {
    open spec fn obeys_add_spec() -> bool {
        true
    }

    open spec fn add_req(self, rhs: u64) -> bool {
        self.start().value() + rhs * S::SIZE <= u64::MAX
    }

    open spec fn add_spec(self, rhs: u64) -> Self {
        self.spec_forward(rhs as int).unwrap()
    }
}

impl<S: PageSize> core::ops::Sub<u64> for Frame<S> {
    type Output = Self;

    fn sub(self, rhs: u64) -> (r: Self)
        ensures
            r.start().value() == self.start().value() - rhs * S::SIZE,
    {
        proof {
            lemma_size_is_power_of_two::<S>();
            use_type_invariant(self);
            self.lemma_step_start(rhs as int);
        }
        assert(rhs * S::SIZE <= u64::MAX) by (nonlinear_arith)
            requires
                self.start_address.0 - rhs * S::SIZE >= 0,
                rhs >= 0,
                S::SIZE >= 0,
        ;
        Frame::containing_address(self.start_address() - rhs * S::SIZE)
    }
}

impl<S: PageSize> vstd::std_specs::ops::SubSpecImpl<u64> for Frame<S> {
    open spec fn obeys_sub_spec() -> bool {
        true
    }

    open spec fn sub_req(self, rhs: u64) -> bool {
        self.start().value() - rhs * S::SIZE >= 0
    }

    open spec fn sub_spec(self, rhs: u64) -> Self {
        self.spec_backward(rhs as int).unwrap()
    }
}

impl<S: PageSize> core::ops::Sub<Frame<S>> for Frame<S> {
    type Output = u64;

    fn sub(self, rhs: Frame<S>) -> (r: u64) {
        proof {
            lemma_size_is_power_of_two::<S>();
        }
        (self.start_address - rhs.start_address) / S::SIZE
    }
}

impl<S: PageSize> vstd::std_specs::ops::SubSpecImpl<Frame<S>> for Frame<S> {
    open spec fn obeys_sub_spec() -> bool {
        true
    }

    open spec fn sub_req(self, rhs: Frame<S>) -> bool {
        self.start().value() >= rhs.start().value()
    }

    open spec fn sub_spec(self, rhs: Frame<S>) -> u64 {
        ((self.start().value() - rhs.start().value()) / S::SIZE as int) as u64
    }
}

impl<S: PageSize> core::ops::AddAssign<u64> for Frame<S> {
    fn add_assign(&mut self, rhs: u64)
        requires
            old(self).start().value() + rhs * S::SIZE <= u64::MAX,
        ensures
            Some(*final(self)) == old(self).spec_forward(rhs as int),
    {
        *self = *self + rhs;
    }
}

impl<S: PageSize> core::ops::SubAssign<u64> for Frame<S> {
    fn sub_assign(&mut self, rhs: u64)
        requires
            old(self).start().value() - rhs * S::SIZE >= 0,
        ensures
            Some(*final(self)) == old(self).spec_backward(rhs as int),
    {
        *self = *self - rhs;
    }
}

/// Moving `n` frames forward and measuring the distance back gives `n`.
pub proof fn lemma_add_then_sub<S: PageSize>(f: Frame<S>, n: u64)
    requires
        f.wf(),
        f.start().value() + n * S::SIZE <= u64::MAX,
    ensures
        f.spec_forward(n as int) matches Some(g) && g.start().value() >= f.start().value() && ((
        g.start().value() - f.start().value()) / S::SIZE as int) == n,
        vstd::std_specs::ops::AddSpec::add_req(f, n),
        vstd::std_specs::ops::SubSpec::sub_req(vstd::std_specs::ops::AddSpec::add_spec(f, n), f),
        vstd::std_specs::ops::SubSpec::sub_spec(vstd::std_specs::ops::AddSpec::add_spec(f, n), f)
            == n,
{
    lemma_size_is_power_of_two::<S>();
    f.lemma_step_start(n as int);
    let size = S::SIZE as int;
    assert((n * size) / size == n) by (nonlinear_arith)
        requires
            size > 0,
    ;
    assert(n * size >= 0) by (nonlinear_arith)
        requires
            size > 0,
            n >= 0,
    ;
}

/// The frames from `start` up to, but without, `end`.
#[derive(Clone, PartialEq, Eq, Debug)]
pub struct FrameRange<S: PageSize = Size4KiB> {
    /// The first frame of the range.
    pub start: Frame<S>,
    /// The frame after the last one of the range.
    pub end: Frame<S>,
}

impl<S: PageSize> FrameRange<S> {
    /// Whether the range holds no frame.
    pub fn is_empty(&self) -> (r: bool)
        ensures
            r == (self.start.start().value() >= self.end.start().value()),
    {
        self.start.start_address.0 >= self.end.start_address.0
    }

    /// Takes the first frame out of the range, or returns `None` when the range is empty.
    pub fn next(&mut self) -> (r: Option<Frame<S>>)
        ensures
            old(self).start.start().value() < old(self).end.start().value() ==> r == Some(
                old(self).start,
            ) && Some(final(self).start) == old(self).start.spec_forward(1) && final(self).end
                == old(self).end,
            old(self).start.start().value() >= old(self).end.start().value() ==> r.is_none()
                && *final(self) == *old(self),
    {
        if self.start.start_address.0 < self.end.start_address.0 {
            let first = self.start;
            proof {
                lemma_size_is_power_of_two::<S>();
                use_type_invariant(self.start);
                use_type_invariant(self.end);
                lemma_next_fits(
                    self.start.start_address.0 as int,
                    self.end.start_address.0 as int,
                    S::SIZE as int,
                );
            }
            self.start = first + 1;
            Some(first)
        } else {
            None
        }
    }
}

/// The frames from `start` up to `end`, `end` included.
#[derive(Clone, PartialEq, Eq, Debug)]
pub struct FrameRangeInclusive<S: PageSize = Size4KiB> {
    /// The first frame of the range.
    pub start: Frame<S>,
    /// The last frame of the range.
    pub end: Frame<S>,
    /// Set once the last frame has been taken out.
    pub exhausted: bool,
}

impl<S: PageSize> FrameRangeInclusive<S> {
    /// Whether the range holds no frame.
    pub fn is_empty(&self) -> (r: bool)
        ensures
            r == (self.exhausted || self.start.start().value() > self.end.start().value()),
    {
        self.exhausted || self.start.start_address.0 > self.end.start_address.0
    }

    /// Takes the first frame out of the range, or returns `None` when the range is empty.
    pub fn next(&mut self) -> (r: Option<Frame<S>>)
        ensures
            final(self).end == old(self).end,
            !old(self).exhausted && old(self).start.start().value() < old(
                self,
            ).end.start().value() ==> r == Some(old(self).start) && Some(final(self).start)
                == old(self).start.spec_forward(1) && !final(self).exhausted,
            !old(self).exhausted && old(self).start.start().value() == old(
                self,
            ).end.start().value() ==> r == Some(old(self).start) && final(self).start == old(
                self,
            ).start && final(self).exhausted,
            old(self).exhausted || old(self).start.start().value() > old(
                self,
            ).end.start().value() ==> r.is_none() && *final(self) == *old(self),
    {
        if self.exhausted || self.start.start_address.0 > self.end.start_address.0 {
            None
        } else if self.start.start_address.0 < self.end.start_address.0 {
            let first = self.start;
            proof {
                lemma_size_is_power_of_two::<S>();
                use_type_invariant(self.start);
                use_type_invariant(self.end);
                lemma_next_fits(
                    self.start.start_address.0 as int,
                    self.end.start_address.0 as int,
                    S::SIZE as int,
                );
            }
            self.start = first + 1;
            Some(first)
        } else {
            self.exhausted = true;
            Some(self.start)
        }
    }
}

/// Between two multiples of `size`, the lower one has room for one more `size`.
proof fn lemma_next_fits(low: int, high: int, size: int)
    requires
        size > 0,
        low % size == 0,
        high % size == 0,
        low < high,
    ensures
        low + 1 * size <= high,
{
    assert(low + size <= high) by (nonlinear_arith)
        requires
            size > 0,
            low % size == 0,
            high % size == 0,
            low < high,
    ;
}

} // verus!

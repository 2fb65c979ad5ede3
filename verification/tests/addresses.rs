use aarch64::addr::{
    align_down, align_up, PhysAddr, VirtAddr, VirtAddrRange, PAGE_SIZE_1GIB, PAGE_SIZE_2MIB,
    PAGE_SIZE_4KIB,
};
use aarch64::index::{LargePageOffset, PageOffset, PageTableIndex};
use aarch64::paging::frame::Frame;
use aarch64::paging::page::Page;
use aarch64::paging::{PageSize, Size1GiB, Size2MiB, Size4KiB};

#[test]
fn page_sizes() {
    assert_eq!(PAGE_SIZE_4KIB, 4096);
    assert_eq!(PAGE_SIZE_2MIB, 2 * 1024 * 1024);
    assert_eq!(PAGE_SIZE_1GIB, 1024 * 1024 * 1024);
    assert_eq!(Size4KiB::SIZE, PAGE_SIZE_4KIB);
    assert_eq!(Size2MiB::SIZE, PAGE_SIZE_2MIB);
    assert_eq!(Size1GiB::SIZE, PAGE_SIZE_1GIB);
    assert_eq!(Size4KiB::SIZE_AS_DEBUG_STR, "4KiB");
    assert_eq!(Size2MiB::SIZE_AS_DEBUG_STR, "2MiB");
    assert_eq!(Size1GiB::SIZE_AS_DEBUG_STR, "1GiB");
}

#[test]
fn align_down_rounds_to_the_multiple_below() {
    assert_eq!(align_down(0x1234, 0x1000), 0x1000);
    assert_eq!(align_down(0x1000, 0x1000), 0x1000);
    assert_eq!(align_down(0xfff, 0x1000), 0);
    assert_eq!(align_down(0xdead_beaf, 1), 0xdead_beaf);
    assert_eq!(align_down(u64::MAX, 1 << 63), 1 << 63);
    assert_eq!(align_down(u64::MAX, 0x20_0000), 0xffff_ffff_ffe0_0000);
}

#[test]
fn align_up_rounds_to_the_multiple_above() {
    assert_eq!(align_up(0x1234, 0x1000), 0x2000);
    assert_eq!(align_up(0x1000, 0x1000), 0x1000);
    assert_eq!(align_up(1, 0x4000_0000), 0x4000_0000);
    assert_eq!(align_up(0, 0x1000), 0);
    assert_eq!(align_up(0xdead_beaf, 1), 0xdead_beaf);
    assert_eq!(align_up(0xffff_ffff_ffff_f000, 0x1000), 0xffff_ffff_ffff_f000);
}

#[test]
fn virtual_addresses_are_canonical_or_refused() {
    assert_eq!(VirtAddr::try_new(0), Some(VirtAddr::new(0)));
    assert_eq!(VirtAddr::try_new(0x0000_ffff_ffff_ffff), Some(VirtAddr::new(0x0000_ffff_ffff_ffff)));
    assert_eq!(VirtAddr::try_new(0xffff_0000_0000_0000), Some(VirtAddr::new(0xffff_0000_0000_0000)));
    assert_eq!(VirtAddr::try_new(u64::MAX), Some(VirtAddr::new(u64::MAX)));
    assert_eq!(VirtAddr::try_new(0x0001_0000_0000_0000), None);
    assert_eq!(VirtAddr::try_new(0xfffe_ffff_ffff_ffff), None);
    assert_eq!(VirtAddr::try_new(0x8000_0000_0000_0000), None);
    assert_eq!(VirtAddr::try_new(0x00ff_0000_0000_1000), None);
}

#[test]
fn physical_addresses_have_52_bits() {
    assert_eq!(PhysAddr::try_new(0), Some(PhysAddr::new(0)));
    assert_eq!(PhysAddr::try_new((1 << 52) - 1), Some(PhysAddr::new((1 << 52) - 1)));
    assert_eq!(PhysAddr::try_new(1 << 52), None);
    assert_eq!(PhysAddr::try_new(u64::MAX), None);
    assert_eq!(PhysAddr::try_new(0x8000_0000_0000_0000), None);
}

#[test]
fn address_accessors() {
    let addr = VirtAddr::new(0xdead_beaf);
    assert_eq!(addr.as_u64(), 0xdead_beaf);
    assert!(!addr.is_zero());
    assert!(VirtAddr::zero().is_zero());
    assert_eq!(VirtAddr::zero().as_u64(), 0);
    assert!(PhysAddr::zero().is_zero());
    assert!(!PhysAddr::new(1).is_zero());
    assert_eq!(PhysAddr::new(77).as_u64(), 77);
    assert_eq!(VirtAddr::from_ptr(0x1234usize), VirtAddr::new(0x1234));
    assert_eq!(addr.as_ptr(), 0xdead_beafusize);
    assert_eq!(addr.as_mut_ptr(), 0xdead_beafusize);
}

#[test]
fn address_conversions() {
    assert_eq!(VirtAddr::from(0x1234u64), VirtAddr::new(0x1234));
    assert_eq!(u64::from(VirtAddr::new(0x1234)), 0x1234);
    let number: u64 = VirtAddr::new(0xffff_0000_0000_0001).into();
    assert_eq!(number, 0xffff_0000_0000_0001);
    assert_eq!(PhysAddr::from(0x5678u64), PhysAddr::new(0x5678));
    assert_eq!(u64::from(PhysAddr::new(0x5678)), 0x5678);
    let number: u64 = PhysAddr::new(9).into();
    assert_eq!(number, 9);
}

#[test]
fn address_alignment() {
    let addr = VirtAddr::new(0xdead_beaf);
    assert_eq!(addr.align_down(0x1000), VirtAddr::new(0xdead_b000));
    assert_eq!(addr.align_up(0x1000), VirtAddr::new(0xdead_c000));
    assert!(!addr.is_aligned(0x1000));
    assert!(addr.is_aligned(1));
    assert!(VirtAddr::new(0x20_0000).is_aligned(0x20_0000));
    assert!(!VirtAddr::new(0x20_0000).is_aligned(0x4000_0000));
    let addr = PhysAddr::new(0x1234_5678);
    assert_eq!(addr.align_down(0x20_0000), PhysAddr::new(0x1220_0000));
    assert_eq!(addr.align_up(0x20_0000), PhysAddr::new(0x1240_0000));
    assert!(addr.is_aligned(8));
    assert!(!addr.is_aligned(16));
    assert!(PhysAddr::new(0x1240_0000).is_aligned(0x20_0000));
}

#[test]
fn offsets_and_indices() {
    let addr = VirtAddr::new(0xdead_beaf);
    assert_eq!(addr.page_offset(), PageOffset::new(0xeaf));
    assert_eq!(addr.page_offset().as_u64(), 0xeaf);
    assert_eq!(addr.large_page_offset(), LargePageOffset::new(0xd_beaf));
    assert_eq!(addr.large_page_offset().as_u64(), 0xd_beaf);
    assert_eq!(addr.p1_index(), PageTableIndex::new(0xdb));
    assert_eq!(addr.p2_index(), PageTableIndex::new(0xf5));
    assert_eq!(addr.p3_index(), PageTableIndex::new(3));
    assert_eq!(addr.p4_index(), PageTableIndex::new(0));
    let addr = VirtAddr::new(0xffff_8123_4567_89ab);
    assert_eq!(addr.p1_index().as_u16(), 0x78);
    assert_eq!(addr.p2_index().as_u64(), 0x2b);
    assert_eq!(addr.p3_index().as_usize(), 0x8d);
    assert_eq!(addr.p4_index().as_u16(), 0x102);
    assert_eq!(PageTableIndex::new_truncate(0x3ff).as_u16(), 0x1ff);
    assert_eq!(PageTableIndex::new_truncate(512).as_u16(), 0);
}

#[test]
fn address_ranges() {
    assert_eq!(VirtAddrRange::Bottom.as_offset(), 0);
    assert_eq!(VirtAddrRange::Top.as_offset(), 0xffff_0000_0000_0000);
    assert!(matches!(VirtAddr::new(0x1000).va_range(), Some(VirtAddrRange::Bottom)));
    assert!(matches!(VirtAddr::new(0xffff_8123_4567_89ab).va_range(), Some(VirtAddrRange::Top)));
    assert!(VirtAddr::new(0x0001_0000_0000_0000).va_range().is_none());
    assert_eq!(VirtAddr::new(0x1000).va_range_bits(), 0);
    assert_eq!(VirtAddr::new(0xffff_8123_4567_89ab).va_range_bits(), 0xffff);
    assert_eq!(VirtAddr::new(0x1234_0000_0000_0000).va_range_bits(), 0x1234);
    assert!(matches!(
        Page::<Size2MiB>::containing_address(VirtAddr::new(0xffff_0000_0020_0001)).va_range(),
        Some(VirtAddrRange::Top)
    ));
}

#[test]
fn address_arithmetic() {
    let a = VirtAddr::new(0x1000);
    assert_eq!(a + VirtAddr::new(0x10), VirtAddr::new(0x1010));
    assert_eq!(a + 0x20u64, VirtAddr::new(0x1020));
    assert_eq!(a + 0x30usize, VirtAddr::new(0x1030));
    assert_eq!(a - VirtAddr::new(0x10), 0xff0);
    assert_eq!(a - 0x20u64, VirtAddr::new(0xfe0));
    assert_eq!(a - 0x30usize, VirtAddr::new(0xfd0));
    assert_eq!(VirtAddr::new(0x1234) % VirtAddr::new(0x1000), VirtAddr::new(0x234));
    assert_eq!(VirtAddr::new(0x1234) % 0x100u64, 0x34);
    assert_eq!(VirtAddr::new(0x1234) & VirtAddr::new(0xff00), VirtAddr::new(0x1200));
    assert_eq!(VirtAddr::new(0x1234) & 0xffu64, VirtAddr::new(0x34));
    assert_eq!(VirtAddr::new(0x1200) | VirtAddr::new(0x34), VirtAddr::new(0x1234));
    assert_eq!(VirtAddr::new(0x1200) | 0x35u64, VirtAddr::new(0x1235));
    assert_eq!(VirtAddr::new(0x1234) >> 4u64, 0x123);
    let mut b = VirtAddr::new(0x1000);
    b += 0x10u64;
    assert_eq!(b, VirtAddr::new(0x1010));

    let p = PhysAddr::new(0x2000);
    assert_eq!(p + PhysAddr::new(0x10), PhysAddr::new(0x2010));
    assert_eq!(p + 0x20u64, PhysAddr::new(0x2020));
    assert_eq!(p + 0x30usize, PhysAddr::new(0x2030));
    assert_eq!(p - PhysAddr::new(0x10), 0x1ff0);
    assert_eq!(p - 0x20u64, PhysAddr::new(0x1fe0));
    assert_eq!(p - 0x30usize, PhysAddr::new(0x1fd0));
    assert_eq!(PhysAddr::new(0x1234) % PhysAddr::new(0x1000), PhysAddr::new(0x234));
    assert_eq!(PhysAddr::new(0x1234) % 0x100u64, 0x34);
    assert_eq!(PhysAddr::new(0x1234) & PhysAddr::new(0xff00), PhysAddr::new(0x1200));
    assert_eq!(PhysAddr::new(0x1234) & 0xffu64, PhysAddr::new(0x34));
    assert_eq!(PhysAddr::new(0x1200) | PhysAddr::new(0x34), PhysAddr::new(0x1234));
    assert_eq!(PhysAddr::new(0x1200) | 0x35u64, PhysAddr::new(0x1235));
    assert_eq!(PhysAddr::new(0x1234) >> 4u64, 0x123);
}

#[test]
fn pages_start_at_aligned_addresses() {
    for &start in [0u64, 0x1000, 0xdead_b000, 0xffff_ffff_ffff_f000].iter() {
        let page = Page::<Size4KiB>::from_start_address(VirtAddr::new(start)).unwrap();
        assert_eq!(page.start_address(), VirtAddr::new(start));
        assert_eq!(page.size(), 0x1000);
    }
    assert_eq!(Page::<Size4KiB>::from_start_address(VirtAddr::new(0x1001)), None);
    assert_eq!(Page::<Size4KiB>::from_start_address(VirtAddr::new(0xfff)), None);
    let page = Page::<Size2MiB>::from_start_address(VirtAddr::new(0x40_0000)).unwrap();
    assert_eq!(page.start_address(), VirtAddr::new(0x40_0000));
    assert_eq!(page.size(), 0x20_0000);
    assert_eq!(Page::<Size2MiB>::from_start_address(VirtAddr::new(0x1000)), None);
    let page = Page::<Size1GiB>::from_start_address(VirtAddr::new(0xc000_0000)).unwrap();
    assert_eq!(page.start_address(), VirtAddr::new(0xc000_0000));
    assert_eq!(page.size(), 0x4000_0000);
    assert_eq!(Page::<Size1GiB>::from_start_address(VirtAddr::new(0x20_0000)), None);

    assert_eq!(
        Page::<Size4KiB>::containing_address(VirtAddr::new(0xdead_beaf)).start_address(),
        VirtAddr::new(0xdead_b000)
    );
    assert_eq!(
        Page::<Size2MiB>::containing_address(VirtAddr::new(0xdead_beaf)).start_address(),
        VirtAddr::new(0xdea0_0000)
    );
    assert_eq!(
        Page::<Size1GiB>::containing_address(VirtAddr::new(0xdead_beaf)).start_address(),
        VirtAddr::new(0xc000_0000)
    );
    assert_eq!(Page::<Size4KiB>::of_addr(0x1fff).start_address(), VirtAddr::new(0x1000));
}

#[test]
fn frames_start_at_aligned_addresses() {
    let frame = Frame::<Size4KiB>::from_start_address(PhysAddr::new(0x2000)).unwrap();
    assert_eq!(frame.start_address(), PhysAddr::new(0x2000));
    assert_eq!(frame.size(), 0x1000);
    assert_eq!(Frame::<Size4KiB>::from_start_address(PhysAddr::new(0x2008)), None);
    let frame = Frame::<Size2MiB>::from_start_address(PhysAddr::new(0x20_0000)).unwrap();
    assert_eq!(frame.size(), 0x20_0000);
    assert_eq!(Frame::<Size2MiB>::from_start_address(PhysAddr::new(0x2000)), None);
    let frame = Frame::<Size1GiB>::from_start_address(PhysAddr::new(0x4000_0000)).unwrap();
    assert_eq!(frame.size(), 0x4000_0000);
    assert_eq!(Frame::<Size1GiB>::from_start_address(PhysAddr::new(0x20_0000)), None);
    assert_eq!(
        Frame::<Size2MiB>::containing_address(PhysAddr::new(0x1234_5678)).start_address(),
        PhysAddr::new(0x1220_0000)
    );
    assert_eq!(Frame::<Size4KiB>::of_addr(0x2fff).start_address(), PhysAddr::new(0x2000));
}

#[test]
fn region_arithmetic() {
    let frame = Frame::<Size4KiB>::of_addr(0x5000);
    assert_eq!((frame + 7).start_address(), PhysAddr::new(0xc000));
    assert_eq!((frame + 7) - frame, 7);
    assert_eq!((frame - 5).start_address(), PhysAddr::new(0));
    let frame = Frame::<Size2MiB>::of_addr(0x40_0000);
    assert_eq!((frame + 3).start_address(), PhysAddr::new(0xa0_0000));
    assert_eq!((frame + 3) - frame, 3);
    assert_eq!((frame - 2).start_address(), PhysAddr::new(0));
    let frame = Frame::<Size1GiB>::of_addr(0x4000_0000);
    assert_eq!((frame + 1000).start_address(), PhysAddr::new(0x4000_0000 * 1001));
    assert_eq!((frame + 1000) - frame, 1000);
    assert_eq!((frame + 0) - frame, 0);
    let page = Page::<Size4KiB>::of_addr(0xffff_0000_0000_0000);
    assert_eq!((page + 0xfff) - page, 0xfff);
    let page = Page::<Size2MiB>::of_addr(0x20_0000);
    assert_eq!((page + 9) - page, 9);
    assert_eq!((page - 1).start_address(), VirtAddr::new(0));
    let page = Page::<Size1GiB>::of_addr(0);
    assert_eq!((page + 12) - page, 12);

    let mut moving = Frame::<Size4KiB>::of_addr(0x5000);
    moving += 2;
    assert_eq!(moving.start_address(), PhysAddr::new(0x7000));
    moving -= 7;
    assert_eq!(moving.start_address(), PhysAddr::new(0));
}

#[test]
fn steps_stop_at_the_ends_of_the_address_space() {
    let first = Page::<Size4KiB>::of_addr(0);
    let last = Page::<Size4KiB>::of_addr(u64::MAX);
    assert_eq!(last.start_address(), VirtAddr::new(0xffff_ffff_ffff_f000));
    assert_eq!(Page::forward_checked(last, 0), Some(last));
    assert_eq!(Page::forward_checked(last, 1), None);
    assert_eq!(Page::forward_checked(first, usize::MAX), None);
    assert_eq!(Page::forward_checked(first, (1 << 52) - 1), Some(last));
    assert_eq!(Page::forward_checked(first, 1 << 52), None);
    assert_eq!(Page::backward_checked(first, 0), Some(first));
    assert_eq!(Page::backward_checked(first, 1), None);
    assert_eq!(Page::backward_checked(last, (1 << 52) - 1), Some(first));
    assert_eq!(Page::backward_checked(last, 1 << 52), None);
    assert_eq!(Page::steps_between(&first, &last), Some((1 << 52) - 1));
    assert_eq!(Page::steps_between(&last, &last), Some(0));

    let low = Frame::<Size2MiB>::of_addr(0x20_0000);
    assert_eq!(Frame::forward_checked(low, 2), Some(Frame::of_addr(0x60_0000)));
    assert_eq!(Frame::backward_checked(low, 1), Some(Frame::of_addr(0)));
    assert_eq!(Frame::backward_checked(low, 2), None);
    assert_eq!(Frame::steps_between(&low, &Frame::of_addr(0xa0_0000)), Some(4));
    assert_eq!(
        Frame::forward_checked(Frame::<Size1GiB>::of_addr(u64::MAX), 1),
        None
    );
}

#[test]
fn ranges_of_regions() {
    let mut frames = Frame::<Size4KiB>::range_of(0x1234, 0x4000);
    assert!(!frames.is_empty());
    assert_eq!(frames.next(), Some(Frame::of_addr(0x1000)));
    assert_eq!(frames.next(), Some(Frame::of_addr(0x2000)));
    assert_eq!(frames.next(), Some(Frame::of_addr(0x3000)));
    assert_eq!(frames.next(), None);
    assert_eq!(frames.next(), None);
    assert!(frames.is_empty());
    assert!(Frame::<Size4KiB>::range_of(0x4000, 0x1000).is_empty());

    let mut pages = Page::<Size4KiB>::range_of(0x1234, 0x3001);
    assert_eq!(pages.next(), Some(Page::of_addr(0x1000)));
    assert_eq!(pages.next(), Some(Page::of_addr(0x2000)));
    assert_eq!(pages.next(), Some(Page::of_addr(0x3000)));
    assert_eq!(pages.next(), None);
    let mut pages = Page::<Size4KiB>::range_of(0x1000, 0x3000);
    assert_eq!(pages.next(), Some(Page::of_addr(0x1000)));
    assert_eq!(pages.next(), Some(Page::of_addr(0x2000)));
    assert_eq!(pages.next(), None);

    let last = Frame::<Size1GiB>::of_addr(u64::MAX);
    let mut to_the_end = Frame::range_inclusive(last - 1, last);
    assert!(!to_the_end.is_empty());
    assert_eq!(to_the_end.next(), Some(last - 1));
    assert_eq!(to_the_end.next(), Some(last));
    assert_eq!(to_the_end.next(), None);
    assert!(to_the_end.is_empty());
    let mut backwards = Frame::range_inclusive(last, last - 1);
    assert_eq!(backwards.next(), None);
    let mut empty = Frame::range(last, last);
    assert_eq!(empty.next(), None);
}

#[test]
fn pages_from_indices() {
    let index = |value: u16| PageTableIndex::new(value);
    assert_eq!(
        Page::from_page_table_indices(VirtAddrRange::Bottom, index(1), index(2), index(3), index(4))
            .start_address(),
        VirtAddr::new(0x80_8060_4000)
    );
    let page = Page::from_page_table_indices(
        VirtAddrRange::Top,
        index(511),
        index(0),
        index(7),
        index(9),
    );
    assert_eq!(page.start_address(), VirtAddr::new(0xffff_ff80_00e0_9000));
    assert_eq!(page.p4_index(), index(511));
    assert_eq!(page.p3_index(), index(0));
    assert_eq!(page.p2_index(), index(7));
    assert_eq!(page.p1_index(), index(9));
    let page = Page::from_page_table_indices_1gib(VirtAddrRange::Bottom, index(5), index(6));
    assert_eq!(page.start_address(), VirtAddr::new(0x281_8000_0000));
    assert_eq!(page.p4_index(), index(5));
    assert_eq!(page.p3_index(), index(6));
    let page =
        Page::from_page_table_indices_2mib(VirtAddrRange::Top, index(5), index(6), index(7));
    assert_eq!(page.start_address(), VirtAddr::new(0xffff_0281_80e0_0000));
    assert_eq!(page.p2_index(), index(7));
    let all = Page::from_page_table_indices(
        VirtAddrRange::Bottom,
        index(511),
        index(511),
        index(511),
        index(511),
    );
    assert_eq!(all.start_address(), VirtAddr::new(0x0000_ffff_ffff_f000));
}

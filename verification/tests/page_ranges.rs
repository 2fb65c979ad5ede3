use aarch64::addr::VirtAddr;
use aarch64::paging::page::Page;
use aarch64::paging::{PageSize, Size4KiB};

#[test]
pub fn test_page_ranges() {
    let page_size = Size4KiB::SIZE;
    let number = 1000;

    let start_addr = VirtAddr::new(0xdeadbeaf);
    let start: Page = Page::containing_address(start_addr);
    let end = start + number;
    let mut range = Page::range(start, end);

    for i in 0..number {
        assert_eq!(
            range.next(),
            Some(Page::containing_address(start_addr + page_size * i))
        );
    }
    assert_eq!(range.next(), None);

    let mut range_inclusive = Page::range_inclusive(start, end);
    for i in 0..=number {
        assert_eq!(
            range_inclusive.next(),
            Some(Page::containing_address(start_addr + page_size * i))
        );
    }
    assert_eq!(range_inclusive.next(), None);
}

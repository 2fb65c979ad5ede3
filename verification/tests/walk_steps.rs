use aarch64::addr::{PhysAddr, VirtAddr};
use aarch64::paging::frame::Frame;
use aarch64::paging::frame_alloc::FrameAllocator;
use aarch64::paging::mapper::mapped_page_table::PageTableWalker;
use aarch64::paging::mapper::offset_page_table::PhysOffset;
use aarch64::paging::mapper::recursive_page_table::{RecursivePageTable, RecursiveWalker};
use aarch64::paging::mapper::walk::locate;
use aarch64::paging::mapper::{
    create_next_table, index_at, link_next_table, next_table, EntryGetError, MapToError,
    PageTableCreateError, PageTableWalkError, TableLocator, UnmapError,
};
use aarch64::paging::memory::TableMemory;
use aarch64::paging::table::{FrameError, PageTableEntry};
use aarch64::paging::Size4KiB;
use aarch64::index::PageTableIndex;

const OFFSET: u64 = 0xffff_8000_0000_0000;
const ROOT: u64 = OFFSET + 0x1000;

fn walker() -> PageTableWalker<PhysOffset> {
    PageTableWalker::new(PhysOffset { offset: VirtAddr::new(OFFSET) }, VirtAddr::new(ROOT))
}

struct OneFrame(Option<u64>);

impl FrameAllocator<Size4KiB> for OneFrame {
    fn allocate_frame(&mut self) -> Option<Frame<Size4KiB>> {
        self.0.take().map(|addr| Frame::containing_address(PhysAddr::new(addr)))
    }
}

#[test]
fn errors_are_carried_over() {
    assert_eq!(
        PageTableWalkError::from_frame_error(FrameError::HugeFrame),
        PageTableWalkError::MappedToHugePage
    );
    assert_eq!(
        PageTableWalkError::from_frame_error(FrameError::FrameNotPresent),
        PageTableWalkError::NotMapped
    );
    assert_eq!(
        PageTableWalkError::MappedToHugePage.entry_error(),
        EntryGetError::ParentEntryHugePage
    );
    assert_eq!(PageTableWalkError::NotMapped.entry_error(), EntryGetError::PageNotMapped);
    assert_eq!(
        PageTableCreateError::MappedToHugePage.map_error(),
        MapToError::ParentEntryHugePage
    );
    assert_eq!(
        PageTableCreateError::FrameAllocationFailed.map_error(),
        MapToError::FrameAllocationFailed
    );
    assert_eq!(EntryGetError::ParentEntryHugePage.unmap_error(), UnmapError::ParentEntryHugePage);
    assert_eq!(EntryGetError::PageNotMapped.unmap_error(), UnmapError::PageNotMapped);
}

#[test]
fn indices_by_level() {
    let addr = VirtAddr::new(0xffff_8123_4567_89ab);
    assert_eq!(index_at(addr, 1), PageTableIndex::new(0x78));
    assert_eq!(index_at(addr, 2), PageTableIndex::new(0x2b));
    assert_eq!(index_at(addr, 3), PageTableIndex::new(0x8d));
    assert_eq!(index_at(addr, 4), PageTableIndex::new(0x102));
}

#[test]
fn locators_find_the_tables() {
    let direct = walker();
    let addr = VirtAddr::new(0x8060_4000);
    assert_eq!(direct.root(addr), VirtAddr::new(ROOT));
    let frame = Frame::containing_address(PhysAddr::new(0x7000));
    assert_eq!(direct.next(addr, 3, frame), VirtAddr::new(OFFSET + 0x7000));
    assert_eq!(direct.next(addr, 1, frame), VirtAddr::new(OFFSET + 0x7000));

    let recursive = RecursiveWalker { recursive_index: PageTableIndex::new(510) };
    // Indices 0, 2, 3, 4; the recursive index is 510.
    assert_eq!(recursive.root(addr), VirtAddr::new(0x0000_ff7f_bfdf_e000));
    assert_eq!(recursive.next(addr, 3, frame), VirtAddr::new(0x0000_ff7f_bfc0_0000));
    assert_eq!(recursive.next(addr, 2, frame), VirtAddr::new(0x0000_ff7f_8000_2000));
    assert_eq!(recursive.next(addr, 1, frame), VirtAddr::new(0x0000_ff00_0040_3000));
    assert_eq!(recursive.table_page(addr, 4).start_address(), recursive.root(addr));
}

#[test]
fn next_table_follows_valid_table_entries() {
    let walker = walker();
    let mut memory = TableMemory::new();
    let root = VirtAddr::new(ROOT);
    let addr = VirtAddr::new(0x80_0000_0000);
    assert_eq!(next_table(&walker, &memory, addr, root, 4), Err(PageTableWalkError::NotMapped));
    assert_eq!(walker.next_table(&memory, addr, root, 4), Err(PageTableWalkError::NotMapped));
    memory.set_entry(root, PageTableIndex::new(1), PageTableEntry { entry: 0x5003 });
    assert_eq!(next_table(&walker, &memory, addr, root, 4), Ok(VirtAddr::new(OFFSET + 0x5000)));
    assert_eq!(walker.next_table(&memory, addr, root, 4), Ok(VirtAddr::new(OFFSET + 0x5000)));
    assert_eq!(locate(&walker, &memory, addr, 3), Ok(VirtAddr::new(OFFSET + 0x5000)));
    assert_eq!(locate(&walker, &memory, addr, 2), Err(PageTableWalkError::NotMapped));
    memory.set_entry(root, PageTableIndex::new(1), PageTableEntry { entry: 0x5001 });
    assert_eq!(
        next_table(&walker, &memory, addr, root, 4),
        Err(PageTableWalkError::MappedToHugePage)
    );
    assert_eq!(locate(&walker, &memory, addr, 3), Err(PageTableWalkError::MappedToHugePage));
    // In use, but not valid.
    memory.set_entry(root, PageTableIndex::new(1), PageTableEntry { entry: 0x5002 });
    assert_eq!(next_table(&walker, &memory, addr, root, 4), Err(PageTableWalkError::NotMapped));
    assert_eq!(
        walker.next_table_mut(&mut memory, addr, root, 4).map(|_| ()),
        Err(PageTableWalkError::NotMapped)
    );

    memory.set_entry(root, PageTableIndex::new(1), PageTableEntry { entry: 0x5003 });
    {
        let below = walker.next_table_mut(&mut memory, addr, root, 4).unwrap();
        below.index_mut(PageTableIndex::new(9)).entry = 0x7003;
    }
    assert_eq!(memory.entry(VirtAddr::new(OFFSET + 0x5000), PageTableIndex::new(9)).entry, 0x7003);
    assert_eq!(memory.entry(root, PageTableIndex::new(1)).entry, 0x5003);
}

#[test]
fn link_next_table_takes_the_frame_it_is_given() {
    let walker = walker();
    let mut memory = TableMemory::new();
    let root = VirtAddr::new(ROOT);
    let addr = VirtAddr::new(0x80_0000_0000);
    assert_eq!(
        link_next_table(&walker, &mut memory, addr, root, 4, None),
        Err(PageTableCreateError::FrameAllocationFailed)
    );
    assert!(memory.entry(root, PageTableIndex::new(1)).is_unused());

    // Something lies in the frame that becomes the new table.
    let new_table = VirtAddr::new(OFFSET + 0x9000);
    memory.set_entry(new_table, PageTableIndex::new(3), PageTableEntry { entry: 0x1234_5003 });
    let frame = Frame::containing_address(PhysAddr::new(0x9000));
    assert_eq!(link_next_table(&walker, &mut memory, addr, root, 4, Some(frame)), Ok(new_table));
    assert_eq!(memory.entry(root, PageTableIndex::new(1)).entry, 0x9003);
    assert!(memory.entry(new_table, PageTableIndex::new(3)).is_unused());

    // An entry that is in use is followed, and the frame is not looked at.
    memory.set_entry(new_table, PageTableIndex::new(3), PageTableEntry { entry: 0x1234_5003 });
    let other = Frame::containing_address(PhysAddr::new(0xa000));
    assert_eq!(link_next_table(&walker, &mut memory, addr, root, 4, Some(other)), Ok(new_table));
    assert_eq!(link_next_table(&walker, &mut memory, addr, root, 4, None), Ok(new_table));
    assert_eq!(memory.entry(root, PageTableIndex::new(1)).entry, 0x9003);
    assert_eq!(memory.entry(new_table, PageTableIndex::new(3)).entry, 0x1234_5003);

    memory.set_entry(root, PageTableIndex::new(1), PageTableEntry { entry: 0x4000_0401 });
    assert_eq!(
        link_next_table(&walker, &mut memory, addr, root, 4, Some(other)),
        Err(PageTableCreateError::MappedToHugePage)
    );
    assert_eq!(memory.entry(root, PageTableIndex::new(1)).entry, 0x4000_0401);
}

#[test]
fn create_next_table_asks_the_allocator_when_a_table_is_missing() {
    let walker = walker();
    let mut memory = TableMemory::new();
    let root = VirtAddr::new(ROOT);
    let addr = VirtAddr::new(0);
    let mut frames = OneFrame(Some(0x9000));
    assert_eq!(
        create_next_table(&walker, &mut memory, addr, root, 4, &mut frames),
        Ok(VirtAddr::new(OFFSET + 0x9000))
    );
    assert_eq!(frames.0, None);
    // The table is there now: the allocator is not asked again.
    assert_eq!(
        walker.create_next_table(&mut memory, addr, root, 4, &mut frames),
        Ok(VirtAddr::new(OFFSET + 0x9000))
    );
    assert_eq!(
        walker.create_next_table(&mut memory, addr, VirtAddr::new(OFFSET + 0x9000), 3, &mut frames),
        Err(PageTableCreateError::FrameAllocationFailed)
    );
    let mut frames = OneFrame(Some(0xa000));
    assert_eq!(
        create_next_table(
            &walker,
            &mut memory,
            VirtAddr::new(0x80_0000_0000),
            root,
            4,
            &mut frames
        ),
        Ok(VirtAddr::new(OFFSET + 0xa000))
    );
    assert_eq!(memory.entry(root, PageTableIndex::new(0)).entry, 0x9003);
    assert_eq!(memory.entry(root, PageTableIndex::new(1)).entry, 0xa003);
}

#[test]
fn recursive_create_next_table() {
    let mut mapper = RecursivePageTable::new(511, TableMemory::new());
    let addr = VirtAddr::new(0x1000);
    let root = VirtAddr::new(0x0000_ffff_ffff_f000);
    assert_eq!(
        mapper.create_next_table(addr, root, 4, &mut OneFrame(None)),
        Err(MapToError::FrameAllocationFailed)
    );
    assert_eq!(
        mapper.create_next_table(addr, root, 4, &mut OneFrame(Some(0x9000))),
        Ok(VirtAddr::new(0x0000_ffff_ffe0_0000))
    );
    assert_eq!(mapper.memory().entry(root, PageTableIndex::new(0)).entry, 0x9003);
    assert_eq!(
        mapper.create_next_table(addr, root, 4, &mut OneFrame(None)),
        Ok(VirtAddr::new(0x0000_ffff_ffe0_0000))
    );
}

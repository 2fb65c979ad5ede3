use aarch64::addr::{PhysAddr, VirtAddr};
use aarch64::instruction::{Instruction, Shareability};
use aarch64::paging::frame::Frame;
use aarch64::paging::frame_alloc::FrameAllocator;
use aarch64::paging::mapper::mapped_page_table::{MappedPageTable, PhysToVirt};
use aarch64::paging::mapper::offset_page_table::{OffsetPageTable, PhysOffset};
use aarch64::paging::mapper::recursive_page_table::RecursivePageTable;
use aarch64::paging::mapper::{
    EntryGetError, MapToError, Mapper, MapperAllSizes, TranslateError, TranslateResult,
    UnmapError,
};
use aarch64::paging::memory::{MemoryOperation, TableMemory};
use aarch64::paging::memory_attribute::{MairNormal, MairType};
use aarch64::paging::page::Page;
use aarch64::paging::table::{FrameError, PageTableAttribute, PageTableFlags};
use aarch64::paging::{Size1GiB, Size2MiB, Size4KiB};

/// Hands out the frames from `next` on, `left` of them.
struct Frames {
    next: u64,
    left: usize,
    handed_out: usize,
}

impl Frames {
    fn unlimited() -> Self {
        Frames { next: 0x10_0000, left: usize::MAX, handed_out: 0 }
    }

    fn of(left: usize) -> Self {
        Frames { next: 0x10_0000, left, handed_out: 0 }
    }
}

impl FrameAllocator<Size4KiB> for Frames {
    fn allocate_frame(&mut self) -> Option<Frame<Size4KiB>> {
        if self.left == 0 {
            return None;
        }
        let frame = Frame::containing_address(PhysAddr::new(self.next));
        self.next += 0x1000;
        self.left -= 1;
        self.handed_out += 1;
        Some(frame)
    }
}

const OFFSET: u64 = 0xffff_8000_0000_0000;

fn direct() -> MappedPageTable<PhysOffset> {
    MappedPageTable::new(
        TableMemory::new(),
        VirtAddr::new(OFFSET + 0x1000),
        PhysOffset { offset: VirtAddr::new(OFFSET) },
    )
}

fn offset() -> OffsetPageTable {
    OffsetPageTable::new(TableMemory::new(), VirtAddr::new(OFFSET + 0x1000), VirtAddr::new(OFFSET))
}

fn recursive() -> RecursivePageTable {
    RecursivePageTable::new(511, TableMemory::new())
}

fn page_flags() -> PageTableFlags {
    PageTableFlags::valid() | PageTableFlags::table_or_page() | PageTableFlags::af()
}

fn block_flags() -> PageTableFlags {
    PageTableFlags::valid() | PageTableFlags::af()
}

fn attr() -> PageTableAttribute {
    MairNormal::attr_value()
}

fn page_4k(addr: u64) -> Page<Size4KiB> {
    Page::from_start_address(VirtAddr::new(addr)).unwrap()
}

fn page_2m(addr: u64) -> Page<Size2MiB> {
    Page::from_start_address(VirtAddr::new(addr)).unwrap()
}

fn page_1g(addr: u64) -> Page<Size1GiB> {
    Page::from_start_address(VirtAddr::new(addr)).unwrap()
}

fn frame_4k(addr: u64) -> Frame<Size4KiB> {
    Frame::from_start_address(PhysAddr::new(addr)).unwrap()
}

fn frame_2m(addr: u64) -> Frame<Size2MiB> {
    Frame::from_start_address(PhysAddr::new(addr)).unwrap()
}

fn frame_1g(addr: u64) -> Frame<Size1GiB> {
    Frame::from_start_address(PhysAddr::new(addr)).unwrap()
}

fn map_and_look_up<M: MapperAllSizes>(mapper: &mut M) {
    let mut frames = Frames::unlimited();
    let page = page_4k(0x1000);
    let frame = frame_4k(0x2000);
    let flush = mapper.map_to(page, frame, page_flags(), attr(), &mut frames).unwrap();
    assert_eq!(flush.page(), page);
    assert_eq!(
        flush.flush(),
        [
            Instruction::Dsb(Shareability::InnerShareableStore),
            Instruction::TlbiVaae1is(1),
            Instruction::Dsb(Shareability::InnerShareable),
            Instruction::Isb
        ]
    );
    assert_eq!(frames.handed_out, 3);

    let entry = *Mapper::<Size4KiB>::get_entry(mapper, page).unwrap();
    assert_eq!(entry.entry, 0x2000 | 0x403 | 0x300);
    assert_eq!(entry.frame(), Ok(frame));
    assert_eq!(entry.addr(), PhysAddr::new(0x2000));
    assert_eq!(entry.flags(), page_flags());
    assert_eq!(entry.attr().value, 0x300);
    assert_eq!(
        mapper.translate(VirtAddr::new(0x1000)),
        TranslateResult::Frame4KiB { frame, offset: 0 }
    );
    assert_eq!(
        mapper.translate(VirtAddr::new(0x1abc)),
        TranslateResult::Frame4KiB { frame, offset: 0xabc }
    );
    assert_eq!(mapper.translate(VirtAddr::new(0x2000)), TranslateResult::PageNotMapped);
}

#[test]
fn map_4kib_creates_three_tables_direct() {
    map_and_look_up(&mut direct());
}

#[test]
fn map_4kib_creates_three_tables_offset() {
    map_and_look_up(&mut offset());
}

#[test]
fn map_4kib_creates_three_tables_recursive() {
    map_and_look_up(&mut recursive());
}

fn unmap_gives_the_frame_back<M: MapperAllSizes>(mapper: &mut M) {
    let mut frames = Frames::unlimited();
    let page = page_4k(0x1000);
    let frame = frame_4k(0x2000);
    mapper.map_to(page, frame, page_flags(), attr(), &mut frames).unwrap().ignore();

    let (freed, flush) = mapper.unmap(page).unwrap();
    assert_eq!(freed, frame);
    assert_eq!(flush.page(), page);
    flush.ignore();
    assert_eq!(
        Mapper::<Size4KiB>::get_entry(mapper, page).map(|entry| *entry),
        Err(EntryGetError::PageNotMapped)
    );
    assert_eq!(
        Mapper::<Size4KiB>::get_entry_mut(mapper, page).map(|entry| *entry),
        Err(EntryGetError::PageNotMapped)
    );
    assert_eq!(mapper.translate_page(page), Err(TranslateError::PageNotMapped));
    assert_eq!(mapper.translate(VirtAddr::new(0x1000)), TranslateResult::PageNotMapped);
    assert_eq!(mapper.unmap(page).map(|_| ()), Err(UnmapError::PageNotMapped));
    // The three tables stay, and the page can be mapped again without a new frame.
    assert_eq!(frames.handed_out, 3);
    mapper.map_to(page, frame_4k(0x7000), page_flags(), attr(), &mut frames).unwrap().ignore();
    assert_eq!(frames.handed_out, 3);
    assert_eq!(Mapper::<Size4KiB>::get_entry(mapper, page).unwrap().frame(), Ok(frame_4k(0x7000)));

    // A page whose tables were never made has no entry at all.
    let far = page_4k(0x40_0000_0000);
    assert_eq!(
        Mapper::<Size4KiB>::get_entry(mapper, far).map(|entry| *entry),
        Err(EntryGetError::PageNotMapped)
    );
    assert_eq!(mapper.unmap(far).map(|_| ()), Err(UnmapError::PageNotMapped));
}

#[test]
fn unmap_4kib_direct() {
    unmap_gives_the_frame_back(&mut direct());
}

#[test]
fn unmap_4kib_offset() {
    unmap_gives_the_frame_back(&mut offset());
}

#[test]
fn unmap_4kib_recursive() {
    unmap_gives_the_frame_back(&mut recursive());
}

fn block_stops_the_walk<M: MapperAllSizes>(mapper: &mut M) {
    let mut frames = Frames::unlimited();
    let block = page_2m(0x20_0000);
    let frame = frame_2m(0x4000_0000);
    mapper.map_to(block, frame, block_flags(), attr(), &mut frames).unwrap().ignore();
    assert_eq!(frames.handed_out, 2);

    let inner = page_4k(0x20_0000);
    assert_eq!(
        mapper.map_to(inner, frame_4k(0x2000), page_flags(), attr(), &mut frames).map(|_| ()),
        Err(MapToError::ParentEntryHugePage)
    );
    let last = page_4k(0x3f_f000);
    assert_eq!(
        mapper.map_to(last, frame_4k(0x2000), page_flags(), attr(), &mut frames).map(|_| ()),
        Err(MapToError::ParentEntryHugePage)
    );
    assert_eq!(frames.handed_out, 2);
    assert_eq!(
        Mapper::<Size4KiB>::get_entry(mapper, inner).map(|entry| *entry),
        Err(EntryGetError::ParentEntryHugePage)
    );
    assert_eq!(mapper.unmap(inner).map(|_| ()), Err(UnmapError::ParentEntryHugePage));
    assert_eq!(
        mapper.translate(VirtAddr::new(0x21_2345)),
        TranslateResult::Frame2MiB { frame, offset: 0x1_2345 }
    );
    assert_eq!(
        mapper.translate(VirtAddr::new(0x20_0000)),
        TranslateResult::Frame2MiB { frame, offset: 0 }
    );
    let entry = *Mapper::<Size2MiB>::get_entry(mapper, block).unwrap();
    assert!(entry.is_block());
    assert_eq!(entry.addr(), PhysAddr::new(0x4000_0000));
    assert_eq!(entry.frame(), Err(FrameError::HugeFrame));

    let (freed, flush) = mapper.unmap(block).unwrap();
    flush.ignore();
    assert_eq!(freed, frame);
    assert_eq!(mapper.translate(VirtAddr::new(0x21_2345)), TranslateResult::PageNotMapped);
}

#[test]
fn map_4kib_inside_2mib_block_direct() {
    block_stops_the_walk(&mut direct());
}

#[test]
fn map_4kib_inside_2mib_block_offset() {
    block_stops_the_walk(&mut offset());
}

#[test]
fn map_4kib_inside_2mib_block_recursive() {
    block_stops_the_walk(&mut recursive());
}

fn giant_block<M: MapperAllSizes>(mapper: &mut M) {
    let mut frames = Frames::unlimited();
    let block = page_1g(0x8000_0000);
    let frame = frame_1g(0xc000_0000);
    mapper.map_to(block, frame, block_flags(), attr(), &mut frames).unwrap().ignore();
    assert_eq!(frames.handed_out, 1);
    assert_eq!(
        mapper.translate(VirtAddr::new(0x8123_4567)),
        TranslateResult::Frame1GiB { frame, offset: 0x123_4567 }
    );
    assert_eq!(
        mapper.map_to(page_2m(0x8020_0000), frame_2m(0), block_flags(), attr(), &mut frames)
            .map(|_| ()),
        Err(MapToError::ParentEntryHugePage)
    );
    assert_eq!(
        mapper.map_to(block, frame, block_flags(), attr(), &mut frames).map(|_| ()),
        Err(MapToError::PageAlreadyMapped)
    );
    let (freed, flush) = mapper.unmap(block).unwrap();
    flush.ignore();
    assert_eq!(freed, frame);
}

#[test]
fn map_1gib_block_direct() {
    giant_block(&mut direct());
}

#[test]
fn map_1gib_block_offset() {
    giant_block(&mut offset());
}

#[test]
fn map_1gib_block_recursive() {
    giant_block(&mut recursive());
}

fn nothing_installed<M: MapperAllSizes>(mapper: &M) {
    assert_eq!(mapper.translate(VirtAddr::new(0x1234_5678)), TranslateResult::PageNotMapped);
    assert_eq!(mapper.translate(VirtAddr::new(0)), TranslateResult::PageNotMapped);
}

#[test]
fn translate_without_entries() {
    nothing_installed(&direct());
    nothing_installed(&offset());
    nothing_installed(&recursive());
}

fn second_mapping_fails<M: MapperAllSizes>(mapper: &mut M) {
    let mut frames = Frames::unlimited();
    let page = page_4k(0x7000);
    mapper.map_to(page, frame_4k(0x2000), page_flags(), attr(), &mut frames).unwrap().ignore();
    let before = *Mapper::<Size4KiB>::get_entry(mapper, page).unwrap();
    assert_eq!(
        mapper.map_to(page, frame_4k(0x9000), page_flags(), attr(), &mut frames).map(|_| ()),
        Err(MapToError::PageAlreadyMapped)
    );
    assert_eq!(frames.handed_out, 3);
    assert_eq!(*Mapper::<Size4KiB>::get_entry(mapper, page).unwrap(), before);
    assert_eq!(
        mapper.translate(VirtAddr::new(0x7000)),
        TranslateResult::Frame4KiB { frame: frame_4k(0x2000), offset: 0 }
    );
    // The neighbour shares all three tables.
    mapper
        .map_to(page_4k(0x8000), frame_4k(0x9000), page_flags(), attr(), &mut frames)
        .unwrap()
        .ignore();
    assert_eq!(frames.handed_out, 3);
}

#[test]
fn map_mapped_page_direct() {
    second_mapping_fails(&mut direct());
}

#[test]
fn map_mapped_page_offset() {
    second_mapping_fails(&mut offset());
}

#[test]
fn map_mapped_page_recursive() {
    second_mapping_fails(&mut recursive());
}

#[test]
fn exhausted_allocator_direct() {
    let mut mapper = direct();
    let mut frames = Frames::of(0);
    let page = page_4k(0x1000);
    assert_eq!(
        mapper.map_to(page, frame_4k(0x2000), page_flags(), attr(), &mut frames).map(|_| ()),
        Err(MapToError::FrameAllocationFailed)
    );
    for index in 0..512u16 {
        let index = aarch64::index::PageTableIndex::new(index);
        assert!(mapper.level_4_table().index(index).is_unused());
    }
    assert_eq!(
        Mapper::<Size4KiB>::get_entry(&mapper, page).map(|entry| *entry),
        Err(EntryGetError::PageNotMapped)
    );
}

#[test]
fn exhausted_allocator_offset_and_recursive() {
    let page = page_4k(0x1000);
    let mut mapper = offset();
    assert_eq!(
        mapper
            .map_to(page, frame_4k(0x2000), page_flags(), attr(), &mut Frames::of(0))
            .map(|_| ()),
        Err(MapToError::FrameAllocationFailed)
    );
    assert_eq!(mapper.translate(VirtAddr::new(0x1000)), TranslateResult::PageNotMapped);
    let mut mapper = recursive();
    assert_eq!(
        mapper
            .map_to(page, frame_4k(0x2000), page_flags(), attr(), &mut Frames::of(0))
            .map(|_| ()),
        Err(MapToError::FrameAllocationFailed)
    );
    assert_eq!(mapper.translate(VirtAddr::new(0x1000)), TranslateResult::PageNotMapped);
}

#[test]
fn allocator_runs_out_half_way() {
    let mut mapper = direct();
    let mut frames = Frames::of(2);
    let page = page_4k(0x1000);
    assert_eq!(
        mapper.map_to(page, frame_4k(0x2000), page_flags(), attr(), &mut frames).map(|_| ()),
        Err(MapToError::FrameAllocationFailed)
    );
    assert_eq!(frames.handed_out, 2);
    // The two tables that were made stay, and a block fits below them.
    mapper
        .map_to(page_2m(0), frame_2m(0x20_0000), block_flags(), attr(), &mut Frames::of(0))
        .unwrap()
        .ignore();
    assert_eq!(
        mapper.translate(VirtAddr::new(0x1000)),
        TranslateResult::Frame2MiB { frame: frame_2m(0x20_0000), offset: 0x1000 }
    );
}

#[test]
fn three_mappers_translate_alike() {
    let mut first = direct();
    let mut second = offset();
    let mut third = recursive();
    let mut first_frames = Frames::unlimited();
    let mut second_frames = Frames::unlimited();
    let mut third_frames = Frames::unlimited();
    let pages: [u64; 4] = [0x1000, 0x7fff_f000, 0x40_0000_0000, 0x7f00_1234_5000];
    for (number, &addr) in pages.iter().enumerate() {
        let frame = frame_4k(0x2000 * (number as u64 + 1));
        first.map_to(page_4k(addr), frame, page_flags(), attr(), &mut first_frames).unwrap().ignore();
        second
            .map_to(page_4k(addr), frame, page_flags(), attr(), &mut second_frames)
            .unwrap()
            .ignore();
        third.map_to(page_4k(addr), frame, page_flags(), attr(), &mut third_frames).unwrap().ignore();
    }
    let block = frame_2m(0x4000_0000);
    first
        .map_to(page_2m(0x60_0000), block, block_flags(), attr(), &mut first_frames)
        .unwrap()
        .ignore();
    second
        .map_to(page_2m(0x60_0000), block, block_flags(), attr(), &mut second_frames)
        .unwrap()
        .ignore();
    third
        .map_to(page_2m(0x60_0000), block, block_flags(), attr(), &mut third_frames)
        .unwrap()
        .ignore();
    assert_eq!(first_frames.handed_out, second_frames.handed_out);
    assert_eq!(first_frames.handed_out, third_frames.handed_out);
    let probes: [u64; 9] = [
        0x1000,
        0x1fff,
        0x2000,
        0x7fff_f010,
        0x40_0000_0000,
        0x7f00_1234_5678,
        0x60_0000,
        0x7f_ffff,
        0x80_0000,
    ];
    for &addr in probes.iter() {
        let expected = first.translate(VirtAddr::new(addr));
        assert_eq!(second.translate(VirtAddr::new(addr)), expected);
        assert_eq!(third.translate(VirtAddr::new(addr)), expected);
    }
    assert_eq!(
        first.translate(VirtAddr::new(0x7f00_1234_5678)),
        TranslateResult::Frame4KiB { frame: frame_4k(0x8000), offset: 0x678 }
    );
}

#[test]
fn a_frame_handed_out_twice_breaks_the_way() {
    // The allocator of the second call hands out the frames of the first call again, so the
    // tables of the first page are cleared and linked anew for the second one.
    let mut mapper = direct();
    mapper
        .map_to(page_4k(0x1000), frame_4k(0x2000), page_flags(), attr(), &mut Frames::unlimited())
        .unwrap()
        .ignore();
    mapper
        .map_to(
            page_4k(0x80_0000_0000),
            frame_4k(0x3000),
            page_flags(),
            attr(),
            &mut Frames::unlimited(),
        )
        .unwrap()
        .ignore();
    assert_eq!(mapper.translate(VirtAddr::new(0x1000)), TranslateResult::PageNotMapped);
    assert_eq!(
        mapper.translate(VirtAddr::new(0x80_0000_0000)),
        TranslateResult::Frame4KiB { frame: frame_4k(0x3000), offset: 0 }
    );
}

#[test]
fn unmap_checks_the_kind_of_the_last_entry() {
    let mut mapper = direct();
    let mut frames = Frames::unlimited();
    // A page entry where a 2 MiB block is asked for.
    mapper
        .map_to(page_2m(0x20_0000), frame_2m(0x20_0000), page_flags(), attr(), &mut frames)
        .unwrap()
        .ignore();
    assert_eq!(
        mapper.unmap(page_2m(0x20_0000)).map(|_| ()),
        Err(UnmapError::ParentEntryHugePage)
    );
    // A block entry where a 4 KiB page is asked for.
    mapper
        .map_to(page_4k(0x40_0000), frame_4k(0x5000), block_flags(), attr(), &mut frames)
        .unwrap()
        .ignore();
    assert_eq!(mapper.unmap(page_4k(0x40_0000)).map(|_| ()), Err(UnmapError::ParentEntryHugePage));
    // An entry whose address is no start of a 1 GiB frame.
    mapper
        .map_to(page_1g(0x4000_0000), frame_1g(0x4000_0000), block_flags(), attr(), &mut frames)
        .unwrap()
        .ignore();
    {
        let entry = Mapper::<Size1GiB>::get_entry_mut(&mut mapper, page_1g(0x4000_0000)).unwrap();
        entry.set_addr(PhysAddr::new(0x20_0000), block_flags(), attr());
    }
    assert_eq!(
        mapper.unmap(page_1g(0x4000_0000)).map(|_| ()),
        Err(UnmapError::InvalidFrameAddress(PhysAddr::new(0x20_0000)))
    );
    // An entry that is in use and not valid.
    mapper
        .map_to(page_1g(0x8000_0000), frame_1g(0x4000_0000), block_flags(), attr(), &mut frames)
        .unwrap()
        .ignore();
    {
        let entry = Mapper::<Size1GiB>::get_entry_mut(&mut mapper, page_1g(0x8000_0000)).unwrap();
        entry.set_addr(PhysAddr::new(0x4000_0000), PageTableFlags::af(), attr());
    }
    assert_eq!(mapper.unmap(page_1g(0x8000_0000)).map(|_| ()), Err(UnmapError::PageNotMapped));
}

#[test]
fn get_entry_mut_changes_the_table() {
    let mut mapper = recursive();
    let mut frames = Frames::unlimited();
    let page = page_4k(0x1000);
    mapper.map_to(page, frame_4k(0x2000), page_flags(), attr(), &mut frames).unwrap().ignore();
    {
        let entry = Mapper::<Size4KiB>::get_entry_mut(&mut mapper, page).unwrap();
        entry.set_frame(frame_4k(0x6000), page_flags(), attr());
    }
    assert_eq!(
        mapper.translate(VirtAddr::new(0x1008)),
        TranslateResult::Frame4KiB { frame: frame_4k(0x6000), offset: 8 }
    );
    assert_eq!(
        Mapper::<Size4KiB>::get_entry_mut(&mut mapper, page_4k(0x40_0000_0000)).map(|_| ()),
        Err(EntryGetError::PageNotMapped)
    );
}

#[test]
fn recursive_tables_stand_at_synthetic_addresses() {
    let mapper = recursive();
    let page = page_4k(0x1000);
    let p4 = mapper.p4_page(page);
    assert_eq!(p4.start_address(), VirtAddr::new(0x0000_ffff_ffff_f000));
    assert_eq!(p4.p4_index().as_u16(), 511);
    assert_eq!(p4.p3_index().as_u16(), 511);
    assert_eq!(p4.p2_index().as_u16(), 511);
    assert_eq!(p4.p1_index().as_u16(), 511);
    assert_eq!(mapper.p4_ptr(page), 0x0000_ffff_ffff_f000);

    let high = page_4k(0xffff_0080_4020_1000);
    assert_eq!(mapper.p4_page(high).start_address(), VirtAddr::new(0xffff_ffff_ffff_f000));
    assert_eq!(high.p4_index().as_u16(), 1);
    assert_eq!(high.p3_index().as_u16(), 1);
    assert_eq!(high.p2_index().as_u16(), 1);
    assert_eq!(high.p1_index().as_u16(), 1);
    let p3 = mapper.p3_page(high);
    assert_eq!(
        (p3.p4_index().as_u16(), p3.p3_index().as_u16(), p3.p2_index().as_u16(), p3.p1_index().as_u16()),
        (511, 511, 511, 1)
    );
    assert_eq!(p3.start_address(), VirtAddr::new(0xffff_ffff_ffe0_1000));
    let p2 = mapper.p2_page(high);
    assert_eq!(p2.start_address(), VirtAddr::new(0xffff_ffff_c020_1000));
    let p1 = mapper.p1_page(high);
    assert_eq!(p1.start_address(), VirtAddr::new(0xffff_ff80_4020_1000));
    assert_eq!(mapper.p1_ptr(high), 0xffff_ff80_4020_1000);
    assert_eq!(mapper.p2_ptr(high), 0xffff_ffff_c020_1000);
    assert_eq!(mapper.p3_ptr(high), 0xffff_ffff_ffe0_1000);
}

#[test]
fn phys_offset_adds_the_offset() {
    let conversion = PhysOffset { offset: VirtAddr::new(OFFSET) };
    assert_eq!(conversion.phys_to_virt(frame_4k(0x5000)), VirtAddr::new(OFFSET + 0x5000));
    let mut mapper = offset();
    let mut frames = Frames::unlimited();
    mapper
        .map_to(page_4k(0x1000), frame_4k(0x2000), page_flags(), attr(), &mut frames)
        .unwrap()
        .ignore();
    // The first table that the allocator gave stands below the first entry of the root.
    let root = mapper.level_4_table();
    let first = *root.index(aarch64::index::PageTableIndex::new(0));
    assert_eq!(first.entry, 0x10_0000 | 3);
    assert_eq!(first.frame(), Ok(frame_4k(0x10_0000)));
    let memory = mapper.memory();
    let second = *memory.entry(VirtAddr::new(OFFSET + 0x10_0000), aarch64::index::PageTableIndex::new(0));
    assert_eq!(second.entry, 0x10_1000 | 3);
}

fn frames_of_pages<M: MapperAllSizes>(mapper: &mut M) {
    let mut frames = Frames::unlimited();
    let page = page_4k(0x1000);
    assert_eq!(mapper.translate_page(page), Err(TranslateError::PageNotMapped));
    mapper.map_to(page, frame_4k(0x2000), page_flags(), attr(), &mut frames).unwrap().ignore();
    assert_eq!(mapper.translate_page(page), Ok(frame_4k(0x2000)));
    // The tables are there, the entry is not.
    assert_eq!(mapper.translate_page(page_4k(0x3000)), Err(TranslateError::PageNotMapped));

    let block = page_2m(0x4020_0000);
    mapper.map_to(block, frame_2m(0x60_0000), block_flags(), attr(), &mut frames).unwrap().ignore();
    assert_eq!(mapper.translate_page(block), Ok(frame_2m(0x60_0000)));
    assert_eq!(
        mapper.translate_page(page_4k(0x4020_1000)),
        Err(TranslateError::ParentEntryHugePage)
    );
    // The table above the block holds an address that is no start of a 1 GiB frame.
    assert_eq!(
        mapper.translate_page(page_1g(0x4000_0000)),
        Err(TranslateError::InvalidFrameAddress(PhysAddr::new(0x10_3000)))
    );
}

#[test]
fn translate_page_direct() {
    frames_of_pages(&mut direct());
}

#[test]
fn translate_page_offset() {
    frames_of_pages(&mut offset());
}

#[test]
fn translate_page_recursive() {
    frames_of_pages(&mut recursive());
}

fn walks_are_tested_before_mapping<M: MapperAllSizes>(mapper: &mut M, strict: bool) {
    let mut frames = Frames::unlimited();
    let page = page_4k(0x1000);
    assert!(mapper.can_map_to(page));
    mapper.map_to(page, frame_4k(0x2000), page_flags(), attr(), &mut frames).unwrap().ignore();
    assert!(mapper.can_map_to(page));
    assert!(mapper.can_map_to(page_4k(0x40_0000_0000)));
    // The level 2 entry on the way to the page is put out of use without being cleared.
    {
        let entry = Mapper::<Size2MiB>::get_entry_mut(mapper, page_2m(0)).unwrap();
        let bits = entry.entry;
        entry.entry = bits & !1;
    }
    assert_eq!(mapper.can_map_to(page), !strict);
    assert!(mapper.can_map_to(page_2m(0)));
    assert!(mapper.can_map_to(page_4k(0x4000_0000)));
}

#[test]
fn can_map_to_direct() {
    walks_are_tested_before_mapping(&mut direct(), true);
}

#[test]
fn can_map_to_offset() {
    walks_are_tested_before_mapping(&mut offset(), true);
}

#[test]
fn can_map_to_recursive() {
    walks_are_tested_before_mapping(&mut recursive(), false);
}

#[test]
fn new_tables_are_cleared_behind_a_barrier() {
    let mut mapper = direct();
    let mut frames = Frames::unlimited();
    let page = page_4k(0x1000);
    mapper.map_to(page, frame_4k(0x2000), page_flags(), attr(), &mut frames).unwrap().ignore();
    let root = VirtAddr::new(OFFSET + 0x1000);
    let p3 = VirtAddr::new(OFFSET + 0x10_0000);
    let p2 = VirtAddr::new(OFFSET + 0x10_1000);
    let p1 = VirtAddr::new(OFFSET + 0x10_2000);
    let table = |bits: u64| aarch64::paging::table::PageTableEntry { entry: bits };
    assert_eq!(
        mapper.take_journal(),
        vec![
            MemoryOperation::Write { table: root, index: 0, entry: table(0x10_0003) },
            MemoryOperation::StoreBarrier,
            MemoryOperation::Clear { table: p3 },
            MemoryOperation::Write { table: p3, index: 0, entry: table(0x10_1003) },
            MemoryOperation::StoreBarrier,
            MemoryOperation::Clear { table: p2 },
            MemoryOperation::Write { table: p2, index: 0, entry: table(0x10_2003) },
            MemoryOperation::StoreBarrier,
            MemoryOperation::Clear { table: p1 },
            MemoryOperation::Write { table: p1, index: 1, entry: table(0x2000 | 0x403 | 0x300) },
        ]
    );
    // The neighbour needs no table: one write, no barrier.
    mapper
        .map_to(page_4k(0x2000), frame_4k(0x3000), page_flags(), attr(), &mut frames)
        .unwrap()
        .ignore();
    assert_eq!(
        mapper.take_journal(),
        vec![MemoryOperation::Write { table: p1, index: 2, entry: table(0x3000 | 0x403 | 0x300) }]
    );
    // A failed mapping and a lookup record nothing.
    assert!(mapper.map_to(page, frame_4k(0x9000), page_flags(), attr(), &mut frames).is_err());
    assert!(Mapper::<Size4KiB>::get_entry(&mapper, page).is_ok());
    assert_eq!(mapper.translate(VirtAddr::new(0x1000)), TranslateResult::Frame4KiB {
        frame: frame_4k(0x2000),
        offset: 0,
    });
    assert_eq!(mapper.take_journal(), vec![]);
    mapper.unmap(page).unwrap().1.ignore();
    assert!(mapper.unmap(page).is_err());
    assert_eq!(
        mapper.take_journal(),
        vec![MemoryOperation::Write { table: p1, index: 1, entry: table(0) }]
    );
    assert!(Mapper::<Size4KiB>::get_entry_mut(&mut mapper, page_4k(0x2000)).is_ok());
    assert!(Mapper::<Size4KiB>::get_entry_mut(&mut mapper, page).is_err());
    let _ = mapper.level_4_table();
    assert_eq!(
        mapper.take_journal(),
        vec![MemoryOperation::Touch { table: p1 }, MemoryOperation::Touch { table: root }]
    );
}

#[test]
fn recursive_journal_names_the_synthetic_addresses() {
    let mut mapper = recursive();
    let mut frames = Frames::of(1);
    let block = page_1g(0x4000_0000);
    mapper.map_to(block, frame_1g(0x8000_0000), block_flags(), attr(), &mut frames).unwrap().ignore();
    let table = |bits: u64| aarch64::paging::table::PageTableEntry { entry: bits };
    assert_eq!(
        mapper.take_journal(),
        vec![
            MemoryOperation::Write {
                table: VirtAddr::new(0x0000_ffff_ffff_f000),
                index: 0,
                entry: table(0x10_0003)
            },
            MemoryOperation::StoreBarrier,
            MemoryOperation::Clear { table: VirtAddr::new(0x0000_ffff_ffe0_0000) },
            MemoryOperation::Write {
                table: VirtAddr::new(0x0000_ffff_ffe0_0000),
                index: 1,
                entry: table(0x8000_0000 | 0x401 | 0x300)
            },
        ]
    );
}

#[test]
fn a_function_reaches_the_tables() {
    // Tables stand 16 MiB above their frames.
    let conversion =
        |frame: Frame<Size4KiB>| VirtAddr::new(frame.start_address().as_u64() + 0x100_0000);
    assert_eq!(conversion.phys_to_virt(frame_4k(0x5000)), VirtAddr::new(0x100_5000));
    let mut mapper = MappedPageTable::new(TableMemory::new(), VirtAddr::new(0x100_1000), conversion);
    map_and_look_up(&mut mapper);
    assert_eq!(
        mapper.memory().entry(VirtAddr::new(0x100_1000), aarch64::index::PageTableIndex::new(0)).entry,
        0x10_0003
    );
    assert_eq!(
        mapper.memory().entry(VirtAddr::new(0x110_0000), aarch64::index::PageTableIndex::new(0)).entry,
        0x10_1003
    );
}

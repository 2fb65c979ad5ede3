//! Access the page tables through a recursively mapped level 4 table.

use super::{
    leaf_entry, map_outcome, mapped, spec_create_next_table, spec_map, spec_map_journal,
    upcoming_frames, walk, EntryGetError, Hierarchy, MapToError, Mapper, MapperAllSizes,
    MapperFlush, TableLocator, Tables, TranslateError, TranslateResult, UnmapError,
};
use crate::addr::VirtAddr;
use crate::index::PageTableIndex;
use crate::paging::frame::Frame;
use crate::paging::frame_alloc::FrameAllocator;
use crate::paging::memory::{MemoryOperation, TableMemory};
use crate::paging::page::{indices_address, Page};
use crate::paging::table::{PageTableAttribute, PageTableEntry, PageTableFlags};
use crate::paging::{terminal_level, NotGiantPageSize, PageSize, Size1GiB, Size2MiB, Size4KiB};
use vstd::prelude::*;

verus! {

/// The address at which the table of the given level on the way to `addr` is reached when
/// entry `recursive` of the level 4 table points to the level 4 table itself.
///
/// The walk to this address passes the recursive entry `level` times and then follows the
/// indices of `addr` from level 4 down; the range bits are those of `addr`.
pub open spec fn spec_table_address(recursive: u64, addr: VirtAddr, level: nat) -> VirtAddr {
    let range = addr.spec_va_range().unwrap();
    let p4 = addr.spec_index(4);
    let p3 = addr.spec_index(3);
    let p2 = addr.spec_index(2);
    if level >= 4 {
        VirtAddr(indices_address(range, recursive, recursive, recursive, recursive))
    } else if level == 3 {
        VirtAddr(indices_address(range, recursive, recursive, recursive, p4))
    } else if level == 2 {
        VirtAddr(indices_address(range, recursive, recursive, p4, p3))
    } else {
        VirtAddr(indices_address(range, recursive, p4, p3, p2))
    }
}

/// The walk to the address of a table passes the recursive entry as often as the level of
/// the table says, and then follows the indices of the target address: all four indices of
/// the address of the level 4 table are the recursive index.
pub proof fn lemma_table_address(recursive: u64, addr: VirtAddr, level: nat)
    requires
        recursive < 512,
        addr.spec_va_range().is_some(),
        1 <= level <= 4,
    ensures
        spec_table_address(recursive, addr, level).spec_va_range() == addr.spec_va_range(),
        spec_table_address(recursive, addr, level).value() % 4096 == 0,
        forall|upper: nat|
            4 - level < upper <= 4 ==> #[trigger] spec_table_address(
                recursive,
                addr,
                level,
            ).spec_index(upper) == recursive,
        level <= 3 ==> spec_table_address(recursive, addr, level).spec_index((4 - level) as nat)
            == addr.spec_index(4),
        level <= 2 ==> spec_table_address(recursive, addr, level).spec_index((3 - level) as nat)
            == addr.spec_index(3),
        level <= 1 ==> spec_table_address(recursive, addr, level).spec_index(1) == addr.spec_index(
            2,
        ),
{
    let range = addr.spec_va_range().unwrap();
    let p4 = addr.spec_index(4);
    let p3 = addr.spec_index(3);
    let p2 = addr.spec_index(2);
    crate::paging::mapper::laws::lemma_index_bound(addr, 4);
    crate::paging::mapper::laws::lemma_index_bound(addr, 3);
    crate::paging::mapper::laws::lemma_index_bound(addr, 2);
    crate::paging::page::lemma_indices_address(range, recursive, recursive, recursive, recursive);
    crate::paging::page::lemma_indices_address(range, recursive, recursive, recursive, p4);
    crate::paging::page::lemma_indices_address(range, recursive, recursive, p4, p3);
    crate::paging::page::lemma_indices_address(range, recursive, p4, p3, p2);
}

/// Reaches the tables of a hierarchy through the entry of the level 4 table that points to
/// the level 4 table itself.
#[derive(Debug)]
pub struct RecursiveWalker {
    /// The index of the recursively mapped entry.
    pub recursive_index: PageTableIndex,
}

impl RecursiveWalker {
    /// The page at which the table of the given level (4 to 1) on the way to `addr` can be
    /// reached. The address must be canonical.
    pub fn table_page(&self, addr: VirtAddr, level: u8) -> (r: Page<Size4KiB>)
        requires
            addr.spec_va_range().is_some(),
            1 <= level <= 4,
        ensures
            r.start() == spec_table_address(self.recursive_index.value() as u64, addr, level as nat),
    {
        let range = addr.va_range().unwrap();
        let recursive = self.recursive_index;
        if level == 4 {
            Page::from_page_table_indices(range, recursive, recursive, recursive, recursive)
        } else if level == 3 {
            Page::from_page_table_indices(range, recursive, recursive, recursive, addr.p4_index())
        } else if level == 2 {
            Page::from_page_table_indices(
                range,
                recursive,
                recursive,
                addr.p4_index(),
                addr.p3_index(),
            )
        } else {
            Page::from_page_table_indices(
                range,
                recursive,
                addr.p4_index(),
                addr.p3_index(),
                addr.p2_index(),
            )
        }
    }
}

impl TableLocator for RecursiveWalker {
    open spec fn reaches(&self, addr: VirtAddr) -> bool {
        addr.spec_va_range().is_some()
    }

    open spec fn spec_root(&self, addr: VirtAddr) -> VirtAddr {
        spec_table_address(self.recursive_index.value() as u64, addr, 4)
    }

    open spec fn spec_next(&self, addr: VirtAddr, level: nat, frame: Frame<Size4KiB>) -> VirtAddr {
        spec_table_address(self.recursive_index.value() as u64, addr, level)
    }

    fn root(&self, addr: VirtAddr) -> (r: VirtAddr) {
        self.table_page(addr, 4).start_address()
    }

    fn next(&self, addr: VirtAddr, level: u8, frame: Frame<Size4KiB>) -> (r: VirtAddr) {
        self.table_page(addr, level).start_address()
    }

    proof fn lemma_shared_way(&self, a: VirtAddr, b: VirtAddr, level: nat, frame: Frame<Size4KiB>) {
        assert(level < 4 ==> a.spec_index(4) == b.spec_index(4));
        assert(level < 3 ==> a.spec_index(3) == b.spec_index(3));
        assert(level < 2 ==> a.spec_index(2) == b.spec_index(2));
    }
}

/// A recursive page table is a last level page table with an entry mapped to the table itself.
///
/// This recursive mapping allows accessing all page tables in the hierarchy:
///
/// - To access the level 4 page table, we "loop" (i.e. follow the recursively mapped entry)
///   four times.
/// - To access a level 3 page table, we "loop" three times and then use the level 4 index.
/// - To access a level 2 page table, we "loop" two times, then use the level 4 index, then the
///   level 3 index.
/// - To access a level 1 page table, we "loop" once, then use the level 4 index, then the
///   level 3 index, then the level 2 index.
///
/// This struct implements the `Mapper` trait.
pub struct RecursivePageTable {
    walker: RecursiveWalker,
    memory: TableMemory,
}

impl Hierarchy for RecursivePageTable {
    type Locator = RecursiveWalker;

    closed spec fn locator(&self) -> RecursiveWalker {
        self.walker
    }

    closed spec fn tables(&self) -> Tables {
        self.memory@
    }

    closed spec fn journal(&self) -> Seq<MemoryOperation> {
        self.memory.journal()
    }
}

impl RecursivePageTable {
    /// Creates a new RecursivePageTable over the tables in `memory`, as they are reached
    /// through the recursive entry.
    ///
    /// The `recursive_index` parameter must be the index of the recursively mapped entry, below
    /// 512.
    pub fn new(recursive_index: u16, memory: TableMemory) -> (r: Self)
        requires
            recursive_index < 512,
        ensures
            r.locator().recursive_index.value() == recursive_index,
            r.tables() == memory@,
            r.journal() == memory.journal(),
    {
        RecursivePageTable {
            walker: RecursiveWalker { recursive_index: PageTableIndex::new(recursive_index) },
            memory,
        }
    }

    /// Takes the journal: the changes to the tables since it was last taken, in their order.
    pub fn take_journal(&mut self) -> (r: Vec<MemoryOperation>)
        ensures
            r@ == old(self).journal(),
            final(self).journal() == Seq::<MemoryOperation>::empty(),
            final(self).tables() == old(self).tables(),
            final(self).locator() == old(self).locator(),
    {
        self.memory.take_journal()
    }

    /// The memory that holds the tables.
    pub fn memory(&self) -> (r: &TableMemory)
        ensures
            r@ == self.tables(),
            r.journal() == self.journal(),
    {
        &self.memory
    }

    /// The table of the next level below the entry for `addr` in `table`, a table of the
    /// given level (4, 3 or 2), made if it is missing.
    ///
    /// If the entry is unused, a new frame is allocated from the given allocator, the entry
    /// is pointed to it, and the new table is cleared. If the entry is in use, the table that
    /// it points to is returned as it is.
    ///
    /// Returns `MapToError::FrameAllocationFailed` if the entry is unused and the allocator
    /// returned `None`. Returns `MapToError::ParentEntryHugePage` if the entry is a block. The
    /// allocator is asked only if the entry is unused.
    pub fn create_next_table<A: FrameAllocator<Size4KiB>>(
        &mut self,
        addr: VirtAddr,
        table: VirtAddr,
        level: u8,
        allocator: &mut A,
    ) -> (r: Result<VirtAddr, MapToError>)
        requires
            addr.spec_va_range().is_some(),
            2 <= level <= 4,
        ensures
            final(self).locator() == old(self).locator(),
            (
                match r {
                    Ok(next) => Ok(next),
                    Err(err) => Err(
                        if err == MapToError::ParentEntryHugePage {
                            super::PageTableCreateError::MappedToHugePage
                        } else {
                            super::PageTableCreateError::FrameAllocationFailed
                        },
                    ),
                },
                final(self).tables(),
            ) == spec_create_next_table(
                old(self).locator(),
                old(self).tables(),
                addr,
                table,
                level as nat,
                old(allocator).spec_answer(0),
            ),
            r matches Err(err) ==> err != MapToError::PageAlreadyMapped,
            final(self).journal() == old(self).journal() + super::spec_create_journal(
                old(self).locator(),
                old(self).tables(),
                addr,
                table,
                level as nat,
                old(allocator).spec_answer(0),
            ),
            old(self).tables()[table.value()][addr.spec_index(level as nat) as int].spec_is_unused()
                ==> forall|calls: nat| #[trigger]
                final(allocator).spec_answer(calls) == old(allocator).spec_answer(calls + 1),
            !old(self).tables()[table.value()][addr.spec_index(
                level as nat,
            ) as int].spec_is_unused() ==> *final(allocator) == *old(allocator),
    {
        let step = super::create_next_table(
            &self.walker,
            &mut self.memory,
            addr,
            table,
            level,
            allocator,
        );
        match step {
            Ok(next) => Ok(next),
            Err(err) => Err(err.map_error()),
        }
    }

    /// The page at which the level 4 table on the way to `page` can be reached.
    pub fn p4_page<S: PageSize>(&self, page: Page<S>) -> (r: Page<Size4KiB>)
        requires
            page.start().spec_va_range().is_some(),
        ensures
            r.start() == spec_table_address(
                self.locator().recursive_index.value() as u64,
                page.start(),
                4,
            ),
    {
        self.walker.table_page(page.start_address(), 4)
    }

    /// The address at which the level 4 table on the way to `page` can be reached, as a
    /// pointer holds it.
    pub fn p4_ptr<S: PageSize>(&self, page: Page<S>) -> (r: usize)
        requires
            page.start().spec_va_range().is_some(),
        ensures
            r == spec_table_address(
                self.locator().recursive_index.value() as u64,
                page.start(),
                4,
            ).value(),
    {
        self.p4_page(page).start_address().as_mut_ptr()
    }

    /// The page at which the level 3 table on the way to `page` can be reached.
    pub fn p3_page<S: PageSize>(&self, page: Page<S>) -> (r: Page<Size4KiB>)
        requires
            page.start().spec_va_range().is_some(),
        ensures
            r.start() == spec_table_address(
                self.locator().recursive_index.value() as u64,
                page.start(),
                3,
            ),
    {
        self.walker.table_page(page.start_address(), 3)
    }

    /// The address at which the level 3 table on the way to `page` can be reached, as a
    /// pointer holds it.
    pub fn p3_ptr<S: PageSize>(&self, page: Page<S>) -> (r: usize)
        requires
            page.start().spec_va_range().is_some(),
        ensures
            r == spec_table_address(
                self.locator().recursive_index.value() as u64,
                page.start(),
                3,
            ).value(),
    {
        self.p3_page(page).start_address().as_mut_ptr()
    }

    /// The page at which the level 2 table on the way to `page` can be reached.
    pub fn p2_page<S: NotGiantPageSize>(&self, page: Page<S>) -> (r: Page<Size4KiB>)
        requires
            page.start().spec_va_range().is_some(),
        ensures
            r.start() == spec_table_address(
                self.locator().recursive_index.value() as u64,
                page.start(),
                2,
            ),
    {
        self.walker.table_page(page.start_address(), 2)
    }

    /// The address at which the level 2 table on the way to `page` can be reached, as a
    /// pointer holds it.
    pub fn p2_ptr<S: NotGiantPageSize>(&self, page: Page<S>) -> (r: usize)
        requires
            page.start().spec_va_range().is_some(),
        ensures
            r == spec_table_address(
                self.locator().recursive_index.value() as u64,
                page.start(),
                2,
            ).value(),
    {
        self.p2_page(page).start_address().as_mut_ptr()
    }

    /// The page at which the level 1 table on the way to `page` can be reached.
    pub fn p1_page(&self, page: Page<Size4KiB>) -> (r: Page<Size4KiB>)
        requires
            page.start().spec_va_range().is_some(),
        ensures
            r.start() == spec_table_address(
                self.locator().recursive_index.value() as u64,
                page.start(),
                1,
            ),
    {
        self.walker.table_page(page.start_address(), 1)
    }

    /// The address at which the level 1 table on the way to `page` can be reached, as a
    /// pointer holds it.
    pub fn p1_ptr(&self, page: Page<Size4KiB>) -> (r: usize)
        requires
            page.start().spec_va_range().is_some(),
        ensures
            r == spec_table_address(
                self.locator().recursive_index.value() as u64,
                page.start(),
                1,
            ).value(),
    {
        self.p1_page(page).start_address().as_mut_ptr()
    }

    /// Maps the 1 GiB page `page` to `frame`; see [`walk::map_page`].
    pub fn map_to_1gib<A: FrameAllocator<Size4KiB>>(
        &mut self,
        page: Page<Size1GiB>,
        frame: Frame<Size1GiB>,
        flags: PageTableFlags,
        attr: PageTableAttribute,
        allocator: &mut A,
    ) -> (r: Result<MapperFlush<Size1GiB>, MapToError>)
        requires
            old(self).locator().reaches(page.start()),
        ensures
            final(self).locator() == old(self).locator(),
            r matches Ok(flush) ==> flush.spec_page() == page,
            mapped(
                spec_map(
                    old(self).locator(),
                    old(self).tables(),
                    page.start(),
                    3,
                    upcoming_frames(*old(allocator), 3),
                    leaf_entry(frame, flags, attr),
                ),
                map_outcome(r),
                final(self).tables(),
                *old(allocator),
                *final(allocator),
            ),
            final(self).journal() == old(self).journal() + spec_map_journal(
                old(self).locator(),
                old(self).tables(),
                page.start(),
                3,
                upcoming_frames(*old(allocator), 3),
                leaf_entry(frame, flags, attr),
            ),
    {
        walk::map_to_1gib(&self.walker, &mut self.memory, page, frame, flags, attr, allocator)
    }

    /// Maps the 2 MiB page `page` to `frame`; see [`walk::map_page`].
    pub fn map_to_2mib<A: FrameAllocator<Size4KiB>>(
        &mut self,
        page: Page<Size2MiB>,
        frame: Frame<Size2MiB>,
        flags: PageTableFlags,
        attr: PageTableAttribute,
        allocator: &mut A,
    ) -> (r: Result<MapperFlush<Size2MiB>, MapToError>)
        requires
            old(self).locator().reaches(page.start()),
        ensures
            final(self).locator() == old(self).locator(),
            r matches Ok(flush) ==> flush.spec_page() == page,
            mapped(
                spec_map(
                    old(self).locator(),
                    old(self).tables(),
                    page.start(),
                    2,
                    upcoming_frames(*old(allocator), 3),
                    leaf_entry(frame, flags, attr),
                ),
                map_outcome(r),
                final(self).tables(),
                *old(allocator),
                *final(allocator),
            ),
            final(self).journal() == old(self).journal() + spec_map_journal(
                old(self).locator(),
                old(self).tables(),
                page.start(),
                2,
                upcoming_frames(*old(allocator), 3),
                leaf_entry(frame, flags, attr),
            ),
    {
        walk::map_to_2mib(&self.walker, &mut self.memory, page, frame, flags, attr, allocator)
    }

    /// Maps the 4 KiB page `page` to `frame`; see [`walk::map_page`].
    pub fn map_to_4kib<A: FrameAllocator<Size4KiB>>(
        &mut self,
        page: Page<Size4KiB>,
        frame: Frame<Size4KiB>,
        flags: PageTableFlags,
        attr: PageTableAttribute,
        allocator: &mut A,
    ) -> (r: Result<MapperFlush<Size4KiB>, MapToError>)
        requires
            old(self).locator().reaches(page.start()),
        ensures
            final(self).locator() == old(self).locator(),
            r matches Ok(flush) ==> flush.spec_page() == page,
            mapped(
                spec_map(
                    old(self).locator(),
                    old(self).tables(),
                    page.start(),
                    1,
                    upcoming_frames(*old(allocator), 3),
                    leaf_entry(frame, flags, attr),
                ),
                map_outcome(r),
                final(self).tables(),
                *old(allocator),
                *final(allocator),
            ),
            final(self).journal() == old(self).journal() + spec_map_journal(
                old(self).locator(),
                old(self).tables(),
                page.start(),
                1,
                upcoming_frames(*old(allocator), 3),
                leaf_entry(frame, flags, attr),
            ),
    {
        walk::map_to_4kib(&self.walker, &mut self.memory, page, frame, flags, attr, allocator)
    }
}

impl Mapper<Size1GiB> for RecursivePageTable {
    open spec fn can_map(&self, page: Page<Size1GiB>) -> bool {
        true
    }

    fn map_to<A: FrameAllocator<Size4KiB>>(
        &mut self,
        page: Page<Size1GiB>,
        frame: Frame<Size1GiB>,
        flags: PageTableFlags,
        attr: PageTableAttribute,
        allocator: &mut A,
    ) -> (r: Result<MapperFlush<Size1GiB>, MapToError>) {
        assert(terminal_level::<Size1GiB>() == 3);
        self.map_to_1gib(page, frame, flags, attr, allocator)
    }

    fn can_map_to(&self, page: Page<Size1GiB>) -> (r: bool) {
        true
    }

    fn unmap(&mut self, page: Page<Size1GiB>) -> (r: Result<
        (Frame<Size1GiB>, MapperFlush<Size1GiB>),
        UnmapError,
    >) {
        walk::unmap(&self.walker, &mut self.memory, page, 3)
    }

    fn translate_page(&self, page: Page<Size1GiB>) -> (r: Result<Frame<Size1GiB>, TranslateError>) {
        walk::translate_page(&self.walker, &self.memory, page, 3)
    }

    fn get_entry(&self, page: Page<Size1GiB>) -> (r: Result<&PageTableEntry, EntryGetError>) {
        walk::get_entry(&self.walker, &self.memory, page, 3)
    }

    fn get_entry_mut(&mut self, page: Page<Size1GiB>) -> (r: Result<
        &mut PageTableEntry,
        EntryGetError,
    >) {
        walk::get_entry_mut(&self.walker, &mut self.memory, page, 3)
    }
}

impl Mapper<Size2MiB> for RecursivePageTable {
    open spec fn can_map(&self, page: Page<Size2MiB>) -> bool {
        true
    }

    fn map_to<A: FrameAllocator<Size4KiB>>(
        &mut self,
        page: Page<Size2MiB>,
        frame: Frame<Size2MiB>,
        flags: PageTableFlags,
        attr: PageTableAttribute,
        allocator: &mut A,
    ) -> (r: Result<MapperFlush<Size2MiB>, MapToError>) {
        assert(terminal_level::<Size2MiB>() == 2);
        self.map_to_2mib(page, frame, flags, attr, allocator)
    }

    fn can_map_to(&self, page: Page<Size2MiB>) -> (r: bool) {
        true
    }

    fn unmap(&mut self, page: Page<Size2MiB>) -> (r: Result<
        (Frame<Size2MiB>, MapperFlush<Size2MiB>),
        UnmapError,
    >) {
        walk::unmap(&self.walker, &mut self.memory, page, 2)
    }

    fn translate_page(&self, page: Page<Size2MiB>) -> (r: Result<Frame<Size2MiB>, TranslateError>) {
        walk::translate_page(&self.walker, &self.memory, page, 2)
    }

    fn get_entry(&self, page: Page<Size2MiB>) -> (r: Result<&PageTableEntry, EntryGetError>) {
        walk::get_entry(&self.walker, &self.memory, page, 2)
    }

    fn get_entry_mut(&mut self, page: Page<Size2MiB>) -> (r: Result<
        &mut PageTableEntry,
        EntryGetError,
    >) {
        walk::get_entry_mut(&self.walker, &mut self.memory, page, 2)
    }
}

impl Mapper<Size4KiB> for RecursivePageTable {
    open spec fn can_map(&self, page: Page<Size4KiB>) -> bool {
        true
    }

    fn map_to<A: FrameAllocator<Size4KiB>>(
        &mut self,
        page: Page<Size4KiB>,
        frame: Frame<Size4KiB>,
        flags: PageTableFlags,
        attr: PageTableAttribute,
        allocator: &mut A,
    ) -> (r: Result<MapperFlush<Size4KiB>, MapToError>) {
        assert(terminal_level::<Size4KiB>() == 1);
        self.map_to_4kib(page, frame, flags, attr, allocator)
    }

    fn can_map_to(&self, page: Page<Size4KiB>) -> (r: bool) {
        true
    }

    fn unmap(&mut self, page: Page<Size4KiB>) -> (r: Result<
        (Frame<Size4KiB>, MapperFlush<Size4KiB>),
        UnmapError,
    >) {
        walk::unmap(&self.walker, &mut self.memory, page, 1)
    }

    fn translate_page(&self, page: Page<Size4KiB>) -> (r: Result<Frame<Size4KiB>, TranslateError>) {
        walk::translate_page(&self.walker, &self.memory, page, 1)
    }

    fn get_entry(&self, page: Page<Size4KiB>) -> (r: Result<&PageTableEntry, EntryGetError>) {
        walk::get_entry(&self.walker, &self.memory, page, 1)
    }

    fn get_entry_mut(&mut self, page: Page<Size4KiB>) -> (r: Result<
        &mut PageTableEntry,
        EntryGetError,
    >) {
        walk::get_entry_mut(&self.walker, &mut self.memory, page, 1)
    }
}

impl MapperAllSizes for RecursivePageTable {
    fn translate(&self, addr: VirtAddr) -> (r: TranslateResult) {
        walk::translate(&self.walker, &self.memory, addr)
    }
}

} // verus!

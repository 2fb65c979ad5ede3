//! Access the page tables through a normal level 4 table.

use super::{
    leaf_entry, map_outcome, mapped, spec_map, spec_map_journal, upcoming_frames, walk,
    EntryGetError, Hierarchy, MapToError, Mapper, MapperAllSizes, MapperFlush,
    PageTableCreateError, PageTableWalkError, TableLocator, Tables, TranslateError,
    TranslateResult, UnmapError,
};
use crate::addr::VirtAddr;
use crate::paging::frame::Frame;
use crate::paging::frame_alloc::FrameAllocator;
use crate::paging::memory::{MemoryOperation, TableMemory};
use crate::paging::page::Page;
use crate::paging::table::{
    PageTable, PageTableAttribute, PageTableEntry, PageTableFlags, ADDR_MASK,
};
use crate::paging::{terminal_level, Size1GiB, Size2MiB, Size4KiB};
use vstd::prelude::*;

verus! {

/// Trait for converting a physical address to a virtual one.
///
/// This only works if the physical address space is somehow mapped to the virtual
/// address space, e.g. at an offset.
pub trait PhysToVirt {
    /// Whether every frame of at most 48 address bits can be converted.
    spec fn usable(&self) -> bool;

    /// The address at which the table in `frame` can be reached.
    spec fn spec_phys_to_virt(&self, frame: Frame<Size4KiB>) -> VirtAddr;

    /// Translate the given physical frame to the address at which its table can be reached.
    fn phys_to_virt(&self, frame: Frame<Size4KiB>) -> (r: VirtAddr)
        requires
            self.usable(),
            frame.start().value() <= ADDR_MASK,
        ensures
            r == self.spec_phys_to_virt(frame),
    ;
}

impl<T: Fn(Frame<Size4KiB>) -> VirtAddr> PhysToVirt for T {
    /// A function can be used if it accepts every frame of at most 48 address bits and
    /// answers each frame with one address only.
    open spec fn usable(&self) -> bool {
        &&& forall|frame: Frame<Size4KiB>|
            frame.start().value() <= ADDR_MASK ==> #[trigger] self.requires((frame,))
        &&& forall|frame: Frame<Size4KiB>, first: VirtAddr, second: VirtAddr|
            #[trigger] self.ensures((frame,), first) && #[trigger] self.ensures((frame,), second)
                ==> first == second
    }

    open spec fn spec_phys_to_virt(&self, frame: Frame<Size4KiB>) -> VirtAddr {
        choose|address: VirtAddr| self.ensures((frame,), address)
    }

    fn phys_to_virt(&self, frame: Frame<Size4KiB>) -> (r: VirtAddr) {
        self(frame)
    }
}

/// Reaches the tables of a hierarchy through a conversion from physical to virtual
/// addresses, starting at a level 4 table whose address is known.
#[derive(Debug)]
pub struct PageTableWalker<P: PhysToVirt> {
    /// The conversion from a frame to the address of the table that it holds.
    pub phys_to_virt: P,
    /// The address of the level 4 table.
    pub level_4_table: VirtAddr,
}

impl<P: PhysToVirt> TableLocator for PageTableWalker<P> {
    open spec fn reaches(&self, addr: VirtAddr) -> bool {
        self.phys_to_virt.usable()
    }

    open spec fn spec_root(&self, addr: VirtAddr) -> VirtAddr {
        self.level_4_table
    }

    open spec fn spec_next(&self, addr: VirtAddr, level: nat, frame: Frame<Size4KiB>) -> VirtAddr {
        self.phys_to_virt.spec_phys_to_virt(frame)
    }

    fn root(&self, addr: VirtAddr) -> (r: VirtAddr) {
        self.level_4_table
    }

    fn next(&self, addr: VirtAddr, level: u8, frame: Frame<Size4KiB>) -> (r: VirtAddr) {
        self.phys_to_virt.phys_to_virt(frame)
    }

    proof fn lemma_shared_way(&self, a: VirtAddr, b: VirtAddr, level: nat, frame: Frame<Size4KiB>) {
    }
}

impl<P: PhysToVirt> PageTableWalker<P> {
    /// Creates a walker that starts at the table at `level_4_table`.
    pub fn new(phys_to_virt: P, level_4_table: VirtAddr) -> (r: Self)
        ensures
            r.phys_to_virt == phys_to_virt,
            r.level_4_table == level_4_table,
    {
        Self { phys_to_virt, level_4_table }
    }

    /// The table of the next level below the entry for `addr` in `table`, a table of the
    /// given level (4, 3 or 2).
    ///
    /// Returns `PageTableWalkError::NotMapped` if the entry is not valid. Returns
    /// `PageTableWalkError::MappedToHugePage` if the entry is a block.
    pub fn next_table(&self, memory: &TableMemory, addr: VirtAddr, table: VirtAddr, level: u8) -> (r:
        Result<VirtAddr, PageTableWalkError>)
        requires
            self.phys_to_virt.usable(),
            2 <= level <= 4,
        ensures
            r == match memory@[table.value()][addr.spec_index(level as nat) as int].spec_frame() {
                Err(err) => Err(PageTableWalkError::spec_from_frame_error(err)),
                Ok(frame) => Ok(self.phys_to_virt.spec_phys_to_virt(frame)),
            },
    {
        super::next_table(self, memory, addr, table, level)
    }

    /// The table of the next level below the entry for `addr` in `table`, a table of the
    /// given level (4, 3 or 2), to be changed in place.
    ///
    /// Fails as `next_table` does, and then leaves the memory as it is.
    pub fn next_table_mut<'a>(
        &self,
        memory: &'a mut TableMemory,
        addr: VirtAddr,
        table: VirtAddr,
        level: u8,
    ) -> (r: Result<&'a mut PageTable, PageTableWalkError>)
        requires
            self.phys_to_virt.usable(),
            2 <= level <= 4,
        ensures
            match old(memory)@[table.value()][addr.spec_index(level as nat) as int].spec_frame() {
                Err(err) => r == Err::<&mut PageTable, PageTableWalkError>(
                    PageTableWalkError::spec_from_frame_error(err),
                ) && final(memory)@ == old(memory)@ && final(memory).journal() == old(
                    memory,
                ).journal(),
                Ok(frame) => r matches Ok(found) && found@ == old(
                    memory,
                )@[self.phys_to_virt.spec_phys_to_virt(frame).value()] && final(memory)@ == old(
                    memory,
                )@.insert(self.phys_to_virt.spec_phys_to_virt(frame).value(), final(found)@)
                    && final(memory).journal() == old(memory).journal().push(
                    MemoryOperation::Touch { table: self.phys_to_virt.spec_phys_to_virt(frame) },
                ),
            },
    {
        match super::next_table(self, memory, addr, table, level) {
            Ok(next) => Ok(memory.table_mut(next)),
            Err(err) => Err(err),
        }
    }

    /// The table of the next level below the entry for `addr` in `table`, a table of the
    /// given level (4, 3 or 2), made if it is missing.
    ///
    /// If the entry is unused, a new frame is allocated from the given allocator, the entry
    /// is pointed to it, and the new table is cleared. If the entry is in use, the table that
    /// it points to is returned as it is.
    ///
    /// Returns `FrameAllocationFailed` if the entry is unused and the allocator returned
    /// `None`. Returns `MappedToHugePage` if the entry is a block. The allocator is asked only
    /// if the entry is unused. The entry must be unused or valid.
    pub fn create_next_table<A: FrameAllocator<Size4KiB>>(
        &self,
        memory: &mut TableMemory,
        addr: VirtAddr,
        table: VirtAddr,
        level: u8,
        allocator: &mut A,
    ) -> (r: Result<VirtAddr, PageTableCreateError>)
        requires
            self.phys_to_virt.usable(),
            2 <= level <= 4,
            ({
                let entry = old(memory)@[table.value()][addr.spec_index(level as nat) as int];
                entry.spec_is_unused() || entry.is_valid()
            }),
        ensures
            (r, final(memory)@) == super::spec_create_next_table(
                *self,
                old(memory)@,
                addr,
                table,
                level as nat,
                old(allocator).spec_answer(0),
            ),
            final(memory).journal() == old(memory).journal() + super::spec_create_journal(
                *self,
                old(memory)@,
                addr,
                table,
                level as nat,
                old(allocator).spec_answer(0),
            ),
            old(memory)@[table.value()][addr.spec_index(level as nat) as int].spec_is_unused()
                ==> forall|calls: nat| #[trigger]
                final(allocator).spec_answer(calls) == old(allocator).spec_answer(calls + 1),
            !old(memory)@[table.value()][addr.spec_index(level as nat) as int].spec_is_unused()
                ==> *final(allocator) == *old(allocator),
    {
        super::create_next_table(self, memory, addr, table, level, allocator)
    }
}

/// Whether every entry that mapping the page at `addr` follows, seen from `table`, a table
/// of the given level on the way, is unused or valid.
pub open spec fn spec_walkable<L: TableLocator>(
    locator: L,
    tables: Tables,
    addr: VirtAddr,
    table: VirtAddr,
    level: nat,
    terminal: nat,
) -> bool
    decreases level,
{
    if level <= terminal || level <= 1 {
        true
    } else {
        let entry = tables[table.value()][addr.spec_index(level) as int];
        if entry.spec_is_unused() {
            true
        } else if !entry.is_valid() {
            false
        } else if entry.spec_is_block() {
            true
        } else {
            spec_walkable(
                locator,
                tables,
                addr,
                super::spec_next_table(locator, addr, (level - 1) as nat, entry),
                (level - 1) as nat,
                terminal,
            )
        }
    }
}

/// A Mapper implementation that relies on a PhysAddr to VirtAddr conversion function.
///
/// This type requires that all physical page table frames are mapped to some virtual
/// address. Normally, this is done by mapping the complete physical address space into
/// the virtual address space at some offset. Other mappings between physical and virtual
/// memory are possible too, as long as they can be calculated by a `PhysToVirt`.
pub struct MappedPageTable<P: PhysToVirt> {
    page_table_walker: PageTableWalker<P>,
    memory: TableMemory,
}

impl<P: PhysToVirt> Hierarchy for MappedPageTable<P> {
    type Locator = PageTableWalker<P>;

    closed spec fn locator(&self) -> PageTableWalker<P> {
        self.page_table_walker
    }

    closed spec fn tables(&self) -> Tables {
        self.memory@
    }

    closed spec fn journal(&self) -> Seq<MemoryOperation> {
        self.memory.journal()
    }
}

impl<P: PhysToVirt> MappedPageTable<P> {
    /// Creates a new `MappedPageTable` over the tables in `memory`, whose level 4 table
    /// stands at `level_4_table`, that uses `phys_to_virt` for converting physical to virtual
    /// addresses.
    pub fn new(memory: TableMemory, level_4_table: VirtAddr, phys_to_virt: P) -> (r: Self)
        ensures
            r.locator().phys_to_virt == phys_to_virt,
            r.locator().level_4_table == level_4_table,
            r.tables() == memory@,
            r.journal() == memory.journal(),
    {
        Self { page_table_walker: PageTableWalker::new(phys_to_virt, level_4_table), memory }
    }

    /// Returns a mutable reference to the wrapped level 4 `PageTable` instance.
    pub fn level_4_table(&mut self) -> (r: &mut PageTable)
        ensures
            final(self).locator() == old(self).locator(),
            r@ == old(self).tables()[old(self).locator().level_4_table.value()],
            final(self).tables() == old(self).tables().insert(
                old(self).locator().level_4_table.value(),
                final(r)@,
            ),
            final(self).journal() == old(self).journal().push(
                MemoryOperation::Touch { table: old(self).locator().level_4_table },
            ),
    {
        self.memory.table_mut(self.page_table_walker.level_4_table)
    }

    /// Takes the journal: the changes to the tables since it was last taken, in their order.
    pub fn take_journal(&mut self) -> (r: Vec<MemoryOperation>)
        ensures
            r@ == old(self).journal(),
            final(self).journal() == Seq::<MemoryOperation>::empty(),
            final(self).tables() == old(self).tables(),
            final(self).locator() == old(self).locator(),
    {
        self.memory.take_journal()
    }

    /// The memory that holds the tables.
    pub fn memory(&self) -> (r: &TableMemory)
        ensures
            r@ == self.tables(),
            r.journal() == self.journal(),
    {
        &self.memory
    }

    /// Gives the mapper up for the memory that holds the tables.
    pub fn into_memory(self) -> (r: TableMemory)
        ensures
            r@ == self.tables(),
    {
        self.memory
    }

    /// Maps the 1 GiB page `page` to `frame`; see [`walk::map_page`].
    pub fn map_to_1gib<A: FrameAllocator<Size4KiB>>(
        &mut self,
        page: Page<Size1GiB>,
        frame: Frame<Size1GiB>,
        flags: PageTableFlags,
        attr: PageTableAttribute,
        allocator: &mut A,
    ) -> (r: Result<MapperFlush<Size1GiB>, MapToError>)
        requires
            old(self).locator().reaches(page.start()),
            spec_walkable(
                old(self).locator(),
                old(self).tables(),
                page.start(),
                old(self).locator().spec_root(page.start()),
                4,
                3,
            ),
        ensures
            final(self).locator() == old(self).locator(),
            r matches Ok(flush) ==> flush.spec_page() == page,
            mapped(
                spec_map(
                    old(self).locator(),
                    old(self).tables(),
                    page.start(),
                    3,
                    upcoming_frames(*old(allocator), 3),
                    leaf_entry(frame, flags, attr),
                ),
                map_outcome(r),
                final(self).tables(),
                *old(allocator),
                *final(allocator),
            ),
            final(self).journal() == old(self).journal() + spec_map_journal(
                old(self).locator(),
                old(self).tables(),
                page.start(),
                3,
                upcoming_frames(*old(allocator), 3),
                leaf_entry(frame, flags, attr),
            ),
    {
        walk::map_to_1gib(
            &self.page_table_walker,
            &mut self.memory,
            page,
            frame,
            flags,
            attr,
            allocator,
        )
    }

    /// Maps the 2 MiB page `page` to `frame`; see [`walk::map_page`].
    pub fn map_to_2mib<A: FrameAllocator<Size4KiB>>(
        &mut self,
        page: Page<Size2MiB>,
        frame: Frame<Size2MiB>,
        flags: PageTableFlags,
        attr: PageTableAttribute,
        allocator: &mut A,
    ) -> (r: Result<MapperFlush<Size2MiB>, MapToError>)
        requires
            old(self).locator().reaches(page.start()),
            spec_walkable(
                old(self).locator(),
                old(self).tables(),
                page.start(),
                old(self).locator().spec_root(page.start()),
                4,
                2,
            ),
        ensures
            final(self).locator() == old(self).locator(),
            r matches Ok(flush) ==> flush.spec_page() == page,
            mapped(
                spec_map(
                    old(self).locator(),
                    old(self).tables(),
                    page.start(),
                    2,
                    upcoming_frames(*old(allocator), 3),
                    leaf_entry(frame, flags, attr),
                ),
                map_outcome(r),
                final(self).tables(),
                *old(allocator),
                *final(allocator),
            ),
            final(self).journal() == old(self).journal() + spec_map_journal(
                old(self).locator(),
                old(self).tables(),
                page.start(),
                2,
                upcoming_frames(*old(allocator), 3),
                leaf_entry(frame, flags, attr),
            ),
    {
        walk::map_to_2mib(
            &self.page_table_walker,
            &mut self.memory,
            page,
            frame,
            flags,
            attr,
            allocator,
        )
    }

    /// Maps the 4 KiB page `page` to `frame`; see [`walk::map_page`].
    pub fn map_to_4kib<A: FrameAllocator<Size4KiB>>(
        &mut self,
        page: Page<Size4KiB>,
        frame: Frame<Size4KiB>,
        flags: PageTableFlags,
        attr: PageTableAttribute,
        allocator: &mut A,
    ) -> (r: Result<MapperFlush<Size4KiB>, MapToError>)
        requires
            old(self).locator().reaches(page.start()),
            spec_walkable(
                old(self).locator(),
                old(self).tables(),
                page.start(),
                old(self).locator().spec_root(page.start()),
                4,
                1,
            ),
        ensures
            final(self).locator() == old(self).locator(),
            r matches Ok(flush) ==> flush.spec_page() == page,
            mapped(
                spec_map(
                    old(self).locator(),
                    old(self).tables(),
                    page.start(),
                    1,
                    upcoming_frames(*old(allocator), 3),
                    leaf_entry(frame, flags, attr),
                ),
                map_outcome(r),
                final(self).tables(),
                *old(allocator),
                *final(allocator),
            ),
            final(self).journal() == old(self).journal() + spec_map_journal(
                old(self).locator(),
                old(self).tables(),
                page.start(),
                1,
                upcoming_frames(*old(allocator), 3),
                leaf_entry(frame, flags, attr),
            ),
    {
        walk::map_to_4kib(
            &self.page_table_walker,
            &mut self.memory,
            page,
            frame,
            flags,
            attr,
            allocator,
        )
    }
}

impl<P: PhysToVirt> Mapper<Size1GiB> for MappedPageTable<P> {
    open spec fn can_map(&self, page: Page<Size1GiB>) -> bool {
        spec_walkable(
            self.locator(),
            self.tables(),
            page.start(),
            self.locator().spec_root(page.start()),
            4,
            3,
        )
    }

    fn map_to<A: FrameAllocator<Size4KiB>>(
        &mut self,
        page: Page<Size1GiB>,
        frame: Frame<Size1GiB>,
        flags: PageTableFlags,
        attr: PageTableAttribute,
        allocator: &mut A,
    ) -> (r: Result<MapperFlush<Size1GiB>, MapToError>) {
        assert(terminal_level::<Size1GiB>() == 3);
        self.map_to_1gib(page, frame, flags, attr, allocator)
    }

    fn can_map_to(&self, page: Page<Size1GiB>) -> (r: bool) {
        walk::is_walkable(&self.page_table_walker, &self.memory, page.start_address(), 3)
    }

    fn unmap(&mut self, page: Page<Size1GiB>) -> (r: Result<
        (Frame<Size1GiB>, MapperFlush<Size1GiB>),
        UnmapError,
    >) {
        walk::unmap(&self.page_table_walker, &mut self.memory, page, 3)
    }

    fn translate_page(&self, page: Page<Size1GiB>) -> (r: Result<Frame<Size1GiB>, TranslateError>) {
        walk::translate_page(&self.page_table_walker, &self.memory, page, 3)
    }

    fn get_entry(&self, page: Page<Size1GiB>) -> (r: Result<&PageTableEntry, EntryGetError>) {
        walk::get_entry(&self.page_table_walker, &self.memory, page, 3)
    }

    fn get_entry_mut(&mut self, page: Page<Size1GiB>) -> (r: Result<
        &mut PageTableEntry,
        EntryGetError,
    >) {
        walk::get_entry_mut(&self.page_table_walker, &mut self.memory, page, 3)
    }
}

impl<P: PhysToVirt> Mapper<Size2MiB> for MappedPageTable<P> {
    open spec fn can_map(&self, page: Page<Size2MiB>) -> bool {
        spec_walkable(
            self.locator(),
            self.tables(),
            page.start(),
            self.locator().spec_root(page.start()),
            4,
            2,
        )
    }

    fn map_to<A: FrameAllocator<Size4KiB>>(
        &mut self,
        page: Page<Size2MiB>,
        frame: Frame<Size2MiB>,
        flags: PageTableFlags,
        attr: PageTableAttribute,
        allocator: &mut A,
    ) -> (r: Result<MapperFlush<Size2MiB>, MapToError>) {
        assert(terminal_level::<Size2MiB>() == 2);
        self.map_to_2mib(page, frame, flags, attr, allocator)
    }

    fn can_map_to(&self, page: Page<Size2MiB>) -> (r: bool) {
        walk::is_walkable(&self.page_table_walker, &self.memory, page.start_address(), 2)
    }

    fn unmap(&mut self, page: Page<Size2MiB>) -> (r: Result<
        (Frame<Size2MiB>, MapperFlush<Size2MiB>),
        UnmapError,
    >) {
        walk::unmap(&self.page_table_walker, &mut self.memory, page, 2)
    }

    fn translate_page(&self, page: Page<Size2MiB>) -> (r: Result<Frame<Size2MiB>, TranslateError>) {
        walk::translate_page(&self.page_table_walker, &self.memory, page, 2)
    }

    fn get_entry(&self, page: Page<Size2MiB>) -> (r: Result<&PageTableEntry, EntryGetError>) {
        walk::get_entry(&self.page_table_walker, &self.memory, page, 2)
    }

    fn get_entry_mut(&mut self, page: Page<Size2MiB>) -> (r: Result<
        &mut PageTableEntry,
        EntryGetError,
    >) {
        walk::get_entry_mut(&self.page_table_walker, &mut self.memory, page, 2)
    }
}

impl<P: PhysToVirt> Mapper<Size4KiB> for MappedPageTable<P> {
    open spec fn can_map(&self, page: Page<Size4KiB>) -> bool {
        spec_walkable(
            self.locator(),
            self.tables(),
            page.start(),
            self.locator().spec_root(page.start()),
            4,
            1,
        )
    }

    fn map_to<A: FrameAllocator<Size4KiB>>(
        &mut self,
        page: Page<Size4KiB>,
        frame: Frame<Size4KiB>,
        flags: PageTableFlags,
        attr: PageTableAttribute,
        allocator: &mut A,
    ) -> (r: Result<MapperFlush<Size4KiB>, MapToError>) {
        assert(terminal_level::<Size4KiB>() == 1);
        self.map_to_4kib(page, frame, flags, attr, allocator)
    }

    fn can_map_to(&self, page: Page<Size4KiB>) -> (r: bool) {
        walk::is_walkable(&self.page_table_walker, &self.memory, page.start_address(), 1)
    }

    fn unmap(&mut self, page: Page<Size4KiB>) -> (r: Result<
        (Frame<Size4KiB>, MapperFlush<Size4KiB>),
        UnmapError,
    >) {
        walk::unmap(&self.page_table_walker, &mut self.memory, page, 1)
    }

    fn translate_page(&self, page: Page<Size4KiB>) -> (r: Result<Frame<Size4KiB>, TranslateError>) {
        walk::translate_page(&self.page_table_walker, &self.memory, page, 1)
    }

    fn get_entry(&self, page: Page<Size4KiB>) -> (r: Result<&PageTableEntry, EntryGetError>) {
        walk::get_entry(&self.page_table_walker, &self.memory, page, 1)
    }

    fn get_entry_mut(&mut self, page: Page<Size4KiB>) -> (r: Result<
        &mut PageTableEntry,
        EntryGetError,
    >) {
        walk::get_entry_mut(&self.page_table_walker, &mut self.memory, page, 1)
    }
}

impl<P: PhysToVirt> MapperAllSizes for MappedPageTable<P> {
    fn translate(&self, addr: VirtAddr) -> (r: TranslateResult) {
        walk::translate(&self.page_table_walker, &self.memory, addr)
    }
}

} // verus!

//! Access the page tables through a linear mapping of the physical memory.

use super::mapped_page_table::{spec_walkable, MappedPageTable, PageTableWalker, PhysToVirt};
use super::{
    EntryGetError, Hierarchy, MapToError, Mapper, MapperAllSizes, MapperFlush, TableLocator,
    Tables, TranslateError, TranslateResult, UnmapError,
};
use crate::addr::VirtAddr;
use crate::paging::frame::Frame;
use crate::paging::frame_alloc::FrameAllocator;
use crate::paging::memory::{MemoryOperation, TableMemory};
use crate::paging::page::Page;
use crate::paging::table::{
    PageTable, PageTableAttribute, PageTableEntry, PageTableFlags, ADDR_MASK,
};
use crate::paging::{terminal_level, Size1GiB, Size2MiB, Size4KiB};
use vstd::prelude::*;

verus! {

/// The conversion that adds a fixed offset to a physical address.
#[derive(Debug)]
pub struct PhysOffset {
    /// The virtual address at which the physical address 0 is mapped.
    pub offset: VirtAddr,
}

impl PhysToVirt for PhysOffset {
    open spec fn usable(&self) -> bool {
        self.offset.value() + ADDR_MASK <= u64::MAX
    }

    open spec fn spec_phys_to_virt(&self, frame: Frame<Size4KiB>) -> VirtAddr {
        VirtAddr((self.offset.value() + frame.start().value()) as u64)
    }

    fn phys_to_virt(&self, frame: Frame<Size4KiB>) -> (r: VirtAddr) {
        let phys = frame.start_address().as_u64();
        VirtAddr::new(self.offset.as_u64() + phys)
    }
}

/// A Mapper implementation that requires that the complete physical memory is mapped at some
/// offset in the virtual address space.
pub struct OffsetPageTable {
    inner: MappedPageTable<PhysOffset>,
}

impl Hierarchy for OffsetPageTable {
    type Locator = PageTableWalker<PhysOffset>;

    closed spec fn locator(&self) -> PageTableWalker<PhysOffset> {
        self.inner.locator()
    }

    closed spec fn tables(&self) -> Tables {
        self.inner.tables()
    }

    closed spec fn journal(&self) -> Seq<MemoryOperation> {
        self.inner.journal()
    }
}

impl OffsetPageTable {
    /// Creates a new `OffsetPageTable` over the tables in `memory`, whose level 4 table
    /// stands at `level_4_table`, that uses the given offset for converting physical to
    /// virtual addresses.
    ///
    /// The complete physical memory must be mapped in the virtual address space starting at
    /// address `phys_offset`. This means that for example physical address `0x5000` can be
    /// accessed through virtual address `phys_offset + 0x5000`.
    pub fn new(memory: TableMemory, level_4_table: VirtAddr, phys_offset: VirtAddr) -> (r: Self)
        ensures
            r.locator().phys_to_virt.offset == phys_offset,
            r.locator().level_4_table == level_4_table,
            r.tables() == memory@,
            r.journal() == memory.journal(),
    {
        let phys_offset = PhysOffset { offset: phys_offset };
        Self { inner: MappedPageTable::new(memory, level_4_table, phys_offset) }
    }

    /// Returns a mutable reference to the wrapped level 4 `PageTable` instance.
    pub fn level_4_table(&mut self) -> (r: &mut PageTable)
        ensures
            final(self).locator() == old(self).locator(),
            r@ == old(self).tables()[old(self).locator().level_4_table.value()],
            final(self).tables() == old(self).tables().insert(
                old(self).locator().level_4_table.value(),
                final(r)@,
            ),
            final(self).journal() == old(self).journal().push(
                MemoryOperation::Touch { table: old(self).locator().level_4_table },
            ),
    {
        self.inner.level_4_table()
    }

    /// Takes the journal: the changes to the tables since it was last taken, in their order.
    pub fn take_journal(&mut self) -> (r: Vec<MemoryOperation>)
        ensures
            r@ == old(self).journal(),
            final(self).journal() == Seq::<MemoryOperation>::empty(),
            final(self).tables() == old(self).tables(),
            final(self).locator() == old(self).locator(),
    {
        self.inner.take_journal()
    }

    /// The memory that holds the tables.
    pub fn memory(&self) -> (r: &TableMemory)
        ensures
            r@ == self.tables(),
            r.journal() == self.journal(),
    {
        self.inner.memory()
    }
}

impl Mapper<Size1GiB> for OffsetPageTable {
    open spec fn can_map(&self, page: Page<Size1GiB>) -> bool {
        spec_walkable(
            self.locator(),
            self.tables(),
            page.start(),
            self.locator().spec_root(page.start()),
            4,
            3,
        )
    }

    fn map_to<A: FrameAllocator<Size4KiB>>(
        &mut self,
        page: Page<Size1GiB>,
        frame: Frame<Size1GiB>,
        flags: PageTableFlags,
        attr: PageTableAttribute,
        allocator: &mut A,
    ) -> (r: Result<MapperFlush<Size1GiB>, MapToError>) {
        assert(terminal_level::<Size1GiB>() == 3);
        self.inner.map_to_1gib(page, frame, flags, attr, allocator)
    }

    fn can_map_to(&self, page: Page<Size1GiB>) -> (r: bool) {
        Mapper::<Size1GiB>::can_map_to(&self.inner, page)
    }

    fn unmap(&mut self, page: Page<Size1GiB>) -> (r: Result<
        (Frame<Size1GiB>, MapperFlush<Size1GiB>),
        UnmapError,
    >) {
        Mapper::<Size1GiB>::unmap(&mut self.inner, page)
    }

    fn translate_page(&self, page: Page<Size1GiB>) -> (r: Result<Frame<Size1GiB>, TranslateError>) {
        Mapper::<Size1GiB>::translate_page(&self.inner, page)
    }

    fn get_entry(&self, page: Page<Size1GiB>) -> (r: Result<&PageTableEntry, EntryGetError>) {
        Mapper::<Size1GiB>::get_entry(&self.inner, page)
    }

    fn get_entry_mut(&mut self, page: Page<Size1GiB>) -> (r: Result<
        &mut PageTableEntry,
        EntryGetError,
    >) {
        Mapper::<Size1GiB>::get_entry_mut(&mut self.inner, page)
    }
}

impl Mapper<Size2MiB> for OffsetPageTable {
    open spec fn can_map(&self, page: Page<Size2MiB>) -> bool {
        spec_walkable(
            self.locator(),
            self.tables(),
            page.start(),
            self.locator().spec_root(page.start()),
            4,
            2,
        )
    }

    fn map_to<A: FrameAllocator<Size4KiB>>(
        &mut self,
        page: Page<Size2MiB>,
        frame: Frame<Size2MiB>,
        flags: PageTableFlags,
        attr: PageTableAttribute,
        allocator: &mut A,
    ) -> (r: Result<MapperFlush<Size2MiB>, MapToError>) {
        assert(terminal_level::<Size2MiB>() == 2);
        self.inner.map_to_2mib(page, frame, flags, attr, allocator)
    }

    fn can_map_to(&self, page: Page<Size2MiB>) -> (r: bool) {
        Mapper::<Size2MiB>::can_map_to(&self.inner, page)
    }

    fn unmap(&mut self, page: Page<Size2MiB>) -> (r: Result<
        (Frame<Size2MiB>, MapperFlush<Size2MiB>),
        UnmapError,
    >) {
        Mapper::<Size2MiB>::unmap(&mut self.inner, page)
    }

    fn translate_page(&self, page: Page<Size2MiB>) -> (r: Result<Frame<Size2MiB>, TranslateError>) {
        Mapper::<Size2MiB>::translate_page(&self.inner, page)
    }

    fn get_entry(&self, page: Page<Size2MiB>) -> (r: Result<&PageTableEntry, EntryGetError>) {
        Mapper::<Size2MiB>::get_entry(&self.inner, page)
    }

    fn get_entry_mut(&mut self, page: Page<Size2MiB>) -> (r: Result<
        &mut PageTableEntry,
        EntryGetError,
    >) {
        Mapper::<Size2MiB>::get_entry_mut(&mut self.inner, page)
    }
}

impl Mapper<Size4KiB> for OffsetPageTable {
    open spec fn can_map(&self, page: Page<Size4KiB>) -> bool {
        spec_walkable(
            self.locator(),
            self.tables(),
            page.start(),
            self.locator().spec_root(page.start()),
            4,
            1,
        )
    }

    fn map_to<A: FrameAllocator<Size4KiB>>(
        &mut self,
        page: Page<Size4KiB>,
        frame: Frame<Size4KiB>,
        flags: PageTableFlags,
        attr: PageTableAttribute,
        allocator: &mut A,
    ) -> (r: Result<MapperFlush<Size4KiB>, MapToError>) {
        assert(terminal_level::<Size4KiB>() == 1);
        self.inner.map_to_4kib(page, frame, flags, attr, allocator)
    }

    fn can_map_to(&self, page: Page<Size4KiB>) -> (r: bool) {
        Mapper::<Size4KiB>::can_map_to(&self.inner, page)
    }

    fn unmap(&mut self, page: Page<Size4KiB>) -> (r: Result<
        (Frame<Size4KiB>, MapperFlush<Size4KiB>),
        UnmapError,
    >) {
        Mapper::<Size4KiB>::unmap(&mut self.inner, page)
    }

    fn translate_page(&self, page: Page<Size4KiB>) -> (r: Result<Frame<Size4KiB>, TranslateError>) {
        Mapper::<Size4KiB>::translate_page(&self.inner, page)
    }

    fn get_entry(&self, page: Page<Size4KiB>) -> (r: Result<&PageTableEntry, EntryGetError>) {
        Mapper::<Size4KiB>::get_entry(&self.inner, page)
    }

    fn get_entry_mut(&mut self, page: Page<Size4KiB>) -> (r: Result<
        &mut PageTableEntry,
        EntryGetError,
    >) {
        Mapper::<Size4KiB>::get_entry_mut(&mut self.inner, page)
    }
}

impl MapperAllSizes for OffsetPageTable {
    fn translate(&self, addr: VirtAddr) -> (r: TranslateResult) {
        self.inner.translate(addr)
    }
}

} // verus!

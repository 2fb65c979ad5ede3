//! Mapping pages to frames in a four-level hierarchy of translation tables.
//!
//! The walk through the tables is the same for every way of reaching a table; a
//! [`TableLocator`] says where the table stands that an entry points to.

pub mod laws;
pub mod mapped_page_table;
pub mod offset_page_table;
pub mod recursive_page_table;
pub mod walk;

use super::frame::Frame;
use super::frame_alloc::FrameAllocator;
use super::memory::{MemoryOperation, TableMemory};
use super::page::Page;
use super::table::{
    empty_entries, FrameError, PageTableAttribute, PageTableEntry, PageTableFlags, ADDR_MASK,
};
use super::{lemma_size_is_power_of_two, terminal_level, PageSize, Size1GiB, Size2MiB, Size4KiB};
use crate::addr::{lemma_align_down, PhysAddr, VirtAddr};
use crate::index::PageTableIndex;
use crate::instruction::{Instruction, Shareability};
use crate::translation::invalidate_tlb_vaddr;
use vstd::prelude::*;

verus! {

/// The entries of the table at each address.
pub type Tables = Map<u64, Seq<PageTableEntry>>;

/// A page whose translation changed: stale translations of it may still be cached until they
/// are invalidated.
#[derive(Debug)]
#[must_use]
pub struct MapperFlush<S: PageSize>(Page<S>);

impl<S: PageSize> MapperFlush<S> {
    /// The page whose translation changed.
    pub closed spec fn spec_page(&self) -> Page<S> {
        self.0
    }

    /// Creates the token for a change to the translation of `page`.
    pub fn new(page: Page<S>) -> (r: Self)
        ensures
            r.spec_page() == page,
    {
        MapperFlush(page)
    }

    /// The page whose translation changed.
    #[verifier::when_used_as_spec(spec_page)]
    pub fn page(&self) -> (r: Page<S>)
        ensures
            r == self.spec_page(),
    {
        self.0
    }

    /// Gives the token up for the instructions that invalidate the cached translations of the
    /// page, in the order in which they have to be executed.
    pub fn flush(self) -> (r: [Instruction; 4])
        ensures
            r@ == seq![
                Instruction::Dsb(Shareability::InnerShareableStore),
                Instruction::TlbiVaae1is(self.spec_page().start().value() >> 12),
                Instruction::Dsb(Shareability::InnerShareable),
                Instruction::Isb,
            ],
    {
        invalidate_tlb_vaddr(self.0.start_address())
    }

    /// Gives the token up without invalidating anything.
    pub fn ignore(self) {
    }
}

/// Why a page could not be mapped.
#[derive(Clone, Copy, PartialEq, Eq, Debug, Structural)]
pub enum MapToError {
    /// A table was missing and the allocator had no frame for it.
    FrameAllocationFailed,
    /// An entry above the requested level is a block, so no table can hang below it.
    ParentEntryHugePage,
    /// The page is already mapped.
    PageAlreadyMapped,
}

/// Why a page could not be unmapped.
#[derive(Clone, Copy, PartialEq, Eq, Debug, Structural)]
pub enum UnmapError {
    /// An entry on the way is a block where a table was expected, or the last entry is not of
    /// the kind that maps a page of the requested size.
    ParentEntryHugePage,
    /// The page is not mapped.
    PageNotMapped,
    /// The entry holds an address that is no start of a frame of the requested size.
    InvalidFrameAddress(PhysAddr),
}

/// Why the entry of a page could not be reached.
#[derive(Clone, Copy, PartialEq, Eq, Debug, Structural)]
pub enum EntryGetError {
    /// An entry on the way is a block where a table was expected.
    ParentEntryHugePage,
    /// An entry on the way is not valid.
    PageNotMapped,
}

/// Why the frame of a page could not be told.
#[derive(Clone, Copy, PartialEq, Eq, Debug, Structural)]
pub enum TranslateError {
    /// The page is not mapped.
    PageNotMapped,
    /// An entry on the way is a block where a table was expected.
    ParentEntryHugePage,
    /// The entry holds an address that is no start of a frame of the requested size.
    InvalidFrameAddress(PhysAddr),
}

/// Why a table could not be reached or made.
#[derive(Clone, Copy, PartialEq, Eq, Debug, Structural)]
pub enum PageTableCreateError {
    /// The entry is a block.
    MappedToHugePage,
    /// The entry is unused and the allocator had no frame.
    FrameAllocationFailed,
}

/// Why a table could not be reached.
#[derive(Clone, Copy, PartialEq, Eq, Debug, Structural)]
pub enum PageTableWalkError {
    /// The entry is not valid.
    NotMapped,
    /// The entry is a block.
    MappedToHugePage,
}

/// The frame that an address translates to.
#[derive(Clone, PartialEq, Eq, Debug)]
pub enum TranslateResult {
    /// The address lies in a 4 KiB page.
    Frame4KiB {
        /// The frame that the page is mapped to.
        frame: Frame<Size4KiB>,
        /// The offset of the address in the frame.
        offset: u64,
    },
    /// The address lies in a 2 MiB block.
    Frame2MiB {
        /// The frame that the block is mapped to.
        frame: Frame<Size2MiB>,
        /// The offset of the address in the frame.
        offset: u64,
    },
    /// The address lies in a 1 GiB block.
    Frame1GiB {
        /// The frame that the block is mapped to.
        frame: Frame<Size1GiB>,
        /// The offset of the address in the frame.
        offset: u64,
    },
    /// The address is not mapped.
    PageNotMapped,
    /// The last entry holds an address that is no start of a frame.
    InvalidFrameAddress(PhysAddr),
}

impl PageTableCreateError {
    /// The error that mapping a page reports for this one.
    pub open spec fn spec_map_error(self) -> MapToError {
        match self {
            PageTableCreateError::MappedToHugePage => MapToError::ParentEntryHugePage,
            PageTableCreateError::FrameAllocationFailed => MapToError::FrameAllocationFailed,
        }
    }

    /// The error that mapping a page reports for this one.
    #[verifier::when_used_as_spec(spec_map_error)]
    pub fn map_error(self) -> (r: MapToError)
        ensures
            r == self.spec_map_error(),
    {
        match self {
            PageTableCreateError::MappedToHugePage => MapToError::ParentEntryHugePage,
            PageTableCreateError::FrameAllocationFailed => MapToError::FrameAllocationFailed,
        }
    }
}

impl PageTableWalkError {
    /// The error of a walk for the reason why an entry names no table.
    pub open spec fn spec_from_frame_error(err: FrameError) -> PageTableWalkError {
        match err {
            FrameError::HugeFrame => PageTableWalkError::MappedToHugePage,
            FrameError::FrameNotPresent => PageTableWalkError::NotMapped,
        }
    }

    /// The error of a walk for the reason why an entry names no table.
    #[verifier::when_used_as_spec(spec_from_frame_error)]
    pub fn from_frame_error(err: FrameError) -> (r: PageTableWalkError)
        ensures
            r == Self::spec_from_frame_error(err),
    {
        match err {
            FrameError::HugeFrame => PageTableWalkError::MappedToHugePage,
            FrameError::FrameNotPresent => PageTableWalkError::NotMapped,
        }
    }

    /// The error that reaching an entry reports for this one.
    pub open spec fn spec_entry_error(self) -> EntryGetError {
        match self {
            PageTableWalkError::MappedToHugePage => EntryGetError::ParentEntryHugePage,
            PageTableWalkError::NotMapped => EntryGetError::PageNotMapped,
        }
    }

    /// The error that reaching an entry reports for this one.
    #[verifier::when_used_as_spec(spec_entry_error)]
    pub fn entry_error(self) -> (r: EntryGetError)
        ensures
            r == self.spec_entry_error(),
    {
        match self {
            PageTableWalkError::MappedToHugePage => EntryGetError::ParentEntryHugePage,
            PageTableWalkError::NotMapped => EntryGetError::PageNotMapped,
        }
    }
}

impl EntryGetError {
    /// The error that looking up the frame of a page reports for this one.
    pub open spec fn spec_translate_error(self) -> TranslateError {
        match self {
            EntryGetError::ParentEntryHugePage => TranslateError::ParentEntryHugePage,
            EntryGetError::PageNotMapped => TranslateError::PageNotMapped,
        }
    }

    /// The error that looking up the frame of a page reports for this one.
    #[verifier::when_used_as_spec(spec_translate_error)]
    pub fn translate_error(self) -> (r: TranslateError)
        ensures
            r == self.spec_translate_error(),
    {
        match self {
            EntryGetError::ParentEntryHugePage => TranslateError::ParentEntryHugePage,
            EntryGetError::PageNotMapped => TranslateError::PageNotMapped,
        }
    }

    /// The error that unmapping a page reports for this one.
    pub open spec fn spec_unmap_error(self) -> UnmapError {
        match self {
            EntryGetError::ParentEntryHugePage => UnmapError::ParentEntryHugePage,
            EntryGetError::PageNotMapped => UnmapError::PageNotMapped,
        }
    }

    /// The error that unmapping a page reports for this one.
    #[verifier::when_used_as_spec(spec_unmap_error)]
    pub fn unmap_error(self) -> (r: UnmapError)
        ensures
            r == self.spec_unmap_error(),
    {
        match self {
            EntryGetError::ParentEntryHugePage => UnmapError::ParentEntryHugePage,
            EntryGetError::PageNotMapped => UnmapError::PageNotMapped,
        }
    }
}

/// A way of reaching the tables of a hierarchy.
///
/// The walk to an address starts at the level 4 table and follows one entry per level. The
/// locator says where the level 4 table stands and where the table stands that a followed
/// entry points to.
pub trait TableLocator {
    /// Whether the tables on the way to `addr` can be reached at all.
    spec fn reaches(&self, addr: VirtAddr) -> bool;

    /// Where the level 4 table for the walk to `addr` stands.
    spec fn spec_root(&self, addr: VirtAddr) -> VirtAddr;

    /// Where the table of the given level (3, 2 or 1) on the way to `addr` stands, when the
    /// entry above it holds `frame`.
    spec fn spec_next(&self, addr: VirtAddr, level: nat, frame: Frame<Size4KiB>) -> VirtAddr;

    /// Where the level 4 table for the walk to `addr` stands.
    fn root(&self, addr: VirtAddr) -> (r: VirtAddr)
        requires
            self.reaches(addr),
        ensures
            r == self.spec_root(addr),
    ;

    /// Where the table of the given level (3, 2 or 1) on the way to `addr` stands, when the
    /// entry above it holds `frame`.
    fn next(&self, addr: VirtAddr, level: u8, frame: Frame<Size4KiB>) -> (r: VirtAddr)
        requires
            self.reaches(addr),
            1 <= level <= 3,
            frame.start().value() <= ADDR_MASK,
        ensures
            r == self.spec_next(addr, level as nat, frame),
    ;

    /// Where a table of the given level stands depends on the address only through its
    /// range and its indices above that level.
    proof fn lemma_shared_way(&self, a: VirtAddr, b: VirtAddr, level: nat, frame: Frame<Size4KiB>)
        requires
            1 <= level <= 3,
            a.spec_va_range() == b.spec_va_range(),
            forall|upper: nat| level < upper <= 4 ==> a.spec_index(upper) == b.spec_index(upper),
        ensures
            self.spec_root(a) == self.spec_root(b),
            self.spec_next(a, level, frame) == self.spec_next(b, level, frame),
    ;
}

/// A hierarchy of translation tables together with the way of reaching them.
pub trait Hierarchy {
    /// The way in which the tables are reached.
    type Locator: TableLocator;

    /// The way in which the tables are reached.
    spec fn locator(&self) -> Self::Locator;

    /// The entries of the table at each address.
    spec fn tables(&self) -> Tables;

    /// The changes to the tables since the journal was last taken, in their order.
    spec fn journal(&self) -> Seq<MemoryOperation>;
}

/// Mapping, unmapping and looking up pages of size `S`.
pub trait Mapper<S: PageSize>: Hierarchy {
    /// Whether `page` may be handed to `map_to`.
    spec fn can_map(&self, page: Page<S>) -> bool;

    /// Creates a new mapping in the page table.
    ///
    /// Tables on the way that are missing are made from frames of `allocator`, which is asked
    /// once for each of them and not otherwise. The caller invalidates cached translations
    /// with the token returned.
    fn map_to<A: FrameAllocator<Size4KiB>>(
        &mut self,
        page: Page<S>,
        frame: Frame<S>,
        flags: PageTableFlags,
        attr: PageTableAttribute,
        allocator: &mut A,
    ) -> (r: Result<MapperFlush<S>, MapToError>)
        requires
            old(self).locator().reaches(page.start()),
            old(self).can_map(page),
        ensures
            final(self).locator() == old(self).locator(),
            r matches Ok(flush) ==> flush.spec_page() == page,
            mapped(
                spec_map(
                    old(self).locator(),
                    old(self).tables(),
                    page.start(),
                    terminal_level::<S>(),
                    upcoming_frames(*old(allocator), 3),
                    leaf_entry(frame, flags, attr),
                ),
                map_outcome(r),
                final(self).tables(),
                *old(allocator),
                *final(allocator),
            ),
            final(self).journal() == old(self).journal() + spec_map_journal(
                old(self).locator(),
                old(self).tables(),
                page.start(),
                terminal_level::<S>(),
                upcoming_frames(*old(allocator), 3),
                leaf_entry(frame, flags, attr),
            ),
    ;

    /// Whether `page` may be handed to `map_to`.
    fn can_map_to(&self, page: Page<S>) -> (r: bool)
        requires
            self.locator().reaches(page.start()),
        ensures
            r == self.can_map(page),
    ;

    /// Removes a mapping from the page table and returns the frame that used to be mapped.
    ///
    /// The frame is not handed back to any allocator. The caller invalidates cached
    /// translations with the token returned.
    fn unmap(&mut self, page: Page<S>) -> (r: Result<(Frame<S>, MapperFlush<S>), UnmapError>)
        requires
            old(self).locator().reaches(page.start()),
        ensures
            final(self).locator() == old(self).locator(),
            r matches Ok((_, flush)) ==> flush.spec_page() == page,
            (unmap_outcome(r), final(self).tables()) == spec_unmap::<Self::Locator, S>(
                old(self).locator(),
                old(self).tables(),
                page.start(),
                terminal_level::<S>(),
            ),
            final(self).journal() == old(self).journal() + spec_unmap_journal::<Self::Locator, S>(
                old(self).locator(),
                old(self).tables(),
                page.start(),
                terminal_level::<S>(),
            ),
    ;

    /// The entry of the given page.
    fn get_entry(&self, page: Page<S>) -> (r: Result<&PageTableEntry, EntryGetError>)
        requires
            self.locator().reaches(page.start()),
        ensures
            entry_outcome(r) == spec_get_entry(
                self.locator(),
                self.tables(),
                page.start(),
                terminal_level::<S>(),
            ),
    ;

    /// The frame that the given page is mapped to.
    fn translate_page(&self, page: Page<S>) -> (r: Result<Frame<S>, TranslateError>)
        requires
            self.locator().reaches(page.start()),
        ensures
            r == spec_translate_page::<Self::Locator, S>(
                self.locator(),
                self.tables(),
                page.start(),
                terminal_level::<S>(),
            ),
    ;

    /// The entry of the given page, to be changed in place.
    fn get_entry_mut(&mut self, page: Page<S>) -> (r: Result<&mut PageTableEntry, EntryGetError>)
        requires
            old(self).locator().reaches(page.start()),
        ensures
            final(self).locator() == old(self).locator(),
            entry_mut_outcome(r) == spec_get_entry(
                old(self).locator(),
                old(self).tables(),
                page.start(),
                terminal_level::<S>(),
            ),
            r.is_err() ==> final(self).tables() == old(self).tables() && final(self).journal()
                == old(self).journal(),
            r.is_ok() ==> final(self).journal() == old(self).journal().push(
                spec_touch(
                    old(self).locator(),
                    old(self).tables(),
                    page.start(),
                    terminal_level::<S>(),
                ),
            ),
            r matches Ok(entry) ==> final(self).tables() == spec_set_entry(
                old(self).locator(),
                old(self).tables(),
                page.start(),
                terminal_level::<S>(),
                *final(entry),
            ),
    ;
}

/// Translating addresses, whatever the size of the page that they lie in.
pub trait MapperAllSizes: Mapper<Size4KiB> + Mapper<Size2MiB> + Mapper<Size1GiB> {
    /// The frame that `addr` lies in and its offset there.
    ///
    /// The level 4 entry on the way must not be a block: the architecture has no such entry.
    fn translate(&self, addr: VirtAddr) -> (r: TranslateResult)
        requires
            self.locator().reaches(addr),
            !level_4_is_block(self.locator(), self.tables(), addr),
        ensures
            r == spec_translate(self.locator(), self.tables(), addr),
    ;
}

/// The entry that a lookup found, or why it found none.
pub open spec fn entry_outcome(r: Result<&PageTableEntry, EntryGetError>) -> Result<
    PageTableEntry,
    EntryGetError,
> {
    match r {
        Ok(entry) => Ok(*entry),
        Err(err) => Err(err),
    }
}

/// The entry that a lookup found, or why it found none.
pub open spec fn entry_mut_outcome(r: Result<&mut PageTableEntry, EntryGetError>) -> Result<
    PageTableEntry,
    EntryGetError,
> {
    match r {
        Ok(entry) => Ok(*entry),
        Err(err) => Err(err),
    }
}

/// The record of handing out the table of level `terminal` on the way to `addr`.
pub open spec fn spec_touch<L: TableLocator>(
    locator: L,
    tables: Tables,
    addr: VirtAddr,
    terminal: nat,
) -> MemoryOperation {
    MemoryOperation::Touch { table: spec_locate(locator, tables, addr, terminal).unwrap() }
}

/// The tables after the entry of level `terminal` on the way to `addr` has been replaced by
/// `entry`; unchanged where the entry cannot be reached.
pub open spec fn spec_set_entry<L: TableLocator>(
    locator: L,
    tables: Tables,
    addr: VirtAddr,
    terminal: nat,
    entry: PageTableEntry,
) -> Tables {
    match spec_locate(locator, tables, addr, terminal) {
        Err(_) => tables,
        Ok(table) => tables.insert(
            table.value(),
            tables[table.value()].update(addr.spec_index(terminal) as int, entry),
        ),
    }
}

/// The entry that points to the table in `frame`.
pub open spec fn table_entry(frame: Frame<Size4KiB>) -> PageTableEntry {
    PageTableEntry::spec_encode(
        frame.start(),
        PageTableFlags { bits: 3 },
        PageTableAttribute { mask: 0, value: 0 },
    )
}

/// The entry that maps a page to `frame`.
pub open spec fn leaf_entry<S: PageSize>(
    frame: Frame<S>,
    flags: PageTableFlags,
    attr: PageTableAttribute,
) -> PageTableEntry {
    PageTableEntry::spec_encode(frame.start(), flags, attr)
}

/// The result of mapping a page, without the token.
pub open spec fn map_outcome<S: PageSize>(r: Result<MapperFlush<S>, MapToError>) -> Result<
    (),
    MapToError,
> {
    match r {
        Ok(_) => Ok(()),
        Err(err) => Err(err),
    }
}

/// Whether `result`, `tables` and the allocator afterwards are what `outcome`, the outcome of
/// `spec_map`, says: the result and the tables are those of the outcome, the allocator has
/// moved on by as many answers as were asked for, and it is as it was if none was asked for.
pub open spec fn mapped<A: FrameAllocator<Size4KiB>>(
    outcome: (Result<(), MapToError>, Tables, nat),
    result: Result<(), MapToError>,
    tables: Tables,
    before: A,
    after: A,
) -> bool {
    &&& result == outcome.0
    &&& tables == outcome.1
    &&& forall|calls: nat| #[trigger]
        after.spec_answer(calls) == before.spec_answer(calls + outcome.2)
    &&& outcome.2 == 0 ==> after == before
}

/// The result of unmapping a page, without the token.
pub open spec fn unmap_outcome<S: PageSize>(
    r: Result<(Frame<S>, MapperFlush<S>), UnmapError>,
) -> Result<Frame<S>, UnmapError> {
    match r {
        Ok((frame, _)) => Ok(frame),
        Err(err) => Err(err),
    }
}

/// Where the table stands that `entry`, on the way to `addr`, points to; the table is of the
/// given level.
pub open spec fn spec_next_table<L: TableLocator>(
    locator: L,
    addr: VirtAddr,
    level: nat,
    entry: PageTableEntry,
) -> VirtAddr {
    locator.spec_next(addr, level, Frame::spec_containing(entry.spec_addr()))
}

/// The table below the entry for `addr` in `table`, a table of the given level: where it
/// stands, and the tables afterwards.
///
/// An unused entry is pointed to the frame in `allocated`, and the table that it then points
/// to is cleared; with no frame the step fails. An entry that is a block has no table below
/// it.
pub open spec fn spec_create_next_table<L: TableLocator>(
    locator: L,
    tables: Tables,
    addr: VirtAddr,
    table: VirtAddr,
    level: nat,
    allocated: Option<Frame<Size4KiB>>,
) -> (Result<VirtAddr, PageTableCreateError>, Tables) {
    let index = addr.spec_index(level) as int;
    let entry = tables[table.value()][index];
    if entry.spec_is_unused() {
        match allocated {
            None => (Err(PageTableCreateError::FrameAllocationFailed), tables),
            Some(frame) => {
                let linked = tables.insert(
                    table.value(),
                    tables[table.value()].update(index, table_entry(frame)),
                );
                let next = spec_next_table(locator, addr, (level - 1) as nat, table_entry(frame));
                (Ok(next), linked.insert(next.value(), empty_entries()))
            },
        }
    } else if entry.spec_is_block() {
        (Err(PageTableCreateError::MappedToHugePage), tables)
    } else {
        (Ok(spec_next_table(locator, addr, (level - 1) as nat, entry)), tables)
    }
}

/// What the step below the entry for `addr` in `table`, a table of the given level, records
/// in the journal: nothing if the entry is in use or no frame is there; else the write of
/// the entry, a store barrier, and the clearing of the new table, in this order, so that no
/// observer finds stale contents through the new entry.
pub open spec fn spec_create_journal<L: TableLocator>(
    locator: L,
    tables: Tables,
    addr: VirtAddr,
    table: VirtAddr,
    level: nat,
    allocated: Option<Frame<Size4KiB>>,
) -> Seq<MemoryOperation> {
    let index = addr.spec_index(level);
    if tables[table.value()][index as int].spec_is_unused() && allocated.is_some() {
        let entry = table_entry(allocated.unwrap());
        seq![
            MemoryOperation::Write { table, index: index as u16, entry },
            MemoryOperation::StoreBarrier,
            MemoryOperation::Clear {
                table: spec_next_table(locator, addr, (level - 1) as nat, entry),
            },
        ]
    } else {
        Seq::empty()
    }
}

/// What mapping the page at `addr` records in the journal, seen from `table`, a table of the
/// given level on the way: the records of each step that makes a table, and at last the write
/// of the entry `leaf`.
pub open spec fn spec_map_journal_from<L: TableLocator>(
    locator: L,
    tables: Tables,
    addr: VirtAddr,
    table: VirtAddr,
    level: nat,
    terminal: nat,
    answers: Seq<Option<Frame<Size4KiB>>>,
    asked: nat,
    leaf: PageTableEntry,
) -> Seq<MemoryOperation>
    decreases level,
{
    let index = addr.spec_index(level);
    if level <= terminal || level <= 1 {
        if !tables[table.value()][index as int].spec_is_unused() {
            Seq::empty()
        } else {
            seq![MemoryOperation::Write { table, index: index as u16, entry: leaf }]
        }
    } else {
        let step = spec_create_next_table(
            locator,
            tables,
            addr,
            table,
            level,
            answers[asked as int],
        );
        let recorded = spec_create_journal(
            locator,
            tables,
            addr,
            table,
            level,
            answers[asked as int],
        );
        match step.0 {
            Err(_) => recorded,
            Ok(next) => recorded + spec_map_journal_from(
                locator,
                step.1,
                addr,
                next,
                (level - 1) as nat,
                terminal,
                answers,
                spec_then_asked(tables, addr, table, level, asked),
                leaf,
            ),
        }
    }
}

/// What mapping the page at `addr` by the entry `leaf` in the table of level `terminal`
/// records in the journal.
pub open spec fn spec_map_journal<L: TableLocator>(
    locator: L,
    tables: Tables,
    addr: VirtAddr,
    terminal: nat,
    answers: Seq<Option<Frame<Size4KiB>>>,
    leaf: PageTableEntry,
) -> Seq<MemoryOperation> {
    spec_map_journal_from(
        locator,
        tables,
        addr,
        locator.spec_root(addr),
        4,
        terminal,
        answers,
        0,
        leaf,
    )
}

/// What unmapping the page of size `S` at `addr` records in the journal: the write of the
/// unused entry if it succeeds, and nothing else.
pub open spec fn spec_unmap_journal<L: TableLocator, S: PageSize>(
    locator: L,
    tables: Tables,
    addr: VirtAddr,
    terminal: nat,
) -> Seq<MemoryOperation> {
    if spec_unmap::<L, S>(locator, tables, addr, terminal).0.is_ok() {
        seq![
            MemoryOperation::Write {
                table: spec_locate(locator, tables, addr, terminal).unwrap(),
                index: addr.spec_index(terminal) as u16,
                entry: PageTableEntry { entry: 0 },
            },
        ]
    } else {
        Seq::empty()
    }
}

/// The answers of the next `count` calls of the allocator, in their order.
pub open spec fn upcoming_frames<A: FrameAllocator<Size4KiB>>(
    allocator: A,
    count: nat,
) -> Seq<Option<Frame<Size4KiB>>> {
    Seq::new(count, |calls: int| allocator.spec_answer(calls as nat))
}

/// Mapping the page at `addr` by the entry `leaf` in the table of level `terminal`, seen from
/// `table`, a table of the given level on the way: the result, the tables afterwards, and
/// how often the allocator has been asked by then.
///
/// `answers` holds what the allocator answers, call by call, and `asked` says how many of
/// the answers have been taken already. The allocator is asked where a table is missing, and
/// nowhere else.
pub open spec fn spec_map_from<L: TableLocator>(
    locator: L,
    tables: Tables,
    addr: VirtAddr,
    table: VirtAddr,
    level: nat,
    terminal: nat,
    answers: Seq<Option<Frame<Size4KiB>>>,
    asked: nat,
    leaf: PageTableEntry,
) -> (Result<(), MapToError>, Tables, nat)
    decreases level,
{
    let index = addr.spec_index(level) as int;
    if level <= terminal || level <= 1 {
        if !tables[table.value()][index].spec_is_unused() {
            (Err(MapToError::PageAlreadyMapped), tables, asked)
        } else {
            (Ok(()), tables.insert(table.value(), tables[table.value()].update(index, leaf)), asked)
        }
    } else {
        let step = spec_create_next_table(
            locator,
            tables,
            addr,
            table,
            level,
            answers[asked as int],
        );
        let then_asked = spec_then_asked(tables, addr, table, level, asked);
        match step.0 {
            Err(err) => (Err(err.spec_map_error()), step.1, then_asked),
            Ok(next) => spec_map_from(
                locator,
                step.1,
                addr,
                next,
                (level - 1) as nat,
                terminal,
                answers,
                then_asked,
                leaf,
            ),
        }
    }
}

/// How often the allocator has been asked after the step below the entry for `addr` in
/// `table`, a table of the given level: once more if the entry is unused.
pub open spec fn spec_then_asked(
    tables: Tables,
    addr: VirtAddr,
    table: VirtAddr,
    level: nat,
    asked: nat,
) -> nat {
    if tables[table.value()][addr.spec_index(level) as int].spec_is_unused() {
        asked + 1
    } else {
        asked
    }
}

/// Mapping the page at `addr` by the entry `leaf` in the table of level `terminal`: the
/// result, the tables afterwards, and how often the allocator has been asked.
pub open spec fn spec_map<L: TableLocator>(
    locator: L,
    tables: Tables,
    addr: VirtAddr,
    terminal: nat,
    answers: Seq<Option<Frame<Size4KiB>>>,
    leaf: PageTableEntry,
) -> (Result<(), MapToError>, Tables, nat) {
    spec_map_from(locator, tables, addr, locator.spec_root(addr), 4, terminal, answers, 0, leaf)
}

/// The table of level `terminal` on the way to `addr`, seen from `table`, a table of the given
/// level on the way.
pub open spec fn spec_locate_from<L: TableLocator>(
    locator: L,
    tables: Tables,
    addr: VirtAddr,
    table: VirtAddr,
    level: nat,
    terminal: nat,
) -> Result<VirtAddr, PageTableWalkError>
    decreases level,
{
    if level <= terminal || level <= 1 {
        Ok(table)
    } else {
        match tables[table.value()][addr.spec_index(level) as int].spec_frame() {
            Err(err) => Err(PageTableWalkError::spec_from_frame_error(err)),
            Ok(frame) => spec_locate_from(
                locator,
                tables,
                addr,
                locator.spec_next(addr, (level - 1) as nat, frame),
                (level - 1) as nat,
                terminal,
            ),
        }
    }
}

/// The table of level `terminal` on the way to `addr`.
pub open spec fn spec_locate<L: TableLocator>(
    locator: L,
    tables: Tables,
    addr: VirtAddr,
    terminal: nat,
) -> Result<VirtAddr, PageTableWalkError> {
    spec_locate_from(locator, tables, addr, locator.spec_root(addr), 4, terminal)
}

/// The entry of level `terminal` on the way to `addr`, if the way is there and the entry is
/// in use.
pub open spec fn spec_get_entry<L: TableLocator>(
    locator: L,
    tables: Tables,
    addr: VirtAddr,
    terminal: nat,
) -> Result<PageTableEntry, EntryGetError> {
    match spec_locate(locator, tables, addr, terminal) {
        Err(err) => Err(err.spec_entry_error()),
        Ok(table) => {
            let entry = tables[table.value()][addr.spec_index(terminal) as int];
            if entry.spec_is_unused() {
                Err(EntryGetError::PageNotMapped)
            } else {
                Ok(entry)
            }
        },
    }
}

/// Unmapping the page of size `S` at `addr`, whose entry stands in the table of level
/// `terminal`: the frame that it was mapped to, and the tables afterwards.
///
/// The entry of a 4 KiB page carries the page bit; the entry of a larger page is a block.
pub open spec fn spec_unmap<L: TableLocator, S: PageSize>(
    locator: L,
    tables: Tables,
    addr: VirtAddr,
    terminal: nat,
) -> (Result<Frame<S>, UnmapError>, Tables) {
    match spec_locate(locator, tables, addr, terminal) {
        Err(err) => (Err(err.spec_entry_error().spec_unmap_error()), tables),
        Ok(table) => {
            let index = addr.spec_index(terminal) as int;
            let entry = tables[table.value()][index];
            if !entry.is_valid() {
                (Err(UnmapError::PageNotMapped), tables)
            } else if entry.spec_is_block() == (terminal == 1) {
                (Err(UnmapError::ParentEntryHugePage), tables)
            } else if entry.spec_addr().value() % S::SIZE != 0 {
                (Err(UnmapError::InvalidFrameAddress(entry.spec_addr())), tables)
            } else {
                (
                    Ok(Frame::spec_containing(entry.spec_addr())),
                    tables.insert(
                        table.value(),
                        tables[table.value()].update(index, PageTableEntry { entry: 0 }),
                    ),
                )
            }
        },
    }
}

/// The frame that the page of size `S` at `addr` is mapped to, whose entry stands in the
/// table of level `terminal`.
pub open spec fn spec_translate_page<L: TableLocator, S: PageSize>(
    locator: L,
    tables: Tables,
    addr: VirtAddr,
    terminal: nat,
) -> Result<Frame<S>, TranslateError> {
    match spec_get_entry(locator, tables, addr, terminal) {
        Err(err) => Err(err.spec_translate_error()),
        Ok(entry) => if entry.spec_addr().value() % S::SIZE != 0 {
            Err(TranslateError::InvalidFrameAddress(entry.spec_addr()))
        } else {
            Ok(Frame::spec_containing(entry.spec_addr()))
        },
    }
}

/// What `addr` translates to.
///
/// The walk ends at the first entry that is not valid, or that is a block, or at the entry of
/// level 1. A block at level 4 does not exist; the walk has no answer for it.
pub open spec fn spec_translate<L: TableLocator>(
    locator: L,
    tables: Tables,
    addr: VirtAddr,
) -> TranslateResult {
    let e4 = tables[locator.spec_root(addr).value()][addr.spec_index(4) as int];
    match e4.spec_frame() {
        Err(_) => TranslateResult::PageNotMapped,
        Ok(f4) => {
            let e3 = tables[locator.spec_next(addr, 3, f4).value()][addr.spec_index(3) as int];
            match e3.spec_frame() {
                Err(FrameError::FrameNotPresent) => TranslateResult::PageNotMapped,
                Err(FrameError::HugeFrame) => TranslateResult::Frame1GiB {
                    frame: Frame::spec_containing(e3.spec_addr()),
                    offset: addr.value() & 0x3fff_ffff,
                },
                Ok(f3) => {
                    let e2 = tables[locator.spec_next(addr, 2, f3).value()][addr.spec_index(2) as int];
                    match e2.spec_frame() {
                        Err(FrameError::FrameNotPresent) => TranslateResult::PageNotMapped,
                        Err(FrameError::HugeFrame) => TranslateResult::Frame2MiB {
                            frame: Frame::spec_containing(e2.spec_addr()),
                            offset: addr.value() & 0x1f_ffff,
                        },
                        Ok(f2) => {
                            let e1 = tables[locator.spec_next(addr, 1, f2).value()][addr.spec_index(
                                1,
                            ) as int];
                            if e1.spec_is_unused() {
                                TranslateResult::PageNotMapped
                            } else {
                                TranslateResult::Frame4KiB {
                                    frame: Frame::spec_containing(e1.spec_addr()),
                                    offset: (addr.value() % 4096) as u64,
                                }
                            }
                        },
                    }
                },
            }
        },
    }
}

/// Whether the level 4 entry on the way to `addr` is a valid block, which the architecture
/// does not have.
pub open spec fn level_4_is_block<L: TableLocator>(locator: L, tables: Tables, addr: VirtAddr) -> bool {
    tables[locator.spec_root(addr).value()][addr.spec_index(4) as int].spec_frame() == Err::<
        Frame<Size4KiB>,
        FrameError,
    >(FrameError::HugeFrame)
}

/// The address that an entry holds is the start of a 4 KiB frame of at most 48 bits.
pub proof fn lemma_entry_addr(entry: PageTableEntry)
    ensures
        entry.spec_addr().value() <= ADDR_MASK,
        entry.spec_addr().value() % 4096 == 0,
        Frame::<Size4KiB>::spec_containing(entry.spec_addr()).start() == entry.spec_addr(),
{
    let bits: u64 = entry.entry;
    assert(bits & 0x0000_ffff_ffff_f000u64 <= 0x0000_ffff_ffff_f000u64 && (bits
        & 0x0000_ffff_ffff_f000u64) % 4096 == 0) by (bit_vector);
    lemma_size_is_power_of_two::<Size4KiB>();
    lemma_align_down(entry.spec_addr().value(), Size4KiB::SIZE);
    Frame::<Size4KiB>::lemma_containing_start(entry.spec_addr());
}

/// The entry that points to a table is valid, is no block, and holds the start of the frame
/// as far as it fits into 48 bits.
pub proof fn lemma_table_entry(frame: Frame<Size4KiB>)
    ensures
        !table_entry(frame).spec_is_unused(),
        table_entry(frame).is_valid(),
        !table_entry(frame).spec_is_block(),
        frame.wf() && frame.start().value() <= ADDR_MASK ==> table_entry(frame).spec_addr()
            == frame.start(),
{
    let start: u64 = frame.start().value();
    assert((start | 3 | 0) != 0 && (start | 3 | 0) & 1 == 1 && (start | 3 | 0) & 2 != 0 && (start
        <= 0x0000_ffff_ffff_f000u64 && start % 4096 == 0 ==> (start | 3 | 0)
        & 0x0000_ffff_ffff_f000u64 == start)) by (bit_vector);
}

/// The index into the table of the given level that the walk to `addr` uses.
pub fn index_at(addr: VirtAddr, level: u8) -> (r: PageTableIndex)
    requires
        1 <= level <= 4,
    ensures
        r.value() == addr.spec_index(level as nat),
{
    if level == 1 {
        addr.p1_index()
    } else if level == 2 {
        addr.p2_index()
    } else if level == 3 {
        addr.p3_index()
    } else {
        addr.p4_index()
    }
}

/// The table below the entry for `addr` in `table`, a table of the given level (4, 3 or 2).
///
/// Returns `PageTableWalkError::NotMapped` if the entry is not valid, and
/// `PageTableWalkError::MappedToHugePage` if it is a block.
pub fn next_table<L: TableLocator>(
    locator: &L,
    memory: &TableMemory,
    addr: VirtAddr,
    table: VirtAddr,
    level: u8,
) -> (r: Result<VirtAddr, PageTableWalkError>)
    requires
        locator.reaches(addr),
        2 <= level <= 4,
    ensures
        r == match memory@[table.value()][addr.spec_index(level as nat) as int].spec_frame() {
            Err(err) => Err(PageTableWalkError::spec_from_frame_error(err)),
            Ok(frame) => Ok(locator.spec_next(addr, (level - 1) as nat, frame)),
        },
{
    let entry = memory.entry(table, index_at(addr, level));
    proof {
        lemma_entry_addr(*entry);
    }
    match entry.frame() {
        Err(err) => Err(PageTableWalkError::from_frame_error(err)),
        Ok(frame) => Ok(locator.next(addr, level - 1, frame)),
    }
}

/// The table below the entry for `addr` in `table`, a table of the given level (4, 3 or 2),
/// made from the frame in `allocated` if the entry is unused.
///
/// If the entry is unused, it is pointed to the frame in `allocated` and the table that it
/// then points to is cleared. If the entry is in use, the table that it points to is returned
/// as it is.
///
/// Returns `PageTableCreateError::FrameAllocationFailed` if the entry is unused and
/// `allocated` holds no frame, and `PageTableCreateError::MappedToHugePage` if the entry is a
/// block.
pub fn link_next_table<L: TableLocator>(
    locator: &L,
    memory: &mut TableMemory,
    addr: VirtAddr,
    table: VirtAddr,
    level: u8,
    allocated: Option<Frame<Size4KiB>>,
) -> (r: Result<VirtAddr, PageTableCreateError>)
    requires
        locator.reaches(addr),
        2 <= level <= 4,
    ensures
        (r, final(memory)@) == spec_create_next_table(
            *locator,
            old(memory)@,
            addr,
            table,
            level as nat,
            allocated,
        ),
        final(memory).journal() == old(memory).journal() + spec_create_journal(
            *locator,
            old(memory)@,
            addr,
            table,
            level as nat,
            allocated,
        ),
{
    let index = index_at(addr, level);
    let mut entry = *memory.entry(table, index);
    let created;
    if entry.is_unused() {
        match allocated {
            Some(frame) => {
                let no_attr = PageTableAttribute::new(0, 0, 0);
                assert(0u64 << 0u64 == 0 && (0u64 & 0u64) << 0u64 == 0) by (bit_vector);
                entry.set_frame(frame, PageTableFlags::default_table(), no_attr);
                proof {
                    lemma_table_entry(frame);
                }
                memory.set_entry(table, index, entry);
                created = true;
            },
            None => {
                return Err(PageTableCreateError::FrameAllocationFailed);
            },
        }
    } else {
        created = false;
    }
    if entry.is_block() {
        return Err(PageTableCreateError::MappedToHugePage);
    }
    proof {
        lemma_entry_addr(entry);
    }
    let next = locator.next(addr, level - 1, Frame::containing_address(entry.addr()));
    if created {
        memory.store_barrier();
        memory.clear_table(next);
        assert(memory.journal() =~= old(memory).journal() + spec_create_journal(
            *locator,
            old(memory)@,
            addr,
            table,
            level as nat,
            allocated,
        ));
    }
    Ok(next)
}

/// The table below the entry for `addr` in `table`, a table of the given level (4, 3 or 2),
/// made if it is missing.
///
/// If the entry is unused, a new frame is allocated from the given allocator, the entry is
/// pointed to it, and the new table is cleared: the outcome is that of `link_next_table` with
/// the allocator's answer. If the entry is in use, the allocator is not asked.
pub fn create_next_table<L: TableLocator, A: FrameAllocator<Size4KiB>>(
    locator: &L,
    memory: &mut TableMemory,
    addr: VirtAddr,
    table: VirtAddr,
    level: u8,
    allocator: &mut A,
) -> (r: Result<VirtAddr, PageTableCreateError>)
    requires
        locator.reaches(addr),
        2 <= level <= 4,
    ensures
        (r, final(memory)@) == spec_create_next_table(
            *locator,
            old(memory)@,
            addr,
            table,
            level as nat,
            old(allocator).spec_answer(0),
        ),
        final(memory).journal() == old(memory).journal() + spec_create_journal(
            *locator,
            old(memory)@,
            addr,
            table,
            level as nat,
            old(allocator).spec_answer(0),
        ),
        old(memory)@[table.value()][addr.spec_index(level as nat) as int].spec_is_unused()
            ==> forall|calls: nat| #[trigger]
            final(allocator).spec_answer(calls) == old(allocator).spec_answer(calls + 1),
        !old(memory)@[table.value()][addr.spec_index(level as nat) as int].spec_is_unused()
            ==> *final(allocator) == *old(allocator),
{
    let allocated = if memory.entry(table, index_at(addr, level)).is_unused() {
        allocator.allocate_frame()
    } else {
        None
    };
    link_next_table(locator, memory, addr, table, level, allocated)
}

} // verus!

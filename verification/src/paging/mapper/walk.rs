//! The walks through a hierarchy that every mapper shares.

use super::{
    create_next_table, entry_mut_outcome, entry_outcome, index_at, leaf_entry,
    lemma_entry_addr, level_4_is_block, map_outcome, mapped, next_table, spec_create_journal,
    spec_get_entry, spec_locate, spec_locate_from, spec_map, spec_map_from, spec_map_journal,
    spec_map_journal_from, spec_set_entry, spec_then_asked, spec_touch, spec_translate,
    spec_translate_page, spec_unmap, spec_unmap_journal, unmap_outcome, upcoming_frames,
    EntryGetError, MapToError, MapperFlush, PageTableWalkError, TableLocator, TranslateError,
    TranslateResult, UnmapError,
};
use super::mapped_page_table::spec_walkable;
use crate::addr::{lemma_align_down, VirtAddr};
use crate::paging::frame::Frame;
use crate::paging::frame_alloc::FrameAllocator;
use crate::paging::memory::{MemoryOperation, TableMemory};
use crate::paging::page::Page;
use crate::paging::table::{PageTableAttribute, PageTableEntry, PageTableFlags};
use crate::paging::{lemma_size_is_power_of_two, PageSize, Size1GiB, Size2MiB, Size4KiB};
use vstd::prelude::*;

verus! {

/// Maps `page` by the entry `leaf` in the table of level `terminal` (3, 2 or 1), and makes
/// the tables above it that are missing.
///
/// The walk goes down from the level 4 table. Where the entry on the way is unused, the
/// allocator is asked for a frame, the entry is pointed to it and the new table is cleared;
/// where the entry is in use, the allocator is not asked.
///
/// Fails with `PageAlreadyMapped` if the entry of the page is in use, with
/// `ParentEntryHugePage` if an entry on the way is a block, and with `FrameAllocationFailed`
/// if a table is missing and the allocator has no frame for it. Tables that were made before
/// a failure stay.
pub fn map_page<L: TableLocator, A: FrameAllocator<Size4KiB>, S: PageSize>(
    locator: &L,
    memory: &mut TableMemory,
    page: Page<S>,
    leaf: PageTableEntry,
    terminal: u8,
    allocator: &mut A,
) -> (r: Result<MapperFlush<S>, MapToError>)
    requires
        locator.reaches(page.start()),
        1 <= terminal <= 3,
    ensures
        r matches Ok(flush) ==> flush.spec_page() == page,
        mapped(
            spec_map(
                *locator,
                old(memory)@,
                page.start(),
                terminal as nat,
                upcoming_frames(*old(allocator), 3),
                leaf,
            ),
            map_outcome(r),
            final(memory)@,
            *old(allocator),
            *final(allocator),
        ),
        final(memory).journal() == old(memory).journal() + spec_map_journal(
            *locator,
            old(memory)@,
            page.start(),
            terminal as nat,
            upcoming_frames(*old(allocator), 3),
            leaf,
        ),
{
    let addr = page.start_address();
    let ghost answers = upcoming_frames(*allocator, 3);
    let ghost before = memory@;
    let ghost first = *allocator;
    let ghost mut asked: nat = 0;
    let mut table = locator.root(addr);
    let mut level: u8 = 4;
    while level > terminal
        invariant
            locator.reaches(addr),
            1 <= terminal <= level <= 4,
            asked <= 4 - level,
            addr == page.start(),
            before == old(memory)@,
            first == *old(allocator),
            answers == upcoming_frames(first, 3),
            spec_map(*locator, before, addr, terminal as nat, answers, leaf) == spec_map_from(
                *locator,
                memory@,
                addr,
                table,
                level as nat,
                terminal as nat,
                answers,
                asked,
                leaf,
            ),
            forall|calls: nat| #[trigger]
                allocator.spec_answer(calls) == first.spec_answer(calls + asked),
            asked == 0 ==> *allocator == first,
            old(memory).journal() + spec_map_journal(
                *locator,
                before,
                addr,
                terminal as nat,
                answers,
                leaf,
            ) == memory.journal() + spec_map_journal_from(
                *locator,
                memory@,
                addr,
                table,
                level as nat,
                terminal as nat,
                answers,
                asked,
                leaf,
            ),
        decreases level,
    {
        let ghost then_asked = spec_then_asked(memory@, addr, table, level as nat, asked);
        let ghost here = memory@;
        let ghost above = table;
        let ghost recorded = spec_create_journal(
            *locator,
            here,
            addr,
            table,
            level as nat,
            answers[asked as int],
        );
        let ghost written = memory.journal();
        proof {
            assert(answers[asked as int] == allocator.spec_answer(0));
        }
        match create_next_table(locator, memory, addr, table, level, allocator) {
            Ok(next) => {
                table = next;
            },
            Err(err) => {
                proof {
                    assert(spec_map_from(
                        *locator,
                        here,
                        addr,
                        above,
                        level as nat,
                        terminal as nat,
                        answers,
                        asked,
                        leaf,
                    ) == (Err::<(), MapToError>(err.spec_map_error()), memory@, then_asked));
                    assert(then_asked == 0 ==> *allocator == first);
                    assert(memory.journal() == written + recorded);
                    assert forall|calls: nat| #[trigger]
                        allocator.spec_answer(calls) == first.spec_answer(
                            calls + then_asked,
                        ) by {
                        if then_asked != asked {
                            assert(first.spec_answer(calls + 1 + asked) == first.spec_answer(
                                calls + then_asked,
                            ));
                        }
                    }
                }
                return Err(err.map_error());
            },
        }
        proof {
            assert forall|calls: nat| #[trigger]
                allocator.spec_answer(calls) == first.spec_answer(calls + then_asked) by {
                if then_asked != asked {
                    assert(first.spec_answer(calls + 1 + asked) == first.spec_answer(
                        calls + then_asked,
                    ));
                }
            }
            asked = then_asked;
            let rest = spec_map_journal_from(
                *locator,
                memory@,
                addr,
                table,
                (level - 1) as nat,
                terminal as nat,
                answers,
                asked,
                leaf,
            );
            assert(written + (recorded + rest) =~= (written + recorded) + rest);
        }
        level -= 1;
    }
    let index = index_at(addr, terminal);
    let ghost written = memory.journal();
    if !memory.entry(table, index).is_unused() {
        assert(written + Seq::<MemoryOperation>::empty() =~= written);
        return Err(MapToError::PageAlreadyMapped);
    }
    memory.set_entry(table, index, leaf);
    assert(memory.journal() =~= written + seq![
        MemoryOperation::Write { table, index: index.value(), entry: leaf },
    ]);
    Ok(MapperFlush::new(page))
}

/// Maps the 1 GiB page `page` to `frame` by an entry in the table of level 3; see
/// [`map_page`].
pub fn map_to_1gib<L: TableLocator, A: FrameAllocator<Size4KiB>>(
    locator: &L,
    memory: &mut TableMemory,
    page: Page<Size1GiB>,
    frame: Frame<Size1GiB>,
    flags: PageTableFlags,
    attr: PageTableAttribute,
    allocator: &mut A,
) -> (r: Result<MapperFlush<Size1GiB>, MapToError>)
    requires
        locator.reaches(page.start()),
    ensures
        r matches Ok(flush) ==> flush.spec_page() == page,
        mapped(
            spec_map(
                *locator,
                old(memory)@,
                page.start(),
                3,
                upcoming_frames(*old(allocator), 3),
                leaf_entry(frame, flags, attr),
            ),
            map_outcome(r),
            final(memory)@,
            *old(allocator),
            *final(allocator),
        ),
        final(memory).journal() == old(memory).journal() + spec_map_journal(
            *locator,
            old(memory)@,
            page.start(),
            3,
            upcoming_frames(*old(allocator), 3),
            leaf_entry(frame, flags, attr),
        ),
{
    let mut entry = PageTableEntry::new();
    proof {
        lemma_size_is_power_of_two::<Size1GiB>();
        lemma_align_down(frame.start().value(), Size1GiB::SIZE);
    }
    entry.set_block::<Size1GiB>(frame.start_address(), flags, attr);
    map_page(locator, memory, page, entry, 3, allocator)
}

/// Maps the 2 MiB page `page` to `frame` by an entry in the table of level 2; see
/// [`map_page`].
pub fn map_to_2mib<L: TableLocator, A: FrameAllocator<Size4KiB>>(
    locator: &L,
    memory: &mut TableMemory,
    page: Page<Size2MiB>,
    frame: Frame<Size2MiB>,
    flags: PageTableFlags,
    attr: PageTableAttribute,
    allocator: &mut A,
) -> (r: Result<MapperFlush<Size2MiB>, MapToError>)
    requires
        locator.reaches(page.start()),
    ensures
        r matches Ok(flush) ==> flush.spec_page() == page,
        mapped(
            spec_map(
                *locator,
                old(memory)@,
                page.start(),
                2,
                upcoming_frames(*old(allocator), 3),
                leaf_entry(frame, flags, attr),
            ),
            map_outcome(r),
            final(memory)@,
            *old(allocator),
            *final(allocator),
        ),
        final(memory).journal() == old(memory).journal() + spec_map_journal(
            *locator,
            old(memory)@,
            page.start(),
            2,
            upcoming_frames(*old(allocator), 3),
            leaf_entry(frame, flags, attr),
        ),
{
    let mut entry = PageTableEntry::new();
    proof {
        lemma_size_is_power_of_two::<Size2MiB>();
        lemma_align_down(frame.start().value(), Size2MiB::SIZE);
    }
    entry.set_block::<Size2MiB>(frame.start_address(), flags, attr);
    map_page(locator, memory, page, entry, 2, allocator)
}

/// Maps the 4 KiB page `page` to `frame` by an entry in the table of level 1; see
/// [`map_page`].
pub fn map_to_4kib<L: TableLocator, A: FrameAllocator<Size4KiB>>(
    locator: &L,
    memory: &mut TableMemory,
    page: Page<Size4KiB>,
    frame: Frame<Size4KiB>,
    flags: PageTableFlags,
    attr: PageTableAttribute,
    allocator: &mut A,
) -> (r: Result<MapperFlush<Size4KiB>, MapToError>)
    requires
        locator.reaches(page.start()),
    ensures
        r matches Ok(flush) ==> flush.spec_page() == page,
        mapped(
            spec_map(
                *locator,
                old(memory)@,
                page.start(),
                1,
                upcoming_frames(*old(allocator), 3),
                leaf_entry(frame, flags, attr),
            ),
            map_outcome(r),
            final(memory)@,
            *old(allocator),
            *final(allocator),
        ),
        final(memory).journal() == old(memory).journal() + spec_map_journal(
            *locator,
            old(memory)@,
            page.start(),
            1,
            upcoming_frames(*old(allocator), 3),
            leaf_entry(frame, flags, attr),
        ),
{
    let mut entry = PageTableEntry::new();
    entry.set_frame(frame, flags, attr);
    map_page(locator, memory, page, entry, 1, allocator)
}

/// Whether every entry that mapping a page at `addr` by an entry of level `terminal` (3, 2 or
/// 1) follows is unused or valid.
pub fn is_walkable<L: TableLocator>(
    locator: &L,
    memory: &TableMemory,
    addr: VirtAddr,
    terminal: u8,
) -> (r: bool)
    requires
        locator.reaches(addr),
        1 <= terminal <= 3,
    ensures
        r == spec_walkable(
            *locator,
            memory@,
            addr,
            locator.spec_root(addr),
            4,
            terminal as nat,
        ),
{
    let mut table = locator.root(addr);
    let mut level: u8 = 4;
    while level > terminal
        invariant
            locator.reaches(addr),
            1 <= terminal <= level <= 4,
            spec_walkable(*locator, memory@, addr, locator.spec_root(addr), 4, terminal as nat)
                == spec_walkable(*locator, memory@, addr, table, level as nat, terminal as nat),
        decreases level,
    {
        let entry = *memory.entry(table, index_at(addr, level));
        if entry.is_unused() {
            return true;
        }
        proof {
            entry.lemma_flag_bits();
            lemma_entry_addr(entry);
        }
        if !entry.flags().contains(PageTableFlags::valid()) {
            return false;
        }
        if entry.is_block() {
            return true;
        }
        table = locator.next(addr, level - 1, Frame::containing_address(entry.addr()));
        level -= 1;
    }
    true
}

/// The table of level `terminal` (3, 2 or 1) on the way to `addr`.
///
/// Fails with `NotMapped` if an entry above it is not valid, and with `MappedToHugePage` if
/// one is a block.
pub fn locate<L: TableLocator>(
    locator: &L,
    memory: &TableMemory,
    addr: VirtAddr,
    terminal: u8,
) -> (r: Result<VirtAddr, PageTableWalkError>)
    requires
        locator.reaches(addr),
        1 <= terminal <= 3,
    ensures
        r == spec_locate(*locator, memory@, addr, terminal as nat),
{
    let mut table = locator.root(addr);
    let mut level: u8 = 4;
    while level > terminal
        invariant
            locator.reaches(addr),
            1 <= terminal <= level <= 4,
            spec_locate(*locator, memory@, addr, terminal as nat) == spec_locate_from(
                *locator,
                memory@,
                addr,
                table,
                level as nat,
                terminal as nat,
            ),
        decreases level,
    {
        match next_table(locator, memory, addr, table, level) {
            Ok(next) => {
                table = next;
            },
            Err(err) => {
                return Err(err);
            },
        }
        level -= 1;
    }
    Ok(table)
}

/// The entry of `page` in the table of level `terminal` (3, 2 or 1).
///
/// Fails with `PageNotMapped` if an entry above it is not valid or the entry itself is
/// unused, and with `ParentEntryHugePage` if an entry above it is a block.
pub fn get_entry<'a, L: TableLocator, S: PageSize>(
    locator: &L,
    memory: &'a TableMemory,
    page: Page<S>,
    terminal: u8,
) -> (r: Result<&'a PageTableEntry, EntryGetError>)
    requires
        locator.reaches(page.start()),
        1 <= terminal <= 3,
    ensures
        entry_outcome(r) == spec_get_entry(*locator, memory@, page.start(), terminal as nat),
{
    let addr = page.start_address();
    match locate(locator, memory, addr, terminal) {
        Ok(table) => {
            let entry = memory.entry(table, index_at(addr, terminal));
            if entry.is_unused() {
                Err(EntryGetError::PageNotMapped)
            } else {
                Ok(entry)
            }
        },
        Err(err) => Err(err.entry_error()),
    }
}

/// The frame that `page` is mapped to, whose entry stands in the table of level `terminal`
/// (3, 2 or 1).
///
/// Fails as `get_entry` does, and with `InvalidFrameAddress` if the address in the entry is
/// no start of a frame of size `S`.
pub fn translate_page<L: TableLocator, S: PageSize>(
    locator: &L,
    memory: &TableMemory,
    page: Page<S>,
    terminal: u8,
) -> (r: Result<Frame<S>, TranslateError>)
    requires
        locator.reaches(page.start()),
        1 <= terminal <= 3,
    ensures
        r == spec_translate_page::<L, S>(*locator, memory@, page.start(), terminal as nat),
{
    let entry = match get_entry(locator, memory, page, terminal) {
        Ok(entry) => entry,
        Err(err) => {
            return Err(err.translate_error());
        },
    };
    match Frame::<S>::from_start_address(entry.addr()) {
        Some(frame) => {
            proof {
                lemma_size_is_power_of_two::<S>();
                lemma_align_down(entry.spec_addr().value(), S::SIZE);
                Frame::<S>::lemma_containing_start(entry.spec_addr());
                Frame::<S>::lemma_start_determines(
                    frame,
                    Frame::spec_containing(entry.spec_addr()),
                );
            }
            Ok(frame)
        },
        None => Err(TranslateError::InvalidFrameAddress(entry.addr())),
    }
}

/// The entry of `page` in the table of level `terminal` (3, 2 or 1), to be changed in place.
///
/// Fails as `get_entry` does, and then leaves the tables as they are.
pub fn get_entry_mut<'a, L: TableLocator, S: PageSize>(
    locator: &L,
    memory: &'a mut TableMemory,
    page: Page<S>,
    terminal: u8,
) -> (r: Result<&'a mut PageTableEntry, EntryGetError>)
    requires
        locator.reaches(page.start()),
        1 <= terminal <= 3,
    ensures
        entry_mut_outcome(r) == spec_get_entry(
            *locator,
            old(memory)@,
            page.start(),
            terminal as nat,
        ),
        r.is_err() ==> final(memory)@ == old(memory)@ && final(memory).journal() == old(
            memory,
        ).journal(),
        r.is_ok() ==> final(memory).journal() == old(memory).journal().push(
            spec_touch(*locator, old(memory)@, page.start(), terminal as nat),
        ),
        r matches Ok(entry) ==> final(memory)@ == spec_set_entry(
            *locator,
            old(memory)@,
            page.start(),
            terminal as nat,
            *final(entry),
        ),
{
    let addr = page.start_address();
    match locate(locator, memory, addr, terminal) {
        Ok(table) => {
            let index = index_at(addr, terminal);
            if memory.entry(table, index).is_unused() {
                Err(EntryGetError::PageNotMapped)
            } else {
                Ok(memory.table_mut(table).index_mut(index))
            }
        },
        Err(err) => Err(err.entry_error()),
    }
}

/// Unmaps `page`, whose entry stands in the table of level `terminal` (3, 2 or 1), and
/// returns the frame that it was mapped to.
///
/// Fails with `PageNotMapped` if an entry on the way, the last one included, is not valid;
/// with `ParentEntryHugePage` if an entry above the last one is a block, or if the last one is
/// a block at level 1 or no block at level 2 or 3; and with `InvalidFrameAddress` if the
/// address in the entry is no start of a frame of size `S`. The tables change only on success.
pub fn unmap<L: TableLocator, S: PageSize>(
    locator: &L,
    memory: &mut TableMemory,
    page: Page<S>,
    terminal: u8,
) -> (r: Result<(Frame<S>, MapperFlush<S>), UnmapError>)
    requires
        locator.reaches(page.start()),
        1 <= terminal <= 3,
    ensures
        r matches Ok((_, flush)) ==> flush.spec_page() == page,
        (unmap_outcome(r), final(memory)@) == spec_unmap::<L, S>(
            *locator,
            old(memory)@,
            page.start(),
            terminal as nat,
        ),
        final(memory).journal() == old(memory).journal() + spec_unmap_journal::<L, S>(
            *locator,
            old(memory)@,
            page.start(),
            terminal as nat,
        ),
{
    assert(memory.journal() + Seq::<MemoryOperation>::empty() =~= memory.journal());
    let addr = page.start_address();
    let table = match locate(locator, memory, addr, terminal) {
        Ok(table) => table,
        Err(err) => {
            return Err(err.entry_error().unmap_error());
        },
    };
    let index = index_at(addr, terminal);
    let entry = *memory.entry(table, index);
    proof {
        entry.lemma_flag_bits();
    }
    if !entry.flags().contains(PageTableFlags::valid()) {
        return Err(UnmapError::PageNotMapped);
    } else if entry.is_block() == (terminal == 1) {
        return Err(UnmapError::ParentEntryHugePage);
    }
    let frame = match Frame::<S>::from_start_address(entry.addr()) {
        Some(frame) => frame,
        None => {
            return Err(UnmapError::InvalidFrameAddress(entry.addr()));
        },
    };
    proof {
        lemma_size_is_power_of_two::<S>();
        lemma_align_down(entry.spec_addr().value(), S::SIZE);
        Frame::<S>::lemma_containing_start(entry.spec_addr());
        Frame::<S>::lemma_start_determines(frame, Frame::spec_containing(entry.spec_addr()));
    }
    memory.set_entry(table, index, PageTableEntry::new());
    assert(memory.journal() =~= old(memory).journal() + seq![
        MemoryOperation::Write { table, index: index.value(), entry: PageTableEntry { entry: 0 } },
    ]);
    Ok((frame, MapperFlush::new(page)))
}

/// Translates `addr`: the frame that it lies in, whatever its size, and its offset there.
///
/// The level 4 entry on the way must not be a block.
pub fn translate<L: TableLocator>(locator: &L, memory: &TableMemory, addr: VirtAddr) -> (r:
    TranslateResult)
    requires
        locator.reaches(addr),
        !level_4_is_block(*locator, memory@, addr),
    ensures
        r == spec_translate(*locator, memory@, addr),
{
    let p4 = locator.root(addr);
    let p3 = match next_table(locator, memory, addr, p4, 4) {
        Ok(table) => table,
        Err(PageTableWalkError::NotMapped) => {
            return TranslateResult::PageNotMapped;
        },
        Err(PageTableWalkError::MappedToHugePage) => {
            assert(false);
            return TranslateResult::PageNotMapped;
        },
    };
    let p2 = match next_table(locator, memory, addr, p3, 3) {
        Ok(table) => table,
        Err(PageTableWalkError::NotMapped) => {
            return TranslateResult::PageNotMapped;
        },
        Err(PageTableWalkError::MappedToHugePage) => {
            let frame = Frame::containing_address(memory.entry(p3, addr.p3_index()).addr());
            let offset = addr.as_u64() & 0o7_777_777_777;
            return TranslateResult::Frame1GiB { frame, offset };
        },
    };
    let p1 = match next_table(locator, memory, addr, p2, 2) {
        Ok(table) => table,
        Err(PageTableWalkError::NotMapped) => {
            return TranslateResult::PageNotMapped;
        },
        Err(PageTableWalkError::MappedToHugePage) => {
            let frame = Frame::containing_address(memory.entry(p2, addr.p2_index()).addr());
            let offset = addr.as_u64() & 0o7_777_777;
            return TranslateResult::Frame2MiB { frame, offset };
        },
    };
    let p1_entry = memory.entry(p1, addr.p1_index());
    if p1_entry.is_unused() {
        return TranslateResult::PageNotMapped;
    }
    proof {
        lemma_entry_addr(*p1_entry);
    }
    let frame = match Frame::from_start_address(p1_entry.addr()) {
        Some(frame) => frame,
        None => {
            return TranslateResult::InvalidFrameAddress(p1_entry.addr());
        },
    };
    proof {
        Frame::<Size4KiB>::lemma_start_determines(
            frame,
            Frame::spec_containing(p1_entry.spec_addr()),
        );
    }
    let offset = addr.page_offset().as_u64();
    TranslateResult::Frame4KiB { frame, offset }
}

} // verus!

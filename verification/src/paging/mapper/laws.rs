//! What holds of the walks, whatever the way of reaching the tables.

use super::{
    leaf_entry, lemma_entry_addr, lemma_table_entry, spec_create_next_table, spec_get_entry,
    spec_locate, spec_locate_from, spec_map, spec_map_from, spec_next_table, spec_then_asked,
    spec_translate, spec_translate_page, spec_unmap, table_entry, EntryGetError, MapToError,
    PageTableWalkError, TableLocator, Tables, TranslateError, TranslateResult, UnmapError,
};
use super::mapped_page_table::spec_walkable;
use crate::addr::{lemma_align_down, VirtAddr};
use crate::paging::frame::Frame;
use crate::paging::page::Page;
use crate::paging::table::{
    empty_entries, FrameError, PageTableAttribute, PageTableEntry, PageTableFlags, ADDR_MASK,
};
use crate::paging::{lemma_size_is_power_of_two, PageSize, Size1GiB, Size2MiB, Size4KiB};
use vstd::prelude::*;

verus! {

/// Every table has 512 entries.
pub open spec fn tables_wf(tables: Tables) -> bool {
    forall|table: u64| (#[trigger] tables[table]).len() == 512
}

/// An index into a table is below 512.
pub proof fn lemma_index_bound(addr: VirtAddr, level: nat)
    ensures
        0 <= addr.spec_index(level) < 512,
{
    let a: u64 = addr.value();
    assert((a >> 12) & 0x1ff < 512 && (a >> 21) & 0x1ff < 512 && (a >> 30) & 0x1ff < 512 && (a
        >> 39) & 0x1ff < 512) by (bit_vector);
}

/// A valid entry is in use.
pub proof fn lemma_valid_is_used(entry: PageTableEntry)
    requires
        entry.is_valid(),
    ensures
        !entry.spec_is_unused(),
{
    let bits: u64 = entry.entry;
    assert(bits & 1 == 1 ==> bits != 0) by (bit_vector);
}

/// Whether mapping the page at `addr`, seen from `table`, a table of the given level on the
/// way, writes to the entry at `index` of the table at `slot`: by pointing it to a new table,
/// by clearing the table as a new one, or by mapping the page there.
pub open spec fn spec_map_touches<L: TableLocator>(
    locator: L,
    tables: Tables,
    addr: VirtAddr,
    table: VirtAddr,
    level: nat,
    terminal: nat,
    answers: Seq<Option<Frame<Size4KiB>>>,
    asked: nat,
    slot: VirtAddr,
    index: int,
) -> bool
    decreases level,
{
    let here = addr.spec_index(level) as int;
    if level <= terminal || level <= 1 {
        table == slot && here == index
    } else {
        let step = spec_create_next_table(locator, tables, addr, table, level, answers[asked as int]);
        match step.0 {
            Err(_) => false,
            Ok(next) => (tables[table.value()][here].spec_is_unused() && ((table == slot && here
                == index) || next == slot)) || spec_map_touches(
                locator,
                step.1,
                addr,
                next,
                (level - 1) as nat,
                terminal,
                answers,
                spec_then_asked(tables, addr, table, level, asked),
                slot,
                index,
            ),
        }
    }
}

/// Whether mapping the page at `addr`, seen from `table`, a table of the given level on the
/// way, leaves every entry that it has followed or written on the way as it was when it went
/// on from it: no new table stands where a table above it on the way stands, and no later
/// write hits an entry of the way.
///
/// This holds when the allocator hands out frames that are in use nowhere in the hierarchy.
pub open spec fn spec_map_keeps_way<L: TableLocator>(
    locator: L,
    tables: Tables,
    addr: VirtAddr,
    table: VirtAddr,
    level: nat,
    terminal: nat,
    answers: Seq<Option<Frame<Size4KiB>>>,
    asked: nat,
) -> bool
    decreases level,
{
    let here = addr.spec_index(level) as int;
    if level <= terminal || level <= 1 {
        true
    } else {
        let step = spec_create_next_table(locator, tables, addr, table, level, answers[asked as int]);
        match step.0 {
            Err(_) => true,
            Ok(next) => {
                &&& tables[table.value()][here].spec_is_unused() ==> next != table
                &&& !spec_map_touches(
                    locator,
                    step.1,
                    addr,
                    next,
                    (level - 1) as nat,
                    terminal,
                    answers,
                    spec_then_asked(tables, addr, table, level, asked),
                    table,
                    here,
                )
                &&& spec_map_keeps_way(
                    locator,
                    step.1,
                    addr,
                    next,
                    (level - 1) as nat,
                    terminal,
                    answers,
                    spec_then_asked(tables, addr, table, level, asked),
                )
            },
        }
    }
}

/// One step of mapping keeps every table at 512 entries, and changes nothing when the entry
/// is in use.
pub proof fn lemma_create_next_table<L: TableLocator>(
    locator: L,
    tables: Tables,
    addr: VirtAddr,
    table: VirtAddr,
    level: nat,
    allocated: Option<Frame<Size4KiB>>,
)
    requires
        tables_wf(tables),
    ensures
        tables_wf(spec_create_next_table(locator, tables, addr, table, level, allocated).1),
        !tables[table.value()][addr.spec_index(level) as int].spec_is_unused()
            ==> spec_create_next_table(locator, tables, addr, table, level, allocated).1 == tables,
        spec_create_next_table(locator, tables, addr, table, level, allocated).0.is_err()
            ==> spec_create_next_table(locator, tables, addr, table, level, allocated).1 == tables,
{
    let after = spec_create_next_table(locator, tables, addr, table, level, allocated).1;
    let index = addr.spec_index(level) as int;
    lemma_index_bound(addr, level);
    assert(empty_entries().len() == 512);
    assert forall|other: u64| (#[trigger] after[other]).len() == 512 by {
        assert(tables[other].len() == 512);
        assert(tables[table.value()].len() == 512);
        if tables[table.value()][index].spec_is_unused() && allocated.is_some() {
            let frame = allocated.unwrap();
            let written = tables[table.value()].update(index, table_entry(frame));
            let linked = tables.insert(table.value(), written);
            let next = spec_next_table(locator, addr, (level - 1) as nat, table_entry(frame));
            assert(written.len() == 512);
            assert(after == linked.insert(next.value(), empty_entries()));
            if other == next.value() {
            } else if other == table.value() {
            } else {
            }
        }
    }
}

/// Mapping keeps every table at 512 entries, and an entry that it does not touch stays as it
/// is.
pub proof fn lemma_map_frame<L: TableLocator>(
    locator: L,
    tables: Tables,
    addr: VirtAddr,
    table: VirtAddr,
    level: nat,
    terminal: nat,
    answers: Seq<Option<Frame<Size4KiB>>>,
    asked: nat,
    leaf: PageTableEntry,
    slot: VirtAddr,
    index: int,
)
    requires
        tables_wf(tables),
        0 <= index < 512,
    ensures
        tables_wf(spec_map_from(locator, tables, addr, table, level, terminal, answers, asked, leaf).1),
        !spec_map_touches(locator, tables, addr, table, level, terminal, answers, asked, slot, index)
            ==> spec_map_from(
            locator,
            tables,
            addr,
            table,
            level,
            terminal,
            answers,
            asked,
            leaf,
        ).1[slot.value()][index] == tables[slot.value()][index],
    decreases level,
{
    let here = addr.spec_index(level) as int;
    lemma_index_bound(addr, level);
    let after = spec_map_from(locator, tables, addr, table, level, terminal, answers, asked, leaf).1;
    if level <= terminal || level <= 1 {
        assert forall|other: u64| (#[trigger] after[other]).len() == 512 by {
            assert(tables[other].len() == 512);
            assert(tables[table.value()].len() == 512);
        }
        assert(tables[table.value()].len() == 512);
    } else {
        let step = spec_create_next_table(locator, tables, addr, table, level, answers[asked as int]);
        lemma_create_next_table(locator, tables, addr, table, level, answers[asked as int]);
        assert(tables[table.value()].len() == 512);
        match step.0 {
            Err(_) => {},
            Ok(next) => {
                lemma_map_frame(
                    locator,
                    step.1,
                    addr,
                    next,
                    (level - 1) as nat,
                    terminal,
                    answers,
                    spec_then_asked(tables, addr, table, level, asked),
                    leaf,
                    slot,
                    index,
                );
            },
        }
    }
}

/// After a page has been mapped, the walk to it arrives at the entry that maps it.
///
/// This holds where every entry that was in use on the way is valid, and mapping keeps the
/// way as `spec_map_keeps_way` says.
pub proof fn lemma_map_then_locate<L: TableLocator>(
    locator: L,
    tables: Tables,
    addr: VirtAddr,
    table: VirtAddr,
    level: nat,
    terminal: nat,
    answers: Seq<Option<Frame<Size4KiB>>>,
    asked: nat,
    leaf: PageTableEntry,
)
    requires
        tables_wf(tables),
        1 <= terminal <= level <= 4,
        spec_map_from(locator, tables, addr, table, level, terminal, answers, asked, leaf).0.is_ok(),
        spec_walkable(locator, tables, addr, table, level, terminal),
        spec_map_keeps_way(locator, tables, addr, table, level, terminal, answers, asked),
    ensures
        ({
            let after = spec_map_from(
                locator,
                tables,
                addr,
                table,
                level,
                terminal,
                answers,
                asked,
                leaf,
            ).1;
            &&& spec_locate_from(locator, after, addr, table, level, terminal) matches Ok(found)
            &&& after[found.value()][addr.spec_index(terminal) as int] == leaf
        }),
    decreases level,
{
    let here = addr.spec_index(level) as int;
    lemma_index_bound(addr, level);
    lemma_index_bound(addr, (level - 1) as nat);
    let after = spec_map_from(locator, tables, addr, table, level, terminal, answers, asked, leaf).1;
    assert(tables[table.value()].len() == 512);
    if level <= terminal {
    } else {
        let entry = tables[table.value()][here];
        let step = spec_create_next_table(locator, tables, addr, table, level, answers[asked as int]);
        lemma_create_next_table(locator, tables, addr, table, level, answers[asked as int]);
        let next = step.0.unwrap();
        let kept = step.1[table.value()][here];
        if entry.spec_is_unused() {
            lemma_table_entry(answers[asked as int].unwrap());
            assert(kept == table_entry(answers[asked as int].unwrap()));
            assert(step.1[next.value()] == empty_entries());
            assert(step.1[next.value()][addr.spec_index((level - 1) as nat) as int].spec_is_unused());
        } else {
            assert(kept == entry);
        }
        assert(kept.spec_frame().is_ok());
        assert(spec_walkable(locator, step.1, addr, next, (level - 1) as nat, terminal));
        lemma_map_then_locate(
            locator,
            step.1,
            addr,
            next,
            (level - 1) as nat,
            terminal,
            answers,
            spec_then_asked(tables, addr, table, level, asked),
            leaf,
        );
        lemma_map_frame(
            locator,
            step.1,
            addr,
            next,
            (level - 1) as nat,
            terminal,
            answers,
            spec_then_asked(tables, addr, table, level, asked),
            leaf,
            table,
            here,
        );
        assert(after[table.value()][here] == kept);
    }
}

/// Mapping a page that is mapped already fails with `PageAlreadyMapped`, changes no table
/// and does not ask the allocator, whatever the allocator would answer.
pub proof fn lemma_map_mapped_page<L: TableLocator>(
    locator: L,
    tables: Tables,
    addr: VirtAddr,
    table: VirtAddr,
    level: nat,
    terminal: nat,
    answers: Seq<Option<Frame<Size4KiB>>>,
    asked: nat,
    leaf: PageTableEntry,
)
    requires
        1 <= terminal <= level <= 4,
        spec_locate_from(locator, tables, addr, table, level, terminal) matches Ok(found)
            && !tables[found.value()][addr.spec_index(terminal) as int].spec_is_unused(),
    ensures
        spec_map_from(locator, tables, addr, table, level, terminal, answers, asked, leaf) == (
            Err::<(), MapToError>(MapToError::PageAlreadyMapped),
            tables,
            asked,
        ),
    decreases level,
{
    if level > terminal {
        let entry = tables[table.value()][addr.spec_index(level) as int];
        lemma_valid_is_used(entry);
        let next = spec_next_table(locator, addr, (level - 1) as nat, entry);
        lemma_map_mapped_page(
            locator,
            tables,
            addr,
            next,
            (level - 1) as nat,
            terminal,
            answers,
            spec_then_asked(tables, addr, table, level, asked),
            leaf,
        );
    }
}

/// Unmapping changes the tables only when it succeeds, and a page whose way or whose entry is
/// not valid is reported as not mapped.
pub proof fn lemma_unmap_unmapped_page<L: TableLocator, S: PageSize>(
    locator: L,
    tables: Tables,
    addr: VirtAddr,
    terminal: nat,
)
    ensures
        spec_unmap::<L, S>(locator, tables, addr, terminal).0.is_err() ==> spec_unmap::<L, S>(
            locator,
            tables,
            addr,
            terminal,
        ).1 == tables,
        spec_get_entry(locator, tables, addr, terminal) == Err::<PageTableEntry, EntryGetError>(
            EntryGetError::PageNotMapped,
        ) ==> spec_unmap::<L, S>(locator, tables, addr, terminal) == (
            Err::<Frame<S>, UnmapError>(UnmapError::PageNotMapped),
            tables,
        ),
        (spec_get_entry(locator, tables, addr, terminal) matches Ok(entry) && !entry.is_valid())
            ==> spec_unmap::<L, S>(locator, tables, addr, terminal) == (
            Err::<Frame<S>, UnmapError>(UnmapError::PageNotMapped),
            tables,
        ),
{
    if let Ok(table) = spec_locate(locator, tables, addr, terminal) {
        let entry = tables[table.value()][addr.spec_index(terminal) as int];
        if entry.is_valid() {
            lemma_valid_is_used(entry);
        }
    }
}

/// After the entry of level `terminal` on the way to `addr` has been set to unused, the walk
/// to it ends where it ended before, or earlier at an entry that is not valid.
pub proof fn lemma_locate_after_clear<L: TableLocator>(
    locator: L,
    tables: Tables,
    addr: VirtAddr,
    table: VirtAddr,
    level: nat,
    terminal: nat,
    slot: VirtAddr,
)
    requires
        tables_wf(tables),
        1 <= terminal <= level <= 4,
        spec_locate_from(locator, tables, addr, table, level, terminal) == Ok::<
            VirtAddr,
            PageTableWalkError,
        >(slot),
    ensures
        match spec_locate_from(
            locator,
            tables.insert(
                slot.value(),
                tables[slot.value()].update(
                    addr.spec_index(terminal) as int,
                    PageTableEntry { entry: 0 },
                ),
            ),
            addr,
            table,
            level,
            terminal,
        ) {
            Ok(found) => found == slot,
            Err(err) => err == PageTableWalkError::NotMapped,
        },
    decreases level,
{
    let unused = PageTableEntry { entry: 0 };
    if unused.is_valid() {
        lemma_valid_is_used(unused);
    }
    lemma_index_bound(addr, level);
    lemma_index_bound(addr, terminal);
    assert(tables[slot.value()].len() == 512);
    assert(tables[table.value()].len() == 512);
    if level > terminal {
        let entry = tables[table.value()][addr.spec_index(level) as int];
        let frame = entry.spec_frame().unwrap();
        lemma_locate_after_clear(
            locator,
            tables,
            addr,
            locator.spec_next(addr, (level - 1) as nat, frame),
            (level - 1) as nat,
            terminal,
            slot,
        );
    }
}

/// After a page has been unmapped, looking up its entry or its frame fails with
/// `PageNotMapped`.
pub proof fn lemma_unmap_then_get_entry<L: TableLocator, S: PageSize>(
    locator: L,
    tables: Tables,
    addr: VirtAddr,
    terminal: nat,
)
    requires
        tables_wf(tables),
        1 <= terminal <= 3,
        spec_unmap::<L, S>(locator, tables, addr, terminal).0.is_ok(),
    ensures
        spec_get_entry(
            locator,
            spec_unmap::<L, S>(locator, tables, addr, terminal).1,
            addr,
            terminal,
        ) == Err::<PageTableEntry, EntryGetError>(EntryGetError::PageNotMapped),
        spec_translate_page::<L, S>(
            locator,
            spec_unmap::<L, S>(locator, tables, addr, terminal).1,
            addr,
            terminal,
        ) == Err::<Frame<S>, TranslateError>(TranslateError::PageNotMapped),
{
    let slot = spec_locate(locator, tables, addr, terminal).unwrap();
    lemma_locate_after_clear(locator, tables, addr, locator.spec_root(addr), 4, terminal, slot);
    lemma_index_bound(addr, terminal);
    assert(tables[slot.value()].len() == 512);
}

/// Whether two hierarchies hold the same entries in the tables that the walk to `addr`
/// passes: in the level 4 tables, and in the tables below each entry that points to one.
pub open spec fn same_way<L: TableLocator, M: TableLocator>(
    first: L,
    first_tables: Tables,
    second: M,
    second_tables: Tables,
    addr: VirtAddr,
) -> bool {
    let e4 = first_tables[first.spec_root(addr).value()][addr.spec_index(4) as int];
    &&& e4 == second_tables[second.spec_root(addr).value()][addr.spec_index(4) as int]
    &&& e4.spec_frame() matches Ok(f4) ==> {
        let e3 = first_tables[first.spec_next(addr, 3, f4).value()][addr.spec_index(3) as int];
        &&& e3 == second_tables[second.spec_next(addr, 3, f4).value()][addr.spec_index(3) as int]
        &&& e3.spec_frame() matches Ok(f3) ==> {
            let e2 = first_tables[first.spec_next(addr, 2, f3).value()][addr.spec_index(2) as int];
            &&& e2 == second_tables[second.spec_next(addr, 2, f3).value()][addr.spec_index(
                2,
            ) as int]
            &&& e2.spec_frame() matches Ok(f2) ==> first_tables[first.spec_next(
                addr,
                1,
                f2,
            ).value()][addr.spec_index(1) as int] == second_tables[second.spec_next(
                addr,
                1,
                f2,
            ).value()][addr.spec_index(1) as int]
        }
    }
}

/// Two hierarchies that hold the same entries on the way to an address translate it alike,
/// however each of them reaches its tables.
pub proof fn lemma_translate_alike<L: TableLocator, M: TableLocator>(
    first: L,
    first_tables: Tables,
    second: M,
    second_tables: Tables,
    addr: VirtAddr,
)
    requires
        same_way(first, first_tables, second, second_tables, addr),
    ensures
        spec_translate(first, first_tables, addr) == spec_translate(second, second_tables, addr),
{
}

/// Where a 2 MiB block is mapped, mapping a 4 KiB page inside it fails with
/// `ParentEntryHugePage`, changes no table and does not ask the allocator, whatever the
/// allocator would answer.
pub proof fn lemma_map_inside_block<L: TableLocator>(
    locator: L,
    tables: Tables,
    block: VirtAddr,
    addr: VirtAddr,
    answers: Seq<Option<Frame<Size4KiB>>>,
    leaf: PageTableEntry,
)
    requires
        block.value() >> 21 == addr.value() >> 21,
        spec_get_entry(locator, tables, block, 2) matches Ok(entry) && entry.is_valid()
            && entry.spec_is_block(),
    ensures
        spec_map(locator, tables, addr, 1, answers, leaf) == (
            Err::<(), MapToError>(MapToError::ParentEntryHugePage),
            tables,
            0nat,
        ),
{
    reveal_with_fuel(spec_map_from, 5);
    reveal_with_fuel(spec_locate_from, 5);
    let a: u64 = addr.value();
    let b: u64 = block.value();
    assert((a >> 39) & 0x1ff == (b >> 39) & 0x1ff && (a >> 30) & 0x1ff == (b >> 30) & 0x1ff && (a
        >> 21) & 0x1ff == (b >> 21) & 0x1ff && a >> 48 == b >> 48) by (bit_vector)
        requires
            b >> 21 == a >> 21,
    ;
    let root = locator.spec_root(block);
    let e4 = tables[root.value()][block.spec_index(4) as int];
    let f4 = e4.spec_frame().unwrap();
    let e3 = tables[locator.spec_next(block, 3, f4).value()][block.spec_index(3) as int];
    let f3 = e3.spec_frame().unwrap();
    locator.lemma_shared_way(block, addr, 3, f4);
    locator.lemma_shared_way(block, addr, 2, f3);
    lemma_valid_is_used(e4);
    lemma_valid_is_used(e3);
    lemma_valid_is_used(tables[locator.spec_next(block, 2, f3).value()][block.spec_index(2) as int]);
}

/// Where a 1 GiB block is mapped, mapping a 2 MiB or 4 KiB page inside it fails with
/// `ParentEntryHugePage`, changes no table and does not ask the allocator, whatever the
/// allocator would answer.
pub proof fn lemma_map_inside_giant_block<L: TableLocator>(
    locator: L,
    tables: Tables,
    block: VirtAddr,
    addr: VirtAddr,
    terminal: nat,
    answers: Seq<Option<Frame<Size4KiB>>>,
    leaf: PageTableEntry,
)
    requires
        1 <= terminal <= 2,
        block.value() >> 30 == addr.value() >> 30,
        spec_get_entry(locator, tables, block, 3) matches Ok(entry) && entry.is_valid()
            && entry.spec_is_block(),
    ensures
        spec_map(locator, tables, addr, terminal, answers, leaf) == (
            Err::<(), MapToError>(MapToError::ParentEntryHugePage),
            tables,
            0nat,
        ),
{
    reveal_with_fuel(spec_map_from, 5);
    reveal_with_fuel(spec_locate_from, 5);
    let a: u64 = addr.value();
    let b: u64 = block.value();
    assert((a >> 39) & 0x1ff == (b >> 39) & 0x1ff && (a >> 30) & 0x1ff == (b >> 30) & 0x1ff && a
        >> 48 == b >> 48) by (bit_vector)
        requires
            b >> 30 == a >> 30,
    ;
    let root = locator.spec_root(block);
    let e4 = tables[root.value()][block.spec_index(4) as int];
    let f4 = e4.spec_frame().unwrap();
    locator.lemma_shared_way(block, addr, 3, f4);
    lemma_valid_is_used(e4);
    lemma_valid_is_used(tables[locator.spec_next(block, 3, f4).value()][block.spec_index(3) as int]);
}

/// The entry that holds an address, flags and attributes gives the address back, and shows
/// the two lowest flags, if the address is the start of a 4 KiB frame of at most 48 bits and
/// the flags and attributes leave the address bits alone.
pub proof fn lemma_leaf_entry(start: u64, flags: PageTableFlags, attr: PageTableAttribute)
    requires
        start <= ADDR_MASK,
        start % 4096 == 0,
        (flags.bits | attr.value) & ADDR_MASK == 0,
    ensures
        PageTableEntry::spec_encode(crate::addr::PhysAddr(start), flags, attr).spec_addr().value()
            == start,
        flags.bits & 1 == 1 ==> PageTableEntry::spec_encode(
            crate::addr::PhysAddr(start),
            flags,
            attr,
        ).is_valid(),
        attr.value & 3 == 0 ==> PageTableEntry::spec_encode(
            crate::addr::PhysAddr(start),
            flags,
            attr,
        ).spec_is_block() == (flags.bits & 2 == 0),
        flags.bits & 2 == 2 ==> !PageTableEntry::spec_encode(
            crate::addr::PhysAddr(start),
            flags,
            attr,
        ).spec_is_block(),
{
    let f: u64 = flags.bits;
    let a: u64 = attr.value;
    assert((start | f | a) & 0x0000_ffff_ffff_f000u64 == start && (f & 1 == 1 ==> (start | f | a)
        & 1 == 1) && (a & 3 == 0 ==> ((start | f | a) & 2 == 0) == (f & 2 == 0)) && (f & 2 == 2 ==> (
    start | f | a) & 2 != 0)) by (bit_vector)
        requires
            start <= 0x0000_ffff_ffff_f000u64,
            start % 4096 == 0,
            (f | a) & 0x0000_ffff_ffff_f000u64 == 0,
    ;
}

/// After a 4KiB page has been mapped to a frame, its start address translates to that
/// frame with offset 0, and its entry holds the start of the frame.
///
/// This holds for a frame of at most 48 address bits, for flags and attributes that leave
/// the address bits alone and set the valid and the page flag, where every entry that was
/// in use on the way is valid, and where mapping keeps the way as `spec_map_keeps_way` says.
pub proof fn lemma_map_then_translate_4kib<L: TableLocator>(
    locator: L,
    tables: Tables,
    page: Page<Size4KiB>,
    frame: Frame<Size4KiB>,
    flags: PageTableFlags,
    attr: PageTableAttribute,
    answers: Seq<Option<Frame<Size4KiB>>>,
)
    requires
        tables_wf(tables),
        page.wf(),
        frame.wf(),
        frame.start().value() <= ADDR_MASK,
        flags.bits & 1 == 1,
        flags.bits & 2 == 2,
        (flags.bits | attr.value) & ADDR_MASK == 0,
        spec_map(
            locator,
            tables,
            page.start(),
            1,
            answers,
            leaf_entry(frame, flags, attr),
        ).0.is_ok(),
        spec_walkable(locator, tables, page.start(), locator.spec_root(page.start()), 4, 1),
        spec_map_keeps_way(
            locator,
            tables,
            page.start(),
            locator.spec_root(page.start()),
            4,
            1,
            answers,
            0,
        ),
    ensures
        ({
            let after = spec_map(
                locator,
                tables,
                page.start(),
                1,
                answers,
                leaf_entry(frame, flags, attr),
            ).1;
            &&& spec_translate(locator, after, page.start()) == (TranslateResult::Frame4KiB {
                frame,
                offset: 0,
            })
            &&& spec_get_entry(locator, after, page.start(), 1) matches Ok(entry)
                && entry.is_valid() && entry.spec_addr() == frame.start()
                && entry.spec_frame() == Ok::<Frame<Size4KiB>, FrameError>(frame)
        }),
{
    reveal_with_fuel(spec_locate_from, 5);
    let addr = page.start();
    let leaf = leaf_entry(frame, flags, attr);
    lemma_map_then_locate(locator, tables, addr, locator.spec_root(addr), 4, 1, answers, 0, leaf);
    lemma_size_is_power_of_two::<Size4KiB>();
    let frame_start: u64 = frame.start().value();
    assert(frame_start % 4096 == 0) by (bit_vector)
        requires
            frame_start % 0x1000 == 0 || frame_start % 0x20_0000 == 0 || frame_start % 0x4000_0000
                == 0,
    ;
    lemma_leaf_entry(frame.start().value(), flags, attr);
    assert(leaf.is_valid());
    lemma_entry_addr(leaf);
    Frame::<Size4KiB>::lemma_containing_start(frame.start());
    lemma_align_down(frame.start().value(), Size4KiB::SIZE);
    Frame::<Size4KiB>::lemma_start_determines(frame, Frame::spec_containing(frame.start()));
    let start: u64 = addr.value();
    lemma_valid_is_used(leaf);
    assert(start % 4096 == 0);
}

/// After a 2MiB page has been mapped to a frame, its start address translates to that
/// frame with offset 0, and its entry holds the start of the frame.
///
/// This holds for a frame of at most 48 address bits, for flags and attributes that leave
/// the address bits alone and set the valid flag and not the page flag, where every entry
/// that was in use on the way is valid, and where mapping keeps the way as
/// `spec_map_keeps_way` says.
pub proof fn lemma_map_then_translate_2mib<L: TableLocator>(
    locator: L,
    tables: Tables,
    page: Page<Size2MiB>,
    frame: Frame<Size2MiB>,
    flags: PageTableFlags,
    attr: PageTableAttribute,
    answers: Seq<Option<Frame<Size4KiB>>>,
)
    requires
        tables_wf(tables),
        page.wf(),
        frame.wf(),
        frame.start().value() <= ADDR_MASK,
        flags.bits & 1 == 1,
        flags.bits & 2 == 0,
        attr.value & 3 == 0,
        (flags.bits | attr.value) & ADDR_MASK == 0,
        spec_map(
            locator,
            tables,
            page.start(),
            2,
            answers,
            leaf_entry(frame, flags, attr),
        ).0.is_ok(),
        spec_walkable(locator, tables, page.start(), locator.spec_root(page.start()), 4, 2),
        spec_map_keeps_way(
            locator,
            tables,
            page.start(),
            locator.spec_root(page.start()),
            4,
            2,
            answers,
            0,
        ),
    ensures
        ({
            let after = spec_map(
                locator,
                tables,
                page.start(),
                2,
                answers,
                leaf_entry(frame, flags, attr),
            ).1;
            &&& spec_translate(locator, after, page.start()) == (TranslateResult::Frame2MiB {
                frame,
                offset: 0,
            })
            &&& spec_get_entry(locator, after, page.start(), 2) matches Ok(entry)
                && entry.is_valid() && entry.spec_addr() == frame.start()
                && entry.spec_is_block()
        }),
{
    reveal_with_fuel(spec_locate_from, 5);
    let addr = page.start();
    let leaf = leaf_entry(frame, flags, attr);
    lemma_map_then_locate(locator, tables, addr, locator.spec_root(addr), 4, 2, answers, 0, leaf);
    lemma_size_is_power_of_two::<Size2MiB>();
    let frame_start: u64 = frame.start().value();
    assert(frame_start % 4096 == 0) by (bit_vector)
        requires
            frame_start % 0x1000 == 0 || frame_start % 0x20_0000 == 0 || frame_start % 0x4000_0000
                == 0,
    ;
    lemma_leaf_entry(frame.start().value(), flags, attr);
    assert(leaf.is_valid());
    lemma_entry_addr(leaf);
    Frame::<Size2MiB>::lemma_containing_start(frame.start());
    lemma_align_down(frame.start().value(), Size2MiB::SIZE);
    Frame::<Size2MiB>::lemma_start_determines(frame, Frame::spec_containing(frame.start()));
    let start: u64 = addr.value();
    lemma_valid_is_used(leaf);
    assert(start & 0x1f_ffff == 0) by (bit_vector)
        requires
            start % 0x20_0000 == 0,
    ;
}

/// After a 1GiB page has been mapped to a frame, its start address translates to that
/// frame with offset 0, and its entry holds the start of the frame.
///
/// This holds for a frame of at most 48 address bits, for flags and attributes that leave
/// the address bits alone and set the valid flag and not the page flag, where every entry
/// that was in use on the way is valid, and where mapping keeps the way as
/// `spec_map_keeps_way` says.
pub proof fn lemma_map_then_translate_1gib<L: TableLocator>(
    locator: L,
    tables: Tables,
    page: Page<Size1GiB>,
    frame: Frame<Size1GiB>,
    flags: PageTableFlags,
    attr: PageTableAttribute,
    answers: Seq<Option<Frame<Size4KiB>>>,
)
    requires
        tables_wf(tables),
        page.wf(),
        frame.wf(),
        frame.start().value() <= ADDR_MASK,
        flags.bits & 1 == 1,
        flags.bits & 2 == 0,
        attr.value & 3 == 0,
        (flags.bits | attr.value) & ADDR_MASK == 0,
        spec_map(
            locator,
            tables,
            page.start(),
            3,
            answers,
            leaf_entry(frame, flags, attr),
        ).0.is_ok(),
        spec_walkable(locator, tables, page.start(), locator.spec_root(page.start()), 4, 3),
        spec_map_keeps_way(
            locator,
            tables,
            page.start(),
            locator.spec_root(page.start()),
            4,
            3,
            answers,
            0,
        ),
    ensures
        ({
            let after = spec_map(
                locator,
                tables,
                page.start(),
                3,
                answers,
                leaf_entry(frame, flags, attr),
            ).1;
            &&& spec_translate(locator, after, page.start()) == (TranslateResult::Frame1GiB {
                frame,
                offset: 0,
            })
            &&& spec_get_entry(locator, after, page.start(), 3) matches Ok(entry)
                && entry.is_valid() && entry.spec_addr() == frame.start()
                && entry.spec_is_block()
        }),
{
    reveal_with_fuel(spec_locate_from, 5);
    let addr = page.start();
    let leaf = leaf_entry(frame, flags, attr);
    lemma_map_then_locate(locator, tables, addr, locator.spec_root(addr), 4, 3, answers, 0, leaf);
    lemma_size_is_power_of_two::<Size1GiB>();
    let frame_start: u64 = frame.start().value();
    assert(frame_start % 4096 == 0) by (bit_vector)
        requires
            frame_start % 0x1000 == 0 || frame_start % 0x20_0000 == 0 || frame_start % 0x4000_0000
                == 0,
    ;
    lemma_leaf_entry(frame.start().value(), flags, attr);
    assert(leaf.is_valid());
    lemma_entry_addr(leaf);
    Frame::<Size1GiB>::lemma_containing_start(frame.start());
    lemma_align_down(frame.start().value(), Size1GiB::SIZE);
    Frame::<Size1GiB>::lemma_start_determines(frame, Frame::spec_containing(frame.start()));
    let start: u64 = addr.value();
    lemma_valid_is_used(leaf);
    assert(start & 0x3fff_ffff == 0) by (bit_vector)
        requires
            start % 0x4000_0000 == 0,
    ;
}

/// After a 2 MiB block has been mapped, mapping a 4 KiB page inside it fails with
/// `ParentEntryHugePage`, changes no table and does not ask the allocator, whatever the
/// allocator would answer.
///
/// This holds for a block entry that is valid and carries no page flag, where every entry
/// that was in use on the way is valid, and where mapping the block keeps the way as
/// `spec_map_keeps_way` says.
pub proof fn lemma_granularity_conflict<L: TableLocator>(
    locator: L,
    tables: Tables,
    block: Page<Size2MiB>,
    block_entry: PageTableEntry,
    answers: Seq<Option<Frame<Size4KiB>>>,
    inner: Page<Size4KiB>,
    inner_entry: PageTableEntry,
    inner_answers: Seq<Option<Frame<Size4KiB>>>,
)
    requires
        tables_wf(tables),
        block_entry.is_valid(),
        block_entry.spec_is_block(),
        block.start().value() >> 21 == inner.start().value() >> 21,
        spec_map(locator, tables, block.start(), 2, answers, block_entry).0.is_ok(),
        spec_walkable(locator, tables, block.start(), locator.spec_root(block.start()), 4, 2),
        spec_map_keeps_way(
            locator,
            tables,
            block.start(),
            locator.spec_root(block.start()),
            4,
            2,
            answers,
            0,
        ),
    ensures
        spec_map(
            locator,
            spec_map(locator, tables, block.start(), 2, answers, block_entry).1,
            inner.start(),
            1,
            inner_answers,
            inner_entry,
        ) == (
            Err::<(), MapToError>(MapToError::ParentEntryHugePage),
            spec_map(locator, tables, block.start(), 2, answers, block_entry).1,
            0nat,
        ),
{
    let after = spec_map(locator, tables, block.start(), 2, answers, block_entry).1;
    lemma_map_then_locate(
        locator,
        tables,
        block.start(),
        locator.spec_root(block.start()),
        4,
        2,
        answers,
        0,
        block_entry,
    );
    lemma_valid_is_used(block_entry);
    lemma_map_inside_block(
        locator,
        after,
        block.start(),
        inner.start(),
        inner_answers,
        inner_entry,
    );
}

} // verus!

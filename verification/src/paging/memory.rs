//! The memory that holds translation tables, addressed by where a table starts.

use super::table::{empty_entries, PageTable, PageTableEntry};
use crate::addr::VirtAddr;
use crate::index::PageTableIndex;
use crate::instruction::{Instruction, Shareability};
use std::collections::HashMap;
use vstd::prelude::*;

verus! {

/// One change to the memory that holds the tables, or a barrier between two changes.
///
/// The changes reach observers of the memory in the order in which they are recorded; a
/// store barrier keeps the changes after it behind the changes before it.
#[derive(Clone, Copy, PartialEq, Eq, Debug, Structural)]
pub enum MemoryOperation {
    /// The entry at `index` of the table at `table` was written.
    Write {
        /// Where the table stands.
        table: VirtAddr,
        /// The index of the entry, below 512.
        index: u16,
        /// What the entry holds now.
        entry: PageTableEntry,
    },
    /// Every entry of the table at `table` was set to unused.
    Clear {
        /// Where the table stands.
        table: VirtAddr,
    },
    /// A store barrier for the inner shareable domain is due before the next change.
    StoreBarrier,
    /// The table at `table` was handed out to be changed in place.
    Touch {
        /// Where the table stands.
        table: VirtAddr,
    },
}

impl MemoryOperation {
    /// The instruction that has to be executed where this record stands: the data
    /// synchronization barrier for stores in the inner shareable domain at a store barrier,
    /// and none at a change.
    pub fn barrier(&self) -> (r: Option<Instruction>)
        ensures
            r == if *self == MemoryOperation::StoreBarrier {
                Some(Instruction::Dsb(Shareability::InnerShareableStore))
            } else {
                None
            },
    {
        match self {
            MemoryOperation::StoreBarrier => Some(crate::barrier::dsb(crate::barrier::ISHST)),
            _ => None,
        }
    }
}

/// The memory that holds translation tables.
///
/// A table is found by the address at which it starts. Memory that nothing was written to
/// reads as a table of unused entries. Every change is recorded in a journal, in its order,
/// for the one who carries the changes to the tables that the hardware walks.
pub struct TableMemory {
    tables: HashMap<u64, PageTable>,
    journal: Vec<MemoryOperation>,
}

impl TableMemory {
    /// The entries of the table at each address.
    pub closed spec fn view(&self) -> Map<u64, Seq<PageTableEntry>> {
        Map::new(
            |address: u64| true,
            |address: u64|
                if self.tables@.contains_key(address) {
                    self.tables@[address]@
                } else {
                    empty_entries()
                },
        )
    }

    /// The changes since the journal was last taken, in their order.
    pub closed spec fn journal(&self) -> Seq<MemoryOperation> {
        self.journal@
    }

    /// At every address there is a table of 512 entries.
    pub proof fn lemma_total(self, address: u64)
        ensures
            self@.contains_key(address),
            self@[address].len() == 512,
    {
        if self.tables@.contains_key(address) {
            self.tables@[address].lemma_len();
        }
    }

    /// Memory in which every table is empty.
    pub fn new() -> (r: Self)
        ensures
            forall|address: u64| #[trigger] r@[address] == empty_entries(),
            r.journal() == Seq::<MemoryOperation>::empty(),
    {
        broadcast use vstd::std_specs::hash::group_hash_axioms;

        TableMemory { tables: HashMap::new(), journal: Vec::new() }
    }

    /// The entry at `index` of the table at `table`.
    pub fn entry(&self, table: VirtAddr, index: PageTableIndex) -> (r: &PageTableEntry)
        ensures
            *r == self@[table.value()][index.value() as int],
    {
        broadcast use vstd::std_specs::hash::group_hash_axioms;

        let key: u64 = table.as_u64();
        let position: usize = index.as_usize();
        assert(empty_entries()[position as int].entry == 0);
        match self.tables.get(&key) {
            Some(found) => found.index(index),
            None => &PageTableEntry { entry: 0 },
        }
    }

    /// The table at `table`, to be changed in place.
    pub fn table_mut(&mut self, table: VirtAddr) -> (r: &mut PageTable)
        ensures
            r@ == old(self)@[table.value()],
            final(self)@ == old(self)@.insert(table.value(), final(r)@),
            final(self).journal() == old(self).journal().push(MemoryOperation::Touch { table }),
    {
        broadcast use vstd::std_specs::hash::group_hash_axioms;

        let key: u64 = table.as_u64();
        self.journal.push(MemoryOperation::Touch { table });
        self.tables.entry(key).or_insert(PageTable::new())
    }

    /// Writes `entry` at `index` of the table at `table`.
    pub fn set_entry(&mut self, table: VirtAddr, index: PageTableIndex, entry: PageTableEntry)
        ensures
            final(self)@ == old(self)@.insert(
                table.value(),
                old(self)@[table.value()].update(index.value() as int, entry),
            ),
            final(self).journal() == old(self).journal().push(
                MemoryOperation::Write { table, index: index.value(), entry },
            ),
    {
        broadcast use vstd::std_specs::hash::group_hash_axioms;

        let key: u64 = table.as_u64();
        self.journal.push(MemoryOperation::Write { table, index: index.as_u16(), entry });
        let found = self.tables.entry(key).or_insert(PageTable::new());
        let slot = found.index_mut(index);
        *slot = entry;
    }

    /// Sets every entry of the table at `table` to unused.
    pub fn clear_table(&mut self, table: VirtAddr)
        ensures
            final(self)@ == old(self)@.insert(table.value(), empty_entries()),
            final(self).journal() == old(self).journal().push(MemoryOperation::Clear { table }),
    {
        broadcast use vstd::std_specs::hash::group_hash_axioms;

        let key: u64 = table.as_u64();
        self.journal.push(MemoryOperation::Clear { table });
        let found = self.tables.entry(key).or_insert(PageTable::new());
        found.clear();
    }

    /// Records that a store barrier is due between the changes so far and the changes to
    /// come.
    pub fn store_barrier(&mut self)
        ensures
            final(self)@ == old(self)@,
            final(self).journal() == old(self).journal().push(MemoryOperation::StoreBarrier),
    {
        self.journal.push(MemoryOperation::StoreBarrier);
    }

    /// Takes the journal: the changes since it was last taken, in their order.
    pub fn take_journal(&mut self) -> (r: Vec<MemoryOperation>)
        ensures
            r@ == old(self).journal(),
            final(self).journal() == Seq::<MemoryOperation>::empty(),
            final(self)@ == old(self)@,
    {
        let mut taken: Vec<MemoryOperation> = Vec::new();
        core::mem::swap(&mut self.journal, &mut taken);
        taken
    }
}

} // verus!

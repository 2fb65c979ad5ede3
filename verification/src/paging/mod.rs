//! Pages, frames, translation tables and the mappers that walk them.

pub mod frame;
pub mod frame_alloc;
pub mod mapper;
pub mod memory;
pub mod memory_attribute;
pub mod table;
pub mod page;

pub use self::frame::{Frame, FrameRange, FrameRangeInclusive};
pub use self::frame_alloc::FrameAllocator;
pub use self::mapper::mapped_page_table::{MappedPageTable, PhysToVirt};
pub use self::mapper::offset_page_table::OffsetPageTable;
pub use self::mapper::recursive_page_table::RecursivePageTable;
pub use self::mapper::{
    EntryGetError, MapToError, Mapper, MapperAllSizes, MapperFlush, TranslateError,
    TranslateResult, UnmapError,
};
pub use self::memory::{MemoryOperation, TableMemory};
pub use self::page::{Page, PageRange, PageRangeInclusive};
pub use self::table::{
    FrameError, PageTable, PageTableAttribute, PageTableEntry, PageTableFlags,
};

use crate::addr::is_power_of_two;
use vstd::arithmetic::power2::{lemma2_to64, pow2};
use vstd::prelude::*;

verus! {

/// One of the three sizes of a page or frame: 4 KiB, 2 MiB or 1 GiB.
pub trait PageSize: Copy + Eq + PartialOrd + Ord {
    /// The page size in bytes.
    const SIZE: u64;

    /// A string representation of the page size, for printing.
    const SIZE_AS_DEBUG_STR: &'static str;

    /// The size is one of the three that the translation tables can map.
    proof fn size_is_known()
        ensures
            Self::SIZE == 0x1000 || Self::SIZE == 0x20_0000 || Self::SIZE == 0x4000_0000,
    ;
}

/// A size that takes part in the lower levels of the hierarchy: 4 KiB or 2 MiB.
pub trait NotGiantPageSize: PageSize {

}

/// A standard 4 KiB page.
#[derive(Clone, Copy, PartialEq, Eq, PartialOrd, Ord, Hash, Debug)]
pub struct Size4KiB;

/// A "huge" 2 MiB page.
#[derive(Clone, Copy, PartialEq, Eq, PartialOrd, Ord, Hash, Debug)]
pub struct Size2MiB;

/// A "giant" 1 GiB page.
#[derive(Clone, Copy, PartialEq, Eq, PartialOrd, Ord, Hash, Debug)]
pub struct Size1GiB;

impl PageSize for Size4KiB {
    const SIZE: u64 = 0x1000;

    const SIZE_AS_DEBUG_STR: &'static str = "4KiB";

    proof fn size_is_known() {
    }
}

impl NotGiantPageSize for Size4KiB {

}

impl PageSize for Size2MiB {
    const SIZE: u64 = 0x20_0000;

    const SIZE_AS_DEBUG_STR: &'static str = "2MiB";

    proof fn size_is_known() {
    }
}

impl NotGiantPageSize for Size2MiB {

}

impl PageSize for Size1GiB {
    const SIZE: u64 = 0x4000_0000;

    const SIZE_AS_DEBUG_STR: &'static str = "1GiB";

    proof fn size_is_known() {
    }
}

/// The level of the table that holds the entries of pages of size `S`: 1 for 4 KiB, 2 for
/// 2 MiB and 3 for 1 GiB.
pub open spec fn terminal_level<S: PageSize>() -> nat {
    if S::SIZE == 0x1000 {
        1
    } else if S::SIZE == 0x20_0000 {
        2
    } else {
        3
    }
}

/// The three page sizes in bytes.
pub proof fn lemma_sizes()
    ensures
        Size4KiB::SIZE == 0x1000,
        Size2MiB::SIZE == 0x20_0000,
        Size1GiB::SIZE == 0x4000_0000,
        terminal_level::<Size4KiB>() == 1,
        terminal_level::<Size2MiB>() == 2,
        terminal_level::<Size1GiB>() == 3,
{
}

/// Every page size is a power of two.
pub proof fn lemma_size_is_power_of_two<S: PageSize>()
    ensures
        is_power_of_two(S::SIZE),
        S::SIZE >= 0x1000,
        S::SIZE % 0x1000 == 0,
{
    S::size_is_known();
    lemma2_to64();
    assert(pow2(12) == 0x1000 && pow2(21) == 0x20_0000 && pow2(30) == 0x4000_0000);
}

} // verus!

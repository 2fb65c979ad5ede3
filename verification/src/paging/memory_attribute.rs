//! Memory region attributes: the encodings for the memory attribute indirection register
//! and the attribute fields of a translation table entry that select them.

use super::table::{PageTableAttribute, MEMORY_ATTR_MASK};
use crate::fields::{field_value, field_value_sum};
use vstd::prelude::*;

verus! {

/// A class of memory, with its place in the memory attribute indirection register.
pub trait MairType {
    /// The index of the class in the memory attribute indirection register.
    const INDEX: u64;

    /// The eight bits that describe the class in the memory attribute indirection register.
    spec fn spec_config_value() -> u64;

    /// The attribute fields of an entry that maps memory of this class.
    spec fn spec_attr_value() -> u64;

    /// The eight bits that describe the class in the memory attribute indirection register.
    fn config_value() -> (r: u64)
        ensures
            r == Self::spec_config_value(),
    ;

    /// The attribute fields of an entry that maps memory of this class: its shareability and
    /// its index.
    fn attr_value() -> (r: PageTableAttribute)
        ensures
            r.mask == MEMORY_ATTR_MASK,
            r.value == Self::spec_attr_value(),
    ;
}

/// Device memory: no gathering, no reordering, early write acknowledgement.
pub struct MairDevice;

/// Normal memory: write-back, non-transient, allocating on read and on write, in the inner
/// and in the outer cache.
pub struct MairNormal;

/// Normal memory that is cached neither in the inner nor in the outer cache.
pub struct MairNormalNonCacheable;

/// The values of the fields that the three classes of memory are made of.
proof fn lemma_fields()
    ensures
        0xfu64 << 4u64 == 0xf0,
        0xfu64 << 0u64 == 0xf,
        0x3u64 << 8u64 == 0x300,
        0x7u64 << 2u64 == 0x1c,
        (0xfu64 & 0xfu64) << 4u64 == 0xf0,
        (0xfu64 & 0xfu64) << 0u64 == 0xf,
        (0x0u64 & 0xfu64) << 4u64 == 0,
        (0x4u64 & 0xfu64) << 4u64 == 0x40,
        (0x4u64 & 0xfu64) << 0u64 == 0x4,
        (0xf0u64 & 0xf0u64) | (0xfu64 & 0xfu64) == 0xff,
        (0x0u64 & 0xf0u64) | (0x4u64 & 0xfu64) == 0x04,
        (0x40u64 & 0xf0u64) | (0x4u64 & 0xfu64) == 0x44,
        0xf0u64 | 0xfu64 == 0xff,
        0x300u64 | 0x1cu64 == 0x31c,
        (0x3u64 & 0x3u64) << 8u64 == 0x300,
        (0x2u64 & 0x3u64) << 8u64 == 0x200,
        (0x0u64 & 0x7u64) << 2u64 == 0,
        (0x1u64 & 0x7u64) << 2u64 == 0x4,
        (0x2u64 & 0x7u64) << 2u64 == 0x8,
        (0x300u64 & 0x300u64) | (0x0u64 & 0x1cu64) == 0x300,
        (0x200u64 & 0x300u64) | (0x4u64 & 0x1cu64) == 0x204,
        (0x200u64 & 0x300u64) | (0x8u64 & 0x1cu64) == 0x208,
{
    assert(0xfu64 << 4u64 == 0xf0 && 0xfu64 << 0u64 == 0xf && 0x3u64 << 8u64 == 0x300 && 0x7u64
        << 2u64 == 0x1c && (0xfu64 & 0xfu64) << 4u64 == 0xf0 && (0xfu64 & 0xfu64) << 0u64 == 0xf
        && (0x0u64 & 0xfu64) << 4u64 == 0 && (0x4u64 & 0xfu64) << 4u64 == 0x40 && (0x4u64 & 0xfu64)
        << 0u64 == 0x4 && (0xf0u64 & 0xf0u64) | (0xfu64 & 0xfu64) == 0xff && (0x0u64 & 0xf0u64) | (
    0x4u64 & 0xfu64) == 0x04 && (0x40u64 & 0xf0u64) | (0x4u64 & 0xfu64) == 0x44 && 0xf0u64 | 0xfu64
        == 0xff && 0x300u64 | 0x1cu64 == 0x31c && (0x3u64 & 0x3u64) << 8u64 == 0x300 && (0x2u64
        & 0x3u64) << 8u64 == 0x200 && (0x0u64 & 0x7u64) << 2u64 == 0 && (0x1u64 & 0x7u64) << 2u64
        == 0x4 && (0x2u64 & 0x7u64) << 2u64 == 0x8 && (0x300u64 & 0x300u64) | (0x0u64 & 0x1cu64)
        == 0x300 && (0x200u64 & 0x300u64) | (0x4u64 & 0x1cu64) == 0x204 && (0x200u64 & 0x300u64) | (
    0x8u64 & 0x1cu64) == 0x208) by (bit_vector);
}

impl MairType for MairNormal {
    const INDEX: u64 = 0;

    open spec fn spec_config_value() -> u64 {
        0xff
    }

    open spec fn spec_attr_value() -> u64 {
        0x300
    }

    fn config_value() -> (r: u64) {
        proof {
            lemma_fields();
        }
        let outer = field_value(0xf, 4, 0b1111);
        let inner = field_value(0xf, 0, 0b1111);
        field_value_sum(outer, inner).1
    }

    fn attr_value() -> (r: PageTableAttribute) {
        proof {
            lemma_fields();
        }
        let inner_shareable = PageTableAttribute::new(0b11, 8, 0b11);
        inner_shareable.combine(PageTableAttribute::new(0b111, 2, Self::INDEX))
    }
}

impl MairType for MairDevice {
    const INDEX: u64 = 1;

    open spec fn spec_config_value() -> u64 {
        0x04
    }

    open spec fn spec_attr_value() -> u64 {
        0x204
    }

    fn config_value() -> (r: u64) {
        proof {
            lemma_fields();
        }
        let device = field_value(0xf, 4, 0b0000);
        let no_gathering_no_reordering = field_value(0xf, 0, 0b0100);
        field_value_sum(device, no_gathering_no_reordering).1
    }

    fn attr_value() -> (r: PageTableAttribute) {
        proof {
            lemma_fields();
        }
        let outer_shareable = PageTableAttribute::new(0b11, 8, 0b10);
        outer_shareable.combine(PageTableAttribute::new(0b111, 2, Self::INDEX))
    }
}

impl MairType for MairNormalNonCacheable {
    const INDEX: u64 = 2;

    open spec fn spec_config_value() -> u64 {
        0x44
    }

    open spec fn spec_attr_value() -> u64 {
        0x208
    }

    fn config_value() -> (r: u64) {
        proof {
            lemma_fields();
        }
        let outer = field_value(0xf, 4, 0b0100);
        let inner = field_value(0xf, 0, 0b0100);
        field_value_sum(outer, inner).1
    }

    fn attr_value() -> (r: PageTableAttribute) {
        proof {
            lemma_fields();
        }
        let outer_shareable = PageTableAttribute::new(0b11, 8, 0b10);
        outer_shareable.combine(PageTableAttribute::new(0b111, 2, Self::INDEX))
    }
}

} // verus!

//! Bit-range and integer-width primitives taken from the `bit_field` and `cast` crates.

use bit_field::BitField;
use vstd::prelude::*;

verus! {

/// The bits `start..end` of `value`, moved down so that bit `start` becomes bit 0.
pub open spec fn bit_range(value: u64, start: nat, end: nat) -> u64 {
    if start == end {
        0
    } else {
        ((value << ((64 - end) as u64)) >> ((64 - end) as u64)) >> (start as u64)
    }
}

/// `value` with its bits `start..end` replaced by `field`.
pub open spec fn with_bit_range(value: u64, start: nat, end: nat, field: u64) -> u64 {
    if start == end {
        value
    } else {
        (value & !((((!0u64 << ((64 - end) as u64)) >> ((64 - end) as u64)) >> (start as u64)) << (
        start as u64))) | (field << (start as u64))
    }
}

/// Whether `field` has no bit set outside its lowest `end - start` bits.
pub open spec fn fits_bit_range(start: nat, end: nat, field: u64) -> bool {
    if start == end {
        field == 0
    } else {
        (field << ((64 - (end - start)) as u64)) >> ((64 - (end - start)) as u64) == field
    }
}

/// `BitField::get_bits` of `bit_field` on a `u64`: the call panics unless the range lies
/// inside the 64 bits; otherwise it shifts the bits above `end` out to the left, back, and
/// then `start` places to the right.
#[verifier::external_body]
pub(crate) fn get_bits(value: u64, start: usize, end: usize) -> (r: u64)
    requires
        start < 64,
        end <= 64,
        start <= end,
    ensures
        r == bit_range(value, start as nat, end as nat),
{
    value.get_bits(start..end)
}

/// `BitField::set_bits` of `bit_field` on a `u64`: the call panics unless the range lies
/// inside the 64 bits and `field` fits into it; otherwise it clears the range and ors the
/// shifted `field` in.
#[verifier::external_body]
pub(crate) fn set_bits(value: u64, start: usize, end: usize, field: u64) -> (r: u64)
    requires
        start < 64,
        end <= 64,
        start <= end,
        fits_bit_range(start as nat, end as nat, field),
    ensures
        r == with_bit_range(value, start as nat, end as nat, field),
{
    let mut bits = value;
    bits.set_bits(start..end, field);
    bits
}

/// `cast::u64` on a `usize`: a widening that keeps the value.
#[verifier::external_body]
pub(crate) fn usize_to_u64(value: usize) -> (r: u64)
    ensures
        r == value,
{
    cast::u64(value)
}

/// `cast::usize` on a `u64`: on targets with 64-bit pointers the conversion cannot fail and
/// keeps the value.
#[verifier::external_body]
pub(crate) fn u64_to_usize(value: u64) -> (r: usize)
    ensures
        r == value,
{
    cast::usize(value)
}

} // verus!

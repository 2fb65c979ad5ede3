//! Register fields, computed by the `tock_registers` crate.

use tock_registers::fields::{Field, FieldValue};
use vstd::prelude::*;

verus! {

/// `FieldValue::<u64, ()>::new` of `tock_registers`, read back as the pair of its mask and its
/// value: the mask moved up by `shift`, and the bits of `value` under the unshifted mask moved
/// up by `shift`. A shift of 64 or more overflows.
#[verifier::external_body]
pub(crate) fn field_value(mask: u64, shift: usize, value: u64) -> (r: (u64, u64))
    requires
        shift < 64,
    ensures
        r.0 == mask << (shift as u64),
        r.1 == (value & mask) << (shift as u64),
{
    let field = FieldValue::<u64, ()>::new(mask, shift, value);
    (field.mask(), field.value)
}

/// `+` on two `FieldValue<u64, ()>` of `tock_registers`, each rebuilt from its mask and value
/// with a shift of zero: the masks are or-ed, and so are the values, each cut to its mask.
#[verifier::external_body]
pub(crate) fn field_value_sum(left: (u64, u64), right: (u64, u64)) -> (r: (u64, u64))
    ensures
        r.0 == left.0 | right.0,
        r.1 == (left.1 & left.0) | (right.1 & right.0),
{
    let sum = FieldValue::<u64, ()>::new(left.0, 0, left.1) + FieldValue::<u64, ()>::new(
        right.0,
        0,
        right.1,
    );
    (sum.mask(), sum.value)
}

/// `Field::<u64, ()>::read` of `tock_registers`: the bits of `value` under the mask moved up by
/// `shift`, moved down again by `shift`. A shift of 64 or more overflows.
#[verifier::external_body]
pub(crate) fn field_read(mask: u64, shift: usize, value: u64) -> (r: u64)
    requires
        shift < 64,
    ensures
        r == (value & (mask << (shift as u64))) >> (shift as u64),
{
    Field::<u64, ()>::new(mask, shift).read(value)
}

/// `Field::<u32, ()>::read` of `tock_registers`, as `field_read` on 32 bits.
#[verifier::external_body]
pub(crate) fn field_read_u32(mask: u32, shift: usize, value: u32) -> (r: u32)
    requires
        shift < 32,
    ensures
        r == (value & (mask << (shift as u32))) >> (shift as u32),
{
    Field::<u32, ()>::new(mask, shift).read(value)
}

/// `Field::<u32, ()>::val` of `tock_registers`, read back as its value: the bits of `value`
/// under the mask, moved up by `shift`. A shift of 32 or more overflows.
#[verifier::external_body]
pub(crate) fn field_val_u32(mask: u32, shift: usize, value: u32) -> (r: u32)
    requires
        shift < 32,
    ensures
        r == (value & mask) << (shift as u32),
{
    Field::<u32, ()>::new(mask, shift).val(value).value
}

/// What reading and writing a field of one, eight or twenty-four bits at the bottom of a
/// 32-bit register, or of one bit at place 1, comes to.
pub proof fn lemma_fields_u32(value: u32)
    ensures
        ((value & (0x1u32 << 0u32)) >> 0u32 == 1) == (value & 0x1 != 0),
        ((value & (0x1u32 << 1u32)) >> 1u32 == 1) == (value & 0x2 != 0),
        (value & (0xffu32 << 0u32)) >> 0u32 == value & 0xff,
        (value & (0xff_ffffu32 << 0u32)) >> 0u32 == value & 0xff_ffff,
        (value & 0xffu32) << 0u32 == value & 0xff,
        (value & 0xff_ffffu32) << 0u32 == value & 0xff_ffff,
        (1u32 & 0x1u32) << 0u32 == 0x1,
        (1u32 & 0x1u32) << 1u32 == 0x2,
        (0u32 & 0x1u32) << 0u32 == 0,
        (0u32 & 0x1u32) << 1u32 == 0,
{
    assert(((value & (0x1u32 << 0u32)) >> 0u32 == 1) == (value & 0x1 != 0) && ((value & (0x1u32
        << 1u32)) >> 1u32 == 1) == (value & 0x2 != 0) && (value & (0xffu32 << 0u32)) >> 0u32
        == value & 0xff && (value & (0xff_ffffu32 << 0u32)) >> 0u32 == value & 0xff_ffff && (value
        & 0xffu32) << 0u32 == value & 0xff && (value & 0xff_ffffu32) << 0u32 == value & 0xff_ffff
        && (1u32 & 0x1u32) << 0u32 == 0x1 && (1u32 & 0x1u32) << 1u32 == 0x2 && (0u32 & 0x1u32)
        << 0u32 == 0 && (0u32 & 0x1u32) << 1u32 == 0) by (bit_vector);
}

} // verus!

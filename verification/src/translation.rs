//! The translation table base registers and the invalidation of cached translations.

use crate::addr::{PhysAddr, VirtAddr};
use crate::fields::{field_read, field_value, field_value_sum};
use crate::instruction::{Instruction, Shareability};
use crate::paging::frame::Frame;
use crate::paging::Size4KiB;
use vstd::prelude::*;

verus! {

/// The contents of the two translation table base registers of EL1.
///
/// Each register holds an address space identifier in bits 48 to 63 and the base address of
/// a level 4 table, without its lowest bit, in bits 1 to 47.
#[derive(Clone, Copy, PartialEq, Eq, Debug, Structural)]
pub struct TranslationTableBase {
    /// The contents of `TTBR0_EL1`, for the bottom range of virtual addresses.
    pub ttbr0_el1: u64,
    /// The contents of `TTBR1_EL1`, for the top range of virtual addresses.
    pub ttbr1_el1: u64,
}

/// The base address that a register value holds.
pub open spec fn spec_baddr(value: u64) -> u64 {
    value & 0x0000_ffff_ffff_fffe
}

/// The address space identifier that a register value holds.
pub open spec fn spec_asid(value: u64) -> u16 {
    (value >> 48) as u16
}

/// The register value that holds the given address space identifier and base address.
pub open spec fn spec_ttbr(asid: u16, baddr: u64) -> u64 {
    ((asid as u64) << 48) | (baddr & 0x0000_ffff_ffff_fffe)
}

/// How the fields of a translation table base register are read and put together.
proof fn lemma_ttbr_fields(value: u64, asid: u64, baddr: u64)
    requires
        asid <= 0xffff,
    ensures
        ((value & (0x7fff_ffff_ffffu64 << 1u64)) >> 1u64) <= 0x7fff_ffff_ffff,
        (((value & (0x7fff_ffff_ffffu64 << 1u64)) >> 1u64) << 1u64) == spec_baddr(value),
        ((value & (0xffffu64 << 48u64)) >> 48u64) == value >> 48,
        value >> 48 <= 0xffff,
        (((baddr >> 1u64) & 0x7fff_ffff_ffffu64) << 1u64) == baddr & 0x0000_ffff_ffff_fffe,
        ((((asid & 0xffffu64) << 48u64) & (0xffffu64 << 48u64)) | ((((baddr >> 1u64)
            & 0x7fff_ffff_ffffu64) << 1u64) & (0x7fff_ffff_ffffu64 << 1u64))) == (asid << 48) | (
        baddr & 0x0000_ffff_ffff_fffe),
        spec_baddr((asid << 48) | (baddr & 0x0000_ffff_ffff_fffe)) == baddr & 0x0000_ffff_ffff_fffe,
        ((asid << 48) | (baddr & 0x0000_ffff_ffff_fffe)) >> 48 == asid,
        spec_baddr(baddr & 0x0000_ffff_ffff_fffe) == baddr & 0x0000_ffff_ffff_fffe,
{
    assert(((value & (0x7fff_ffff_ffffu64 << 1u64)) >> 1u64) <= 0x7fff_ffff_ffff && (((value & (
    0x7fff_ffff_ffffu64 << 1u64)) >> 1u64) << 1u64) == value & 0x0000_ffff_ffff_fffe && ((value & (
    0xffffu64 << 48u64)) >> 48u64) == value >> 48 && value >> 48 <= 0xffff && (((baddr >> 1u64)
        & 0x7fff_ffff_ffffu64) << 1u64) == baddr & 0x0000_ffff_ffff_fffe && ((((asid & 0xffffu64)
        << 48u64) & (0xffffu64 << 48u64)) | ((((baddr >> 1u64) & 0x7fff_ffff_ffffu64) << 1u64) & (
    0x7fff_ffff_ffffu64 << 1u64))) == (asid << 48) | (baddr & 0x0000_ffff_ffff_fffe) && ((asid
        << 48) | (baddr & 0x0000_ffff_ffff_fffe)) & 0x0000_ffff_ffff_fffe == baddr
        & 0x0000_ffff_ffff_fffe && ((asid << 48) | (baddr & 0x0000_ffff_ffff_fffe)) >> 48 == asid
        && (baddr & 0x0000_ffff_ffff_fffe) & 0x0000_ffff_ffff_fffe == baddr
        & 0x0000_ffff_ffff_fffe) by (bit_vector)
        requires
            asid <= 0xffff,
    ;
}

impl TranslationTableBase {
    /// The base address in the register value `value`.
    pub fn get_baddr(value: u64) -> (r: u64)
        ensures
            r == spec_baddr(value),
    {
        proof {
            lemma_ttbr_fields(value, 0, 0);
        }
        field_read(0x7fff_ffff_ffff, 1, value) << 1
    }

    /// The address space identifier in the register value `value`.
    pub fn get_asid(value: u64) -> (r: u16)
        ensures
            r == spec_asid(value),
    {
        proof {
            lemma_ttbr_fields(value, 0, 0);
        }
        field_read(0xffff, 48, value) as u16
    }

    /// The register value that the register holds after the base address `addr` alone has
    /// been written to it.
    pub fn with_baddr(addr: u64) -> (r: u64)
        ensures
            r == spec_ttbr(0, addr),
    {
        proof {
            lemma_ttbr_fields(0, 0, addr);
        }
        let r = field_value(0x7fff_ffff_ffff, 1, addr >> 1).1;
        assert(((0u16 as u64) << 48) | (addr & 0x0000_ffff_ffff_fffe) == addr
            & 0x0000_ffff_ffff_fffe) by (bit_vector);
        r
    }

    /// The register value that holds the address space identifier `asid` and the base
    /// address `addr`.
    pub fn with_asid_and_baddr(asid: u16, addr: u64) -> (r: u64)
        ensures
            r == spec_ttbr(asid, addr),
    {
        proof {
            lemma_ttbr_fields(0, asid as u64, addr);
        }
        let tag = field_value(0xffff, 48, asid as u64);
        let base = field_value(0x7fff_ffff_ffff, 1, addr >> 1);
        field_value_sum(tag, base).1
    }
}

/// Read TTBRx_EL1 as Frame
pub fn ttbr_el1_read(registers: &TranslationTableBase, which: u8) -> (r: Frame<Size4KiB>)
    ensures
        r == Frame::<Size4KiB>::spec_containing(
            PhysAddr(
                if which == 0 {
                    spec_baddr(registers.ttbr0_el1)
                } else if which == 1 {
                    spec_baddr(registers.ttbr1_el1)
                } else {
                    0
                },
            ),
        ),
{
    let baddr = match which {
        0 => TranslationTableBase::get_baddr(registers.ttbr0_el1),
        1 => TranslationTableBase::get_baddr(registers.ttbr1_el1),
        _ => 0,
    };
    Frame::containing_address(PhysAddr::new(baddr))
}

/// Write TTBRx_EL1 from Frame
pub fn ttbr_el1_write(registers: &mut TranslationTableBase, which: u8, frame: Frame<Size4KiB>)
    ensures
        final(registers).ttbr0_el1 == if which == 0 {
            spec_ttbr(0, frame.start().value())
        } else {
            old(registers).ttbr0_el1
        },
        final(registers).ttbr1_el1 == if which == 1 {
            spec_ttbr(0, frame.start().value())
        } else {
            old(registers).ttbr1_el1
        },
{
    let baddr = frame.start_address().as_u64();
    match which {
        0 => {
            registers.ttbr0_el1 = TranslationTableBase::with_baddr(baddr);
        },
        1 => {
            registers.ttbr1_el1 = TranslationTableBase::with_baddr(baddr);
        },
        _ => {},
    };
}

/// Read TTBRx_EL1 as Frame and ASID
pub fn ttbr_el1_read_asid(registers: &TranslationTableBase, which: u8) -> (r: (
    u16,
    Frame<Size4KiB>,
))
    ensures
        r.0 == if which == 0 {
            spec_asid(registers.ttbr0_el1)
        } else if which == 1 {
            spec_asid(registers.ttbr1_el1)
        } else {
            0
        },
        r.1 == Frame::<Size4KiB>::spec_containing(
            PhysAddr(
                if which == 0 {
                    spec_baddr(registers.ttbr0_el1)
                } else if which == 1 {
                    spec_baddr(registers.ttbr1_el1)
                } else {
                    0
                },
            ),
        ),
{
    let (asid, baddr) = match which {
        0 => (
            TranslationTableBase::get_asid(registers.ttbr0_el1),
            TranslationTableBase::get_baddr(registers.ttbr0_el1),
        ),
        1 => (
            TranslationTableBase::get_asid(registers.ttbr1_el1),
            TranslationTableBase::get_baddr(registers.ttbr1_el1),
        ),
        _ => (0, 0),
    };
    (asid, Frame::containing_address(PhysAddr::new(baddr)))
}

/// write TTBRx_EL1 from Frame and ASID
pub fn ttbr_el1_write_asid(
    registers: &mut TranslationTableBase,
    which: u8,
    asid: u16,
    frame: Frame<Size4KiB>,
)
    ensures
        final(registers).ttbr0_el1 == if which == 0 {
            spec_ttbr(asid, frame.start().value())
        } else {
            old(registers).ttbr0_el1
        },
        final(registers).ttbr1_el1 == if which == 1 {
            spec_ttbr(asid, frame.start().value())
        } else {
            old(registers).ttbr1_el1
        },
{
    let baddr = frame.start_address().as_u64();
    match which {
        0 => {
            registers.ttbr0_el1 = TranslationTableBase::with_asid_and_baddr(asid, baddr);
        },
        1 => {
            registers.ttbr1_el1 = TranslationTableBase::with_asid_and_baddr(asid, baddr);
        },
        _ => {},
    };
}

/// A register value gives back the address space identifier and the base address that it was
/// made of, the base address without its lowest bit and cut to 48 bits.
pub proof fn lemma_ttbr_round_trip(asid: u16, baddr: u64)
    ensures
        spec_asid(spec_ttbr(asid, baddr)) == asid,
        spec_baddr(spec_ttbr(asid, baddr)) == baddr & 0x0000_ffff_ffff_fffe,
{
    lemma_ttbr_fields(0, asid as u64, baddr);
}

/// The instructions that read the translation of `vaddr` by a stage 1 read at EL1: the
/// translation, then an instruction barrier; the result then stands in `PAR_EL1`.
pub fn address_translate(vaddr: usize) -> (r: [Instruction; 2])
    ensures
        r@ == seq![Instruction::AtS1e1r(vaddr as u64), Instruction::Isb],
{
    let r = [Instruction::AtS1e1r(crate::bits::usize_to_u64(vaddr)), Instruction::Isb];
    assert(r@ =~= seq![Instruction::AtS1e1r(vaddr as u64), Instruction::Isb]);
    r
}

/// The instructions that invalidate all TLB entries in all PEs, in the order in which they
/// have to be executed: a store barrier, the invalidation, a completion barrier for the same
/// domain, and an instruction barrier.
pub fn invalidate_tlb_all() -> (r: [Instruction; 4])
    ensures
        r@ == seq![
            Instruction::Dsb(Shareability::InnerShareableStore),
            Instruction::TlbiVmalle1is,
            Instruction::Dsb(Shareability::InnerShareable),
            Instruction::Isb,
        ],
{
    let r = [
        Instruction::Dsb(Shareability::InnerShareableStore),
        Instruction::TlbiVmalle1is,
        Instruction::Dsb(Shareability::InnerShareable),
        Instruction::Isb,
    ];
    assert(r@ =~= seq![
        Instruction::Dsb(Shareability::InnerShareableStore),
        Instruction::TlbiVmalle1is,
        Instruction::Dsb(Shareability::InnerShareable),
        Instruction::Isb,
    ]);
    r
}

/// The instructions that invalidate all TLB entries in the current PE, in the order in which
/// they have to be executed: a store barrier, the invalidation, a completion barrier for the
/// same domain, and an instruction barrier.
pub fn local_invalidate_tlb_all() -> (r: [Instruction; 4])
    ensures
        r@ == seq![
            Instruction::Dsb(Shareability::NonShareableStore),
            Instruction::TlbiVmalle1,
            Instruction::Dsb(Shareability::NonShareable),
            Instruction::Isb,
        ],
{
    let r = [
        Instruction::Dsb(Shareability::NonShareableStore),
        Instruction::TlbiVmalle1,
        Instruction::Dsb(Shareability::NonShareable),
        Instruction::Isb,
    ];
    assert(r@ =~= seq![
        Instruction::Dsb(Shareability::NonShareableStore),
        Instruction::TlbiVmalle1,
        Instruction::Dsb(Shareability::NonShareable),
        Instruction::Isb,
    ]);
    r
}

/// The instructions that invalidate the TLB entries for `vaddr` in all PEs and for all
/// address space identifiers, in the order in which they have to be executed: a store
/// barrier, the invalidation of the page that holds `vaddr`, a completion barrier for the
/// same domain, and an instruction barrier.
pub fn invalidate_tlb_vaddr(vaddr: VirtAddr) -> (r: [Instruction; 4])
    ensures
        r@ == seq![
            Instruction::Dsb(Shareability::InnerShareableStore),
            Instruction::TlbiVaae1is(vaddr.value() >> 12),
            Instruction::Dsb(Shareability::InnerShareable),
            Instruction::Isb,
        ],
{
    let r = [
        Instruction::Dsb(Shareability::InnerShareableStore),
        Instruction::TlbiVaae1is(vaddr.as_u64() >> 12),
        Instruction::Dsb(Shareability::InnerShareable),
        Instruction::Isb,
    ];
    assert(r@ =~= seq![
        Instruction::Dsb(Shareability::InnerShareableStore),
        Instruction::TlbiVaae1is(vaddr.value() >> 12),
        Instruction::Dsb(Shareability::InnerShareable),
        Instruction::Isb,
    ]);
    r
}

} // verus!

use aarch64::addr::{PhysAddr, VirtAddr};
use aarch64::barrier::{dmb, dsb, isb, ISH, ISHST, SY};
use aarch64::index::PageTableIndex;
use aarch64::instruction::{cpuid, halt, Instruction, Shareability};
use aarch64::paging::frame::Frame;
use aarch64::paging::memory::{MemoryOperation, TableMemory};
use aarch64::paging::memory_attribute::{MairDevice, MairNormal, MairNormalNonCacheable, MairType};
use aarch64::paging::table::{
    FrameError, PageTable, PageTableAttribute, PageTableEntry, PageTableFlags, ADDR_MASK,
    FLAGS_MASK, MEMORY_ATTR_MASK,
};
use aarch64::paging::{Size1GiB, Size2MiB, Size4KiB};
use aarch64::registers::{
    ctr_el0, icc_ctlr_el1, icc_eoir1_el1, icc_iar1_el1, icc_igrpen1_el1, icc_pmr_el1, icc_sre_el1,
};
use aarch64::translation::{
    address_translate, invalidate_tlb_all, invalidate_tlb_vaddr, local_invalidate_tlb_all,
    ttbr_el1_read, ttbr_el1_read_asid, ttbr_el1_write, ttbr_el1_write_asid, TranslationTableBase,
};
use aarch64::trap::{GeneralRegs, TrapFrame, UserContext};

#[test]
fn memory_attributes_are_bit_exact() {
    assert_eq!(MairNormal::INDEX, 0);
    assert_eq!(MairDevice::INDEX, 1);
    assert_eq!(MairNormalNonCacheable::INDEX, 2);
    assert_eq!(MairNormal::config_value(), 0xff);
    assert_eq!(MairDevice::config_value(), 0x04);
    assert_eq!(MairNormalNonCacheable::config_value(), 0x44);
    assert_eq!(MairNormal::attr_value(), PageTableAttribute { mask: 0x31c, value: 0x300 });
    assert_eq!(MairDevice::attr_value(), PageTableAttribute { mask: 0x31c, value: 0x204 });
    assert_eq!(
        MairNormalNonCacheable::attr_value(),
        PageTableAttribute { mask: 0x31c, value: 0x208 }
    );
}

#[test]
fn attributes_are_fields() {
    assert_eq!(PageTableAttribute::new(0, 0, 0), PageTableAttribute { mask: 0, value: 0 });
    assert_eq!(
        PageTableAttribute::new(0b11, 8, 0b10),
        PageTableAttribute { mask: 0x300, value: 0x200 }
    );
    // Bits of the value beyond the mask are dropped.
    assert_eq!(
        PageTableAttribute::new(0b111, 2, 0xff),
        PageTableAttribute { mask: 0x1c, value: 0x1c }
    );
    let both = PageTableAttribute::new(0b11, 8, 0b01).combine(PageTableAttribute::new(0b111, 2, 5));
    assert_eq!(both, PageTableAttribute { mask: 0x31c, value: 0x114 });
}

#[test]
fn flags_are_bits() {
    assert_eq!(PageTableFlags::valid().bits(), 1);
    assert_eq!(PageTableFlags::table_or_page().bits(), 2);
    assert_eq!(PageTableFlags::ap_el0().bits(), 1 << 6);
    assert_eq!(PageTableFlags::ap_ro().bits(), 1 << 7);
    assert_eq!(PageTableFlags::af().bits(), 1 << 10);
    assert_eq!(PageTableFlags::ng().bits(), 1 << 11);
    assert_eq!(PageTableFlags::dbm().bits(), 1 << 51);
    assert_eq!(PageTableFlags::contiguous().bits(), 1 << 52);
    assert_eq!(PageTableFlags::pxn().bits(), 1 << 53);
    assert_eq!(PageTableFlags::uxn().bits(), 1 << 54);
    assert_eq!(PageTableFlags::dirty().bits(), 1 << 55);
    assert_eq!(PageTableFlags::swapped().bits(), 1 << 56);
    assert_eq!(PageTableFlags::writable_shared().bits(), 1 << 57);
    assert_eq!(PageTableFlags::readonly_shared().bits(), 1 << 58);
    assert_eq!(PageTableFlags::pxn_table().bits(), 1 << 59);
    assert_eq!(PageTableFlags::xn_table().bits(), 1 << 60);
    assert_eq!(PageTableFlags::ap_no_el0_table().bits(), 1 << 61);
    assert_eq!(PageTableFlags::ap_ro_table().bits(), 1 << 62);
    assert_eq!(PageTableFlags::ns_table().bits(), 1 << 63);
    assert_eq!(PageTableFlags::empty().bits(), 0);
    assert_eq!(PageTableFlags::all().bits(), FLAGS_MASK);
    assert_eq!(PageTableFlags::default_table().bits(), 3);
    assert_eq!(FLAGS_MASK & ADDR_MASK, 0);
    assert_eq!(FLAGS_MASK & MEMORY_ATTR_MASK, 0);
    assert_eq!(ADDR_MASK & MEMORY_ATTR_MASK, 0);
    let flags = PageTableFlags::valid() | PageTableFlags::af();
    assert_eq!(flags.bits(), 0x401);
    assert_eq!(flags, PageTableFlags::valid().union(PageTableFlags::af()));
    assert!(flags.contains(PageTableFlags::valid()));
    assert!(flags.contains(flags));
    assert!(!flags.contains(PageTableFlags::table_or_page()));
    assert!(!flags.contains(PageTableFlags::default_table()));
    assert_eq!(PageTableFlags::from_bits_truncate(u64::MAX).bits(), FLAGS_MASK);
    assert_eq!(PageTableFlags::from_bits_truncate(0x1234_5403).bits(), 0x403);
}

#[test]
fn entries_decode_as_they_were_encoded() {
    let mut entry = PageTableEntry::new();
    assert!(entry.is_unused());
    assert_eq!(entry.frame(), Err(FrameError::FrameNotPresent));
    assert!(entry.is_block());

    let frame = Frame::<Size4KiB>::of_addr(0x1234_5000);
    entry.set_frame(frame, PageTableFlags::default_table(), PageTableAttribute::new(0, 0, 0));
    assert_eq!(entry.entry, 0x1234_5003);
    assert!(!entry.is_unused());
    assert!(!entry.is_block());
    assert_eq!(entry.frame(), Ok(frame));
    assert_eq!(entry.addr(), PhysAddr::new(0x1234_5000));
    assert_eq!(entry.flags(), PageTableFlags::default_table());
    assert_eq!(entry.attr(), PageTableAttribute { mask: 0x31c, value: 0 });

    entry.set_block::<Size2MiB>(
        PhysAddr::new(0x4030_1000),
        PageTableFlags::valid() | PageTableFlags::af(),
        MairDevice::attr_value(),
    );
    assert_eq!(entry.entry, 0x4020_0000 | 0x401 | 0x204);
    assert!(entry.is_block());
    assert_eq!(entry.frame(), Err(FrameError::HugeFrame));
    assert_eq!(entry.addr(), PhysAddr::new(0x4020_0000));
    assert_eq!(entry.attr().value, 0x204);
    entry.set_block::<Size1GiB>(
        PhysAddr::new(0x7fff_ffff),
        PageTableFlags::valid(),
        MairNormal::attr_value(),
    );
    assert_eq!(entry.entry, 0x4000_0000 | 0x1 | 0x300);

    // Not valid, but in use.
    entry.set_addr(
        PhysAddr::new(0x5000),
        PageTableFlags::table_or_page(),
        MairNormal::attr_value(),
    );
    assert_eq!(entry.entry, 0x5302);
    assert_eq!(entry.frame(), Err(FrameError::FrameNotPresent));
    assert!(!entry.is_unused());

    entry.modify_flags(PageTableFlags::valid() | PageTableFlags::uxn());
    assert_eq!(entry.entry, 0x5300 | 1 | (1 << 54));
    entry.modify_attr(MairNormalNonCacheable::attr_value());
    assert_eq!(entry.entry, 0x5208 | 1 | (1 << 54));
    assert_eq!(entry.addr(), PhysAddr::new(0x5000));
    entry.set_unused();
    assert_eq!(entry.entry, 0);
    assert!(entry.is_unused());
}

#[test]
fn tables_hold_512_entries() {
    let mut table = PageTable::new();
    for index in 0..512 {
        assert!(table.index(PageTableIndex::new(index)).is_unused());
    }
    table.index_mut(PageTableIndex::new(511)).entry = 0x1003;
    table.index_mut(PageTableIndex::new(0)).entry = 0x2003;
    assert_eq!(table.index(PageTableIndex::new(511)).entry, 0x1003);
    assert_eq!(table.index(PageTableIndex::new(0)).entry, 0x2003);
    assert_eq!(table.index(PageTableIndex::new(1)).entry, 0);
    table.clear();
    assert_eq!(table, PageTable::new());
}

#[test]
fn memory_reads_what_was_written() {
    let mut memory = TableMemory::new();
    let here = VirtAddr::new(0x8000);
    let there = VirtAddr::new(0x9000);
    let index = PageTableIndex::new(17);
    assert!(memory.entry(here, index).is_unused());
    memory.set_entry(here, index, PageTableEntry { entry: 0x1003 });
    assert_eq!(memory.entry(here, index).entry, 0x1003);
    assert!(memory.entry(there, index).is_unused());
    assert!(memory.entry(here, PageTableIndex::new(18)).is_unused());
    memory.table_mut(there).index_mut(index).entry = 0x2003;
    assert_eq!(memory.entry(there, index).entry, 0x2003);
    assert_eq!(memory.entry(here, index).entry, 0x1003);
    memory.clear_table(here);
    assert!(memory.entry(here, index).is_unused());
    assert_eq!(memory.entry(there, index).entry, 0x2003);
}

#[test]
fn memory_keeps_a_journal() {
    let mut memory = TableMemory::new();
    let here = VirtAddr::new(0x8000);
    let there = VirtAddr::new(0x9000);
    assert_eq!(memory.take_journal(), vec![]);
    memory.set_entry(here, PageTableIndex::new(17), PageTableEntry { entry: 0x1003 });
    memory.store_barrier();
    memory.clear_table(there);
    memory.table_mut(there).index_mut(PageTableIndex::new(2)).entry = 0x2003;
    let _ = memory.entry(here, PageTableIndex::new(17));
    let journal = memory.take_journal();
    assert_eq!(
        journal,
        vec![
            MemoryOperation::Write { table: here, index: 17, entry: PageTableEntry { entry: 0x1003 } },
            MemoryOperation::StoreBarrier,
            MemoryOperation::Clear { table: there },
            MemoryOperation::Touch { table: there },
        ]
    );
    assert_eq!(journal[0].barrier(), None);
    assert_eq!(
        journal[1].barrier(),
        Some(Instruction::Dsb(Shareability::InnerShareableStore))
    );
    assert_eq!(journal[2].barrier(), None);
    assert_eq!(journal[3].barrier(), None);
    // Taking the journal leaves the tables as they are.
    assert_eq!(memory.take_journal(), vec![]);
    assert_eq!(memory.entry(here, PageTableIndex::new(17)).entry, 0x1003);
    assert_eq!(memory.entry(there, PageTableIndex::new(2)).entry, 0x2003);
}

#[test]
fn translation_table_base_registers() {
    let mut registers = TranslationTableBase { ttbr0_el1: 0, ttbr1_el1: 0xabcd_0000_dead_b001 };
    assert_eq!(ttbr_el1_read(&registers, 0), Frame::of_addr(0));
    assert_eq!(ttbr_el1_read(&registers, 1), Frame::of_addr(0xdead_b000));
    assert_eq!(ttbr_el1_read(&registers, 2), Frame::of_addr(0));
    assert_eq!(ttbr_el1_read_asid(&registers, 1), (0xabcd, Frame::of_addr(0xdead_b000)));
    assert_eq!(ttbr_el1_read_asid(&registers, 0), (0, Frame::of_addr(0)));
    assert_eq!(ttbr_el1_read_asid(&registers, 7), (0, Frame::of_addr(0)));
    assert_eq!(TranslationTableBase::get_baddr(0xabcd_0000_dead_b001), 0xdead_b000);
    assert_eq!(TranslationTableBase::get_asid(0xabcd_0000_dead_b001), 0xabcd);

    ttbr_el1_write(&mut registers, 1, Frame::of_addr(0x1234_5000));
    assert_eq!(registers, TranslationTableBase { ttbr0_el1: 0, ttbr1_el1: 0x1234_5000 });
    ttbr_el1_write_asid(&mut registers, 0, 0xbeef, Frame::of_addr(0x1234_5000));
    assert_eq!(
        registers,
        TranslationTableBase { ttbr0_el1: 0xbeef_0000_1234_5000, ttbr1_el1: 0x1234_5000 }
    );
    assert_eq!(ttbr_el1_read_asid(&registers, 0), (0xbeef, Frame::of_addr(0x1234_5000)));
    ttbr_el1_write(&mut registers, 3, Frame::of_addr(0x7000));
    ttbr_el1_write_asid(&mut registers, 3, 1, Frame::of_addr(0x7000));
    assert_eq!(
        registers,
        TranslationTableBase { ttbr0_el1: 0xbeef_0000_1234_5000, ttbr1_el1: 0x1234_5000 }
    );
    // A base address beyond 48 bits loses its upper bits.
    assert_eq!(TranslationTableBase::with_baddr(0xffff_0000_0000_1000), 0x1000);
    assert_eq!(
        TranslationTableBase::with_asid_and_baddr(1, 0xffff_0000_0000_1001),
        0x0001_0000_0000_1000
    );
}

#[test]
fn invalidation_is_fenced() {
    let store = Instruction::Dsb(Shareability::InnerShareableStore);
    let done = Instruction::Dsb(Shareability::InnerShareable);
    assert_eq!(invalidate_tlb_all(), [store, Instruction::TlbiVmalle1is, done, Instruction::Isb]);
    assert_eq!(
        local_invalidate_tlb_all(),
        [
            Instruction::Dsb(Shareability::NonShareableStore),
            Instruction::TlbiVmalle1,
            Instruction::Dsb(Shareability::NonShareable),
            Instruction::Isb
        ]
    );
    assert_eq!(
        invalidate_tlb_vaddr(VirtAddr::new(0xffff_0000_1234_5678)),
        [store, Instruction::TlbiVaae1is(0xf_fff0_0001_2345), done, Instruction::Isb]
    );
    assert_eq!(address_translate(0x1234), [Instruction::AtS1e1r(0x1234), Instruction::Isb]);
}

#[test]
fn barriers_name_their_domain() {
    assert_eq!(dmb(SY), Instruction::Dmb(Shareability::FullSystem));
    assert_eq!(dmb(ISH), Instruction::Dmb(Shareability::InnerShareable));
    assert_eq!(dmb(ISHST), Instruction::Dmb(Shareability::InnerShareableStore));
    assert_eq!(dsb(SY), Instruction::Dsb(Shareability::FullSystem));
    assert_eq!(dsb(ISH), Instruction::Dsb(Shareability::InnerShareable));
    assert_eq!(dsb(ISHST), Instruction::Dsb(Shareability::InnerShareableStore));
    assert_eq!(isb(SY), Instruction::Isb);
    assert_eq!(halt(), Instruction::Wfi);
    assert_eq!(cpuid(0x8000_0003), 3);
    assert_eq!(cpuid(0x8000_0f00), 0);
    assert_eq!(cpuid(6), 2);
}

#[test]
fn interrupt_controller_registers() {
    let mut ctlr = icc_ctlr_el1::Reg::new(0);
    assert!(!ctlr.get_eoi_mode());
    ctlr.set_eoi_mode(true);
    assert_eq!(ctlr.get(), 2);
    assert!(ctlr.get_eoi_mode());
    ctlr.set(0xffff_fffd);
    assert!(!ctlr.get_eoi_mode());
    ctlr.set(1);
    ctlr.set_eoi_mode(false);
    assert_eq!(ctlr.get(), 0);

    let mut eoir = icc_eoir1_el1::Reg::new(0xffff_ffff);
    eoir.mark_completed(0x1234_5678);
    assert_eq!(eoir.get(), 0x34_5678);
    eoir.mark_completed(30);
    assert_eq!(eoir.get(), 30);

    assert_eq!(icc_iar1_el1::Reg::new(0xab12_3456).get_pending_interrupt(), 0x12_3456);
    assert_eq!(icc_iar1_el1::Reg::new(1023).get_pending_interrupt(), 1023);

    let mut group = icc_igrpen1_el1::Reg::new(2);
    assert!(!group.get_enable());
    group.set_enable(true);
    assert_eq!(group.get(), 1);
    assert!(group.get_enable());
    group.set_enable(false);
    assert_eq!(group.get(), 0);

    let mut mask = icc_pmr_el1::Reg::new(0x1ff);
    assert_eq!(mask.get_priority(), 0xff);
    mask.set_priority(0x1f0);
    assert_eq!(mask.get(), 0xf0);
    assert_eq!(mask.get_priority(), 0xf0);

    let mut enable = icc_sre_el1::Reg::new(6);
    assert!(!enable.get_sre());
    enable.set_sre(true);
    assert_eq!(enable.get(), 1);
    assert!(enable.get_sre());
    enable.set_sre(false);
    assert_eq!(enable.get(), 0);

    let cache = ctr_el0::Reg::new(0x8444_c004);
    assert_eq!(cache.get(), 0x8444_c004);
    assert_eq!(cache.get_dminline(), 4);
    assert_eq!(cache.get_iminline(), 4);
    assert_eq!(ctr_el0::Reg::new(0x000a_0003).get_dminline(), 0xa);
    assert_eq!(ctr_el0::Reg::new(0x000a_0003).get_iminline(), 3);
}

#[test]
fn user_context_registers() {
    let mut context = UserContext {
        general: GeneralRegs {
            x0: 10,
            x1: 11,
            x2: 12,
            x3: 13,
            x4: 14,
            x5: 15,
            x8: 64,
            ..Default::default()
        },
        sp: 0x10000,
        elr: 0x1000,
        ..Default::default()
    };
    assert_eq!(context.get_syscall_num(), 64);
    assert_eq!(context.get_syscall_ret(), 10);
    assert_eq!(context.get_syscall_args(), [10, 11, 12, 13, 14, 15]);
    assert_eq!(context.get_sp(), 0x10000);
    context.set_syscall_ret(99);
    assert_eq!(context.get_syscall_ret(), 99);
    assert_eq!(context.get_syscall_args(), [99, 11, 12, 13, 14, 15]);
    context.set_ip(0x2000);
    context.set_sp(0x20000);
    context.set_tls(0x30000);
    assert_eq!(
        context,
        UserContext {
            general: GeneralRegs {
                x0: 99,
                x1: 11,
                x2: 12,
                x3: 13,
                x4: 14,
                x5: 15,
                x8: 64,
                ..Default::default()
            },
            sp: 0x20000,
            elr: 0x2000,
            tpidr: 0x30000,
            ..Default::default()
        }
    );
    assert_eq!(context.get_sp(), 0x20000);
    let frame = TrapFrame::default();
    assert_eq!(frame.elr, 0);
    assert_eq!(frame.general, GeneralRegs::default());
}

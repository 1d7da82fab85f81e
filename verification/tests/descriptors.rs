use kernel::addr::virt_addr::VirtAddr;
use kernel::arch::x86_64::desc_table::{CpuRingMode, DescTablePtr};
use kernel::arch::x86_64::descs::gdt::{
    Descriptor, GlobalDescTable as DescGdt,
};
use kernel::arch::x86_64::global_desc_table::{
    GlobalDescTable, Segment, SegmentFlagsBits, SegmentSelector,
};
use kernel::arch::x86_64::interrupts::intr_stack_frame::IntrStackFrame;
use kernel::arch::x86_64::intr_desc_entry::Entry;
use kernel::arch::x86_64::intr_desc_table::IntrDescTable;
use kernel::arch::x86_64::task_state_segment::TaskStateSegment;
use kernel::arch::x86_64::vm::hw_page_table_entry::HwPageTableEntry;

#[test]
fn selectors_round_trip() {
    let selector = SegmentSelector::new(5, CpuRingMode::Ring3);
    assert_eq!(selector.as_raw(), 43);
    assert_eq!(selector.array_index(), 5);
    assert_eq!(selector.cpu_ring_mode(), CpuRingMode::Ring3);
    let mut changed = selector;
    changed.set_cpu_ring_mode(CpuRingMode::Ring0);
    assert_eq!(changed.as_raw(), 40);
    assert_eq!(changed.array_index(), 5);
    assert_eq!(SegmentSelector::from(SegmentSelector::C_INDEX_TSS).as_raw(), 48);
    assert_eq!(CpuRingMode::from(2), CpuRingMode::Ring2);
    assert_eq!(CpuRingMode::Ring1.as_u16(), 1);
}

#[test]
fn gdt_add_entries() {
    let mut gdt = GlobalDescTable::new();
    let code = gdt.add_entry(Segment::kernel_code_segment());
    assert_eq!(code.as_raw(), 8);
    let user = gdt.add_entry(Segment::user_data_segment());
    assert_eq!(user.as_raw(), 16 | 3);
    let tss = gdt.add_entry(Segment::tss_segment(0xffff_8000_1234_5678));
    assert_eq!(tss.as_raw(), 24);
    assert_eq!(gdt.m_next_free_desc, 5);
    assert_eq!(gdt.m_desc_table[4], 0xffff_8000);
    let ptr = gdt.table_ptr(VirtAddr::from(0x1000));
    assert_eq!(ptr, DescTablePtr::new(39, VirtAddr::from(0x1000)));
}

#[test]
fn segment_flags_bits() {
    assert_eq!(SegmentFlagsBits::Present.into(), 47);
    assert_eq!(SegmentFlagsBits::try_from(53), Ok(SegmentFlagsBits::LongMode));
    assert_eq!(SegmentFlagsBits::try_from(46), Err(()));
    assert_eq!(SegmentFlagsBits::try_from(16), Err(()));
    assert_eq!(SegmentFlagsBits::Granularity.raw_bit(), 1 << 55);
}

#[test]
fn descriptor_gdt_starts_empty() {
    let mut gdt = DescGdt::new();
    let selector = gdt.add_entry(Descriptor::kernel_code_segment());
    assert_eq!(selector.as_raw(), 0);
    assert_eq!(gdt.m_desc_table[0], 0x00a0_9b00_000f_ffff);
    gdt.add_entry(Descriptor::kernel_data_segment());
    assert_eq!(gdt.m_desc_table[1], 0x00c0_9300_000f_ffff);
}

#[test]
fn idt_entries_point_to_their_routines() {
    let entry = Entry::with_handler(0xffff_8000_1234_5678, 8, 0x8e00);
    assert_eq!(entry.m_ptr_low, 0x5678);
    assert_eq!(entry.m_ptr_middle, 0x1234);
    assert_eq!(entry.m_ptr_high, 0xffff_8000);
    let mut idt = IntrDescTable::new_uninitialized();
    assert_eq!(idt.m_intr_service_routines[7], Entry::zero());
    let isrs: Vec<u64> = (0..256u64).map(|i| 0x1000 + i).collect();
    let ptr = idt.init_and_flush(&isrs, 8, VirtAddr::from(0x5000));
    assert_eq!(ptr.m_size_limit, 4095);
    assert_eq!(ptr.m_base_ptr, VirtAddr::from(0x5000));
    assert_eq!(idt.m_intr_service_routines[255], Entry::with_handler(0x10ff, 8, 0x8000));
}

#[test]
fn task_state_segment_is_zeroed() {
    let mut tss = TaskStateSegment::new();
    assert_eq!(tss.io_map_base(), 0);
    assert_eq!(tss.stacks_per_privilege().len(), 3);
    assert_eq!(tss.full_intr_stack_table().len(), 7);
    tss.full_intr_stack_table_mut()[2] = VirtAddr::from(0x9000);
    assert_eq!(tss.full_intr_stack_table()[2].deref(), 0x9000);
}

#[test]
fn page_table_entry_flags() {
    let mut entry = HwPageTableEntry::new();
    assert!(entry.is_unused());
    entry.set_raw_phys_frame(0x1234_5000);
    entry.set_present(true);
    entry.set_writeable(true);
    entry.set_no_execute(true);
    assert!(entry.is_present() && entry.is_writeable() && entry.is_no_execute());
    assert!(!entry.is_user());
    assert_eq!(entry.raw_phys_frame(), 0x1234_5000);
    assert_eq!(
        entry.flag_names(),
        vec!["is_present", "is_readable", "is_writeable", "is_cacheable", "is_no_execute"]
    );
    let text: String = entry.debug_text().iter().collect();
    assert_eq!(
        text,
        "HwPageTableEntry { m_phys_addr: 0x0000_0000_1234_5000, m_flags: is_present | is_readable \
         | is_writeable | is_cacheable | is_no_execute }"
    );
    entry.set_present(false);
    assert!(!entry.is_present());
    assert_eq!(entry.raw_phys_frame(), 0x1234_5000);
    entry.set_unused();
    assert!(entry.is_unused());
}

#[test]
fn stack_frame_origin() {
    let frame = IntrStackFrame {
        m_r15: 0, m_r14: 0, m_r13: 0, m_r12: 0, m_r11: 0, m_r10: 0, m_r9: 0, m_r8: 0,
        m_rbp: 0, m_rdi: 0, m_rsi: 0, m_rdx: 0, m_rcx: 0, m_rbx: 0, m_rax: 0,
        m_intr_num: 14, m_error_code: 0, m_rip: 0, m_cs: 8, m_rflags: 0x202,
        m_usr_sp: 0, m_usr_ss: 0, _unused_alignment: 0,
    };
    assert!(frame.is_from_user_space());
    let kernel = IntrStackFrame { m_rflags: 0x2, ..frame };
    assert!(!kernel.is_from_user_space());
}

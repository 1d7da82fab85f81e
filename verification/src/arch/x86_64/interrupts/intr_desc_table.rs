//! x86_64 Interrupt descriptor table, filled when constructed
use vstd::prelude::*;
use crate::arch::x86_64::desc_table::CpuRingMode;
use crate::arch::x86_64::global_desc_table::SegmentSelector;
use crate::arch::x86_64::intr_desc_entry::{Entry, spec_entry};


verus! {

/// Number of entries of the interrupt descriptor table
pub const IDT_ENTRIES_COUNT: usize = 256;

/// Options of the entries: present, ring 0, 64 bit interrupt gate
pub const ENTRY_OPTIONS: u16 = 0x8e00;

/// Selector of the kernel code segment in the GDT
pub const KERN_CODE_SELECTOR: u16 = 8;

/// x86_64 per CPU interrupt descriptor table
pub struct IntrDescTable {
    pub m_intr_service_routines: Vec<Entry>,
}

impl IntrDescTable {
    /// Constructs the table whose entry `i` points to the service routine at
    /// `isr_addrs[i]`
    pub fn new(isr_addrs: &[u64]) -> (r: Self)
        requires
            isr_addrs@.len() == IDT_ENTRIES_COUNT,
        ensures
            r.m_intr_service_routines@.len() == IDT_ENTRIES_COUNT,
            forall|i: int|
                0 <= i < IDT_ENTRIES_COUNT ==> #[trigger] r.m_intr_service_routines@[i]
                    == spec_entry(isr_addrs@[i], KERN_CODE_SELECTOR, ENTRY_OPTIONS),
    {
        let mut entries: Vec<Entry> = Vec::new();
        let mut i: usize = 0;
        while i < IDT_ENTRIES_COUNT
            invariant
                isr_addrs@.len() == IDT_ENTRIES_COUNT,
                i <= IDT_ENTRIES_COUNT,
                entries@.len() == i,
                forall|j: int|
                    0 <= j < i ==> #[trigger] entries@[j] == spec_entry(
                        isr_addrs@[j],
                        KERN_CODE_SELECTOR,
                        ENTRY_OPTIONS,
                    ),
            decreases IDT_ENTRIES_COUNT - i,
        {
            entries.push(Self::make_entry(isr_addrs[i]));
            i = i + 1;
        }
        Self { m_intr_service_routines: entries }
    }

    /// Constructs the entry for the service routine at `isr_fn_addr`, to run
    /// in the kernel code segment at ring 0
    pub fn make_entry(isr_fn_addr: u64) -> (r: Entry)
        ensures
            r == spec_entry(isr_fn_addr, KERN_CODE_SELECTOR, ENTRY_OPTIONS),
    {
        /* current GDT selector for code-segment */
        let kern_code_selector = SegmentSelector::from(SegmentSelector::C_INDEX_KERN_CODE);
        let selector = kern_code_selector.as_raw() as u16;
        assert(selector == 8) by (bit_vector)
            requires
                selector == ((1u16 << 3u16) | 0u16),
        ;
        /* set the entry options: ring 0 in the bits 13..15, then present */
        let ring = CpuRingMode::Ring0.as_u16();
        let base_options: u16 = 0b1110_0000_0000;
        let entry_options = (base_options & !(0b11u16 << 13u16)) | (ring << 13u16) | (1u16
            << 15u16);
        assert(entry_options == 0x8e00) by (bit_vector)
            requires
                ring == 0,
                base_options == 0b1110_0000_0000u16,
                entry_options == (base_options & !(0b11u16 << 13u16)) | (ring << 13u16) | (1u16
                    << 15u16),
        ;
        Entry::with_handler(isr_fn_addr, selector, entry_options)
    }
}

} // verus!

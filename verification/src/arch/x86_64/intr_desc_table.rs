//! x86_64 Interrupt descriptor table, filled after construction
use vstd::prelude::*;
use crate::addr::virt_addr::VirtAddr;
use crate::arch::x86_64::desc_table::{CpuRingMode, DescTablePtr};
use crate::arch::x86_64::intr_desc_entry::{Entry, spec_entry};

verus! {

/// Number of entries of the interrupt descriptor table
pub const IDT_ENTRIES_COUNT: usize = 256;

/// Options of the entries: present, ring 0
pub const ENTRY_OPTIONS: u16 = 0x8000;

/// x86_64 per CPU interrupt descriptor table
pub struct IntrDescTable {
    pub m_intr_service_routines: Vec<Entry>,
}

impl IntrDescTable {
    /// Constructs an `IntrDescTable` whose entries are all zero
    pub fn new_uninitialized() -> (r: Self)
        ensures
            r.m_intr_service_routines@.len() == IDT_ENTRIES_COUNT,
            forall|i: int|
                0 <= i < IDT_ENTRIES_COUNT ==> #[trigger] r.m_intr_service_routines@[i] == spec_entry(
                    0,
                    0,
                    0,
                ),
    {
        let mut entries: Vec<Entry> = Vec::new();
        let mut i: usize = 0;
        while i < IDT_ENTRIES_COUNT
            invariant
                i <= IDT_ENTRIES_COUNT,
                entries@.len() == i,
                forall|j: int| 0 <= j < i ==> #[trigger] entries@[j] == spec_entry(0, 0, 0),
            decreases IDT_ENTRIES_COUNT - i,
        {
            let e = Entry::zero();
            assert(e == spec_entry(0, 0, 0)) by {
                assert((0u64 >> 16u64) == 0u64 && (0u64 >> 32u64) == 0u64) by (bit_vector);
            }
            entries.push(e);
            i = i + 1;
        }
        Self { m_intr_service_routines: entries }
    }

    /// Fills the table: the entry `i` points to the service routine at
    /// `isr_addrs[i]`, in the code segment of `code_segment_selector`; returns
    /// the pointer that `lidt` loads for the table placed at `table_base`:
    /// its 16 bytes entries, less one, and its address
    pub fn init_and_flush(
        &mut self,
        isr_addrs: &[u64],
        code_segment_selector: u16,
        table_base: VirtAddr,
    ) -> (r: DescTablePtr)
        requires
            old(self).m_intr_service_routines@.len() == IDT_ENTRIES_COUNT,
            isr_addrs@.len() == IDT_ENTRIES_COUNT,
        ensures
            r.m_size_limit == IDT_ENTRIES_COUNT * 16 - 1,
            r.m_base_ptr == table_base,
            final(self).m_intr_service_routines@.len() == IDT_ENTRIES_COUNT,
            forall|i: int|
                0 <= i < IDT_ENTRIES_COUNT ==> #[trigger] final(self).m_intr_service_routines@[i]
                    == spec_entry(isr_addrs@[i], code_segment_selector, ENTRY_OPTIONS),
    {
        let mut i: usize = 0;
        while i < IDT_ENTRIES_COUNT
            invariant
                isr_addrs@.len() == IDT_ENTRIES_COUNT,
                i <= IDT_ENTRIES_COUNT,
                self.m_intr_service_routines@.len() == IDT_ENTRIES_COUNT,
                forall|j: int|
                    0 <= j < i ==> #[trigger] self.m_intr_service_routines@[j] == spec_entry(
                        isr_addrs@[j],
                        code_segment_selector,
                        ENTRY_OPTIONS,
                    ),
            decreases IDT_ENTRIES_COUNT - i,
        {
            let entry = Self::make_entry(isr_addrs[i], code_segment_selector);
            self.m_intr_service_routines.set(i, entry);
            i = i + 1;
        }
        DescTablePtr::new((IDT_ENTRIES_COUNT * 16 - 1) as u16, table_base)
    }

    /// Constructs the entry for the service routine at `isr_fn_addr` in the
    /// code segment of `code_segment_selector`
    pub fn make_entry(isr_fn_addr: u64, code_segment_selector: u16) -> (r: Entry)
        ensures
            r == spec_entry(isr_fn_addr, code_segment_selector, ENTRY_OPTIONS),
    {
        /* ring 0 in the bits 13..15, then present */
        let ring = CpuRingMode::Ring0.as_u16();
        let base_options: u16 = 0;
        let entry_options = (base_options & !(0b11u16 << 13u16)) | (ring << 13u16) | (1u16
            << 15u16);
        assert(entry_options == 0x8000) by (bit_vector)
            requires
                ring == 0,
                base_options == 0u16,
                entry_options == (base_options & !(0b11u16 << 13u16)) | (ring << 13u16) | (1u16
                    << 15u16),
        ;
        Entry::with_handler(isr_fn_addr, code_segment_selector, entry_options)
    }
}

} // verus!

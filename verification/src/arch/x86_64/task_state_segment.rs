//! x86_64 Task State Segment
use vstd::prelude::*;
use crate::addr::virt_addr::VirtAddr;

verus! {

/// x86_64 task state segment: the stack pointers used when the privilege
/// level changes, the interrupt stack table and the I/O map base
#[derive(Clone, Copy)]
pub struct TaskStateSegment {
    pub _reserved_field_1: u32,
    pub m_stacks_per_privilege: [VirtAddr; 3],
    pub _reserved_field_2: u32,
    pub m_full_intr_stack_table: [VirtAddr; 7],
    pub _reserved_field_3: u32,
    pub _reserved_field_4: u32,
    pub _reserved_field_5: u16,
    pub m_io_map_base: u16,
}

impl TaskStateSegment {
    /// Constructs an empty `TaskStateSegment`: every field is zero
    pub fn new() -> (r: Self)
        ensures
            forall|i: int| 0 <= i < 3 ==> (#[trigger] r.m_stacks_per_privilege@[i])@ == 0,
            forall|i: int| 0 <= i < 7 ==> (#[trigger] r.m_full_intr_stack_table@[i])@ == 0,
            r.m_io_map_base == 0,
            r._reserved_field_1 == 0,
            r._reserved_field_2 == 0,
            r._reserved_field_3 == 0,
            r._reserved_field_4 == 0,
            r._reserved_field_5 == 0,
    {
        let null = VirtAddr::null();
        Self {
            _reserved_field_1: 0,
            m_stacks_per_privilege: [null, null, null],
            _reserved_field_2: 0,
            m_full_intr_stack_table: [null, null, null, null, null, null, null],
            _reserved_field_3: 0,
            _reserved_field_4: 0,
            _reserved_field_5: 0,
            m_io_map_base: 0,
        }
    }

    /// Returns the canonical stack pointers for the privilege levels 0 to 2
    pub fn stacks_per_privilege(&self) -> (r: &[VirtAddr])
        ensures
            r@ == self.m_stacks_per_privilege@,
    {
        self.m_stacks_per_privilege.as_slice()
    }

    /// Returns the mutable stack pointers for the privilege levels 0 to 2
    pub fn stack_per_privilege_mut(&mut self) -> (r: &mut [VirtAddr])
        ensures
            r@ == old(self).m_stacks_per_privilege@,
            final(self).m_stacks_per_privilege@ == final(r)@,
            final(self).m_full_intr_stack_table == old(self).m_full_intr_stack_table,
            final(self).m_io_map_base == old(self).m_io_map_base,
    {
        &mut self.m_stacks_per_privilege
    }

    /// Returns the canonical interrupt stack pointers
    pub fn full_intr_stack_table(&self) -> (r: &[VirtAddr])
        ensures
            r@ == self.m_full_intr_stack_table@,
    {
        self.m_full_intr_stack_table.as_slice()
    }

    /// Returns the mutable interrupt stack pointers
    pub fn full_intr_stack_table_mut(&mut self) -> (r: &mut [VirtAddr])
        ensures
            r@ == old(self).m_full_intr_stack_table@,
            final(self).m_full_intr_stack_table@ == final(r)@,
            final(self).m_stacks_per_privilege == old(self).m_stacks_per_privilege,
            final(self).m_io_map_base == old(self).m_io_map_base,
    {
        &mut self.m_full_intr_stack_table
    }

    /// Returns the base for the x86 I/O map
    pub fn io_map_base(&self) -> (r: u16)
        ensures
            r == self.m_io_map_base,
    {
        self.m_io_map_base
    }
}

} // verus!

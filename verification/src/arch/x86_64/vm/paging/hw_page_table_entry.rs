//! x86_64 hardware page table entry of the earlier paging interface, of
//! which only the construction is implemented
use vstd::prelude::*;

verus! {

/// x86_64 page table entry
pub struct HwPageTableEntry {
    pub m_entry_value: u64,
}

impl HwPageTableEntry {
    /// Constructs an unused entry
    pub fn new() -> (r: Self)
        ensures
            r.m_entry_value == 0,
    {
        Self { m_entry_value: 0 }
    }
}

} // verus!

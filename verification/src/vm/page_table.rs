//! Page table levels and indexes
use vstd::prelude::*;

verus! {

/// Number of entries of a page table
pub const PT_ENTRIES_COUNT: u16 = 512;

/// The four levels of the x86_64 page tables
#[derive(Clone, Copy, PartialEq, Eq, Structural, Debug)]
pub enum PageTableLevel {
    Root,
    OneGiB,
    TwoMiB,
    FourKiB,
}

/// Index of an entry inside a page table, always below 512
#[derive(Clone, Copy, PartialEq, Eq, Structural, Debug)]
pub struct PageTableIndex {
    m_index: u16,
}

impl View for PageTableIndex {
    type V = u16;

    closed spec fn view(&self) -> u16 {
        self.m_index
    }
}

impl PageTableIndex {
    #[verifier::type_invariant]
    closed spec fn in_table(&self) -> bool {
        self.m_index < PT_ENTRIES_COUNT
    }

    /// Constructs a `PageTableIndex` from a raw index below 512
    pub fn new(index: u16) -> (r: Self)
        requires
            index < PT_ENTRIES_COUNT,
        ensures
            r@ == index,
    {
        Self { m_index: index }
    }

    /// Returns the raw index
    pub fn as_u16(&self) -> (r: u16)
        ensures
            r == self@,
            r < PT_ENTRIES_COUNT,
    {
        proof {
            use_type_invariant(self);
        }
        self.m_index
    }
}

} // verus!

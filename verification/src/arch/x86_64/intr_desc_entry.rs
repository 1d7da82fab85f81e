//! x86_64 interrupt descriptor table entry
use vstd::prelude::*;

verus! {

/// IDT entry descriptor
#[derive(Clone, Copy, PartialEq, Eq, Structural, Debug)]
pub struct Entry {
    pub m_ptr_low: u16,
    pub m_gdt_selector: u16,
    pub m_options: u16,
    pub m_ptr_middle: u16,
    pub m_ptr_high: u32,
    pub m_reserved: u32,
}

/// The entry that points to the service routine at `isr_addr`, with the
/// given code segment selector and options
pub open spec fn spec_entry(isr_addr: u64, gdt_selector: u16, options: u16) -> Entry {
    Entry {
        m_ptr_low: isr_addr as u16,
        m_gdt_selector: gdt_selector,
        m_options: options,
        m_ptr_middle: (isr_addr >> 16u64) as u16,
        m_ptr_high: (isr_addr >> 32u64) as u32,
        m_reserved: 0,
    }
}

impl Entry {
    /// Constructs the all zero entry
    pub fn zero() -> (r: Self)
        ensures
            r == (Entry {
                m_ptr_low: 0,
                m_gdt_selector: 0,
                m_options: 0,
                m_ptr_middle: 0,
                m_ptr_high: 0,
                m_reserved: 0,
            }),
    {
        Entry {
            m_ptr_low: 0,
            m_gdt_selector: 0,
            m_options: 0,
            m_ptr_middle: 0,
            m_ptr_high: 0,
            m_reserved: 0,
        }
    }

    /// Builds the entry that points to the service routine at `isr_addr`
    pub fn with_handler(isr_addr: u64, gdt_selector: u16, options: u16) -> (r: Self)
        ensures
            r == spec_entry(isr_addr, gdt_selector, options),
    {
        Entry {
            m_ptr_low: isr_addr as u16,
            m_gdt_selector: gdt_selector,
            m_options: options,
            m_ptr_middle: (isr_addr >> 16u64) as u16,
            m_ptr_high: (isr_addr >> 32u64) as u32,
            m_reserved: 0,
        }
    }

    /// The address of the service routine that the entry points to
    pub open spec fn handler_addr(self) -> u64 {
        self.m_ptr_low as u64 | (self.m_ptr_middle as u64) << 16u64 | (self.m_ptr_high as u64)
            << 32u64
    }
}

/// An entry gives back the whole address of its service routine
pub proof fn lemma_entry_holds_handler_addr(isr_addr: u64, gdt_selector: u16, options: u16)
    ensures
        spec_entry(isr_addr, gdt_selector, options).handler_addr() == isr_addr,
{
    let lo = isr_addr as u16;
    let mid = (isr_addr >> 16u64) as u16;
    let hi = (isr_addr >> 32u64) as u32;
    assert(lo as u64 | (mid as u64) << 16u64 | (hi as u64) << 32u64 == isr_addr) by (bit_vector)
        requires
            lo == isr_addr as u16,
            mid == (isr_addr >> 16u64) as u16,
            hi == (isr_addr >> 32u64) as u32,
    ;
}

} // verus!

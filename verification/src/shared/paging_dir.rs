//! x86_64 page directory support
use vstd::prelude::*;
use crate::addr::phys::PhysAddr;
use crate::mem::frame::PhysFrame;
use crate::vm::page_table::PageTableLevel;

verus! {

/// x86_64 page table entries, their flags and the page table levels
pub struct HwPageDirSupport;

impl HwPageDirSupport {
    /* page table entry flags: the bit numbers */
    pub const PTE_PRESENT: u64 = 0;
    pub const PTE_READABLE: u64 = 9;
    pub const PTE_WRITEABLE: u64 = 1;
    pub const PTE_GLOBAL: u64 = 8;
    pub const PTE_HUGE: u64 = 7;
    pub const PTE_ACCESSED: u64 = 5;
    pub const PTE_DIRTY: u64 = 6;
    pub const PTE_NO_EXECUTE: u64 = 63;
    pub const PTE_USER: u64 = 2;

    /// Mask of the frame address in a page table entry
    pub const PTE_ADDR_MASK: u64 = 0x000F_FFFF_FFFF_F000;

    /// Entries of a page table
    pub const PT_ENTRIES_COUNT: u64 = 512;

    /// The level of the page directory
    pub fn pt_level_pgdir() -> (r: PageTableLevel)
        ensures
            r == PageTableLevel::Root,
    {
        PageTableLevel::Root
    }

    /// The level whose entries map 1 GiB pages
    pub fn pt_level_1gb() -> (r: PageTableLevel)
        ensures
            r == PageTableLevel::OneGiB,
    {
        PageTableLevel::OneGiB
    }

    /// The level whose entries map 2 MiB pages
    pub fn pt_level_2mb() -> (r: PageTableLevel)
        ensures
            r == PageTableLevel::TwoMiB,
    {
        PageTableLevel::TwoMiB
    }

    /// The level whose entries map 4 KiB pages
    pub fn pt_level_4kb() -> (r: PageTableLevel)
        ensures
            r == PageTableLevel::FourKiB,
    {
        PageTableLevel::FourKiB
    }

    /// Returns the frame of the active page directory, which the CR3
    /// register value `cr3_value` holds
    pub fn active_page_dir_frame(cr3_value: u64) -> (r: PhysFrame)
        ensures
            r@ == cr3_value & Self::PTE_ADDR_MASK,
    {
        let raw = cr3_value & Self::PTE_ADDR_MASK;
        assert(raw < 0x10_0000_0000_0000 && raw % 4096 == 0) by (bit_vector)
            requires
                raw == cr3_value & 0x000F_FFFF_FFFF_F000u64,
        ;
        PhysAddr::new(raw).containing_frame()
    }

    /// Returns the CR3 register value that activates the page directory at
    /// `phys_frame`
    pub fn activate_page_dir_value(phys_frame: PhysFrame) -> (r: u64)
        ensures
            r == phys_frame@,
    {
        phys_frame.start_addr().as_usize()
    }
}

} // verus!

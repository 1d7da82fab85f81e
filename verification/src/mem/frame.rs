//! 4 KiB physical frames
use vstd::prelude::*;
use crate::addr::phys::PhysAddr;
use crate::align::lemma_page_sizes_are_powers_of_two;
use crate::arch::x86_64::addr::phys::PHYS_ADDR_SPAN;

verus! {

/// Size in bytes of a 4 KiB page
pub const PAGE_4KIB_SIZE: u64 = 4096;

/// Size in bytes of a 2 MiB page
pub const PAGE_2MIB_SIZE: u64 = 0x20_0000;

/// A 4 KiB physical frame, identified by its first address
#[derive(Clone, Copy, PartialEq, Eq, Structural, Debug)]
pub struct PhysFrame {
    pub m_start_addr: PhysAddr,
}

impl View for PhysFrame {
    type V = u64;

    open spec fn view(&self) -> u64 {
        self.m_start_addr@
    }
}

impl PhysFrame {
    /// Returns the frame that contains `addr`
    pub fn of_addr(addr: PhysAddr) -> (r: Self)
        ensures
            r@ == addr@ - addr@ % PAGE_4KIB_SIZE,
    {
        proof {
            lemma_page_sizes_are_powers_of_two();
        }
        Self { m_start_addr: addr.align_down(PAGE_4KIB_SIZE) }
    }

    /// Returns the first address of this frame
    pub fn start_addr(&self) -> (r: PhysAddr)
        ensures
            r == self.m_start_addr,
    {
        self.m_start_addr
    }

    /// Returns the range of frames from `start` (included) to `end` (excluded)
    pub fn range_of(start: Self, end: Self) -> (r: PhysFrameRange)
        ensures
            r.start == start,
            r.end == end,
    {
        PhysFrameRange { start, end }
    }
}

impl PhysAddr {
    /// Returns the 4 KiB frame that contains this address
    pub fn containing_frame(&self) -> (r: PhysFrame)
        ensures
            r@ == self@ - self@ % PAGE_4KIB_SIZE,
    {
        PhysFrame::of_addr(*self)
    }
}

/// Range of 4 KiB physical frames, `end` excluded
#[derive(Clone, Copy, PartialEq, Eq, Structural, Debug)]
pub struct PhysFrameRange {
    pub start: PhysFrame,
    pub end: PhysFrame,
}

/// The frame whose first address is the start of the 4 KiB page number
/// `index`, truncated to the physical address span
pub open spec fn frame_addr_of_index(index: int) -> int {
    (index * 4096) % (PHYS_ADDR_SPAN as int)
}

} // verus!

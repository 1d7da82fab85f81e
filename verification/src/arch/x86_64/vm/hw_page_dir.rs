//! x86_64 page directory
use vstd::prelude::*;
use crate::addr::phys_addr::PhysAddr;

verus! {

/// Mask of the page directory frame address in the CR3 register
pub const CR3_FRAME_MASK: u64 = 0x000f_ffff_ffff_f000;

/// x86_64 page directory, identified by the physical frame of its root
#[derive(Clone, Copy, PartialEq, Eq, Structural, Debug)]
pub struct HwPageDir {
    pub m_phys_frame: PhysAddr,
}

impl HwPageDir {
    /// Constructs the page directory whose root is at `phys_frame`
    pub fn from_phys_frame(phys_frame: PhysAddr) -> (r: Self)
        ensures
            r.m_phys_frame == phys_frame,
    {
        Self { m_phys_frame: phys_frame }
    }

    /// Returns the page directory that the CR3 register value `cr3_value`
    /// selects
    pub fn current(cr3_value: u64) -> (r: Self)
        ensures
            r.m_phys_frame@ == cr3_value & CR3_FRAME_MASK,
    {
        let frame = cr3_value & CR3_FRAME_MASK;
        let r = Self::from_phys_frame(PhysAddr::from(frame));
        assert(frame & 0x000f_ffff_ffff_ffffu64 == frame) by (bit_vector)
            requires
                frame == cr3_value & 0x000f_ffff_ffff_f000u64,
        ;
        r
    }

    /// Returns the physical frame of the root table
    pub fn root_phys_frame(&self) -> (r: PhysAddr)
        ensures
            r == self.m_phys_frame,
    {
        self.m_phys_frame
    }
}

} // verus!

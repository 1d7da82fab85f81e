//! x86_64 low level CPU descriptors
use vstd::prelude::*;
use crate::addr::virt_addr::VirtAddr;

verus! {

/// x86_64 segmentation descriptor table pointer: the table's size limit and
/// its base address
#[derive(Clone, Copy, PartialEq, Eq, Structural, Debug)]
pub struct DescTablePtr {
    pub m_size_limit: u16,
    pub m_base_ptr: VirtAddr,
}

impl DescTablePtr {
    /// Constructs a `DescTablePtr` from the given values
    pub fn new(limit: u16, base: VirtAddr) -> (r: Self)
        ensures
            r.m_size_limit == limit,
            r.m_base_ptr == base,
    {
        Self { m_size_limit: limit, m_base_ptr: base }
    }
}

/// The x86_64 CPU ring modes
#[derive(Clone, Copy, PartialEq, Eq, Structural, Debug)]
pub enum CpuRingMode {
    /// used for kernel mode
    Ring0,
    /// unused
    Ring1,
    /// unused
    Ring2,
    /// used for user mode
    Ring3,
}

impl CpuRingMode {
    /// The privilege level number of the ring
    pub open spec fn value(self) -> u16 {
        match self {
            CpuRingMode::Ring0 => 0,
            CpuRingMode::Ring1 => 1,
            CpuRingMode::Ring2 => 2,
            CpuRingMode::Ring3 => 3,
        }
    }

    /// Returns the ring of the given privilege level number, which must be
    /// at most 3
    pub fn from(raw_value: u16) -> (r: Self)
        requires
            raw_value <= 3,
        ensures
            r.value() == raw_value,
    {
        match raw_value {
            0 => CpuRingMode::Ring0,
            1 => CpuRingMode::Ring1,
            2 => CpuRingMode::Ring2,
            _ => CpuRingMode::Ring3,
        }
    }

    /// Returns the privilege level number of the ring
    pub fn as_u16(&self) -> (r: u16)
        ensures
            r == self.value(),
    {
        match self {
            CpuRingMode::Ring0 => 0,
            CpuRingMode::Ring1 => 1,
            CpuRingMode::Ring2 => 2,
            CpuRingMode::Ring3 => 3,
        }
    }
}

} // verus!

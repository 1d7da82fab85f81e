//! x86_64 CPU identification
use vstd::prelude::*;

verus! {

/// Identifier of a CPU
pub type CpuId = u32;

/// x86_64 CPU: every CPU is numbered 0 until the APIC numbers them
#[derive(Clone, Copy, PartialEq, Eq, Structural, Debug)]
pub struct HwCpu;

impl HwCpu {
    /// Constructs the bootstrap CPU
    pub fn new_bsp() -> (r: Self)
        ensures
            r == HwCpu,
    {
        HwCpu
    }

    /// Constructs an application CPU
    pub fn new_ap() -> (r: Self)
        ensures
            r == HwCpu,
    {
        HwCpu
    }

    /// Returns the identifier of this CPU
    pub fn id(&self) -> (r: CpuId)
        ensures
            r == 0,
    {
        0
    }

    /// Returns the identifier of the running CPU
    pub fn current_id() -> (r: CpuId)
        ensures
            r == 0,
    {
        0
    }
}

} // verus!

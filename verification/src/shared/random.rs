//! x86_64 random generator of the loader
use vstd::prelude::*;
use crate::arch::x86_64::dev::hw_random::CPUID_ECX_RDRAND;

verus! {

/// The random generator, which relies on the RDRAND instruction
#[derive(Clone, Copy, PartialEq, Eq, Structural, Debug)]
pub struct HwRandomGenerator;

impl HwRandomGenerator {
    /// Constructs the generator on a CPU whose `cpuid` leaf 1 `ecx` register
    /// shows RDRAND support
    pub fn new(cpuid_ecx: u32) -> (r: Self)
        requires
            cpuid_ecx & (1u32 << CPUID_ECX_RDRAND) != 0,
        ensures
            r == HwRandomGenerator,
    {
        HwRandomGenerator
    }
}

} // verus!

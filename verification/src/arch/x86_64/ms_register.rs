//! Model Specific Registers
use vstd::prelude::*;

verus! {

pub struct EfeRegister;

pub struct FsBaseRegister;

pub struct GsBaseRegister;

pub struct KernGsBaseRegister;

/// Generic x86_64 Model Specific Register, identified by its number
pub struct MsRegister {
    pub m_register: u32,
}

impl MsRegister {
    /// Constructs the `MsRegister` of the given number
    pub fn new(register: u32) -> (r: Self)
        ensures
            r.m_register == register,
    {
        Self { m_register: register }
    }

    /// The register of the `syscall` segments
    pub fn new_star() -> (r: Self)
        ensures
            r.m_register == 0xC000_0081,
    {
        Self::new(0xC000_0081)
    }

    /// The register of the `syscall` entry point
    pub fn new_lstar() -> (r: Self)
        ensures
            r.m_register == 0xC000_0082,
    {
        Self::new(0xC000_0082)
    }

    /// The register of the RFLAGS mask that `syscall` applies
    pub fn new_fmask() -> (r: Self)
        ensures
            r.m_register == 0xC000_0084,
    {
        Self::new(0xC000_0084)
    }

    /// Returns the value that the halves `high` and `low` that `rdmsr` gives
    /// make
    pub fn value_of(high: u32, low: u32) -> (r: u64)
        ensures
            r == high as u64 * 0x1_0000_0000 + low as u64,
    {
        let r = (high as u64) << 32u64 | low as u64;
        assert((high as u64) << 32u64 | low as u64 == high as u64 * 0x1_0000_0000 + low as u64)
            by (bit_vector);
        r
    }

    /// Returns the halves `(high, low)` that `wrmsr` takes to write `value`
    pub fn halves_of(value: u64) -> (r: (u32, u32))
        ensures
            r.0 == value / 0x1_0000_0000,
            r.1 == value % 0x1_0000_0000,
    {
        let high = (value >> 32u64) as u32;
        let low = value as u32;
        assert((value >> 32u64) as u32 == value / 0x1_0000_0000 && value as u32 == value
            % 0x1_0000_0000) by (bit_vector);
        (high, low)
    }
}

/// Splitting a value into its halves and joining them back gives the value
pub proof fn lemma_msr_halves_round_trip(value: u64, high: u32, low: u32)
    ensures
        (value / 0x1_0000_0000) * 0x1_0000_0000 + value % 0x1_0000_0000 == value,
        (high as u64 * 0x1_0000_0000 + low as u64) / 0x1_0000_0000 == high,
        (high as u64 * 0x1_0000_0000 + low as u64) % 0x1_0000_0000 == low,
{
    assert((high as u64 * 0x1_0000_0000 + low as u64) / 0x1_0000_0000 == high) by (nonlinear_arith);
    assert((high as u64 * 0x1_0000_0000 + low as u64) % 0x1_0000_0000 == low) by (nonlinear_arith);
}

} // verus!

//! x86_64 physical address implementation used by the `Address` based
//! physical addresses
use vstd::prelude::*;
use crate::addr::AddressErr;

verus! {

/// The physical addresses that x86_64 supports span 52 bits
pub const PHYS_ADDR_SPAN: u64 = 0x10_0000_0000_0000;

/// x86_64 physical address implementation
#[derive(Clone, Copy, PartialEq, Eq, Structural, PartialOrd, Ord, Hash, Debug)]
pub struct HwPhysAddr {
    m_raw_addr: u64,
}

impl View for HwPhysAddr {
    type V = u64;

    closed spec fn view(&self) -> u64 {
        self.m_raw_addr
    }
}

impl HwPhysAddr {
    /// The raw address always fits 52 bits
    #[verifier::type_invariant]
    closed spec fn fits(&self) -> bool {
        self.m_raw_addr < PHYS_ADDR_SPAN
    }

    /// Constructs a `HwPhysAddr` truncating `raw_addr` to 52 bits
    pub fn new(raw_addr: u64) -> (r: Self)
        ensures
            r@ == raw_addr % PHYS_ADDR_SPAN,
    {
        Self { m_raw_addr: raw_addr % PHYS_ADDR_SPAN }
    }

    /// Returns the raw address
    pub fn as_usize(&self) -> (r: u64)
        ensures
            r == self@,
            r < PHYS_ADDR_SPAN,
    {
        proof {
            use_type_invariant(self);
        }
        self.m_raw_addr
    }

    /// Constructs a `HwPhysAddr` when `raw_addr` has none of the bits
    /// 52..64 set, else returns an `AddressErr` holding it
    pub fn try_from(raw_addr: u64) -> (r: Result<Self, AddressErr>)
        ensures
            match r {
                Ok(addr) => raw_addr < PHYS_ADDR_SPAN && addr@ == raw_addr,
                Err(e) => raw_addr >= PHYS_ADDR_SPAN && e == AddressErr(raw_addr),
            },
    {
        let high_bits = raw_addr >> 52u64;
        proof {
            assert(high_bits == 0 <==> raw_addr < 0x10_0000_0000_0000u64) by (bit_vector)
                requires
                    high_bits == raw_addr >> 52u64,
            ;
        }
        if high_bits == 0 {
            Ok(Self { m_raw_addr: raw_addr })
        } else {
            Err(AddressErr(raw_addr))
        }
    }
}

} // verus!

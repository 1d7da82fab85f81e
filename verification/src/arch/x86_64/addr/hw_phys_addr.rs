//! x86_64 physical address implementation
use vstd::prelude::*;

verus! {

/// Mask of the bits that an x86_64 physical address can use (52 bits).
pub const PHYS_ADDR_MASK: u64 = 0x000f_ffff_ffff_ffff;

/// x86_64 physical address implementation: the raw value is truncated to the
/// 52 bits that the architecture supports.
#[derive(Clone, Copy, PartialEq, Eq, Structural, PartialOrd, Ord, Hash, Debug)]
pub struct HwPhysAddr {
    pub m_raw_phys_addr: u64,
}

impl HwPhysAddr {
    /// The highest physical address
    pub const MAX_RAW: u64 = 0x000f_ffff_ffff_ffff;

    /// Constructs the highest `HwPhysAddr`
    pub fn max() -> (r: Self)
        ensures
            r.m_raw_phys_addr == PHYS_ADDR_MASK,
    {
        Self { m_raw_phys_addr: Self::MAX_RAW }
    }

    /// Constructs a `HwPhysAddr` keeping only the low 52 bits of `raw_phys_addr`
    pub fn from(raw_phys_addr: u64) -> (r: Self)
        ensures
            r.m_raw_phys_addr == raw_phys_addr & PHYS_ADDR_MASK,
            r.m_raw_phys_addr == raw_phys_addr % 0x10_0000_0000_0000,
    {
        assert(raw_phys_addr & 0x000f_ffff_ffff_ffff == raw_phys_addr % 0x10_0000_0000_0000)
            by (bit_vector);
        Self { m_raw_phys_addr: raw_phys_addr & PHYS_ADDR_MASK }
    }

    /// Returns the raw address
    pub fn deref(&self) -> (r: u64)
        ensures
            r == self.m_raw_phys_addr,
    {
        self.m_raw_phys_addr
    }

    /// Returns the distance from `start` to `end`, when `start <= end`
    pub fn steps_between(start: &Self, end: &Self) -> (r: Option<u64>)
        ensures
            r == if start.m_raw_phys_addr <= end.m_raw_phys_addr {
                Some((end.m_raw_phys_addr - start.m_raw_phys_addr) as u64)
            } else {
                None::<u64>
            },
    {
        if start.m_raw_phys_addr <= end.m_raw_phys_addr {
            Some(end.m_raw_phys_addr - start.m_raw_phys_addr)
        } else {
            None
        }
    }

    /// Returns `start` moved `count` bytes forward, unless it overflows
    pub fn forward_checked(start: Self, count: u64) -> (r: Option<Self>)
        ensures
            r == if start.m_raw_phys_addr + count <= u64::MAX {
                Some(Self { m_raw_phys_addr: (start.m_raw_phys_addr + count) as u64 })
            } else {
                None::<Self>
            },
    {
        if let Some(checked_raw_phys_addr) = start.m_raw_phys_addr.checked_add(count) {
            Some(Self { m_raw_phys_addr: checked_raw_phys_addr })
        } else {
            None
        }
    }

    /// Returns `start` moved `count` bytes backward, unless it underflows
    pub fn backward_checked(start: Self, count: u64) -> (r: Option<Self>)
        ensures
            r == if start.m_raw_phys_addr >= count {
                Some(Self { m_raw_phys_addr: (start.m_raw_phys_addr - count) as u64 })
            } else {
                None::<Self>
            },
    {
        if let Some(checked_raw_phys_addr) = start.m_raw_phys_addr.checked_sub(count) {
            Some(Self { m_raw_phys_addr: checked_raw_phys_addr })
        } else {
            None
        }
    }
}

} // verus!

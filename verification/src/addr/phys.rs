//! Physical address with the `Address` interface
use vstd::prelude::*;
use crate::align::{align_down, align_up, is_power_of_two, spec_align_down, spec_align_up};
use crate::arch::x86_64::addr::phys::{HwPhysAddr, PHYS_ADDR_SPAN};
use crate::addr::AddressErr;

verus! {

/// Hardware physical address: the raw value always fits the 52 bits that the
/// architecture supports
#[derive(Clone, Copy, PartialEq, Eq, Structural, PartialOrd, Ord, Hash, Debug)]
pub struct PhysAddr {
    pub m_hw_addr: HwPhysAddr,
}

impl View for PhysAddr {
    type V = u64;

    open spec fn view(&self) -> u64 {
        self.m_hw_addr@
    }
}

impl PhysAddr {
    /// Constructs a `PhysAddr` truncating `raw_addr` to 52 bits
    pub fn new(raw_addr: u64) -> (r: Self)
        ensures
            r@ == raw_addr % PHYS_ADDR_SPAN,
    {
        Self { m_hw_addr: HwPhysAddr::new(raw_addr) }
    }

    /// Returns the raw address
    pub fn as_usize(&self) -> (r: u64)
        ensures
            r == self@,
            r < PHYS_ADDR_SPAN,
    {
        self.m_hw_addr.as_usize()
    }

    /// Constructs the null `PhysAddr`
    pub fn new_zero() -> (r: Self)
        ensures
            r@ == 0,
    {
        Self::new(0)
    }

    /// The default `PhysAddr` is the null one
    pub fn default() -> (r: Self)
        ensures
            r@ == 0,
    {
        Self::new_zero()
    }

    /// Returns this address aligned up to `align`
    pub fn align_up(&self, align: u64) -> (r: Self)
        requires
            is_power_of_two(align),
            self@ + align - 1 <= u64::MAX,
        ensures
            r@ == spec_align_up(self@, align) % (PHYS_ADDR_SPAN as int),
    {
        Self::new(align_up(self.as_usize(), align))
    }

    /// Returns this address aligned down to `align`
    pub fn align_down(&self, align: u64) -> (r: Self)
        requires
            is_power_of_two(align),
        ensures
            r@ == spec_align_down(self@, align),
    {
        let raw = align_down(self.as_usize(), align);
        Self::new(raw)
    }

    /// Returns whether this address is aligned to `align`
    pub fn is_aligned(&self, align: u64) -> (r: bool)
        requires
            is_power_of_two(align),
        ensures
            r == (self@ % align == 0),
    {
        proof {
            crate::align::lemma_power_of_two_positive(align);
        }
        let aligned = self.align_down(align);
        let raw = self.as_usize();
        aligned.as_usize() == raw
    }

    /// Returns whether this is the null address
    pub fn is_null(&self) -> (r: bool)
        ensures
            r == (self@ == 0),
    {
        self.as_usize() == 0
    }

    /// Constructs a `PhysAddr` when `raw_addr` fits 52 bits, else returns
    /// the `AddressErr` that holds it
    pub fn try_from(raw_addr: u64) -> (r: Result<Self, AddressErr>)
        ensures
            match r {
                Ok(addr) => raw_addr < PHYS_ADDR_SPAN && addr@ == raw_addr,
                Err(e) => raw_addr >= PHYS_ADDR_SPAN && e == AddressErr(raw_addr),
            },
    {
        match HwPhysAddr::try_from(raw_addr) {
            Ok(hw_addr) => Ok(Self { m_hw_addr: hw_addr }),
            Err(e) => Err(e),
        }
    }

    /// Returns the raw address
    pub fn into_usize(self) -> (r: u64)
        ensures
            r == self@,
    {
        self.as_usize()
    }

    /// Returns this address moved `rhs` bytes forward, truncated to 52 bits
    pub fn add(self, rhs: u64) -> (r: Self)
        requires
            self@ + rhs <= u64::MAX,
        ensures
            r@ == (self@ + rhs) % (PHYS_ADDR_SPAN as int),
    {
        Self::new(self.as_usize() + rhs)
    }

    /// Moves this address `rhs` bytes forward, truncated to 52 bits
    pub fn add_assign(&mut self, rhs: u64)
        requires
            old(self)@ + rhs <= u64::MAX,
        ensures
            final(self)@ == (old(self)@ + rhs) % (PHYS_ADDR_SPAN as int),
    {
        *self = self.add(rhs)
    }

    /// Returns the sum of the two addresses, truncated to 52 bits
    pub fn add_addr(self, rhs: Self) -> (r: Self)
        requires
            self@ + rhs@ <= u64::MAX,
        ensures
            r@ == (self@ + rhs@) % (PHYS_ADDR_SPAN as int),
    {
        self.add(rhs.as_usize())
    }

    /// Returns this address moved `rhs` bytes backward
    pub fn sub(self, rhs: u64) -> (r: Self)
        requires
            self@ >= rhs,
        ensures
            r@ == self@ - rhs,
    {
        Self::new(self.as_usize() - rhs)
    }

    /// Moves this address `rhs` bytes backward
    pub fn sub_assign(&mut self, rhs: u64)
        requires
            old(self)@ >= rhs,
        ensures
            final(self)@ == old(self)@ - rhs,
    {
        *self = self.sub(rhs)
    }

    /// Returns the difference of the two addresses
    pub fn sub_addr(self, rhs: Self) -> (r: Self)
        requires
            self@ >= rhs@,
        ensures
            r@ == self@ - rhs@,
    {
        self.sub(rhs.as_usize())
    }
}

} // verus!

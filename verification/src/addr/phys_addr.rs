//! Physical address
use vstd::prelude::*;
use core::ops::Range;
use crate::align::{align_down, align_up, is_power_of_two, spec_align_down, spec_align_up};
use crate::arch::x86_64::addr::hw_phys_addr::{HwPhysAddr, PHYS_ADDR_MASK};

verus! {

/// Hardware 64 bit wide physical address: the raw value keeps only the 52
/// bits that the architecture supports
#[derive(Clone, Copy, PartialEq, Eq, Structural, PartialOrd, Ord, Hash, Debug)]
pub struct PhysAddr {
    pub m_hw_phys_addr: HwPhysAddr,
}

impl View for PhysAddr {
    type V = u64;

    open spec fn view(&self) -> u64 {
        self.m_hw_phys_addr.m_raw_phys_addr
    }
}

impl PhysAddr {
    /// The highest physical address
    pub fn max() -> (r: Self)
        ensures
            r@ == PHYS_ADDR_MASK,
    {
        Self { m_hw_phys_addr: HwPhysAddr::max() }
    }

    /// Constructs the null `PhysAddr`
    pub fn null() -> (r: Self)
        ensures
            r@ == 0,
    {
        Self::from(0)
    }

    /// The default `PhysAddr` is the null one
    pub fn default() -> (r: Self)
        ensures
            r@ == 0,
    {
        Self::null()
    }

    /// Constructs a `PhysAddr` keeping the low 52 bits of `raw_phys_addr`
    pub fn from(raw_phys_addr: u64) -> (r: Self)
        ensures
            r@ == raw_phys_addr & PHYS_ADDR_MASK,
            r@ == raw_phys_addr % 0x10_0000_0000_0000,
    {
        Self { m_hw_phys_addr: HwPhysAddr::from(raw_phys_addr) }
    }

    /// Returns the raw address
    pub fn deref(&self) -> (r: u64)
        ensures
            r == self@,
    {
        self.m_hw_phys_addr.deref()
    }

    /// Returns this address aligned up to `align`
    pub fn align_up(&self, align: u64) -> (r: Self)
        requires
            is_power_of_two(align),
            self@ + align - 1 <= u64::MAX,
        ensures
            r@ == spec_align_up(self@, align) % 0x10_0000_0000_0000,
    {
        Self::from(align_up(self.deref(), align))
    }

    /// Returns this address aligned down to `align`
    pub fn align_down(&self, align: u64) -> (r: Self)
        requires
            is_power_of_two(align),
        ensures
            r@ == spec_align_down(self@, align) % 0x10_0000_0000_0000,
    {
        Self::from(align_down(self.deref(), align))
    }

    /// Returns this address moved `offset` bytes forward, keeping 52 bits
    pub fn offset(&self, offset: u64) -> (r: Self)
        requires
            self@ + offset <= u64::MAX,
        ensures
            r@ == if offset > 0 { (self@ + offset) % 0x10_0000_0000_0000 } else { self@ as int },
    {
        if offset > 0 {
            Self::from(self.deref() + offset)
        } else {
            *self
        }
    }

    /// Returns the range of `range_size` bytes that starts at this address
    pub fn to_range(&self, range_size: u64) -> (r: Range<Self>)
        requires
            self@ + range_size <= u64::MAX,
        ensures
            r.start == *self,
            r.end@ == if range_size > 0 {
                (self@ + range_size) % 0x10_0000_0000_0000
            } else {
                self@ as int
            },
    {
        Range { start: *self, end: self.offset(range_size) }
    }

    /// Returns the index of the page of `page_size` bytes that contains this
    /// address
    pub fn as_page_index(&self, page_size: u64) -> (r: u64)
        requires
            page_size > 0,
        ensures
            r == self@ / page_size,
    {
        self.deref() / page_size
    }

    /// Returns whether this address is aligned to `align`
    pub fn is_aligned(&self, align: u64) -> (r: bool)
        requires
            is_power_of_two(align),
        ensures
            r == (spec_align_down(self@, align) % 0x10_0000_0000_0000 == self@),
            self@ < 0x10_0000_0000_0000 ==> (r == (self@ % align == 0)),
    {
        proof {
            crate::align::lemma_power_of_two_positive(align);
            let x = self@ as int;
            let d = x - x % (align as int);
            vstd::arithmetic::div_mod::lemma_mod_bound(x, align as int);
            assert(x % (align as int) <= x) by (nonlinear_arith)
                requires
                    x >= 0,
                    align > 0,
            {
                vstd::arithmetic::div_mod::lemma_fundamental_div_mod(x, align as int);
                vstd::arithmetic::div_mod::lemma_div_pos_is_pos(x, align as int);
            }
            if x < 0x10_0000_0000_0000 {
                vstd::arithmetic::div_mod::lemma_small_mod(d as nat, 0x10_0000_0000_0000nat);
            }
        }
        self.align_down(align).deref() == self.deref()
    }

    /// Returns whether this is the null address
    pub fn is_null(&self) -> (r: bool)
        ensures
            r == (self@ == 0),
    {
        self.deref() == 0
    }

    /// Returns the distance from `start` to `end`, when `start <= end`
    pub fn steps_between(start: &Self, end: &Self) -> (r: Option<u64>)
        ensures
            r == if start@ <= end@ {
                Some((end@ - start@) as u64)
            } else {
                None::<u64>
            },
    {
        HwPhysAddr::steps_between(&start.m_hw_phys_addr, &end.m_hw_phys_addr)
    }

    /// Returns `start` moved `count` bytes forward, unless it overflows
    pub fn forward_checked(start: Self, count: u64) -> (r: Option<Self>)
        ensures
            match r {
                Some(a) => start@ + count <= u64::MAX && a@ == start@ + count,
                None => start@ + count > u64::MAX,
            },
    {
        if let Some(check_phys_addr) = HwPhysAddr::forward_checked(start.m_hw_phys_addr, count) {
            Some(Self { m_hw_phys_addr: check_phys_addr })
        } else {
            None
        }
    }

    /// Returns `start` moved `count` bytes backward, unless it underflows
    pub fn backward_checked(start: Self, count: u64) -> (r: Option<Self>)
        ensures
            match r {
                Some(a) => start@ >= count && a@ == start@ - count,
                None => start@ < count,
            },
    {
        if let Some(check_phys_addr) = HwPhysAddr::backward_checked(start.m_hw_phys_addr, count) {
            Some(Self { m_hw_phys_addr: check_phys_addr })
        } else {
            None
        }
    }
}

} // verus!

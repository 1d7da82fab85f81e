//! Virtual address
use vstd::prelude::*;
use core::ops::Range;
use crate::align::{align_down, align_up, is_power_of_two, spec_align_down, spec_align_up};
use crate::arch::x86_64::addr::hw_virt_addr::{HwVirtAddr, canonical, table_index_of};
use crate::vm::page_table::{PageTableIndex, PageTableLevel};

verus! {

/// Hardware 64 bit wide virtual address, made canonical when constructed
#[derive(Clone, Copy, PartialEq, Eq, Structural, PartialOrd, Ord, Hash, Debug)]
pub struct VirtAddr {
    pub m_hw_virt_addr: HwVirtAddr,
}

impl View for VirtAddr {
    type V = u64;

    open spec fn view(&self) -> u64 {
        self.m_hw_virt_addr.m_raw_virt_addr
    }
}

impl VirtAddr {
    /// Bits each page table level occupies in a 64 bit paginated system
    pub const BITS_PER_TABLE_LEVEL: u64 = HwVirtAddr::BITS_PER_TABLE_LEVEL;

    /// Returns the 9 bits index of this address at the given level
    pub fn page_table_index(&self, page_table_level: PageTableLevel) -> (r: PageTableIndex)
        ensures
            r@ == table_index_of(self@, page_table_level),
    {
        PageTableIndex::new(self.m_hw_virt_addr.raw_table_index_for_level(page_table_level))
    }

    /// The highest canonical lower-half address
    pub fn max() -> (r: Self)
        ensures
            r@ == 0x0000_ffff_ffff_ffffu64,
    {
        Self { m_hw_virt_addr: HwVirtAddr::max() }
    }

    /// Constructs the null `VirtAddr`
    pub fn null() -> (r: Self)
        ensures
            r@ == 0,
    {
        let r = Self::from(0);
        assert(canonical(0) == 0) by (bit_vector);
        r
    }

    /// The default `VirtAddr` is the null one
    pub fn default() -> (r: Self)
        ensures
            r@ == 0,
    {
        Self::null()
    }

    /// Constructs the canonical `VirtAddr` of `raw_virt_addr`
    pub fn from(raw_virt_addr: u64) -> (r: Self)
        ensures
            r@ == canonical(raw_virt_addr),
    {
        Self { m_hw_virt_addr: HwVirtAddr::from(raw_virt_addr) }
    }

    /// Returns the raw address
    pub fn deref(&self) -> (r: u64)
        ensures
            r == self@,
    {
        self.m_hw_virt_addr.deref()
    }

    /// Returns this address aligned up to `align`, made canonical
    pub fn align_up(&self, align: u64) -> (r: Self)
        requires
            is_power_of_two(align),
            self@ + align - 1 <= u64::MAX,
        ensures
            r@ == canonical(spec_align_up(self@, align) as u64),
    {
        Self::from(align_up(self.deref(), align))
    }

    /// Returns this address aligned down to `align`, made canonical
    pub fn align_down(&self, align: u64) -> (r: Self)
        requires
            is_power_of_two(align),
        ensures
            r@ == canonical(spec_align_down(self@, align) as u64),
    {
        Self::from(align_down(self.deref(), align))
    }

    /// Returns this address moved `offset` bytes forward, made canonical
    pub fn offset(&self, offset: u64) -> (r: Self)
        requires
            self@ + offset <= u64::MAX,
        ensures
            r@ == if offset > 0 { canonical((self@ + offset) as u64) } else { self@ },
    {
        if offset > 0 {
            Self::from(self.deref() + offset)
        } else {
            *self
        }
    }

    /// Returns the range of `range_size` bytes that starts at this address
    pub fn to_range(&self, range_size: u64) -> (r: Range<Self>)
        requires
            self@ + range_size <= u64::MAX,
        ensures
            r.start == *self,
            r.end@ == if range_size > 0 { canonical((self@ + range_size) as u64) } else { self@ },
    {
        Range { start: *self, end: self.offset(range_size) }
    }

    /// Returns the index of the page of `page_size` bytes that contains this
    /// address
    pub fn as_page_index(&self, page_size: u64) -> (r: u64)
        requires
            page_size > 0,
        ensures
            r == self@ / page_size,
    {
        self.deref() / page_size
    }

    /// Returns whether this address equals its canonical alignment down to
    /// `align`
    pub fn is_aligned(&self, align: u64) -> (r: bool)
        requires
            is_power_of_two(align),
        ensures
            r == (canonical(spec_align_down(self@, align) as u64) == self@),
    {
        self.align_down(align).deref() == self.deref()
    }

    /// Returns whether this is the null address
    pub fn is_null(&self) -> (r: bool)
        ensures
            r == (self@ == 0),
    {
        self.deref() == 0
    }

    /// Returns the distance from `start` to `end`, when `start <= end`
    pub fn steps_between(start: &Self, end: &Self) -> (r: Option<u64>)
        ensures
            r == if start@ <= end@ {
                Some((end@ - start@) as u64)
            } else {
                None::<u64>
            },
    {
        HwVirtAddr::steps_between(&start.m_hw_virt_addr, &end.m_hw_virt_addr)
    }

    /// Returns `start` moved `count` bytes forward, unless it overflows
    pub fn forward_checked(start: Self, count: u64) -> (r: Option<Self>)
        ensures
            match r {
                Some(a) => start@ + count <= u64::MAX && a@ == start@ + count,
                None => start@ + count > u64::MAX,
            },
    {
        if let Some(check_virt_addr) = HwVirtAddr::forward_checked(start.m_hw_virt_addr, count) {
            Some(Self { m_hw_virt_addr: check_virt_addr })
        } else {
            None
        }
    }

    /// Returns `start` moved `count` bytes backward, unless it underflows
    pub fn backward_checked(start: Self, count: u64) -> (r: Option<Self>)
        ensures
            match r {
                Some(a) => start@ >= count && a@ == start@ - count,
                None => start@ < count,
            },
    {
        if let Some(check_virt_addr) = HwVirtAddr::backward_checked(start.m_hw_virt_addr, count) {
            Some(Self { m_hw_virt_addr: check_virt_addr })
        } else {
            None
        }
    }
}

} // verus!

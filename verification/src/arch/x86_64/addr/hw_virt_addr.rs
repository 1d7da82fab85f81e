//! x86_64 virtual address implementation
use vstd::prelude::*;
use crate::vm::page_table::{PageTableIndex, PageTableLevel, PT_ENTRIES_COUNT};

verus! {

/// The canonical form of `raw`: the bits 48..64 copy the bit 47
pub open spec fn canonical(raw: u64) -> u64 {
    if raw & 0x0000_8000_0000_0000u64 != 0 {
        raw | 0xffff_0000_0000_0000u64
    } else {
        raw & 0x0000_ffff_ffff_ffffu64
    }
}

/// The 9 bits index of `raw` for the page table `level`
pub open spec fn table_index_of(raw: u64, level: PageTableLevel) -> u64 {
    match level {
        PageTableLevel::Root => (raw >> 39u64) & 0x1ffu64,
        PageTableLevel::OneGiB => (raw >> 30u64) & 0x1ffu64,
        PageTableLevel::TwoMiB => (raw >> 21u64) & 0x1ffu64,
        PageTableLevel::FourKiB => (raw >> 12u64) & 0x1ffu64,
    }
}

/// x86_64 virtual address implementation, which makes the addresses canonical
#[derive(Clone, Copy, PartialEq, Eq, Structural, PartialOrd, Ord, Hash, Debug)]
pub struct HwVirtAddr {
    pub m_raw_virt_addr: u64,
}

impl HwVirtAddr {
    /// Bits each page table level occupies in a virtual address
    pub const BITS_PER_TABLE_LEVEL: u64 = 9;

    /// The highest canonical lower-half address
    pub fn max() -> (r: Self)
        ensures
            r.m_raw_virt_addr == 0x0000_ffff_ffff_ffffu64,
    {
        Self { m_raw_virt_addr: 0x0000_ffff_ffff_ffff }
    }

    /// Constructs the canonical `HwVirtAddr` of `raw_virt_addr`
    pub fn from(raw_virt_addr: u64) -> (r: Self)
        ensures
            r.m_raw_virt_addr == canonical(raw_virt_addr),
    {
        if raw_virt_addr & 0x0000_8000_0000_0000u64 != 0 {
            Self { m_raw_virt_addr: raw_virt_addr | 0xffff_0000_0000_0000u64 }
        } else {
            Self { m_raw_virt_addr: raw_virt_addr & 0x0000_ffff_ffff_ffffu64 }
        }
    }

    /// Returns the raw address
    pub fn deref(&self) -> (r: u64)
        ensures
            r == self.m_raw_virt_addr,
    {
        self.m_raw_virt_addr
    }

    /// Composes the canonical address of the 4 KiB page at the given indexes
    pub fn from_4kib_indexes(
        l4_index: PageTableIndex,
        l3_index: PageTableIndex,
        l2_index: PageTableIndex,
        l1_index: PageTableIndex,
    ) -> (r: Self)
        ensures
            r.m_raw_virt_addr == canonical(
                (l4_index@ as u64) << 39u64 | (l3_index@ as u64) << 30u64 | (l2_index@ as u64)
                    << 21u64 | (l1_index@ as u64) << 12u64,
            ),
    {
        let l4 = l4_index.as_u16() as u64;
        let l3 = l3_index.as_u16() as u64;
        let l2 = l2_index.as_u16() as u64;
        let l1 = l1_index.as_u16() as u64;
        Self::from(l4 << 39u64 | l3 << 30u64 | l2 << 21u64 | l1 << 12u64)
    }

    /// Composes the canonical address of the 2 MiB page at the given indexes
    pub fn from_2mib_indexes(
        l4_index: PageTableIndex,
        l3_index: PageTableIndex,
        l2_index: PageTableIndex,
    ) -> (r: Self)
        ensures
            r.m_raw_virt_addr == canonical(
                (l4_index@ as u64) << 39u64 | (l3_index@ as u64) << 30u64 | (l2_index@ as u64)
                    << 21u64,
            ),
    {
        let l4 = l4_index.as_u16() as u64;
        let l3 = l3_index.as_u16() as u64;
        let l2 = l2_index.as_u16() as u64;
        Self::from(l4 << 39u64 | l3 << 30u64 | l2 << 21u64)
    }

    /// Returns the 9 bits index for the given page table level
    pub fn raw_table_index_for_level(&self, page_table_level: PageTableLevel) -> (r: u16)
        ensures
            r == table_index_of(self.m_raw_virt_addr, page_table_level),
            r < PT_ENTRIES_COUNT,
    {
        let raw = self.m_raw_virt_addr;
        let index = match page_table_level {
            PageTableLevel::Root => (raw >> 39u64) & 0x1ffu64,
            PageTableLevel::OneGiB => (raw >> 30u64) & 0x1ffu64,
            PageTableLevel::TwoMiB => (raw >> 21u64) & 0x1ffu64,
            PageTableLevel::FourKiB => (raw >> 12u64) & 0x1ffu64,
        };
        assert(index & 0x1ffu64 <= 0x1ffu64) by (bit_vector);
        assert(index == index & 0x1ffu64) by (bit_vector)
            requires
                index == (raw >> 39u64) & 0x1ffu64 || index == (raw >> 30u64) & 0x1ffu64 || index
                    == (raw >> 21u64) & 0x1ffu64 || index == (raw >> 12u64) & 0x1ffu64,
        ;
        index as u16
    }

    /// Returns the distance from `start` to `end`, when `start <= end`
    pub fn steps_between(start: &Self, end: &Self) -> (r: Option<u64>)
        ensures
            r == if start.m_raw_virt_addr <= end.m_raw_virt_addr {
                Some((end.m_raw_virt_addr - start.m_raw_virt_addr) as u64)
            } else {
                None::<u64>
            },
    {
        if start.m_raw_virt_addr <= end.m_raw_virt_addr {
            Some(end.m_raw_virt_addr - start.m_raw_virt_addr)
        } else {
            None
        }
    }

    /// Returns `start` moved `count` bytes forward, unless it overflows
    pub fn forward_checked(start: Self, count: u64) -> (r: Option<Self>)
        ensures
            r == if start.m_raw_virt_addr + count <= u64::MAX {
                Some(Self { m_raw_virt_addr: (start.m_raw_virt_addr + count) as u64 })
            } else {
                None::<Self>
            },
    {
        if let Some(checked_raw_virt_addr) = start.m_raw_virt_addr.checked_add(count) {
            Some(Self { m_raw_virt_addr: checked_raw_virt_addr })
        } else {
            None
        }
    }

    /// Returns `start` moved `count` bytes backward, unless it underflows
    pub fn backward_checked(start: Self, count: u64) -> (r: Option<Self>)
        ensures
            r == if start.m_raw_virt_addr >= count {
                Some(Self { m_raw_virt_addr: (start.m_raw_virt_addr - count) as u64 })
            } else {
                None::<Self>
            },
    {
        if let Some(checked_raw_virt_addr) = start.m_raw_virt_addr.checked_sub(count) {
            Some(Self { m_raw_virt_addr: checked_raw_virt_addr })
        } else {
            None
        }
    }
}

/// Composing an address from page table indexes and reading back the index of
/// any level gives the index that was given
pub proof fn lemma_table_indexes_round_trip(l4: u64, l3: u64, l2: u64, l1: u64)
    requires
        l4 < 512,
        l3 < 512,
        l2 < 512,
        l1 < 512,
    ensures
        ({
            let raw = canonical(l4 << 39u64 | l3 << 30u64 | l2 << 21u64 | l1 << 12u64);
            &&& table_index_of(raw, PageTableLevel::Root) == l4
            &&& table_index_of(raw, PageTableLevel::OneGiB) == l3
            &&& table_index_of(raw, PageTableLevel::TwoMiB) == l2
            &&& table_index_of(raw, PageTableLevel::FourKiB) == l1
        }),
{
    let v = l4 << 39u64 | l3 << 30u64 | l2 << 21u64 | l1 << 12u64;
    assert(((v | 0xffff_0000_0000_0000u64) >> 39u64) & 0x1ffu64 == l4 && ((v
        & 0x0000_ffff_ffff_ffffu64) >> 39u64) & 0x1ffu64 == l4) by (bit_vector)
        requires
            v == l4 << 39u64 | l3 << 30u64 | l2 << 21u64 | l1 << 12u64,
            l4 < 512,
            l3 < 512,
            l2 < 512,
            l1 < 512,
    ;
    assert(((v | 0xffff_0000_0000_0000u64) >> 30u64) & 0x1ffu64 == l3 && ((v
        & 0x0000_ffff_ffff_ffffu64) >> 30u64) & 0x1ffu64 == l3) by (bit_vector)
        requires
            v == l4 << 39u64 | l3 << 30u64 | l2 << 21u64 | l1 << 12u64,
            l4 < 512,
            l3 < 512,
            l2 < 512,
            l1 < 512,
    ;
    assert(((v | 0xffff_0000_0000_0000u64) >> 21u64) & 0x1ffu64 == l2 && ((v
        & 0x0000_ffff_ffff_ffffu64) >> 21u64) & 0x1ffu64 == l2) by (bit_vector)
        requires
            v == l4 << 39u64 | l3 << 30u64 | l2 << 21u64 | l1 << 12u64,
            l4 < 512,
            l3 < 512,
            l2 < 512,
            l1 < 512,
    ;
    assert(((v | 0xffff_0000_0000_0000u64) >> 12u64) & 0x1ffu64 == l1 && ((v
        & 0x0000_ffff_ffff_ffffu64) >> 12u64) & 0x1ffu64 == l1) by (bit_vector)
        requires
            v == l4 << 39u64 | l3 << 30u64 | l2 << 21u64 | l1 << 12u64,
            l4 < 512,
            l3 < 512,
            l2 < 512,
            l1 < 512,
    ;
}

/// Making an address canonical twice gives the same address as once
pub proof fn lemma_canonical_idempotent(raw: u64)
    ensures
        canonical(canonical(raw)) == canonical(raw),
{
    assert(canonical(canonical(raw)) == canonical(raw)) by (bit_vector);
}

} // verus!

//! x86_64 Global Descriptor Table built from `Descriptor`s
use vstd::prelude::*;
use crate::addr::virt_addr::VirtAddr;
use crate::arch::x86_64::desc_table::{CpuRingMode, DescTablePtr};
use crate::arch::x86_64::global_desc_table::{flag, TASK_STATE_SEGMENT_SIZE};

pub use crate::arch::x86_64::global_desc_table::SegmentSelector;

verus! {

/// Global descriptor table of eight 64 bit descriptors, filled from the first
pub struct GlobalDescTable {
    pub m_desc_table: [u64; 8],
    pub m_next_free_desc: usize,
}

impl GlobalDescTable {
    /// The next free slot is a table index, or one past the last
    pub open spec fn wf(&self) -> bool {
        self.m_next_free_desc <= 8
    }

    /// Constructs an empty `GlobalDescTable`
    pub fn new() -> (r: Self)
        ensures
            r.wf(),
            r.m_desc_table@ == Seq::new(8, |i: int| 0u64),
            r.m_next_free_desc == 0,
    {
        let r = Self { m_desc_table: [0u64; 8], m_next_free_desc: 0 };
        assert(r.m_desc_table@ =~= Seq::new(8, |i: int| 0u64));
        r
    }

    /// The number of table entries a descriptor takes
    pub open spec fn spec_entries_of(entry_descriptor: Descriptor) -> nat {
        match entry_descriptor {
            Descriptor::UserSegment(_) => 1,
            Descriptor::SystemSegment(_, _) => 2,
        }
    }

    /// The ring mode of the selector that `add_entry` returns
    pub open spec fn spec_ring_of(entry_descriptor: Descriptor) -> CpuRingMode {
        match entry_descriptor {
            Descriptor::UserSegment(raw) => if raw & flag(45) != 0 {
                CpuRingMode::Ring3
            } else {
                CpuRingMode::Ring0
            },
            Descriptor::SystemSegment(_, _) => CpuRingMode::Ring0,
        }
    }

    /// Appends a descriptor, returning its selector
    pub fn add_entry(&mut self, entry_descriptor: Descriptor) -> (r: SegmentSelector)
        requires
            old(self).wf(),
            old(self).m_next_free_desc + Self::spec_entries_of(entry_descriptor) <= 8,
        ensures
            final(self).wf(),
            final(self).m_desc_table@ == match entry_descriptor {
                Descriptor::UserSegment(raw) => old(self).m_desc_table@.update(
                    old(self).m_next_free_desc as int,
                    raw,
                ),
                Descriptor::SystemSegment(low, high) => old(self).m_desc_table@.update(
                    old(self).m_next_free_desc as int,
                    low,
                ).update(old(self).m_next_free_desc + 1, high),
            },
            final(self).m_next_free_desc == old(self).m_next_free_desc + Self::spec_entries_of(
                entry_descriptor,
            ),
            r.m_raw_value == SegmentSelector::spec_raw(
                old(self).m_next_free_desc as u16,
                Self::spec_ring_of(entry_descriptor),
            ),
    {
        let insert_index = match entry_descriptor {
            Descriptor::UserSegment(raw_value) => self.push(raw_value),
            Descriptor::SystemSegment(raw_low_value, raw_high_value) => {
                let index = self.push(raw_low_value);
                self.push(raw_high_value);
                index
            },
        };
        let cpu_ring_mode = match entry_descriptor {
            Descriptor::UserSegment(raw_value) => {
                if raw_value & (1u64 << 45u64) != 0 {
                    CpuRingMode::Ring3
                } else {
                    CpuRingMode::Ring0
                }
            },
            Descriptor::SystemSegment(_, _) => CpuRingMode::Ring0,
        };
        SegmentSelector::new(insert_index as u16, cpu_ring_mode)
    }

    /// Returns the `DescTablePtr` of this GDT, placed at `table_base`
    pub fn table_ptr(&self, table_base: VirtAddr) -> (r: DescTablePtr)
        requires
            self.wf(),
            self.m_next_free_desc >= 1,
        ensures
            r.m_size_limit == self.m_next_free_desc * 8 - 1,
            r.m_base_ptr == table_base,
    {
        DescTablePtr::new((self.m_next_free_desc * 8 - 1) as u16, table_base)
    }

    /// Pushes a new entry inside the table, returning its index
    pub fn push(&mut self, raw_value: u64) -> (r: usize)
        requires
            old(self).wf(),
            old(self).m_next_free_desc < 8,
        ensures
            final(self).wf(),
            r == old(self).m_next_free_desc,
            final(self).m_desc_table@ == old(self).m_desc_table@.update(r as int, raw_value),
            final(self).m_next_free_desc == old(self).m_next_free_desc + 1,
    {
        let index = self.m_next_free_desc;
        self.m_desc_table[index] = raw_value;
        self.m_next_free_desc = self.m_next_free_desc + 1;
        index
    }
}

/// x86_64 segment descriptor
#[derive(Clone, Copy, PartialEq, Eq, Structural, Debug)]
pub enum Descriptor {
    UserSegment(u64),
    SystemSegment(u64, u64),
}

/// Flags that all the descriptors built here share: the 20 limit bits,
/// accessed, writeable, user segment, present and granularity
pub open spec fn spec_common_descriptor_flags() -> u64 {
    0xf_ffffu64 | flag(40) | flag(41) | flag(44) | flag(47) | flag(55)
}

impl Descriptor {
    /// Returns a `Descriptor` configured for kernel code
    pub fn kernel_code_segment() -> (r: Descriptor)
        ensures
            r == Descriptor::UserSegment(spec_common_descriptor_flags() | flag(43) | flag(53)),
    {
        let kern_code_flags = DescriptorFlagsBits::common()
            | DescriptorFlagsBits::Executable.raw_bit() | DescriptorFlagsBits::LongMode.raw_bit();
        Descriptor::UserSegment(kern_code_flags)
    }

    /// Returns a `Descriptor` configured for kernel data
    pub fn kernel_data_segment() -> (r: Descriptor)
        ensures
            r == Descriptor::UserSegment(spec_common_descriptor_flags() | flag(54)),
    {
        let kern_data_flags = DescriptorFlagsBits::common()
            | DescriptorFlagsBits::DefaultSize.raw_bit();
        Descriptor::UserSegment(kern_data_flags)
    }

    /// Returns a `Descriptor` configured for user code: privilege level 3,
    /// both bits 45 and 46 set
    pub fn user_code_segment() -> (r: Descriptor)
        ensures
            r == Descriptor::UserSegment(
                spec_common_descriptor_flags() | flag(43) | flag(53) | flag(45) | flag(46),
            ),
    {
        let user_code_flags = DescriptorFlagsBits::common()
            | DescriptorFlagsBits::Executable.raw_bit() | DescriptorFlagsBits::LongMode.raw_bit()
            | DescriptorFlagsBits::DplRing3.raw_bit() | (1u64 << 46u64);
        Descriptor::UserSegment(user_code_flags)
    }

    /// Returns a `Descriptor` configured for user data: privilege level 3,
    /// both bits 45 and 46 set
    pub fn user_data_segment() -> (r: Descriptor)
        ensures
            r == Descriptor::UserSegment(spec_common_descriptor_flags() | flag(54) | flag(45) | flag(46)),
    {
        let user_data_flags = DescriptorFlagsBits::common()
            | DescriptorFlagsBits::DefaultSize.raw_bit() | DescriptorFlagsBits::DplRing3.raw_bit() | (1u64 << 46u64);
        Descriptor::UserSegment(user_data_flags)
    }

    /// Returns the system `Descriptor` of the task state segment at
    /// `tss_addr`
    pub fn tss_segment(tss_addr: u64) -> (r: Descriptor)
        ensures
            r == Descriptor::SystemSegment(
                crate::arch::x86_64::global_desc_table::spec_tss_low(tss_addr),
                tss_addr >> 32u64,
            ),
    {
        let raw_low_bits = DescriptorFlagsBits::Present.raw_bit() | (TASK_STATE_SEGMENT_SIZE - 1)
            | (tss_addr & 0xff_ffffu64) << 16u64 | 0b1001u64 << 40u64 | ((tss_addr >> 24u64)
            & 0xffu64) << 56u64;
        let raw_high_bits = tss_addr >> 32u64;
        Descriptor::SystemSegment(raw_low_bits, raw_high_bits)
    }
}

/// The bits of the descriptors
#[derive(Clone, Copy, PartialEq, Eq, Structural, Debug)]
pub enum DescriptorFlagsBits {
    /* ignored bits LIMIT 0..=15 */
    Bit0,
    Bit1,
    Bit2,
    Bit3,
    Bit4,
    Bit5,
    Bit6,
    Bit7,
    Bit8,
    Bit9,
    Bit10,
    Bit11,
    Bit12,
    Bit13,
    Bit14,
    Bit15,
    /* ignored bits LIMIT 16..=19 */
    Bit16,
    Bit17,
    Bit18,
    Bit19,
    /* significant bits */
    Accessed,
    Writeable,
    Conforming,
    Executable,
    UserSegment,
    DplRing3,
    Present,
    LongMode,
    DefaultSize,
    Granularity,
}

impl DescriptorFlagsBits {
    /// The bit number of the flag in the descriptor
    pub open spec fn bit_number(self) -> u64 {
        match self {
            DescriptorFlagsBits::Bit0 => 0,
            DescriptorFlagsBits::Bit1 => 1,
            DescriptorFlagsBits::Bit2 => 2,
            DescriptorFlagsBits::Bit3 => 3,
            DescriptorFlagsBits::Bit4 => 4,
            DescriptorFlagsBits::Bit5 => 5,
            DescriptorFlagsBits::Bit6 => 6,
            DescriptorFlagsBits::Bit7 => 7,
            DescriptorFlagsBits::Bit8 => 8,
            DescriptorFlagsBits::Bit9 => 9,
            DescriptorFlagsBits::Bit10 => 10,
            DescriptorFlagsBits::Bit11 => 11,
            DescriptorFlagsBits::Bit12 => 12,
            DescriptorFlagsBits::Bit13 => 13,
            DescriptorFlagsBits::Bit14 => 14,
            DescriptorFlagsBits::Bit15 => 15,
            DescriptorFlagsBits::Bit16 => 16,
            DescriptorFlagsBits::Bit17 => 17,
            DescriptorFlagsBits::Bit18 => 18,
            DescriptorFlagsBits::Bit19 => 19,
            DescriptorFlagsBits::Accessed => 40,
            DescriptorFlagsBits::Writeable => 41,
            DescriptorFlagsBits::Conforming => 42,
            DescriptorFlagsBits::Executable => 43,
            DescriptorFlagsBits::UserSegment => 44,
            DescriptorFlagsBits::DplRing3 => 45,
            DescriptorFlagsBits::Present => 47,
            DescriptorFlagsBits::LongMode => 53,
            DescriptorFlagsBits::DefaultSize => 54,
            DescriptorFlagsBits::Granularity => 55,
        }
    }

    /// Returns the raw value of the single bit of the flag
    pub fn raw_bit(self) -> (r: u64)
        ensures
            r == flag(self.bit_number()),
    {
        let n: u64 = match self {
            DescriptorFlagsBits::Bit0 => 0,
            DescriptorFlagsBits::Bit1 => 1,
            DescriptorFlagsBits::Bit2 => 2,
            DescriptorFlagsBits::Bit3 => 3,
            DescriptorFlagsBits::Bit4 => 4,
            DescriptorFlagsBits::Bit5 => 5,
            DescriptorFlagsBits::Bit6 => 6,
            DescriptorFlagsBits::Bit7 => 7,
            DescriptorFlagsBits::Bit8 => 8,
            DescriptorFlagsBits::Bit9 => 9,
            DescriptorFlagsBits::Bit10 => 10,
            DescriptorFlagsBits::Bit11 => 11,
            DescriptorFlagsBits::Bit12 => 12,
            DescriptorFlagsBits::Bit13 => 13,
            DescriptorFlagsBits::Bit14 => 14,
            DescriptorFlagsBits::Bit15 => 15,
            DescriptorFlagsBits::Bit16 => 16,
            DescriptorFlagsBits::Bit17 => 17,
            DescriptorFlagsBits::Bit18 => 18,
            DescriptorFlagsBits::Bit19 => 19,
            DescriptorFlagsBits::Accessed => 40,
            DescriptorFlagsBits::Writeable => 41,
            DescriptorFlagsBits::Conforming => 42,
            DescriptorFlagsBits::Executable => 43,
            DescriptorFlagsBits::UserSegment => 44,
            DescriptorFlagsBits::DplRing3 => 45,
            DescriptorFlagsBits::Present => 47,
            DescriptorFlagsBits::LongMode => 53,
            DescriptorFlagsBits::DefaultSize => 54,
            DescriptorFlagsBits::Granularity => 55,
        };
        1u64 << n
    }

    /// Returns the flags that all the descriptors built here share
    pub fn common() -> (r: u64)
        ensures
            r == spec_common_descriptor_flags(),
    {
        let mut limit: u64 = 0;
        let mut bit: u64 = 0;
        assert(limit == (1u64 << bit) - 1) by (bit_vector)
            requires
                limit == 0,
                bit == 0,
        ;
        while bit < 20
            invariant
                bit <= 20,
                limit == (1u64 << bit) - 1,
            decreases 20 - bit,
        {
            assert(limit | (1u64 << bit) == (1u64 << (bit + 1) as u64) - 1) by (bit_vector)
                requires
                    limit == (1u64 << bit) - 1,
                    bit < 20,
            ;
            limit = limit | (1u64 << bit);
            bit = bit + 1;
        }
        assert(limit == 0xf_ffffu64) by (bit_vector)
            requires
                limit == (1u64 << 20u64) - 1,
        ;
        limit | DescriptorFlagsBits::Accessed.raw_bit() | DescriptorFlagsBits::Writeable.raw_bit()
            | DescriptorFlagsBits::UserSegment.raw_bit() | DescriptorFlagsBits::Present.raw_bit()
            | DescriptorFlagsBits::Granularity.raw_bit()
    }
}

} // verus!

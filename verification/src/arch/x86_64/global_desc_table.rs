//! x86_64 Global Descriptor Table
use vstd::prelude::*;
use crate::addr::virt_addr::VirtAddr;
use crate::arch::x86_64::desc_table::{CpuRingMode, DescTablePtr};

verus! {

/// Number of descriptors that a `GlobalDescTable` holds
pub const GDT_ENTRIES_COUNT: usize = 8;

/// Size in bytes of the `TaskStateSegment` structure that the TSS descriptor
/// describes
pub const TASK_STATE_SEGMENT_SIZE: u64 = 100;

/// The raw value of the single bit `bit`
pub open spec fn flag(bit: u64) -> u64 {
    1u64 << bit
}

/// x86_64 GDT: eight 64 bit descriptors, the first one is the null segment
pub struct GlobalDescTable {
    pub m_desc_table: [u64; 8],
    pub m_next_free_desc: usize,
}

impl GlobalDescTable {
    /// The next free slot is a table index, or one past the last
    pub open spec fn wf(&self) -> bool {
        1 <= self.m_next_free_desc <= GDT_ENTRIES_COUNT
    }

    /// Constructs a `GlobalDescTable` with already the null segment
    pub fn new() -> (r: Self)
        ensures
            r.wf(),
            r.m_desc_table@ == Seq::new(8, |i: int| 0u64),
            r.m_next_free_desc == 1,
    {
        let r = Self { m_desc_table: [0u64; 8], m_next_free_desc: 1 };
        assert(r.m_desc_table@ =~= Seq::new(8, |i: int| 0u64));
        r
    }

    /// The table after `add_entry(segment)`
    pub open spec fn spec_after_add(self, segment: Segment) -> Seq<u64> {
        match segment {
            Segment::Common(raw) => self.m_desc_table@.update(self.m_next_free_desc as int, raw),
            Segment::System(low, high) => self.m_desc_table@.update(
                self.m_next_free_desc as int,
                low,
            ).update(self.m_next_free_desc + 1, high),
        }
    }

    /// The ring mode of the selector that `add_entry(segment)` returns
    pub open spec fn spec_ring_of(segment: Segment) -> CpuRingMode {
        match segment {
            Segment::Common(raw) => if raw & flag(45) != 0 {
                CpuRingMode::Ring3
            } else {
                CpuRingMode::Ring0
            },
            Segment::System(_, _) => CpuRingMode::Ring0,
        }
    }

    /// The number of table entries a segment takes
    pub open spec fn spec_entries_of(segment: Segment) -> nat {
        match segment {
            Segment::Common(_) => 1,
            Segment::System(_, _) => 2,
        }
    }

    /// Appends a `Segment` descriptor, returning its selector
    pub fn add_entry(&mut self, segment: Segment) -> (r: SegmentSelector)
        requires
            old(self).wf(),
            old(self).m_next_free_desc + Self::spec_entries_of(segment) <= GDT_ENTRIES_COUNT,
        ensures
            final(self).wf(),
            final(self).m_desc_table@ == old(self).spec_after_add(segment),
            final(self).m_next_free_desc == old(self).m_next_free_desc + Self::spec_entries_of(
                segment,
            ),
            r.m_raw_value == SegmentSelector::spec_raw(
                old(self).m_next_free_desc as u16,
                Self::spec_ring_of(segment),
            ),
    {
        let insert_index = match segment {
            Segment::Common(raw_value) => {
                /* common segments use a single table entry */
                self.push(raw_value)
            },
            Segment::System(raw_low_value, raw_high_value) => {
                /* system segments (TSS) use two table entries */
                let first_index = self.push(raw_low_value);
                self.push(raw_high_value);
                first_index
            },
        };
        let cpu_ring_mode = match segment {
            Segment::Common(raw_value) => {
                /* common segments could be for userland or only for kernel */
                if raw_value & (1u64 << 45u64) != 0 {
                    CpuRingMode::Ring3
                } else {
                    CpuRingMode::Ring0
                }
            },
            Segment::System(_, _) => CpuRingMode::Ring0,
        };
        SegmentSelector::new(insert_index as u16, cpu_ring_mode)
    }

    /// Returns the `DescTablePtr` of this GDT, placed at `table_base`
    pub fn table_ptr(&self, table_base: VirtAddr) -> (r: DescTablePtr)
        requires
            self.wf(),
        ensures
            r.m_size_limit == self.m_next_free_desc * 8 - 1,
            r.m_base_ptr == table_base,
    {
        DescTablePtr::new((self.m_next_free_desc * 8 - 1) as u16, table_base)
    }

    /// Pushes a new entry inside the table, returning its index
    pub fn push(&mut self, raw_value: u64) -> (r: usize)
        requires
            old(self).wf(),
            old(self).m_next_free_desc < GDT_ENTRIES_COUNT,
        ensures
            final(self).wf(),
            r == old(self).m_next_free_desc,
            final(self).m_desc_table@ == old(self).m_desc_table@.update(r as int, raw_value),
            final(self).m_next_free_desc == old(self).m_next_free_desc + 1,
    {
        let index = self.m_next_free_desc;
        self.m_desc_table[index] = raw_value;
        self.m_next_free_desc = self.m_next_free_desc + 1;
        index
    }
}

/// x86_64 segment selector: the table index in the bits 3..16 and the ring
/// mode in the bits 0..2
#[derive(Clone, Copy, PartialEq, Eq, Structural, Debug)]
pub struct SegmentSelector {
    pub m_raw_value: u16,
}

impl SegmentSelector {
    pub const C_INDEX_KERN_CODE: u16 = 1;
    pub const C_INDEX_KERN_DATA: u16 = 2;
    pub const C_INDEX_USER_CODE: u16 = 3;
    pub const C_INDEX_USER_DATA: u16 = 4;
    pub const C_INDEX_USER_SYSC: u16 = 5;
    pub const C_INDEX_TSS: u16 = 6;

    /// The raw value of the selector of `array_index` with `cpu_ring_mode`
    pub open spec fn spec_raw(array_index: u16, cpu_ring_mode: CpuRingMode) -> u16 {
        (array_index << 3u16) | cpu_ring_mode.value()
    }

    /// Constructs a `SegmentSelector` from the given parameters; the index
    /// keeps its low 13 bits
    pub fn new(array_index: u16, cpu_ring_mode: CpuRingMode) -> (r: Self)
        ensures
            r.m_raw_value == Self::spec_raw(array_index, cpu_ring_mode),
    {
        Self { m_raw_value: (array_index << 3u16) | cpu_ring_mode.as_u16() }
    }

    /// Returns the index of the table entry of the segment
    pub fn array_index(&self) -> (r: u16)
        ensures
            r == self.m_raw_value >> 3u16,
    {
        self.m_raw_value >> 3u16
    }

    /// Returns the `CpuRingMode` to use for segment loading
    pub fn cpu_ring_mode(&self) -> (r: CpuRingMode)
        ensures
            r.value() == self.m_raw_value & 3u16,
    {
        let full = self.m_raw_value;
        let raw = full & 3u16;
        assert(raw <= 3) by (bit_vector)
            requires
                raw == full & 3u16,
        ;
        CpuRingMode::from(raw)
    }

    /// Returns the selector raw value
    pub fn as_raw(&self) -> (r: u64)
        ensures
            r == self.m_raw_value,
    {
        self.m_raw_value as u64
    }

    /// Sets the `CpuRingMode` to load the segment with
    pub fn set_cpu_ring_mode(&mut self, cpu_ring_mode: CpuRingMode)
        ensures
            final(self).m_raw_value == (old(self).m_raw_value & !3u16) | cpu_ring_mode.value(),
    {
        self.m_raw_value = (self.m_raw_value & !3u16) | cpu_ring_mode.as_u16();
    }

    /// Constructs the kernel mode selector of one of the fixed table indexes
    /// `C_INDEX_*`
    pub fn from(array_index: u16) -> (r: Self)
        requires
            Self::C_INDEX_KERN_CODE <= array_index <= Self::C_INDEX_TSS,
        ensures
            r.m_raw_value == Self::spec_raw(array_index, CpuRingMode::Ring0),
    {
        Self::new(array_index, CpuRingMode::Ring0)
    }
}

/// A selector gives back the table index and the ring mode it was made of
pub proof fn lemma_selector_round_trip(array_index: u16, ring: CpuRingMode)
    requires
        array_index < 0x2000,
    ensures
        SegmentSelector::spec_raw(array_index, ring) >> 3u16 == array_index,
        SegmentSelector::spec_raw(array_index, ring) & 3u16 == ring.value(),
{
    let v = ring.value();
    assert(v <= 3);
    assert(((array_index << 3u16) | v) >> 3u16 == array_index && ((array_index << 3u16) | v)
        & 3u16 == v) by (bit_vector)
        requires
            array_index < 0x2000,
            v <= 3,
    ;
}

/// Changing the ring mode of a selector keeps its table index
pub proof fn lemma_set_ring_keeps_index(raw: u16, ring: CpuRingMode)
    ensures
        ((raw & !3u16) | ring.value()) >> 3u16 == raw >> 3u16,
        ((raw & !3u16) | ring.value()) & 3u16 == ring.value(),
{
    let v = ring.value();
    assert(v <= 3);
    assert(((raw & !3u16) | v) >> 3u16 == raw >> 3u16 && ((raw & !3u16) | v) & 3u16 == v)
        by (bit_vector)
        requires
            v <= 3,
    ;
}

/// x86_64 segmentation descriptor
#[derive(Clone, Copy, PartialEq, Eq, Structural, Debug)]
pub enum Segment {
    Common(u64),
    System(u64, u64),
}

/// Flags of the common segments that all the segments built here share:
/// the limit bits, accessed, user segment, present and granularity
pub open spec fn spec_common_flags() -> u64 {
    0xffffu64 | 0xfu64 << 48u64 | flag(40) | flag(44) | flag(47) | flag(55)
}

/// The two descriptor words of the TSS segment at `tss_addr`
pub open spec fn spec_tss_low(tss_addr: u64) -> u64 {
    flag(47) | (TASK_STATE_SEGMENT_SIZE - 1) as u64 | (tss_addr & 0xff_ffffu64) << 16u64 | 0b1001u64
        << 40u64 | ((tss_addr >> 24u64) & 0xffu64) << 56u64
}

impl Segment {
    /// Returns a `Segment` configured for kernel code
    pub fn kernel_code_segment() -> (r: Segment)
        ensures
            r == Segment::Common(spec_common_flags() | flag(43) | flag(53)),
    {
        let kern_code_flags = SegmentFlagsBits::common() | SegmentFlagsBits::Executable.raw_bit()
            | SegmentFlagsBits::LongMode.raw_bit();
        Segment::Common(kern_code_flags)
    }

    /// Returns a `Segment` configured for kernel data
    pub fn kernel_data_segment() -> (r: Segment)
        ensures
            r == Segment::Common(spec_common_flags() | flag(41) | flag(54)),
    {
        let kern_data_flags = SegmentFlagsBits::common() | SegmentFlagsBits::Writeable.raw_bit()
            | SegmentFlagsBits::DefaultSize.raw_bit();
        Segment::Common(kern_data_flags)
    }

    /// Returns a `Segment` configured for user code: privilege level 3, both
    /// bits 45 and 46 set
    pub fn user_code_segment() -> (r: Segment)
        ensures
            r == Segment::Common(spec_common_flags() | flag(43) | flag(53) | flag(45) | flag(46)),
    {
        let user_code_flags = SegmentFlagsBits::common() | SegmentFlagsBits::Executable.raw_bit()
            | SegmentFlagsBits::LongMode.raw_bit() | SegmentFlagsBits::DplRing3.raw_bit() | (1u64 << 46u64);
        Segment::Common(user_code_flags)
    }

    /// Returns a `Segment` configured for user mode `syscall`
    pub fn user_syscall_segment() -> (r: Segment)
        ensures
            r == Segment::Common(spec_common_flags() | flag(43) | flag(53) | flag(45) | flag(46)),
    {
        Self::user_code_segment()
    }

    /// Returns a `Segment` configured for user data: privilege level 3, both
    /// bits 45 and 46 set
    pub fn user_data_segment() -> (r: Segment)
        ensures
            r == Segment::Common(spec_common_flags() | flag(41) | flag(54) | flag(45) | flag(46)),
    {
        let user_data_flags = SegmentFlagsBits::common() | SegmentFlagsBits::Writeable.raw_bit()
            | SegmentFlagsBits::DefaultSize.raw_bit() | SegmentFlagsBits::DplRing3.raw_bit() | (1u64 << 46u64);
        Segment::Common(user_data_flags)
    }

    /// Returns the system `Segment` that describes the `TaskStateSegment`
    /// placed at `tss_addr`
    pub fn tss_segment(tss_addr: u64) -> (r: Segment)
        ensures
            r == Segment::System(spec_tss_low(tss_addr), tss_addr >> 32u64),
    {
        let raw_low_bits = SegmentFlagsBits::Present.raw_bit() | (TASK_STATE_SEGMENT_SIZE - 1) | (
        tss_addr & 0xff_ffffu64) << 16u64 | 0b1001u64 << 40u64 | ((tss_addr >> 24u64) & 0xffu64)
            << 56u64;
        let raw_high_bits = tss_addr >> 32u64;
        Segment::System(raw_low_bits, raw_high_bits)
    }
}

/// The TSS descriptor holds the whole address of the TSS
pub proof fn lemma_tss_segment_holds_address(tss_addr: u64)
    ensures
        ((spec_tss_low(tss_addr) >> 16u64) & 0xff_ffffu64) | ((spec_tss_low(tss_addr) >> 56u64)
            & 0xffu64) << 24u64 | (tss_addr >> 32u64) << 32u64 == tss_addr,
        (spec_tss_low(tss_addr) >> 40u64) & 0xfu64 == 0b1001u64,
        spec_tss_low(tss_addr) & 0xffffu64 == TASK_STATE_SEGMENT_SIZE - 1,
        spec_tss_low(tss_addr) & flag(47) != 0,
{
    let low = spec_tss_low(tss_addr);
    assert(((low >> 16u64) & 0xff_ffffu64) | ((low >> 56u64) & 0xffu64) << 24u64 | (tss_addr
        >> 32u64) << 32u64 == tss_addr && (low >> 40u64) & 0xfu64 == 0b1001u64 && low & 0xffffu64
        == 99u64 && low & (1u64 << 47u64) != 0) by (bit_vector)
        requires
            low == (1u64 << 47u64) | 99u64 | (tss_addr & 0xff_ffffu64) << 16u64 | 0b1001u64
                << 40u64 | ((tss_addr >> 24u64) & 0xffu64) << 56u64,
    ;
}

/// The bits of the common segment descriptors
#[derive(Clone, Copy, PartialEq, Eq, Structural, PartialOrd, Ord, Debug)]
pub enum SegmentFlagsBits {
    /* ignored bits LIMIT 0..=15 */
    Limit0,
    Limit1,
    Limit2,
    Limit3,
    Limit4,
    Limit5,
    Limit6,
    Limit7,
    Limit8,
    Limit9,
    Limit10,
    Limit11,
    Limit12,
    Limit13,
    Limit14,
    Limit15,
    /* significant bits */
    Accessed,
    Writeable,
    Conforming,
    Executable,
    UserSegment,
    DplRing3,
    Present,
    /* ignored bits LIMIT_HI 16..=19 */
    Limit16,
    Limit17,
    Limit18,
    Limit19,
    LongMode,
    DefaultSize,
    Granularity,
}

impl SegmentFlagsBits {
    /// The bit number of the flag in the descriptor
    pub open spec fn bit_number(self) -> u64 {
        match self {
            SegmentFlagsBits::Limit0 => 0,
            SegmentFlagsBits::Limit1 => 1,
            SegmentFlagsBits::Limit2 => 2,
            SegmentFlagsBits::Limit3 => 3,
            SegmentFlagsBits::Limit4 => 4,
            SegmentFlagsBits::Limit5 => 5,
            SegmentFlagsBits::Limit6 => 6,
            SegmentFlagsBits::Limit7 => 7,
            SegmentFlagsBits::Limit8 => 8,
            SegmentFlagsBits::Limit9 => 9,
            SegmentFlagsBits::Limit10 => 10,
            SegmentFlagsBits::Limit11 => 11,
            SegmentFlagsBits::Limit12 => 12,
            SegmentFlagsBits::Limit13 => 13,
            SegmentFlagsBits::Limit14 => 14,
            SegmentFlagsBits::Limit15 => 15,
            SegmentFlagsBits::Accessed => 40,
            SegmentFlagsBits::Writeable => 41,
            SegmentFlagsBits::Conforming => 42,
            SegmentFlagsBits::Executable => 43,
            SegmentFlagsBits::UserSegment => 44,
            SegmentFlagsBits::DplRing3 => 45,
            SegmentFlagsBits::Present => 47,
            SegmentFlagsBits::Limit16 => 48,
            SegmentFlagsBits::Limit17 => 49,
            SegmentFlagsBits::Limit18 => 50,
            SegmentFlagsBits::Limit19 => 51,
            SegmentFlagsBits::LongMode => 53,
            SegmentFlagsBits::DefaultSize => 54,
            SegmentFlagsBits::Granularity => 55,
        }
    }

    /// Returns the bit number of the flag
    pub fn into(self) -> (r: u64)
        ensures
            r == self.bit_number(),
    {
        match self {
            SegmentFlagsBits::Limit0 => 0,
            SegmentFlagsBits::Limit1 => 1,
            SegmentFlagsBits::Limit2 => 2,
            SegmentFlagsBits::Limit3 => 3,
            SegmentFlagsBits::Limit4 => 4,
            SegmentFlagsBits::Limit5 => 5,
            SegmentFlagsBits::Limit6 => 6,
            SegmentFlagsBits::Limit7 => 7,
            SegmentFlagsBits::Limit8 => 8,
            SegmentFlagsBits::Limit9 => 9,
            SegmentFlagsBits::Limit10 => 10,
            SegmentFlagsBits::Limit11 => 11,
            SegmentFlagsBits::Limit12 => 12,
            SegmentFlagsBits::Limit13 => 13,
            SegmentFlagsBits::Limit14 => 14,
            SegmentFlagsBits::Limit15 => 15,
            SegmentFlagsBits::Accessed => 40,
            SegmentFlagsBits::Writeable => 41,
            SegmentFlagsBits::Conforming => 42,
            SegmentFlagsBits::Executable => 43,
            SegmentFlagsBits::UserSegment => 44,
            SegmentFlagsBits::DplRing3 => 45,
            SegmentFlagsBits::Present => 47,
            SegmentFlagsBits::Limit16 => 48,
            SegmentFlagsBits::Limit17 => 49,
            SegmentFlagsBits::Limit18 => 50,
            SegmentFlagsBits::Limit19 => 51,
            SegmentFlagsBits::LongMode => 53,
            SegmentFlagsBits::DefaultSize => 54,
            SegmentFlagsBits::Granularity => 55,
        }
    }

    /// Returns the raw value of the single bit of the flag
    pub fn raw_bit(self) -> (r: u64)
        ensures
            r == flag(self.bit_number()),
    {
        let n = self.into();
        1u64 << n
    }

    /// Returns the flag of the given bit number, if the descriptor has one
    pub fn try_from(value: u64) -> (r: Result<Self, ()>)
        ensures
            match r {
                Ok(f) => f.bit_number() == value,
                Err(_) => forall|f: SegmentFlagsBits| f.bit_number() != value,
            },
    {
        match value {
            0 => Ok(SegmentFlagsBits::Limit0),
            1 => Ok(SegmentFlagsBits::Limit1),
            2 => Ok(SegmentFlagsBits::Limit2),
            3 => Ok(SegmentFlagsBits::Limit3),
            4 => Ok(SegmentFlagsBits::Limit4),
            5 => Ok(SegmentFlagsBits::Limit5),
            6 => Ok(SegmentFlagsBits::Limit6),
            7 => Ok(SegmentFlagsBits::Limit7),
            8 => Ok(SegmentFlagsBits::Limit8),
            9 => Ok(SegmentFlagsBits::Limit9),
            10 => Ok(SegmentFlagsBits::Limit10),
            11 => Ok(SegmentFlagsBits::Limit11),
            12 => Ok(SegmentFlagsBits::Limit12),
            13 => Ok(SegmentFlagsBits::Limit13),
            14 => Ok(SegmentFlagsBits::Limit14),
            15 => Ok(SegmentFlagsBits::Limit15),
            40 => Ok(SegmentFlagsBits::Accessed),
            41 => Ok(SegmentFlagsBits::Writeable),
            42 => Ok(SegmentFlagsBits::Conforming),
            43 => Ok(SegmentFlagsBits::Executable),
            44 => Ok(SegmentFlagsBits::UserSegment),
            45 => Ok(SegmentFlagsBits::DplRing3),
            47 => Ok(SegmentFlagsBits::Present),
            48 => Ok(SegmentFlagsBits::Limit16),
            49 => Ok(SegmentFlagsBits::Limit17),
            50 => Ok(SegmentFlagsBits::Limit18),
            51 => Ok(SegmentFlagsBits::Limit19),
            53 => Ok(SegmentFlagsBits::LongMode),
            54 => Ok(SegmentFlagsBits::DefaultSize),
            55 => Ok(SegmentFlagsBits::Granularity),
            _ => Err(()),
        }
    }

    /// Returns the common flags of the segments built here
    pub fn common() -> (r: u64)
        ensures
            r == spec_common_flags(),
    {
        let limit_low = SegmentFlagsBits::Limit0.raw_bit() | SegmentFlagsBits::Limit1.raw_bit()
            | SegmentFlagsBits::Limit2.raw_bit() | SegmentFlagsBits::Limit3.raw_bit()
            | SegmentFlagsBits::Limit4.raw_bit() | SegmentFlagsBits::Limit5.raw_bit()
            | SegmentFlagsBits::Limit6.raw_bit() | SegmentFlagsBits::Limit7.raw_bit()
            | SegmentFlagsBits::Limit8.raw_bit() | SegmentFlagsBits::Limit9.raw_bit()
            | SegmentFlagsBits::Limit10.raw_bit() | SegmentFlagsBits::Limit11.raw_bit()
            | SegmentFlagsBits::Limit12.raw_bit() | SegmentFlagsBits::Limit13.raw_bit()
            | SegmentFlagsBits::Limit14.raw_bit() | SegmentFlagsBits::Limit15.raw_bit();
        let limit_high = SegmentFlagsBits::Limit16.raw_bit() | SegmentFlagsBits::Limit17.raw_bit()
            | SegmentFlagsBits::Limit18.raw_bit() | SegmentFlagsBits::Limit19.raw_bit();
        let r = limit_low | limit_high | SegmentFlagsBits::Accessed.raw_bit()
            | SegmentFlagsBits::UserSegment.raw_bit() | SegmentFlagsBits::Present.raw_bit()
            | SegmentFlagsBits::Granularity.raw_bit();
        assert(limit_low == 0xffffu64) by (bit_vector)
            requires
                limit_low == (1u64 << 0u64) | (1u64 << 1u64) | (1u64 << 2u64) | (1u64 << 3u64) | (1u64
                    << 4u64) | (1u64 << 5u64) | (1u64 << 6u64) | (1u64 << 7u64) | (1u64 << 8u64) | (1u64
                    << 9u64) | (1u64 << 10u64) | (1u64 << 11u64) | (1u64 << 12u64) | (1u64 << 13u64)
                    | (1u64 << 14u64) | (1u64 << 15u64),
        ;
        assert(limit_high == 0xfu64 << 48u64) by (bit_vector)
            requires
                limit_high == (1u64 << 48u64) | (1u64 << 49u64) | (1u64 << 50u64) | (1u64 << 51u64),
        ;
        r
    }
}

} // verus!

//! x86_64 CPU core management
use vstd::prelude::*;
use crate::addr::virt_addr::VirtAddr;
use crate::arch::x86_64::addr::hw_virt_addr::canonical;
use crate::arch::x86_64::global_desc_table::{
    flag, spec_common_flags, spec_tss_low, GlobalDescTable, Segment, SegmentSelector,
};
use crate::arch::x86_64::desc_table::CpuRingMode;
use crate::arch::x86_64::intr_desc_entry::spec_entry;
use crate::arch::x86_64::interrupts::intr_desc_table::{
    IntrDescTable, ENTRY_OPTIONS, IDT_ENTRIES_COUNT, KERN_CODE_SELECTOR,
};
use crate::arch::x86_64::ms_register::MsRegister;
use crate::arch::x86_64::pit::PitManager;
use crate::arch::x86_64::task_state_segment::TaskStateSegment;

verus! {

/// Size in bytes of the stack used on double faults
pub const C_DOUBLE_FAULT_STACK: u64 = 4096;

/// Slot of the interrupt stack table that holds the double fault stack
pub const C_DOUBLE_FAULT_STACK_INDEX: usize = 0;

/// RFLAGS bits that `syscall` clears: the interrupt flag
pub const C_SYSCALL_FLAGS_MASK: u64 = 0x200;

/// A write of `m_value` into the model specific register `m_register`
#[derive(Clone, Copy, PartialEq, Eq, Structural, Debug)]
pub struct MsrWrite {
    pub m_register: u32,
    pub m_value: u64,
}

/// A step of the interrupts initialization of a core
#[derive(Clone, Copy, PartialEq, Eq, Structural, Debug)]
pub enum InterruptsInitStep {
    InitApicManager,
    InitAcpiManager,
    RegisterApCpus,
    EnableLocalApic,
    EnableFastSystemCall,
    FlushIntrDescTable,
}

/// x86_64 CPU core: its descriptor tables and its task state segment
pub struct HwCpuCore {
    pub m_is_ap: bool,
    pub m_global_desc_table: GlobalDescTable,
    pub m_task_state_segment: TaskStateSegment,
    pub m_intr_desc_table: IntrDescTable,
}

/// The raw value of the kernel mode selector of the table index `index`
pub open spec fn kernel_selector(index: u16) -> u64 {
    (index * 8) as u64
}

/// The kernel mode selectors of the fixed table indexes are the indexes
/// times eight
proof fn lemma_kernel_selectors(index: u16)
    requires
        index < 0x2000,
    ensures
        SegmentSelector::spec_raw(index, CpuRingMode::Ring0) == kernel_selector(index),
{
    assert((index << 3u16) | 0u16 == index * 8) by (bit_vector)
        requires
            index < 0x2000,
    ;
}

impl HwCpuCore {
    /// Constructs a core whose interrupt table dispatches to the routines at
    /// `isr_addrs`
    pub fn new(is_ap: bool, isr_addrs: &[u64]) -> (r: Self)
        requires
            isr_addrs@.len() == IDT_ENTRIES_COUNT,
        ensures
            r.m_is_ap == is_ap,
            r.m_global_desc_table.wf(),
            r.m_global_desc_table.m_next_free_desc == 1,
            r.m_global_desc_table.m_desc_table@ == Seq::new(8, |i: int| 0u64),
            forall|i: int|
                0 <= i < 7 ==> (#[trigger] r.m_task_state_segment.m_full_intr_stack_table@[i])@ == 0,
            forall|i: int|
                0 <= i < 3 ==> (#[trigger] r.m_task_state_segment.m_stacks_per_privilege@[i])@ == 0,
            r.m_intr_desc_table.m_intr_service_routines@.len() == IDT_ENTRIES_COUNT,
            forall|i: int|
                0 <= i < IDT_ENTRIES_COUNT ==> #[trigger] r.m_intr_desc_table.m_intr_service_routines@[i]
                    == spec_entry(isr_addrs@[i], KERN_CODE_SELECTOR, ENTRY_OPTIONS),
    {
        Self {
            m_is_ap: is_ap,
            m_global_desc_table: GlobalDescTable::new(),
            m_task_state_segment: TaskStateSegment::new(),
            m_intr_desc_table: IntrDescTable::new(isr_addrs),
        }
    }

    /// Stores into the TSS the bottom of the double fault stack, whose first
    /// byte is at `stack_addr`
    pub fn init_double_fault_stack(&mut self, stack_addr: VirtAddr)
        requires
            stack_addr@ + C_DOUBLE_FAULT_STACK <= u64::MAX,
        ensures
            final(self).m_task_state_segment.m_full_intr_stack_table@
                == old(self).m_task_state_segment.m_full_intr_stack_table@.update(
                C_DOUBLE_FAULT_STACK_INDEX as int,
                final(self).m_task_state_segment.m_full_intr_stack_table@[C_DOUBLE_FAULT_STACK_INDEX as int],
            ),
            final(self).m_task_state_segment.m_full_intr_stack_table@[C_DOUBLE_FAULT_STACK_INDEX as int]@
                == canonical((stack_addr@ + C_DOUBLE_FAULT_STACK) as u64),
            final(self).m_global_desc_table == old(self).m_global_desc_table,
            final(self).m_is_ap == old(self).m_is_ap,
            final(self).m_intr_desc_table == old(self).m_intr_desc_table,
    {
        let bottom = stack_addr.offset(C_DOUBLE_FAULT_STACK);
        self.m_task_state_segment.m_full_intr_stack_table[C_DOUBLE_FAULT_STACK_INDEX] = bottom;
    }

    /// Fills the GDT: the kernel code and data segments, the user code and
    /// data segments, the user `syscall` segment and the TSS of this core,
    /// placed at `tss_addr`
    pub fn init_gdt(&mut self, tss_addr: u64)
        requires
            old(self).m_global_desc_table.wf(),
            old(self).m_global_desc_table.m_next_free_desc == 1,
        ensures
            final(self).m_global_desc_table.wf(),
            final(self).m_global_desc_table.m_next_free_desc == 8,
            final(self).m_global_desc_table.m_desc_table@[0] == old(
                self,
            ).m_global_desc_table.m_desc_table@[0],
            final(self).m_global_desc_table.m_desc_table@[1] == spec_common_flags() | flag(43) | flag(53),
            final(self).m_global_desc_table.m_desc_table@[2] == spec_common_flags() | flag(41) | flag(54),
            final(self).m_global_desc_table.m_desc_table@[3] == spec_common_flags() | flag(43) | flag(53)
                | flag(45) | flag(46),
            final(self).m_global_desc_table.m_desc_table@[4] == spec_common_flags() | flag(41) | flag(54)
                | flag(45) | flag(46),
            final(self).m_global_desc_table.m_desc_table@[5] == spec_common_flags() | flag(43) | flag(53)
                | flag(45) | flag(46),
            final(self).m_global_desc_table.m_desc_table@[6] == spec_tss_low(tss_addr),
            final(self).m_global_desc_table.m_desc_table@[7] == tss_addr >> 32u64,
            final(self).m_task_state_segment == old(self).m_task_state_segment,
            final(self).m_is_ap == old(self).m_is_ap,
            final(self).m_intr_desc_table == old(self).m_intr_desc_table,
    {
        self.m_global_desc_table.add_entry(Segment::kernel_code_segment());
        self.m_global_desc_table.add_entry(Segment::kernel_data_segment());
        self.m_global_desc_table.add_entry(Segment::user_code_segment());
        self.m_global_desc_table.add_entry(Segment::user_data_segment());
        self.m_global_desc_table.add_entry(Segment::user_syscall_segment());
        self.m_global_desc_table.add_entry(Segment::tss_segment(tss_addr));
    }

    /// The base frequency in MHz that the `eax` register of `cpuid` leaf
    /// 0x16 gives in its bits 0 to 14
    pub fn base_frequency(cpuid_eax: u32) -> (r: u64)
        ensures
            r == cpuid_eax % 0x8000,
    {
        let r = (cpuid_eax & 0x7fff) as u64;
        assert(cpuid_eax & 0x7fff == cpuid_eax % 0x8000) by (bit_vector);
        r
    }

    /// The maximum frequency in MHz that the `ebx` register of `cpuid` leaf
    /// 0x16 gives in its bits 0 to 14
    pub fn max_frequency(cpuid_ebx: u32) -> (r: u64)
        ensures
            r == cpuid_ebx % 0x8000,
    {
        Self::base_frequency(cpuid_ebx)
    }

    /// The bus frequency in MHz that the `ecx` register of `cpuid` leaf
    /// 0x16 gives in its bits 0 to 14
    pub fn bus_frequency(cpuid_ecx: u32) -> (r: u64)
        ensures
            r == cpuid_ecx % 0x8000,
    {
        Self::base_frequency(cpuid_ecx)
    }

    /// Tells whether the RFLAGS value `rflags` has the interrupt flag set
    pub fn are_interrupts_enabled(rflags: u64) -> (r: bool)
        ensures
            r == (rflags & 0x200u64 != 0),
    {
        rflags & 0x200u64 != 0
    }

    /// The steps that enable the interrupts of this core, in order: the
    /// bootstrap core first initializes the APIC and ACPI managers and
    /// registers the other cores
    pub fn init_interrupts(&self) -> (r: Vec<InterruptsInitStep>)
        ensures
            !self.m_is_ap ==> r@ == seq![
                InterruptsInitStep::InitApicManager,
                InterruptsInitStep::InitAcpiManager,
                InterruptsInitStep::RegisterApCpus,
                InterruptsInitStep::EnableLocalApic,
                InterruptsInitStep::EnableFastSystemCall,
                InterruptsInitStep::FlushIntrDescTable,
            ],
            self.m_is_ap ==> r@ == seq![
                InterruptsInitStep::EnableLocalApic,
                InterruptsInitStep::EnableFastSystemCall,
                InterruptsInitStep::FlushIntrDescTable,
            ],
    {
        let mut steps: Vec<InterruptsInitStep> = Vec::new();
        if !self.m_is_ap {
            steps.push(InterruptsInitStep::InitApicManager);
            steps.push(InterruptsInitStep::InitAcpiManager);
            steps.push(InterruptsInitStep::RegisterApCpus);
        }
        let ghost before = steps@;
        steps.push(InterruptsInitStep::EnableLocalApic);
        steps.push(InterruptsInitStep::EnableFastSystemCall);
        steps.push(InterruptsInitStep::FlushIntrDescTable);
        assert(steps@ =~= before + seq![
            InterruptsInitStep::EnableLocalApic,
            InterruptsInitStep::EnableFastSystemCall,
            InterruptsInitStep::FlushIntrDescTable,
        ]);
        steps
    }

    /// Turns the counters read around a busy loop into the core frequency and the
    /// bus frequency: the PIT counter measures the time, the TSC the core cycles
    /// and the local APIC timer the bus cycles, divided by `timer_divider`. An
    /// unchanged PIT counter gives `(0, 0)`: the loop was too short
    pub fn detect_speed(
        pit_counter: u64,
        left_pit_count: u64,
        tsc_before: u64,
        tsc_after: u64,
        lapic_counter: u64,
        left_lapic_count: u64,
        timer_divider: u64,
    ) -> (r: (u64, u64))
        requires
            left_pit_count <= pit_counter,
            tsc_before <= tsc_after,
            left_lapic_count <= lapic_counter,
            left_pit_count != pit_counter ==> {
                let pic_time = PitManager::BASE_FREQUENCY / (pit_counter - left_pit_count) as u64;
                &&& (tsc_after - tsc_before) * pic_time <= u64::MAX
                &&& (lapic_counter - left_lapic_count) * pic_time <= u64::MAX
                &&& (lapic_counter - left_lapic_count) * pic_time * timer_divider <= u64::MAX
            },
        ensures
            left_pit_count == pit_counter ==> r == (0u64, 0u64),
            left_pit_count != pit_counter ==> {
                let pic_time = PitManager::BASE_FREQUENCY / (pit_counter - left_pit_count) as u64;
                &&& r.0 == (tsc_after - tsc_before) * pic_time
                &&& r.1 == (lapic_counter - left_lapic_count) * pic_time * timer_divider
            },
    {
        if left_pit_count == pit_counter {
            (0, 0)
        } else {
            let pic_time = PitManager::BASE_FREQUENCY / (pit_counter - left_pit_count);
            let lapic_ticks = lapic_counter - left_lapic_count;
            ((tsc_after - tsc_before) * pic_time, lapic_ticks * pic_time * timer_divider)
        }
    }

    /// Returns the raw selector of the TSS, which `ltr` loads
    pub fn load_tss() -> (r: u64)
        ensures
            r == kernel_selector(SegmentSelector::C_INDEX_TSS),
    {
        proof {
            lemma_kernel_selectors(SegmentSelector::C_INDEX_TSS);
        }
        let tss_selector = SegmentSelector::from(SegmentSelector::C_INDEX_TSS);
        tss_selector.as_raw()
    }

    /// Returns the writes into the model specific registers that enable the
    /// fast system calls: the `syscall`/`sysret` segments, the entry point at
    /// `syscall_entry_addr` and the flags to clear
    pub fn enable_fast_system_call(syscall_entry_addr: u64) -> (r: Vec<MsrWrite>)
        ensures
            r@ == seq![
                MsrWrite {
                    m_register: 0xC000_0081,
                    m_value: ((kernel_selector(SegmentSelector::C_INDEX_USER_SYSC) - 16) as u64 * 0x1_0000_0000_0000
                        + kernel_selector(SegmentSelector::C_INDEX_KERN_CODE) * 0x1_0000_0000) as u64,
                },
                MsrWrite { m_register: 0xC000_0082, m_value: syscall_entry_addr },
                MsrWrite { m_register: 0xC000_0084, m_value: C_SYSCALL_FLAGS_MASK },
            ],
    {
        proof {
            lemma_kernel_selectors(SegmentSelector::C_INDEX_USER_SYSC);
            lemma_kernel_selectors(SegmentSelector::C_INDEX_KERN_CODE);
        }
        let syscall_selector = SegmentSelector::from(SegmentSelector::C_INDEX_USER_SYSC);
        let kern_code_selector = SegmentSelector::from(SegmentSelector::C_INDEX_KERN_CODE);
        let sysc_raw = syscall_selector.as_raw();
        let kern_raw = kern_code_selector.as_raw();
        let msr_value = ((sysc_raw - 16) << 48u64) | (kern_raw << 32u64);
        assert(sysc_raw == 40 && kern_raw == 8);
        assert((24u64 << 48u64) | (8u64 << 32u64) == 24u64 * 0x1_0000_0000_0000 + 8u64
            * 0x1_0000_0000) by (bit_vector);
        let mut writes: Vec<MsrWrite> = Vec::new();
        writes.push(MsrWrite { m_register: MsRegister::new_star().m_register, m_value: msr_value });
        writes.push(
            MsrWrite { m_register: MsRegister::new_lstar().m_register, m_value: syscall_entry_addr },
        );
        writes.push(
            MsrWrite { m_register: MsRegister::new_fmask().m_register, m_value: C_SYSCALL_FLAGS_MASK },
        );
        assert(writes@ =~= seq![
            MsrWrite {
                m_register: 0xC000_0081,
                m_value: ((kernel_selector(SegmentSelector::C_INDEX_USER_SYSC) - 16) as u64 * 0x1_0000_0000_0000
                    + kernel_selector(SegmentSelector::C_INDEX_KERN_CODE) * 0x1_0000_0000) as u64,
            },
            MsrWrite { m_register: 0xC000_0082, m_value: syscall_entry_addr },
            MsrWrite { m_register: 0xC000_0084, m_value: C_SYSCALL_FLAGS_MASK },
        ]);
        writes
    }
}

/// Number of rounds of the speed calibration
pub const C_MEASURE_COUNT: u64 = 5;

/// Measures that must agree with the first one of a round
pub const C_REQUIRED_MATCHES: u64 = 3;

/// Busy loop iterations of a round, per round number and per hundred
pub const C_INSTR_COUNT_FACTOR: u64 = 0x10000;

/// Largest difference in Hz between two agreeing measures
pub const C_TOLERANCE: u64 = 1000000;

/// What the speed calibration asks next
#[derive(Clone, Copy, PartialEq, Eq, Structural, Debug)]
pub enum SpeedAction {
    /// Measure the speed with a busy loop of this many iterations
    Measure(u64),
    /// The calibration is over: the core frequency and the bus frequency
    Done(u64, u64),
}

/// The decisions of the CPU speed calibration: rounds of measures with
/// longer and longer busy loops, until a first measure agrees with the
/// `C_REQUIRED_MATCHES` measures that follow it
pub struct SpeedCalibration {
    /// The current round, from 1 to `C_MEASURE_COUNT`
    pub m_round: u64,
    /// `None` while the first measure of the round is awaited, else how many
    /// following measures agreed with it
    pub m_matches: Option<u64>,
    pub m_best_matches: i64,
    pub m_best_max_frequency: u64,
    pub m_best_bus_frequency: u64,
    pub m_round_max_frequency: u64,
    pub m_round_bus_frequency: u64,
}

/// Two measures agree: they differ by no more than the tolerance
pub open spec fn measures_agree(a: u64, b: u64) -> bool {
    a - b <= C_TOLERANCE && b - a <= C_TOLERANCE
}

/// The iterations of the busy loop of round `round`
pub open spec fn round_instructions(round: u64) -> u64 {
    (C_INSTR_COUNT_FACTOR * round * 100) as u64
}

impl SpeedCalibration {
    /// The round is in range and the matches of a round are fewer than the
    /// required ones
    pub open spec fn wf(&self) -> bool {
        &&& 1 <= self.m_round <= C_MEASURE_COUNT
        &&& (self.m_matches matches Some(k) ==> k < C_REQUIRED_MATCHES)
        &&& -1 <= self.m_best_matches <= C_REQUIRED_MATCHES
    }

    /// How many measures the calibration may still take at most: each step
    /// that asks for a measure lowers it, so the calibration takes at most
    /// twenty measures
    pub open spec fn measures_left(&self) -> int {
        let in_round: int = match self.m_matches {
            None => 4,
            Some(k) => 3 - k,
        };
        (5 - self.m_round) * 4 + in_round
    }

    /// Starts the calibration: the first measure of the first round
    pub fn start() -> (r: (Self, SpeedAction))
        ensures
            r.0.wf(),
            r.0.m_round == 1,
            r.0.m_matches is None,
            r.0.m_best_matches == -1,
            r.0.m_best_max_frequency == 0,
            r.0.m_best_bus_frequency == 0,
            r.0.measures_left() == 20,
            r.1 == SpeedAction::Measure(round_instructions(1)),
    {
        let state = Self {
            m_round: 1,
            m_matches: None,
            m_best_matches: -1,
            m_best_max_frequency: 0,
            m_best_bus_frequency: 0,
            m_round_max_frequency: 0,
            m_round_bus_frequency: 0,
        };
        (state, SpeedAction::Measure(C_INSTR_COUNT_FACTOR * 1 * 100))
    }

    /// Goes to the next round, or ends with the best measure when the rounds
    /// are over
    fn next_round(&mut self) -> (r: SpeedAction)
        requires
            1 <= old(self).m_round <= C_MEASURE_COUNT,
        ensures
            old(self).m_round == C_MEASURE_COUNT ==> r == SpeedAction::Done(
                old(self).m_best_max_frequency,
                old(self).m_best_bus_frequency,
            ) && *final(self) == *old(self),
            old(self).m_round < C_MEASURE_COUNT ==> {
                &&& r == SpeedAction::Measure(round_instructions((old(self).m_round + 1) as u64))
                &&& *final(self) == (Self {
                    m_round: (old(self).m_round + 1) as u64,
                    m_matches: None,
                    ..*old(self)
                })
            },
    {
        if self.m_round == C_MEASURE_COUNT {
            SpeedAction::Done(self.m_best_max_frequency, self.m_best_bus_frequency)
        } else {
            self.m_round = self.m_round + 1;
            self.m_matches = None;
            SpeedAction::Measure(C_INSTR_COUNT_FACTOR * self.m_round * 100)
        }
    }

    /// Takes the measure `(measured_max, measured_bus)` that the previous
    /// action asked for and decides what comes next: a null first measure
    /// skips the round; a first measure is kept and compared with the
    /// following ones; after enough agreeing measures it is the result; a
    /// disagreeing one ends the round, whose first measure becomes the best
    /// one when it gathered more agreeing measures than the best one
    pub fn step(&mut self, measured_max: u64, measured_bus: u64) -> (r: SpeedAction)
        requires
            old(self).wf(),
        ensures
            final(self).wf(),
            r is Measure ==> final(self).measures_left() < old(self).measures_left(),
            old(self).m_matches is None && measured_max == 0 ==> {
                let skipped = Self { m_matches: None, ..*old(self) };
                &&& old(self).m_round == C_MEASURE_COUNT ==> r == SpeedAction::Done(
                    old(self).m_best_max_frequency,
                    old(self).m_best_bus_frequency,
                )
                &&& old(self).m_round < C_MEASURE_COUNT ==> r == SpeedAction::Measure(
                    round_instructions((old(self).m_round + 1) as u64),
                ) && final(self).m_round == old(self).m_round + 1 && final(self).m_matches is None
                &&& final(self).m_best_matches == old(self).m_best_matches
                &&& final(self).m_best_max_frequency == old(self).m_best_max_frequency
                &&& final(self).m_best_bus_frequency == old(self).m_best_bus_frequency
            },
            old(self).m_matches is None && measured_max != 0 ==> {
                &&& r == SpeedAction::Measure(round_instructions(old(self).m_round))
                &&& *final(self) == (Self {
                    m_matches: Some(0),
                    m_round_max_frequency: measured_max,
                    m_round_bus_frequency: measured_bus,
                    ..*old(self)
                })
            },
            old(self).m_matches is Some && measures_agree(
                old(self).m_round_max_frequency,
                measured_max,
            ) ==> {
                let k = old(self).m_matches->0;
                &&& k + 1 == C_REQUIRED_MATCHES ==> r == SpeedAction::Done(
                    old(self).m_round_max_frequency,
                    old(self).m_round_bus_frequency,
                )
                &&& k + 1 < C_REQUIRED_MATCHES ==> r == SpeedAction::Measure(
                    round_instructions(old(self).m_round),
                ) && *final(self) == (Self { m_matches: Some((k + 1) as u64), ..*old(self) })
            },
            old(self).m_matches is Some && !measures_agree(
                old(self).m_round_max_frequency,
                measured_max,
            ) ==> {
                let k = old(self).m_matches->0;
                let better = k > old(self).m_best_matches;
                &&& final(self).m_best_matches == if better {
                    k as i64
                } else {
                    old(self).m_best_matches
                }
                &&& final(self).m_best_max_frequency == if better {
                    old(self).m_round_max_frequency
                } else {
                    old(self).m_best_max_frequency
                }
                &&& final(self).m_best_bus_frequency == if better {
                    old(self).m_round_bus_frequency
                } else {
                    old(self).m_best_bus_frequency
                }
                &&& old(self).m_round == C_MEASURE_COUNT ==> r == SpeedAction::Done(
                    final(self).m_best_max_frequency,
                    final(self).m_best_bus_frequency,
                )
                &&& old(self).m_round < C_MEASURE_COUNT ==> r == SpeedAction::Measure(
                    round_instructions((old(self).m_round + 1) as u64),
                ) && final(self).m_round == old(self).m_round + 1 && final(self).m_matches is None
            },
    {
        match self.m_matches {
            None => {
                if measured_max == 0 {
                    /* too short a loop: try the next round */
                    self.next_round()
                } else {
                    self.m_round_max_frequency = measured_max;
                    self.m_round_bus_frequency = measured_bus;
                    self.m_matches = Some(0);
                    SpeedAction::Measure(C_INSTR_COUNT_FACTOR * self.m_round * 100)
                }
            },
            Some(k) => {
                let frequency_diff = if self.m_round_max_frequency >= measured_max {
                    self.m_round_max_frequency - measured_max
                } else {
                    measured_max - self.m_round_max_frequency
                };
                if frequency_diff > C_TOLERANCE {
                    /* the round failed: keep its first measure if it is the best so far */
                    if (k as i64) > self.m_best_matches {
                        self.m_best_matches = k as i64;
                        self.m_best_max_frequency = self.m_round_max_frequency;
                        self.m_best_bus_frequency = self.m_round_bus_frequency;
                    }
                    self.next_round()
                } else if k + 1 == C_REQUIRED_MATCHES {
                    SpeedAction::Done(self.m_round_max_frequency, self.m_round_bus_frequency)
                } else {
                    self.m_matches = Some(k + 1);
                    SpeedAction::Measure(C_INSTR_COUNT_FACTOR * self.m_round * 100)
                }
            },
        }
    }
}

} // verus!

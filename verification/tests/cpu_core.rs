use kernel::arch::x86_64::cpu::HwCpu;
use kernel::addr::virt_addr::VirtAddr;
use kernel::arch::x86_64::hw_cpu_core::{
    HwCpuCore, InterruptsInitStep, MsrWrite, SpeedAction, SpeedCalibration,
};
use kernel::arch::x86_64::intr_desc_entry::Entry;

fn new_core(is_ap: bool) -> HwCpuCore {
    let isrs: Vec<u64> = (0..256u64).map(|i| 0xffff_8000_0010_0000 + i * 16).collect();
    HwCpuCore::new(is_ap, &isrs)
}

#[test]
fn new_core_tables() {
    let c = new_core(false);
    assert!(!c.m_is_ap);
    assert_eq!(c.m_global_desc_table.m_next_free_desc, 1);
    assert_eq!(c.m_intr_desc_table.m_intr_service_routines.len(), 256);
    assert_eq!(
        c.m_intr_desc_table.m_intr_service_routines[1],
        Entry::with_handler(0xffff_8000_0010_0010, 8, 0x8e00)
    );
    assert_eq!(c.m_task_state_segment.m_full_intr_stack_table[0].deref(), 0);
}

#[test]
fn double_fault_stack_bottom() {
    let mut c = new_core(true);
    c.init_double_fault_stack(VirtAddr::from(0x1000));
    assert_eq!(c.m_task_state_segment.m_full_intr_stack_table[0].deref(), 0x2000);
    assert_eq!(c.m_task_state_segment.m_full_intr_stack_table[1].deref(), 0);
}

#[test]
fn gdt_of_a_core() {
    let mut c = new_core(false);
    c.init_gdt(0x1234_5678_9abc_def0);
    let table = c.m_global_desc_table.m_desc_table;
    assert_eq!(c.m_global_desc_table.m_next_free_desc, 8);
    assert_eq!(table[0], 0);
    assert_eq!(table[1], 0x00af_9900_0000_ffff);
    assert_eq!(table[2], 0x00cf_9300_0000_ffff);
    assert_eq!(table[3], 0x00af_f900_0000_ffff);
    assert_eq!(table[4], 0x00cf_f300_0000_ffff);
    assert_eq!(table[5], 0x00af_f900_0000_ffff);
    assert_eq!(table[6], 0x9a00_89bc_def0_0063);
    assert_eq!(table[7], 0x1234_5678);
}

#[test]
fn tss_and_syscall_registers() {
    assert_eq!(HwCpuCore::load_tss(), 48);
    let writes = HwCpuCore::enable_fast_system_call(0xffff_8000_0020_0000);
    assert_eq!(
        writes,
        vec![
            MsrWrite { m_register: 0xC000_0081, m_value: 0x0018_0008_0000_0000 },
            MsrWrite { m_register: 0xC000_0082, m_value: 0xffff_8000_0020_0000 },
            MsrWrite { m_register: 0xC000_0084, m_value: 0x200 },
        ]
    );
}

#[test]
fn interrupts_flag_and_init_steps() {
    assert!(HwCpuCore::are_interrupts_enabled(0x202));
    assert!(!HwCpuCore::are_interrupts_enabled(0x002));
    assert_eq!(
        new_core(false).init_interrupts(),
        vec![
            InterruptsInitStep::InitApicManager,
            InterruptsInitStep::InitAcpiManager,
            InterruptsInitStep::RegisterApCpus,
            InterruptsInitStep::EnableLocalApic,
            InterruptsInitStep::EnableFastSystemCall,
            InterruptsInitStep::FlushIntrDescTable,
        ]
    );
    assert_eq!(
        new_core(true).init_interrupts(),
        vec![
            InterruptsInitStep::EnableLocalApic,
            InterruptsInitStep::EnableFastSystemCall,
            InterruptsInitStep::FlushIntrDescTable,
        ]
    );
}

#[test]
fn detect_speed_formula() {
    assert_eq!(HwCpuCore::detect_speed(100, 100, 5, 9, 50, 10, 16), (0, 0));
    let (core_hz, bus_hz) =
        HwCpuCore::detect_speed(65535, 65535 - 1193, 0, 3_000_000, 100_000, 90_000, 16);
    assert_eq!(core_hz, 3_000_000_000);
    assert_eq!(bus_hz, 160_000_000);
}

#[test]
fn speed_calibration_agreeing_measures() {
    let (mut cal, action) = SpeedCalibration::start();
    assert_eq!(action, SpeedAction::Measure(0x10000 * 100));
    assert_eq!(cal.step(3_000_000_000, 100_000_000), SpeedAction::Measure(0x10000 * 100));
    assert_eq!(cal.step(3_000_000_500, 7), SpeedAction::Measure(0x10000 * 100));
    assert_eq!(cal.step(2_999_000_000, 7), SpeedAction::Measure(0x10000 * 100));
    assert_eq!(cal.step(3_001_000_000, 7), SpeedAction::Done(3_000_000_000, 100_000_000));
}

#[test]
fn speed_calibration_tolerance() {
    /* measures farther than the tolerance from the first one of the round
     * end the round */
    let (mut cal, _) = SpeedCalibration::start();
    assert_eq!(cal.step(3_000_000_000, 1), SpeedAction::Measure(0x10000 * 100));
    assert_eq!(cal.step(3_001_000_001, 1), SpeedAction::Measure(0x10000 * 2 * 100));
    assert_eq!(cal.m_best_matches, 0);
    assert_eq!(cal.step(3_000_000_000, 1), SpeedAction::Measure(0x10000 * 2 * 100));
    assert_eq!(cal.step(2_998_999_999, 1), SpeedAction::Measure(0x10000 * 3 * 100));
}

#[test]
fn speed_calibration_null_measures() {
    let (mut cal, _) = SpeedCalibration::start();
    for round in 2..=5u64 {
        assert_eq!(cal.step(0, 0), SpeedAction::Measure(0x10000 * round * 100));
    }
    assert_eq!(cal.step(0, 0), SpeedAction::Done(0, 0));
}

#[test]
fn speed_calibration_keeps_the_best_round() {
    let (mut cal, _) = SpeedCalibration::start();
    assert_eq!(cal.step(1_000_000_000, 1), SpeedAction::Measure(0x10000 * 100));
    /* disagreement: round 1 ends with no match */
    assert_eq!(cal.step(3_000_000_000, 9), SpeedAction::Measure(0x10000 * 2 * 100));
    assert_eq!(cal.m_best_matches, 0);
    assert_eq!(cal.m_best_max_frequency, 1_000_000_000);
    assert_eq!(cal.step(2_000_000_000, 2), SpeedAction::Measure(0x10000 * 2 * 100));
    assert_eq!(cal.step(2_000_000_000, 9), SpeedAction::Measure(0x10000 * 2 * 100));
    /* one match, then a disagreement: round 2 is the best so far */
    assert_eq!(cal.step(5, 9), SpeedAction::Measure(0x10000 * 3 * 100));
    assert_eq!(cal.m_best_matches, 1);
    assert_eq!(cal.step(0, 0), SpeedAction::Measure(0x10000 * 4 * 100));
    assert_eq!(cal.step(0, 0), SpeedAction::Measure(0x10000 * 5 * 100));
    assert_eq!(cal.step(0, 0), SpeedAction::Done(2_000_000_000, 2));
}

#[test]
fn cpuid_frequencies_keep_fifteen_bits() {
    assert_eq!(HwCpuCore::base_frequency(0xffff_0bb8), 3000);
    assert_eq!(HwCpuCore::max_frequency(0x0000_8fa0), 4000);
    assert_eq!(HwCpuCore::bus_frequency(100), 100);
}

#[test]
fn cpus_are_numbered_zero() {
    assert_eq!(HwCpu::new_bsp(), HwCpu);
    assert_eq!(HwCpu::new_ap().id(), 0);
    assert_eq!(HwCpu::current_id(), 0);
}

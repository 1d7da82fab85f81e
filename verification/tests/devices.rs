use kernel::arch::x86_64::dev::hw_random::{
    rdrand_supported, DevManager, EarlyDevice, EarlyRegistration, X64RdRandRandom, X64RdTscRandom,
};
use kernel::arch::x86_64::apic_manager::ApicManager;
use kernel::arch::x86_64::dev::hw_uart::X64Serial16550Uart;
use kernel::arch::x86_64::hw_cpu_core::MsrWrite;
use kernel::arch::x86_64::io_port::PortWrite;
use kernel::arch::x86_64::local_apic::{ApicInit, LocalApic};
use kernel::arch::x86_64::ms_register::MsRegister;
use kernel::arch::x86_64::pic::PicManager;
use kernel::arch::x86_64::pit::PitManager;

fn w(port: u16, value: u8) -> PortWrite {
    PortWrite { m_port: port, m_value: value }
}

#[test]
fn serial_ports_of_the_com_devices() {
    assert_eq!(X64Serial16550Uart::new_com1().m_data.port(), 0x3f8);
    assert_eq!(X64Serial16550Uart::new_com2().m_data.port(), 0x2e8);
    assert_eq!(X64Serial16550Uart::new_com3().m_data.port(), 0x2f8);
    let com4 = X64Serial16550Uart::new_com4();
    assert_eq!(com4.m_data.port(), 0x3e8);
    assert_eq!(com4.m_line_status.port(), 0x3ed);
    assert_eq!(com4.m_com_port_number, 4);
}

#[test]
fn serial_init_sequence() {
    let com1 = X64Serial16550Uart::new_com1();
    assert_eq!(
        com1.init_hw(),
        vec![
            w(0x3f9, 0x00),
            w(0x3fb, 0x80),
            w(0x3f8, 0x03),
            w(0x3f9, 0x00),
            w(0x3fb, 0x03),
            w(0x3fa, 0xC7),
            w(0x3fc, 0x0B),
            w(0x3f9, 0x01),
        ]
    );
}

#[test]
fn serial_sends_backspaces_as_erasures() {
    assert_eq!(X64Serial16550Uart::send(b'a'), vec![b'a']);
    assert_eq!(X64Serial16550Uart::send(8), vec![8, b' ', 8]);
    assert_eq!(X64Serial16550Uart::send(0x7F), vec![8, b' ', 8]);
    assert_eq!(X64Serial16550Uart::write_str("ab\u{7f}c"), vec![b'a', b'b', 8, b' ', 8, b'c']);
    assert_eq!(X64Serial16550Uart::write_str("é"), vec![0xC3, 0xA9]);
    assert!(X64Serial16550Uart::write_str("").is_empty());
    assert!(X64Serial16550Uart::is_output_empty(0x20));
    assert!(X64Serial16550Uart::is_output_empty(0x61));
    assert!(!X64Serial16550Uart::is_output_empty(0x01));
}

#[test]
fn random_devices_follow_cpuid() {
    assert!(rdrand_supported(1 << 30));
    assert!(!rdrand_supported(!(1u32 << 30)));
    assert_eq!(X64RdRandRandom::try_new(3, 1 << 30), Some(X64RdRandRandom { m_serial_value: 3 }));
    assert_eq!(X64RdRandRandom::try_new(3, 0), None);
    assert_eq!(X64RdTscRandom::new(0).m_serial_value, 0);
}

fn run_registration(refused: Option<EarlyDevice>) -> (Vec<EarlyDevice>, EarlyRegistration) {
    let manager = DevManager;
    let mut registered = Vec::new();
    let mut step = manager.register_early_devices();
    while let EarlyRegistration::Register(device) = step {
        let accepted = Some(device) != refused;
        if accepted {
            registered.push(device);
        }
        step = manager.after_registration(device, accepted);
    }
    (registered, step)
}

#[test]
fn early_devices_registration() {
    let coms = vec![
        EarlyDevice::SerialCom(1),
        EarlyDevice::SerialCom(2),
        EarlyDevice::SerialCom(3),
        EarlyDevice::SerialCom(4),
    ];
    let mut with_rdrand = vec![EarlyDevice::RdRandRandom];
    with_rdrand.extend(coms.clone());
    assert_eq!(run_registration(None), (with_rdrand, EarlyRegistration::Done));
    let mut with_tsc = vec![EarlyDevice::RdTscRandom];
    with_tsc.extend(coms);
    assert_eq!(run_registration(Some(EarlyDevice::RdRandRandom)), (with_tsc, EarlyRegistration::Done));
    /* a refused serial port stops the registration */
    assert_eq!(
        run_registration(Some(EarlyDevice::SerialCom(2))),
        (
            vec![EarlyDevice::RdRandRandom, EarlyDevice::SerialCom(1)],
            EarlyRegistration::Failed(EarlyDevice::SerialCom(2))
        )
    );
    let manager = DevManager;
    assert_eq!(
        manager.after_registration(EarlyDevice::RdTscRandom, false),
        EarlyRegistration::Failed(EarlyDevice::RdTscRandom)
    );
}

#[test]
fn local_apic_initialization() {
    assert!(LocalApic::is_supported(1 << 9));
    assert!(!LocalApic::is_supported(0));
    assert_eq!(LocalApic::init_apic(0, 0xfee0_0900), None);
    assert_eq!(LocalApic::init_apic(1 << 9, 0xfee0_0100), None);
    assert_eq!(
        LocalApic::init_apic(1 << 9, 0xfee0_0900),
        Some(ApicInit { m_phys_base: 0xfee0_0000, m_msr_value: 0xfee0_0900 })
    );
    assert_eq!(
        LocalApic::init_apic(1 << 9, 0x1_fee0_0800),
        Some(ApicInit { m_phys_base: 0xfee0_0000, m_msr_value: 0x1_fee0_0800 })
    );
}

#[test]
fn pic_routing() {
    let (pic, writes) = PicManager::init_instance();
    assert_eq!(writes.len(), 18);
    assert_eq!(writes[0], w(0x20, 0x11));
    assert_eq!(writes[4], w(0x21, 32));
    assert_eq!(writes[6], w(0xa1, 40));
    assert_eq!(writes[17], w(0xa1, 0));
    assert_eq!(writes[1], w(0x80, 0));
    assert!(pic.can_handle_interrupt(32));
    assert!(pic.can_handle_interrupt(47));
    assert!(!pic.can_handle_interrupt(48));
    assert!(!pic.can_handle_interrupt(31));
    assert_eq!(pic.end_of_interrupt(33), Some(w(0x20, 0x20)));
    assert_eq!(pic.end_of_interrupt(44), Some(w(0xa0, 0x20)));
    assert_eq!(pic.end_of_interrupt(50), None);
    assert_eq!(pic.disable(), vec![w(0x21, 0xff), w(0xa1, 0xff)]);
    assert_eq!(pic.set_interrupts_masks(0x12, 0x34), vec![w(0x21, 0x12), w(0xa1, 0x34)]);
}

#[test]
fn pit_periodic_mode() {
    let pit = PitManager::init_instance();
    assert_eq!(pit.enable_periodic(0x1234), vec![w(0x43, 0x34), w(0x40, 0x34), w(0x40, 0x12)]);
    assert_eq!(pit.read_counter_command(), w(0x43, 0));
    assert_eq!(PitManager::counter_from_bytes(0x34, 0x12), 0x1234);
}

#[test]
fn msr_halves_round_trip() {
    let (high, low) = MsRegister::halves_of(0x0018_0008_dead_beef);
    assert_eq!((high, low), (0x0018_0008, 0xdead_beef));
    assert_eq!(MsRegister::value_of(high, low), 0x0018_0008_dead_beef);
    assert_eq!(MsRegister::new_star().m_register, 0xC000_0081);
    assert_eq!(MsRegister::new_lstar().m_register, 0xC000_0082);
    assert_eq!(MsRegister::new_fmask().m_register, 0xC000_0084);
}

#[test]
fn rdtsc_random_values_are_the_low_bits() {
    assert_eq!(X64RdTscRandom::random_u16(0x1234_5678_9abc_def0), 0xdef0);
    assert_eq!(X64RdTscRandom::random_u32(0x1234_5678_9abc_def0), 0x9abc_def0);
    assert_eq!(X64RdTscRandom::random_u64(0x1234_5678_9abc_def0), 0x1234_5678_9abc_def0);
}

#[test]
fn apic_manager_enables_the_apic_base() {
    let (manager, write) = ApicManager::init_instance(1 << 9, 0xfee0_0800);
    assert_eq!(write, MsrWrite { m_register: 0x1B, m_value: 0xfee0_0800 });
    assert_eq!(manager.m_base_virt_addr.deref(), 0xfee0_0000);
    assert!(manager.m_io_apics.is_empty());
    assert_eq!(manager.irq_to_gsi(3), 3);
    let (_, write) = ApicManager::init_instance(1 << 9, 0x1_fee0_0900);
    assert_eq!(write.m_value, 0x1_fee0_0900);
}

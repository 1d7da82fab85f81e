use kernel::arch::x86_64::acpi_bytes::{is_valid_checksum, matches_signature, read_u16, read_u32, read_u64};
use kernel::arch::x86_64::acpi_manager::{AcpiApicEvent, AcpiManager};

fn put(mem: &mut [u8], at: usize, bytes: &[u8]) {
    mem[at..at + bytes.len()].copy_from_slice(bytes);
}

fn fix_checksum(mem: &mut [u8], start: usize, len: usize, at: usize) {
    mem[at] = 0;
    let sum: u32 = mem[start..start + len].iter().map(|b| *b as u32).sum();
    mem[at] = ((256 - (sum % 256)) % 256) as u8;
}

fn machine() -> Vec<u8> {
    let mut mem = vec![0u8; 0xE0000 + 0x100];
    /* RSDP revision 0 at the start of the BIOS area, pointing to the RSDT */
    put(&mut mem, 0xE0000, b"RSD PTR ");
    put(&mut mem, 0xE0000 + 16, &0x1000u32.to_le_bytes());
    put(&mut mem, 0xE0000 + 20, &36u32.to_le_bytes());
    fix_checksum(&mut mem, 0xE0000, 36, 0xE0000 + 8);
    /* RSDT with one entry: the APIC table */
    put(&mut mem, 0x1000, b"RSDT");
    put(&mut mem, 0x1004, &40u32.to_le_bytes());
    put(&mut mem, 0x1000 + 36, &0x2000u32.to_le_bytes());
    fix_checksum(&mut mem, 0x1000, 40, 0x1009);
    /* APIC table and its entries */
    let mut entries: Vec<u8> = Vec::new();
    entries.extend_from_slice(&[0, 8, 1, 1, 1, 0, 0, 0]);
    entries.extend_from_slice(&[0, 8, 0, 0, 1, 0, 0, 0]);
    entries.extend_from_slice(&[0, 8, 2, 2, 0, 0, 0, 0]);
    entries.extend_from_slice(&[1, 12, 5, 0]);
    entries.extend_from_slice(&0xFEC0_0000u32.to_le_bytes());
    entries.extend_from_slice(&0u32.to_le_bytes());
    entries.extend_from_slice(&[2, 10, 0, 0]);
    entries.extend_from_slice(&2u32.to_le_bytes());
    entries.extend_from_slice(&3u16.to_le_bytes());
    let len = 44 + entries.len();
    put(&mut mem, 0x2000, b"APIC");
    put(&mut mem, 0x2004, &(len as u32).to_le_bytes());
    put(&mut mem, 0x2000 + 44, &entries);
    fix_checksum(&mut mem, 0x2000, len, 0x2009);
    mem
}

#[test]
fn little_endian_reads() {
    let mem = [0x01u8, 0x02, 0x03, 0x04, 0x05, 0x06, 0x07, 0x08];
    assert_eq!(read_u16(&mem, 0), 0x0201);
    assert_eq!(read_u32(&mem, 4), 0x0807_0605);
    assert_eq!(read_u64(&mem, 0), 0x0807_0605_0403_0201);
    assert!(matches_signature(&mem, 1, &[2, 3]));
    assert!(!matches_signature(&mem, 1, &[3, 2]));
    assert!(is_valid_checksum(&[0x10, 0xF0, 0x00], 0, 3));
    assert!(!is_valid_checksum(&[0x10, 0xF1], 0, 2));
}

#[test]
fn rsdp_search_finds_the_valid_pointer() {
    let mem = machine();
    assert_eq!(AcpiManager::find_root_table_ptr(&mem), Some(0xE0000));
    assert_eq!(AcpiManager::find_root_table_ptr_in(&mem, 0x400, 0x800), None);
    let mut broken = machine();
    broken[0xE0000 + 8] = broken[0xE0000 + 8].wrapping_add(1);
    assert_eq!(AcpiManager::find_root_table_ptr_in(&broken, 0xE0000, 0xE0010), None);
}

#[test]
fn tables_and_apic_events() {
    let mem = machine();
    let manager = AcpiManager::init_instance(&mem).unwrap();
    assert_eq!(manager.m_rsdp, 0xE0000);
    assert!(manager.m_enabled);
    assert_eq!(manager.m_sdt_tables, vec![0x2000]);
    let events = manager.register_ap_cpus(&mem, 0);
    assert_eq!(
        events,
        vec![
            AcpiApicEvent::RegisterCpu(1),
            AcpiApicEvent::SkipDisabledCpu(2),
            AcpiApicEvent::AddIoApic { id: 5, address: 0xFEC0_0000, base_gsi: 0 },
            AcpiApicEvent::ConfigureIrq {
                irq: 0,
                gsi: 2,
                delivery_mode_fixed: true,
                polarity_high_active: false,
                trigger_edge: true,
            },
        ]
    );
}

#[test]
fn no_rsdp_no_manager() {
    let mem = vec![0u8; 0xE0000 + 0x100];
    let mut small = mem.clone();
    small.truncate(0xE0000 + 0x100);
    assert!(AcpiManager::find_root_table_ptr_in(&small, 0xE0000, 0xE0040).is_none());
}

#[test]
fn checked_walk_agrees_on_a_well_formed_machine() {
    let mem = machine();
    let manager = AcpiManager::try_init_instance(&mem).unwrap();
    assert_eq!(manager.m_rsdp, 0xE0000);
    assert_eq!(manager.m_sdt_tables, vec![0x2000]);
    let events = manager.try_register_ap_cpus(&mem, 0).unwrap();
    assert_eq!(events, manager.register_ap_cpus(&mem, 0));
    assert_eq!(events.len(), 4);
}

#[test]
fn checked_walk_refuses_a_table_outside_the_image() {
    let mut mem = machine();
    put(&mut mem, 0x1000 + 36, &0xF0000u32.to_le_bytes());
    assert!(AcpiManager::try_init_instance(&mem).is_none());
    assert!(AcpiManager::try_init_instance(&vec![0u8; 0x100]).is_none());
}

#[test]
fn checked_walk_refuses_a_malformed_apic_entry() {
    let mut mem = machine();
    let manager = AcpiManager::try_init_instance(&mem).unwrap();
    mem[0x2000 + 44 + 1] = 0;
    assert!(manager.try_register_ap_cpus(&mem, 0).is_none());
}

#[test]
fn checked_walk_follows_deeply_nested_tables() {
    let mut mem = machine();
    /* the RSDT lists a FACP table whose DSDT is again a root table, twenty levels deep */
    let levels = 20usize;
    let level_at = |j: usize| 0x10000 + j * 0x200;
    put(&mut mem, 0x1000 + 36, &(level_at(0) as u32 + 0x100).to_le_bytes());
    for j in 0..levels {
        let facp = level_at(j) + 0x100;
        put(&mut mem, facp, b"FACP");
        put(&mut mem, facp + 4, &44u32.to_le_bytes());
        put(&mut mem, facp + 40, &(level_at(j) as u32).to_le_bytes());
        put(&mut mem, level_at(j), b"RSDT");
        put(&mut mem, level_at(j) + 4, &40u32.to_le_bytes());
        let child = if j + 1 < levels { level_at(j + 1) + 0x100 } else { 0x2000 };
        put(&mut mem, level_at(j) + 36, &(child as u32).to_le_bytes());
    }
    let checked = AcpiManager::try_init_instance(&mem).unwrap();
    assert_eq!(checked.m_sdt_tables, vec![0x2000]);
    assert_eq!(checked.m_sdt_tables, AcpiManager::init_instance(&mem).unwrap().m_sdt_tables);
}

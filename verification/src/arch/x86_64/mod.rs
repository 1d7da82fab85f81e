//! x86_64 implementation code
pub mod acpi;
pub mod acpi_bytes;
pub mod acpi_checks;
pub mod acpi_laws;
pub mod acpi_manager;
pub mod addr;
pub mod apic_manager;
pub mod cpu;
pub mod desc_table;
pub mod descs;
pub mod dev;
pub mod global_desc_table;
pub mod hw_cpu_core;
pub mod interrupts;
pub mod intr_desc_entry;
pub mod intr_desc_table;
pub mod io_port;
pub mod local_apic;
pub mod ms_register;
pub mod pic;
pub mod pit;
pub mod task_state_segment;
pub mod vm;

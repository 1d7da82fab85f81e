//! x86_64 hardware addresses
pub mod hw_phys_addr;
pub mod hw_virt_addr;
pub mod phys;

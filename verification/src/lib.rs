//! Verified core of a small x86_64 kernel and of its higher-half loader:
//! physical/virtual addresses, the frame bitmap allocator, descriptor tables,
//! interrupt controllers, ACPI table parsing, boot information and the
//! virtual memory layout randomizer.
use vstd::prelude::*;

pub mod addr;
pub mod align;
pub mod arch;
pub mod boot_info;
pub mod hhloader;
pub mod mem;
pub mod shared;
pub mod vm;



//! x86_64 I/O port used by the device drivers
pub use crate::arch::x86_64::io_port::IoPort as IOPort;

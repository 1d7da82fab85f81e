//! x86_64 device drivers
pub mod hw_random;
pub mod hw_uart;
pub mod io_port;

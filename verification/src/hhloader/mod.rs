//! The higher half loader: its early physical frame allocator and the
//! randomizer of the kernel's virtual memory layout
pub mod mem;


//! x86_64 low level CPU descriptors: the GDT built from `Descriptor`s and the
//! task state segment
pub mod gdt;
pub mod tss;

pub use crate::arch::x86_64::desc_table::{CpuRingMode, DescTablePtr};

//! x86_64 interrupts management
pub mod intr_desc_table;
pub mod intr_stack_frame;

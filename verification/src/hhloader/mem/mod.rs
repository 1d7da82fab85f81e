//! Loader memory management
pub mod phys;
pub mod vm_layout;

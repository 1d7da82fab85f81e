//! Loader physical memory management
pub mod init_allocator;

//! x86_64 paging structures
pub mod hw_page_dir;
pub mod hw_page_table_entry;
pub mod paging;

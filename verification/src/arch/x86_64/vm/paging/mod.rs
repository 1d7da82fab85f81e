//! x86_64 paging structures of the earlier paging interface
pub mod hw_page_table_entry;

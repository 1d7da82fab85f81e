//! Virtual memory types shared by the address implementations
pub mod page_table;

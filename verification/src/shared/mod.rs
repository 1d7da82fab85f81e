//! Code shared by the loader and the kernel core: the logger, the UART
//! writer, the page directory support and the information that the loader
//! hands to the kernel
pub mod uart;
pub mod paging_dir;
pub mod logger;
pub mod loader_info;
pub mod random;

//! Architecture dependent code
pub mod x86_64;

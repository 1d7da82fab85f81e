//! Physical memory management
pub mod bitmap;
pub mod frame;

//! x86_64 Task State Segment
pub use crate::arch::x86_64::task_state_segment::TaskStateSegment;

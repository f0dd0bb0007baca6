//! Physical memory bookkeeping.

pub mod frame_refs;
pub mod heap;

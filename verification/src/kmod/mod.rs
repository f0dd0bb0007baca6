//! Kernel module interfaces built into the kernel.

pub mod fs;

//! Records shared between the kernel, its loader, hypervisor domains and user space.

pub mod boot;
pub mod syscall;
pub mod exec;
pub mod hypervisor;
pub mod mdriver_block;
pub mod mdriver_control;
pub mod performance;
pub mod shared_ring;
pub mod capability;

//! Verified core logic of the mnu kernel: boot and domain ABI records, the
//! capability model, virtio transport and queue management, metrics, driver
//! package manifests and the small state machines the kernel keeps.

pub mod time;
pub mod le;
pub mod metrics;
pub mod abi;
pub mod virtio;
pub mod performance;
pub mod text;
pub mod capability;
pub mod policy;
pub mod percpu;
pub mod platform;
pub mod hypervisor_guest;
pub mod boot_memory;
pub mod kmod;
pub mod csprng;
pub mod random;
pub mod interrupt;
pub mod cext;
pub mod mem;
pub mod mdriver;
pub mod block_check;
pub mod bring_up;
pub mod plugkit;

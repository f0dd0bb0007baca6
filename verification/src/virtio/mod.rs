//! Virtio over PCI: capability discovery, status and feature negotiation, and
//! split virtqueues.

pub mod error;
pub mod feature;
pub mod device;
pub mod dma;
pub mod pci;
pub mod queue;
pub mod transport;

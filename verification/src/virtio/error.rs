//! Errors of the virtio transport and virtqueues.

use vstd::prelude::*;

verus! {

#[derive(Clone, Copy, Debug, PartialEq, Eq, Structural)]
pub enum VirtioError {
    InvalidPciCapabilityList,
    CapabilityLoop,
    MissingCommonConfiguration,
    MissingNotifyConfiguration,
    MissingIsrConfiguration,
    InvalidCapabilityLength,
    InvalidBar,
    BarIsIo,
    RegionOverflow,
    RegisterOutOfBounds,
    AccessFailed,
    DeviceResetFailed,
    RequiredFeatureMissing,
    FeaturesRejected,
    InvalidQueueSize,
    QueueUnavailable,
    QueueFull,
    InvalidDescriptor,
    InvalidUsedIndex,
    DmaBufferTooSmall,
    ArithmeticOverflow,
    CommandTimeout,
}

pub type VirtioResult<T> = Result<T, VirtioError>;

/// The description of `e`.
pub open spec fn message_of(e: VirtioError) -> &'static str {
    match e {
        VirtioError::InvalidPciCapabilityList => "invalid PCI capability list",
        VirtioError::CapabilityLoop => "PCI capability list contains a loop",
        VirtioError::MissingCommonConfiguration => "virtio common configuration is missing",
        VirtioError::MissingNotifyConfiguration => "virtio notify configuration is missing",
        VirtioError::MissingIsrConfiguration => "virtio ISR configuration is missing",
        VirtioError::InvalidCapabilityLength => "virtio PCI capability length is invalid",
        VirtioError::InvalidBar => "virtio PCI capability references an invalid BAR",
        VirtioError::BarIsIo => "virtio PCI capability references an I/O BAR",
        VirtioError::RegionOverflow => "virtio PCI capability exceeds its BAR",
        VirtioError::RegisterOutOfBounds => "virtio register access exceeds its capability",
        VirtioError::AccessFailed => "virtio transport register access failed",
        VirtioError::DeviceResetFailed => "virtio device did not reset",
        VirtioError::RequiredFeatureMissing => "virtio device is missing a required feature",
        VirtioError::FeaturesRejected => "virtio device rejected negotiated features",
        VirtioError::InvalidQueueSize => "virtqueue size is invalid",
        VirtioError::QueueUnavailable => "virtqueue is unavailable",
        VirtioError::QueueFull => "virtqueue has no free descriptors",
        VirtioError::InvalidDescriptor => "virtqueue descriptor is invalid",
        VirtioError::InvalidUsedIndex => "virtqueue used ring index is invalid",
        VirtioError::DmaBufferTooSmall => "virtqueue DMA buffer is too small",
        VirtioError::ArithmeticOverflow => "virtio address calculation overflowed",
        VirtioError::CommandTimeout => "virtio command timed out",
    }
}

impl VirtioError {
    /// Human-readable description of the error.
    pub fn message(&self) -> (r: &'static str)
        ensures
            r == message_of(*self),
    {
        match self {
            VirtioError::InvalidPciCapabilityList => "invalid PCI capability list",
            VirtioError::CapabilityLoop => "PCI capability list contains a loop",
            VirtioError::MissingCommonConfiguration => "virtio common configuration is missing",
            VirtioError::MissingNotifyConfiguration => "virtio notify configuration is missing",
            VirtioError::MissingIsrConfiguration => "virtio ISR configuration is missing",
            VirtioError::InvalidCapabilityLength => "virtio PCI capability length is invalid",
            VirtioError::InvalidBar => "virtio PCI capability references an invalid BAR",
            VirtioError::BarIsIo => "virtio PCI capability references an I/O BAR",
            VirtioError::RegionOverflow => "virtio PCI capability exceeds its BAR",
            VirtioError::RegisterOutOfBounds => "virtio register access exceeds its capability",
            VirtioError::AccessFailed => "virtio transport register access failed",
            VirtioError::DeviceResetFailed => "virtio device did not reset",
            VirtioError::RequiredFeatureMissing => "virtio device is missing a required feature",
            VirtioError::FeaturesRejected => "virtio device rejected negotiated features",
            VirtioError::InvalidQueueSize => "virtqueue size is invalid",
            VirtioError::QueueUnavailable => "virtqueue is unavailable",
            VirtioError::QueueFull => "virtqueue has no free descriptors",
            VirtioError::InvalidDescriptor => "virtqueue descriptor is invalid",
            VirtioError::InvalidUsedIndex => "virtqueue used ring index is invalid",
            VirtioError::DmaBufferTooSmall => "virtqueue DMA buffer is too small",
            VirtioError::ArithmeticOverflow => "virtio address calculation overflowed",
            VirtioError::CommandTimeout => "virtio command timed out",
        }
    }
}

} // verus!

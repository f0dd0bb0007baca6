//! Records the hypervisor hands to a domain at boot and reports about crashed
//! domains and assigned PCI devices.

use vstd::prelude::*;

verus! {

/// `MNUDOM\0\0` read as a little-endian `u64`.
pub const DOMAIN_BOOT_MAGIC: u64 = 0x0000_4d4f_4455_4e4d;
pub const DOMAIN_BOOT_VERSION: u32 = 10;
/// `MNUCRSH\0` read as a little-endian `u64`.
pub const DOMAIN_CRASH_MAGIC: u64 = 0x0048_5352_4355_4e4d;
pub const DOMAIN_CRASH_VERSION: u16 = 1;
/// Size in bytes of the C layout of [`DomainBootInfo`].
pub const DOMAIN_BOOT_INFO_SIZE: u32 = 96;
/// Size in bytes of the C layout of [`DomainCrashInfo`].
pub const DOMAIN_CRASH_INFO_SIZE: u16 = 48;

pub const HYPERVISOR_BACKEND_INTEL_VMX: u32 = 1;
pub const HYPERVISOR_BACKEND_AMD_SVM: u32 = 2;

pub const DOMAIN_ROLE_SYSTEM: u32 = 1;
pub const DOMAIN_ROLE_HARDWARE: u32 = 2;
pub const DOMAIN_ROLE_APPLICATION: u32 = 3;

pub const DOMAIN_FEATURE_CONSOLE_WRITE: u64 = 1 << 0;
pub const DOMAIN_FEATURE_YIELD: u64 = 1 << 1;
pub const DOMAIN_FEATURE_SHUTDOWN: u64 = 1 << 2;
pub const DOMAIN_FEATURE_READY: u64 = 1 << 3;
pub const DOMAIN_FEATURE_WAIT: u64 = 1 << 4;
pub const DOMAIN_FEATURE_EVENT_CHANNEL: u64 = 1 << 5;
pub const DOMAIN_FEATURE_GRANT_TABLE: u64 = 1 << 6;
pub const DOMAIN_FEATURE_SHARED_RING: u64 = 1 << 7;
pub const DOMAIN_FEATURE_EVENT_IRQ: u64 = 1 << 8;
pub const DOMAIN_FEATURE_VIRTUAL_APIC: u64 = 1 << 9;
pub const DOMAIN_FEATURE_CRASH_QUERY: u64 = 1 << 10;
pub const DOMAIN_FEATURE_DEVICE_QUERY: u64 = 1 << 11;
pub const DOMAIN_FEATURE_DEVICE_OWNERSHIP: u64 = 1 << 12;
pub const DOMAIN_FEATURE_DEVICE_RESOURCES: u64 = 1 << 13;
pub const DOMAIN_FEATURE_DEVICE_ACTIVATION: u64 = 1 << 14;
pub const DOMAIN_FEATURE_GRANT_QUERY: u64 = 1 << 15;
pub const DOMAIN_FEATURE_EVENT_POLL: u64 = 1 << 16;
/// Every feature a freshly built [`DomainBootInfo`] advertises.
pub const DOMAIN_FEATURES_ALL: u64 = 0x1_ffff;

pub const DOMAIN_CAPABILITY_DEVICE_QUERY: u64 = 1 << 0;
pub const DOMAIN_CAPABILITY_DEVICE_CLAIM: u64 = 1 << 1;

pub const PCI_DEVICE_STATE_QUARANTINED: u8 = 1;
pub const PCI_DEVICE_STATE_FIRMWARE_DEFERRED: u8 = 2;
pub const PCI_DEVICE_STATE_CLAIMED_DISABLED: u8 = 3;
pub const PCI_DEVICE_STATE_ACTIVE: u8 = 4;
pub const PCI_DEVICE_FLAG_CLAIMABLE: u32 = 1 << 0;
pub const PCI_DEVICE_FLAG_EPHEMERAL: u32 = 1 << 1;
pub const PCI_DEVICE_FLAG_READ_ONLY: u32 = 1 << 2;
pub const PCI_DEVICE_FLAG_PARTITIONED: u32 = 1 << 3;
pub const PCI_RESOURCE_KIND_MMIO: u8 = 1;
pub const PCI_RESOURCE_FLAG_READABLE: u32 = 1 << 0;
pub const PCI_RESOURCE_FLAG_WRITABLE: u32 = 1 << 1;
pub const PCI_DEVICE_INTERRUPT_CONFIG: usize = 0;
pub const PCI_DEVICE_INTERRUPT_QUEUE: usize = 1;
pub const PCI_DEVICE_INTERRUPT_COUNT: usize = 2;

pub const EVENT_CHANNEL_VECTOR: u8 = 0x40;
pub const DOMAIN_MANAGEMENT_VECTOR: u8 = 0x41;
pub const MDRIVER_CONTROL_PORT: u32 = 1;
pub const MDRIVER_CONTROL_IRQ_PORT: u32 = 2;
pub const MDRIVER_CONTROL_RING_PORT: u32 = 3;
pub const MDRIVER_BLOCK_RING_PORT: u32 = 4;
pub const MDRIVER_BLOCK_DATA_PAGE: u64 = 1;
pub const MDRIVER_BLOCK_RING_PAGE: u64 = 2;
pub const MDRIVER_BLOCK_BUFFER_FIRST_PAGE: u64 = 3;
pub const MDRIVER_BLOCK_BUFFER_COUNT: usize = 4;
pub const MDRIVER_DOMAIN_ID: u32 = 2;
pub const MDRIVER_CONTROL_RING_GENERATION: u64 = 1;
pub const MDRIVER_BLOCK_RING_GENERATION: u64 = 1;
pub const MDRIVER_CONTROL_REQUEST_KIND: u16 = 1;
pub const MDRIVER_CONTROL_RESPONSE_KIND: u16 = 2;
pub const MDRIVER_BLOCK_REQUEST_KIND: u16 = 3;
pub const MDRIVER_BLOCK_RESPONSE_KIND: u16 = 4;

pub const DOMAIN_CRASH_STATUS_CRASHED: u32 = 1;
pub const DOMAIN_CRASH_STATUS_RESTARTED: u32 = 2;

pub const EVENT_CHANNEL_NO_EVENT: u64 = 0;
pub const GRANT_REF_INVALID: u64 = 0;
pub const GRANT_FLAG_WRITABLE: u64 = 1 << 0;

pub const HYPERCALL_SUCCESS: u64 = 0;
pub const HYPERCALL_UNSUPPORTED: u64 = 0xffff_ffff_ffff_ffff;
pub const HYPERCALL_INVALID_ARGUMENT: u64 = 0xffff_ffff_ffff_fffe;

/// Hypercall numbers, in ABI order starting at 0.
#[derive(Debug, Clone, Copy, PartialEq, Eq, Structural)]
pub enum HypercallNumber {
    ConsoleWrite,
    Yield,
    Shutdown,
    Ready,
    Wait,
    EventSend,
    EventWait,
    GrantCreate,
    GrantMap,
    GrantUnmap,
    GrantRevoke,
    EventIrqEnable,
    IrqEoi,
    IrqMask,
    IrqSetTpr,
    DomainCrashQuery,
    DeviceQuery,
    DeviceClaim,
    DeviceRelease,
    DeviceConfigRead,
    DeviceResourceQuery,
    DeviceActivate,
    GrantQuery,
    EventPoll,
}

/// Shutdown reasons, in ABI order starting at 0.
#[derive(Debug, Clone, Copy, PartialEq, Eq, Structural)]
pub enum ShutdownReason {
    Completed,
    InvalidBootInfo,
    Panic,
    InitializationFailed,
}

#[derive(Debug, Clone, Copy, PartialEq, Eq, Structural)]
pub enum DomainBootInfoError {
    InvalidMagic,
    UnsupportedVersion,
    InvalidStructSize,
    InvalidBackend,
    InvalidRole,
    MissingRequiredHypercall,
    InvalidMemorySize,
}

/// Fixed-length boot record the hypervisor passes to a domain's first vCPU.
#[derive(Debug, Clone, Copy, PartialEq, Eq, Structural)]
pub struct DomainBootInfo {
    pub magic: u64,
    pub abi_version: u32,
    pub struct_size: u32,
    pub domain_id: u32,
    pub vcpu_id: u32,
    pub hypervisor_backend: u32,
    pub domain_role: u32,
    pub memory_size: u64,
    pub feature_flags: u64,
    pub grant_window_start: u64,
    pub grant_window_size: u64,
    pub device_window_start: u64,
    pub device_window_size: u64,
    pub restart_count: u32,
    pub _reserved0: u32,
    pub capabilities: u64,
}

pub open spec fn page_aligned(v: u64) -> bool {
    v % 4096 == 0
}

/// The memory layout a domain record must describe: page-aligned memory, a
/// grant window inside it, and a device window below the grant window.
pub open spec fn windows_valid(info: DomainBootInfo) -> bool {
    &&& info.memory_size != 0 && page_aligned(info.memory_size)
    &&& info.grant_window_start + info.grant_window_size <= u64::MAX
    &&& page_aligned(info.grant_window_start)
    &&& info.grant_window_size != 0 && page_aligned(info.grant_window_size)
    &&& info.grant_window_start + info.grant_window_size <= info.memory_size
    &&& info.device_window_start + info.device_window_size <= u64::MAX
    &&& info.device_window_start != 0 && page_aligned(info.device_window_start)
    &&& info.device_window_size != 0 && page_aligned(info.device_window_size)
    &&& info.device_window_start + info.device_window_size <= info.grant_window_start
}

/// The first problem `validate` finds in `info`, in the order it checks.
pub open spec fn domain_boot_error(info: DomainBootInfo) -> Option<DomainBootInfoError> {
    if info.magic != DOMAIN_BOOT_MAGIC {
        Some(DomainBootInfoError::InvalidMagic)
    } else if info.abi_version != DOMAIN_BOOT_VERSION {
        Some(DomainBootInfoError::UnsupportedVersion)
    } else if info.struct_size < DOMAIN_BOOT_INFO_SIZE {
        Some(DomainBootInfoError::InvalidStructSize)
    } else if info.hypervisor_backend != HYPERVISOR_BACKEND_INTEL_VMX
        && info.hypervisor_backend != HYPERVISOR_BACKEND_AMD_SVM {
        Some(DomainBootInfoError::InvalidBackend)
    } else if info.domain_role != DOMAIN_ROLE_SYSTEM && info.domain_role != DOMAIN_ROLE_HARDWARE
        && info.domain_role != DOMAIN_ROLE_APPLICATION {
        Some(DomainBootInfoError::InvalidRole)
    } else if info.feature_flags & DOMAIN_FEATURE_SHUTDOWN == 0 {
        Some(DomainBootInfoError::MissingRequiredHypercall)
    } else if !windows_valid(info) {
        Some(DomainBootInfoError::InvalidMemorySize)
    } else {
        None
    }
}

impl DomainBootInfo {
    pub fn new(
        domain_id: u32,
        vcpu_id: u32,
        hypervisor_backend: u32,
        domain_role: u32,
        memory_size: u64,
        grant_window_start: u64,
        grant_window_size: u64,
        device_window_start: u64,
        device_window_size: u64,
        restart_count: u32,
        capabilities: u64,
    ) -> (info: Self)
        ensures
            info == (DomainBootInfo {
                magic: DOMAIN_BOOT_MAGIC,
                abi_version: DOMAIN_BOOT_VERSION,
                struct_size: DOMAIN_BOOT_INFO_SIZE,
                domain_id,
                vcpu_id,
                hypervisor_backend,
                domain_role,
                memory_size,
                feature_flags: DOMAIN_FEATURES_ALL,
                grant_window_start,
                grant_window_size,
                device_window_start,
                device_window_size,
                restart_count,
                _reserved0: 0,
                capabilities,
            }),
    {
        DomainBootInfo {
            magic: DOMAIN_BOOT_MAGIC,
            abi_version: DOMAIN_BOOT_VERSION,
            struct_size: DOMAIN_BOOT_INFO_SIZE,
            domain_id,
            vcpu_id,
            hypervisor_backend,
            domain_role,
            memory_size,
            feature_flags: DOMAIN_FEATURES_ALL,
            grant_window_start,
            grant_window_size,
            device_window_start,
            device_window_size,
            restart_count,
            _reserved0: 0,
            capabilities,
        }
    }

    pub fn validate(&self) -> (r: Result<(), DomainBootInfoError>)
        ensures
            match domain_boot_error(*self) {
                Some(e) => r == Err::<(), DomainBootInfoError>(e),
                None => r is Ok,
            },
    {
        if self.magic != DOMAIN_BOOT_MAGIC {
            return Err(DomainBootInfoError::InvalidMagic);
        }
        if self.abi_version != DOMAIN_BOOT_VERSION {
            return Err(DomainBootInfoError::UnsupportedVersion);
        }
        if self.struct_size < DOMAIN_BOOT_INFO_SIZE {
            return Err(DomainBootInfoError::InvalidStructSize);
        }
        if self.hypervisor_backend != HYPERVISOR_BACKEND_INTEL_VMX
            && self.hypervisor_backend != HYPERVISOR_BACKEND_AMD_SVM {
            return Err(DomainBootInfoError::InvalidBackend);
        }
        if self.domain_role != DOMAIN_ROLE_SYSTEM && self.domain_role != DOMAIN_ROLE_HARDWARE
            && self.domain_role != DOMAIN_ROLE_APPLICATION {
            return Err(DomainBootInfoError::InvalidRole);
        }
        if self.feature_flags & DOMAIN_FEATURE_SHUTDOWN == 0 {
            return Err(DomainBootInfoError::MissingRequiredHypercall);
        }
        if self.memory_size == 0 || self.memory_size % 4096 != 0 {
            return Err(DomainBootInfoError::InvalidMemorySize);
        }
        let grant_window_end = match self.grant_window_start.checked_add(self.grant_window_size) {
            Some(e) => e,
            None => return Err(DomainBootInfoError::InvalidMemorySize),
        };
        if self.grant_window_start % 4096 != 0 || self.grant_window_size == 0
            || self.grant_window_size % 4096 != 0 || grant_window_end > self.memory_size {
            return Err(DomainBootInfoError::InvalidMemorySize);
        }
        let device_window_end = match self.device_window_start.checked_add(self.device_window_size) {
            Some(e) => e,
            None => return Err(DomainBootInfoError::InvalidMemorySize),
        };
        if self.device_window_start == 0 || self.device_window_start % 4096 != 0
            || self.device_window_size == 0 || self.device_window_size % 4096 != 0
            || device_window_end > self.grant_window_start {
            return Err(DomainBootInfoError::InvalidMemorySize);
        }
        Ok(())
    }
}

#[derive(Debug, Clone, Copy, PartialEq, Eq)]
pub struct PciDeviceInfo {
    pub requester: u16,
    pub class: u8,
    pub subclass: u8,
    pub state: u8,
    pub _reserved0: [u8; 3],
    pub owner_domain: u32,
    pub flags: u32,
    /// GPT disk GUID in the byte order used on disk.
    pub storage_disk_guid: [u8; 16],
    /// GPT partition type GUID in the byte order used on disk.
    pub storage_partition_type_guid: [u8; 16],
    /// GPT unique partition GUID in the byte order used on disk.
    pub storage_partition_guid: [u8; 16],
}

pub open spec fn all_zero(bytes: Seq<u8>) -> bool {
    forall|i: int| 0 <= i < bytes.len() ==> bytes[i] == 0
}

/// Ownership rules for a reported PCI device: quarantined and deferred devices
/// have no owner, claimed or active ones do, and only partitioned devices carry
/// storage GUIDs.
pub open spec fn pci_device_info_valid(info: PciDeviceInfo) -> bool {
    &&& all_zero(info._reserved0@)
    &&& if info.state == PCI_DEVICE_STATE_QUARANTINED {
        info.owner_domain == 0 && info.flags & !(PCI_DEVICE_FLAG_CLAIMABLE | PCI_DEVICE_FLAG_EPHEMERAL | PCI_DEVICE_FLAG_READ_ONLY | PCI_DEVICE_FLAG_PARTITIONED) == 0
    } else if info.state == PCI_DEVICE_STATE_FIRMWARE_DEFERRED {
        info.owner_domain == 0 && info.flags == 0
    } else if info.state == PCI_DEVICE_STATE_CLAIMED_DISABLED || info.state == PCI_DEVICE_STATE_ACTIVE {
        info.owner_domain != 0 && info.flags & !(PCI_DEVICE_FLAG_EPHEMERAL | PCI_DEVICE_FLAG_READ_ONLY | PCI_DEVICE_FLAG_PARTITIONED) == 0
    } else {
        false
    }
    &&& if info.flags & PCI_DEVICE_FLAG_PARTITIONED != 0 {
        &&& info.flags & (PCI_DEVICE_FLAG_EPHEMERAL | PCI_DEVICE_FLAG_READ_ONLY) == 0
        &&& !all_zero(info.storage_disk_guid@)
        &&& !all_zero(info.storage_partition_type_guid@)
        &&& !all_zero(info.storage_partition_guid@)
    } else {
        &&& all_zero(info.storage_disk_guid@)
        &&& all_zero(info.storage_partition_type_guid@)
        &&& all_zero(info.storage_partition_guid@)
    }
}

fn is_zero_guid(bytes: &[u8; 16]) -> (r: bool)
    ensures
        r == all_zero(bytes@),
{
    let mut i: usize = 0;
    while i < 16
        invariant
            i <= 16,
            bytes@.len() == 16,
            forall|j: int| 0 <= j < i ==> bytes@[j] == 0,
        decreases 16 - i,
    {
        if bytes[i] != 0 {
            return false;
        }
        i = i + 1;
    }
    true
}

impl PciDeviceInfo {
    pub fn validate(&self) -> (r: bool)
        ensures
            r == pci_device_info_valid(*self),
    {
        let reserved_zero = self._reserved0[0] == 0 && self._reserved0[1] == 0
            && self._reserved0[2] == 0;
        assert(reserved_zero == all_zero(self._reserved0@));
        if !reserved_zero {
            return false;
        }
        let state_ok = if self.state == PCI_DEVICE_STATE_QUARANTINED {
            self.owner_domain == 0 && self.flags & !(PCI_DEVICE_FLAG_CLAIMABLE
                | PCI_DEVICE_FLAG_EPHEMERAL | PCI_DEVICE_FLAG_READ_ONLY
                | PCI_DEVICE_FLAG_PARTITIONED) == 0
        } else if self.state == PCI_DEVICE_STATE_FIRMWARE_DEFERRED {
            self.owner_domain == 0 && self.flags == 0
        } else if self.state == PCI_DEVICE_STATE_CLAIMED_DISABLED
            || self.state == PCI_DEVICE_STATE_ACTIVE {
            self.owner_domain != 0 && self.flags & !(PCI_DEVICE_FLAG_EPHEMERAL
                | PCI_DEVICE_FLAG_READ_ONLY | PCI_DEVICE_FLAG_PARTITIONED) == 0
        } else {
            false
        };
        if !state_ok {
            return false;
        }
        if self.flags & PCI_DEVICE_FLAG_PARTITIONED != 0 {
            self.flags & (PCI_DEVICE_FLAG_EPHEMERAL | PCI_DEVICE_FLAG_READ_ONLY) == 0
                && !is_zero_guid(&self.storage_disk_guid)
                && !is_zero_guid(&self.storage_partition_type_guid)
                && !is_zero_guid(&self.storage_partition_guid)
        } else {
            is_zero_guid(&self.storage_disk_guid) && is_zero_guid(
                &self.storage_partition_type_guid,
            ) && is_zero_guid(&self.storage_partition_guid)
        }
    }
}

#[derive(Debug, Clone, Copy, PartialEq, Eq, Structural)]
pub struct PciDeviceResource {
    pub requester: u16,
    pub bar_index: u8,
    pub kind: u8,
    pub flags: u32,
    pub guest_address: u64,
    pub length: u64,
    pub _reserved0: u64,
}

/// A resource describes a readable, page-aligned, non-empty MMIO window of a
/// real requester on one of the six BARs.
pub open spec fn pci_device_resource_valid(r: PciDeviceResource) -> bool {
    &&& r.requester != 0
    &&& r.bar_index < 6
    &&& r.kind == PCI_RESOURCE_KIND_MMIO
    &&& r.flags & !(PCI_RESOURCE_FLAG_READABLE | PCI_RESOURCE_FLAG_WRITABLE) == 0
    &&& r.flags & PCI_RESOURCE_FLAG_READABLE != 0
    &&& page_aligned(r.guest_address)
    &&& r.length != 0
    &&& page_aligned(r.length)
    &&& r._reserved0 == 0
}

impl PciDeviceResource {
    pub fn validate(&self) -> (r: bool)
        ensures
            r == pci_device_resource_valid(*self),
    {
        self.requester != 0 && self.bar_index < 6 && self.kind == PCI_RESOURCE_KIND_MMIO
            && self.flags & !(PCI_RESOURCE_FLAG_READABLE | PCI_RESOURCE_FLAG_WRITABLE) == 0
            && self.flags & PCI_RESOURCE_FLAG_READABLE != 0 && self.guest_address % 4096 == 0
            && self.length != 0 && self.length % 4096 == 0 && self._reserved0 == 0
    }
}

#[derive(Debug, Clone, Copy, PartialEq, Eq, Structural)]
pub struct DomainCrashInfo {
    pub magic: u64,
    pub version: u16,
    pub struct_size: u16,
    pub domain_id: u32,
    pub raw_reason: u64,
    pub fault_address: u64,
    pub fault_info: u64,
    pub restart_count: u32,
    pub status: u32,
}

pub open spec fn domain_crash_info_valid(info: DomainCrashInfo) -> bool {
    &&& info.magic == DOMAIN_CRASH_MAGIC
    &&& info.version == DOMAIN_CRASH_VERSION
    &&& info.struct_size >= DOMAIN_CRASH_INFO_SIZE
    &&& info.domain_id != 0
    &&& (info.status == DOMAIN_CRASH_STATUS_CRASHED || info.status == DOMAIN_CRASH_STATUS_RESTARTED)
}

impl DomainCrashInfo {
    pub fn new(
        domain_id: u32,
        raw_reason: u64,
        fault_address: u64,
        fault_info: u64,
        restart_count: u32,
        status: u32,
    ) -> (info: Self)
        ensures
            info == (DomainCrashInfo {
                magic: DOMAIN_CRASH_MAGIC,
                version: DOMAIN_CRASH_VERSION,
                struct_size: DOMAIN_CRASH_INFO_SIZE,
                domain_id,
                raw_reason,
                fault_address,
                fault_info,
                restart_count,
                status,
            }),
    {
        DomainCrashInfo {
            magic: DOMAIN_CRASH_MAGIC,
            version: DOMAIN_CRASH_VERSION,
            struct_size: DOMAIN_CRASH_INFO_SIZE,
            domain_id,
            raw_reason,
            fault_address,
            fault_info,
            restart_count,
            status,
        }
    }

    pub fn validate(&self) -> (r: bool)
        ensures
            r == domain_crash_info_valid(*self),
    {
        self.magic == DOMAIN_CRASH_MAGIC && self.version == DOMAIN_CRASH_VERSION
            && self.struct_size >= DOMAIN_CRASH_INFO_SIZE && self.domain_id != 0 && (self.status
            == DOMAIN_CRASH_STATUS_CRASHED || self.status == DOMAIN_CRASH_STATUS_RESTARTED)
    }
}

} // verus!

use mnu::abi::exec::ProcessRole;
use mnu::abi::hypervisor::{
    DomainBootInfo, DomainBootInfoError, DomainCrashInfo, PciDeviceInfo, PciDeviceResource,
    DOMAIN_CRASH_STATUS_RESTARTED, DOMAIN_ROLE_SYSTEM, HYPERVISOR_BACKEND_AMD_SVM,
    HYPERVISOR_BACKEND_INTEL_VMX, PCI_DEVICE_FLAG_CLAIMABLE, PCI_DEVICE_FLAG_EPHEMERAL,
    PCI_DEVICE_FLAG_PARTITIONED, PCI_DEVICE_FLAG_READ_ONLY, PCI_DEVICE_STATE_ACTIVE,
    PCI_DEVICE_STATE_CLAIMED_DISABLED, PCI_DEVICE_STATE_FIRMWARE_DEFERRED,
    PCI_DEVICE_STATE_QUARANTINED, PCI_RESOURCE_FLAG_READABLE, PCI_RESOURCE_FLAG_WRITABLE,
    PCI_RESOURCE_KIND_MMIO, DOMAIN_FEATURE_SHUTDOWN,
};
use core::mem::size_of;

#[test]
fn process_roles_round_trip_through_the_syscall_value() {
    for role in [
        ProcessRole::CoreService,
        ProcessRole::Service,
        ProcessRole::Application,
        ProcessRole::Driver,
        ProcessRole::Tool,
        ProcessRole::Unknown,
    ] {
        assert_eq!(ProcessRole::from_raw(role.raw()), Some(role));
    }
    assert_eq!(ProcessRole::from_raw(0), None);
    assert_eq!(ProcessRole::from_raw(7), None);
}

#[test]
fn domain_boot_info_layout_is_fixed() {
    assert_eq!(size_of::<DomainBootInfo>(), 96);
    assert_eq!(core::mem::align_of::<DomainBootInfo>(), 8);
}

#[test]
fn valid_domain_boot_info_is_accepted() {
    let info = DomainBootInfo::new(
        1, 0, HYPERVISOR_BACKEND_AMD_SVM, DOMAIN_ROLE_SYSTEM, 2 * 1024 * 1024, 0x1f_0000,
        0x1_0000, 0x1b_0000, 0x4_0000, 0, 0,
    );
    assert_eq!(info.validate(), Ok(()));
}

#[test]
fn pci_device_info_layout_is_fixed() {
    assert_eq!(size_of::<PciDeviceInfo>(), 64);
    assert_eq!(core::mem::align_of::<PciDeviceInfo>(), 4);
}

#[test]
fn pci_device_ownership_states_are_consistent() {
    let mut info = PciDeviceInfo {
        requester: 0x10,
        class: 1,
        subclass: 8,
        state: PCI_DEVICE_STATE_QUARANTINED,
        _reserved0: [0; 3],
        owner_domain: 0,
        flags: PCI_DEVICE_FLAG_CLAIMABLE,
        storage_disk_guid: [0; 16],
        storage_partition_type_guid: [0; 16],
        storage_partition_guid: [0; 16],
    };
    assert!(info.validate());
    info.state = PCI_DEVICE_STATE_CLAIMED_DISABLED;
    info.owner_domain = 2;
    info.flags = PCI_DEVICE_FLAG_EPHEMERAL;
    assert!(info.validate());
    info.owner_domain = 0;
    assert!(!info.validate());
    info.owner_domain = 2;
    info.state = PCI_DEVICE_STATE_ACTIVE;
    assert!(info.validate());
    info.flags = PCI_DEVICE_FLAG_READ_ONLY;
    assert!(info.validate());
    info.flags = PCI_DEVICE_FLAG_PARTITIONED;
    info.storage_disk_guid[0] = 1;
    info.storage_partition_type_guid[0] = 2;
    info.storage_partition_guid[0] = 3;
    assert!(info.validate());
    info.state = PCI_DEVICE_STATE_FIRMWARE_DEFERRED;
    info.owner_domain = 0;
    info.flags = PCI_DEVICE_FLAG_CLAIMABLE;
    info.storage_disk_guid = [0; 16];
    info.storage_partition_type_guid = [0; 16];
    info.storage_partition_guid = [0; 16];
    assert!(!info.validate());
}

#[test]
fn pci_device_resource_layout_is_fixed() {
    assert_eq!(size_of::<PciDeviceResource>(), 32);
    let resource = PciDeviceResource {
        requester: 0x10,
        bar_index: 0,
        kind: PCI_RESOURCE_KIND_MMIO,
        flags: PCI_RESOURCE_FLAG_READABLE | PCI_RESOURCE_FLAG_WRITABLE,
        guest_address: 0x1b_0000,
        length: 0x4000,
        _reserved0: 0,
    };
    assert!(resource.validate());
}

#[test]
fn unknown_backend_is_rejected() {
    let mut info = DomainBootInfo::new(1, 0, HYPERVISOR_BACKEND_INTEL_VMX, DOMAIN_ROLE_SYSTEM, 4096, 0, 4096, 0, 0, 0, 0);
    info.hypervisor_backend = 9;
    assert_eq!(info.validate(), Err(DomainBootInfoError::InvalidBackend));
}

#[test]
fn unaligned_memory_size_is_rejected() {
    let info = DomainBootInfo::new(1, 0, HYPERVISOR_BACKEND_INTEL_VMX, DOMAIN_ROLE_SYSTEM, 4097, 0, 4096, 0, 0, 0, 0);
    assert_eq!(info.validate(), Err(DomainBootInfoError::InvalidMemorySize));
}

#[test]
fn unknown_domain_role_is_rejected() {
    let mut info = DomainBootInfo::new(1, 0, HYPERVISOR_BACKEND_INTEL_VMX, DOMAIN_ROLE_SYSTEM, 4096, 0, 4096, 0, 0, 0, 0);
    info.domain_role = 99;
    assert_eq!(info.validate(), Err(DomainBootInfoError::InvalidRole));
}

#[test]
fn crash_info_layout_and_identity_are_fixed() {
    let info = DomainCrashInfo::new(3, 0x400, 0x4000_0000, 4, 1, DOMAIN_CRASH_STATUS_RESTARTED);
    assert_eq!(size_of::<DomainCrashInfo>(), 48);
    assert!(info.validate());
}

#[test]
fn domain_boot_info_reports_each_window_problem() {
    let base = DomainBootInfo::new(
        1, 0, HYPERVISOR_BACKEND_AMD_SVM, DOMAIN_ROLE_SYSTEM, 2 * 1024 * 1024, 0x1f_0000,
        0x1_0000, 0x1b_0000, 0x4_0000, 0, 0,
    );
    let mut info = base;
    info.feature_flags &= !DOMAIN_FEATURE_SHUTDOWN;
    assert_eq!(info.validate(), Err(DomainBootInfoError::MissingRequiredHypercall));
    let mut info = base;
    info.device_window_start = 0;
    assert_eq!(info.validate(), Err(DomainBootInfoError::InvalidMemorySize));
    let mut info = base;
    info.grant_window_size = 0x2_0000;
    assert_eq!(info.validate(), Err(DomainBootInfoError::InvalidMemorySize));
    let mut info = base;
    info.struct_size = 95;
    assert_eq!(info.validate(), Err(DomainBootInfoError::InvalidStructSize));
    let mut info = base;
    info.magic = 1;
    assert_eq!(info.validate(), Err(DomainBootInfoError::InvalidMagic));
    let mut crash = DomainCrashInfo::new(3, 0, 0, 0, 0, 7);
    assert!(!crash.validate());
    crash.status = DOMAIN_CRASH_STATUS_RESTARTED;
    crash.domain_id = 0;
    assert!(!crash.validate());
}

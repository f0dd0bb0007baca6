use mnu::abi::boot::PhysicalRange;
use mnu::abi::hypervisor::{DomainBootInfo, HYPERVISOR_BACKEND_AMD_SVM};
use mnu::boot_memory::{page_range, BootMemoryPreparation, BootMemoryStatus};
use mnu::hypervisor_guest::GuestConfiguration;
use mnu::kmod::fs;
use mnu::platform::{DeviceControlResponse, DisplayInfo, Platform, PlatformError, PlatformOps};

struct FixedDisplay;

impl PlatformOps for FixedDisplay {
    fn display_info(&self) -> Result<DisplayInfo, PlatformError> {
        Ok(DisplayInfo {
            width: 640,
            height: 480,
            stride: 2560,
            red_offset: 16,
            green_offset: 8,
            blue_offset: 0,
            surface_address: 0x8000_0000,
            surface_size: 640 * 480 * 4,
            shared_surface: false,
        })
    }

    fn display_transfer_limit(&self) -> Result<usize, PlatformError> {
        Ok(4096)
    }

    fn present_display(&self, _x: u32, _y: u32, width: u32, height: u32, pixels: &[u8]) -> Result<(), PlatformError> {
        if pixels.len() == (width * height * 4) as usize {
            Ok(())
        } else {
            Err(PlatformError::InvalidRequest)
        }
    }

    fn commit_display(&self, _x: u32, _y: u32, _width: u32, _height: u32) -> Result<(), PlatformError> {
        Err(PlatformError::Transport)
    }

    fn device_control(&self, operation: u16, device_id: u32, arguments: [u64; 4]) -> Result<DeviceControlResponse, PlatformError> {
        Ok(DeviceControlResponse { status: operation as u32, device_id, values: arguments })
    }
}

#[test]
fn platform_without_operations_is_unsupported() {
    let platform: Platform<FixedDisplay> = Platform::new();
    assert_eq!(platform.display_info(), Err(PlatformError::Unsupported));
    assert_eq!(platform.display_transfer_limit(), Err(PlatformError::Unsupported));
    assert_eq!(platform.present_display(0, 0, 1, 1, &[0; 4]), Err(PlatformError::Unsupported));
    assert_eq!(platform.commit_display(0, 0, 1, 1), Err(PlatformError::Unsupported));
    assert_eq!(platform.device_control(1, 2, [0; 4]), Err(PlatformError::Unsupported));
}

#[test]
fn platform_forwards_to_installed_operations() {
    let mut platform = Platform::new();
    assert_eq!(platform.install(FixedDisplay), Ok(()));
    assert_eq!(platform.install(FixedDisplay), Err(PlatformError::InvalidRequest));
    assert_eq!(platform.display_info().unwrap().width, 640);
    assert_eq!(platform.display_transfer_limit(), Ok(4096));
    assert_eq!(platform.present_display(0, 0, 1, 1, &[0; 4]), Ok(()));
    assert_eq!(platform.present_display(0, 0, 2, 1, &[0; 4]), Err(PlatformError::InvalidRequest));
    assert_eq!(platform.commit_display(0, 0, 1, 1), Err(PlatformError::Transport));
    let response = platform.device_control(3, 9, [1, 2, 3, 4]).unwrap();
    assert_eq!(response, DeviceControlResponse { status: 3, device_id: 9, values: [1, 2, 3, 4] });
}

#[test]
fn guest_configuration_follows_boot_info() {
    let mut guest = GuestConfiguration::new();
    assert!(!guest.is_active());
    assert_eq!(guest.grant_window(), None);
    let mut info = DomainBootInfo::new(3, 0, HYPERVISOR_BACKEND_AMD_SVM, 1, 1 << 20, 0x8000, 0x4000, 0x1000, 0x1000, 0, 0);
    info.feature_flags = 0b101;
    assert!(guest.configure(&info));
    assert!(guest.is_active());
    assert_eq!(guest.domain_id(), 3);
    assert_eq!(guest.feature_flags(), 0b101);
    assert_eq!(guest.grant_window(), Some((0x8000, 0x4000)));
    let mut unknown = info;
    unknown.hypervisor_backend = 7;
    unknown.domain_id = 99;
    assert!(!guest.configure(&unknown));
    assert_eq!(guest.domain_id(), 3);
}

#[test]
fn page_ranges_cover_whole_pages() {
    assert_eq!(page_range(0x1234, 0x10), Some(PhysicalRange { start: 0x1000, len: 0x1000 }));
    assert_eq!(page_range(0x1ff0, 0x20), Some(PhysicalRange { start: 0x1000, len: 0x2000 }));
    assert_eq!(page_range(0x2000, 0x1000), Some(PhysicalRange { start: 0x2000, len: 0x1000 }));
    assert_eq!(page_range(0x2000, 0), None);
    assert_eq!(page_range(u64::MAX - 10, 5), None);
}

#[test]
fn boot_memory_status_keeps_the_last_outcome() {
    let mut status = BootMemoryStatus::new();
    assert_eq!(status.preparation_status(), None);
    status.note_preparation_success(8192);
    assert_eq!(
        status.preparation_status(),
        Some(BootMemoryPreparation::Succeeded { reclaimed_bytes: 8192 })
    );
    status.note_preparation_failure();
    assert_eq!(status.preparation_status(), Some(BootMemoryPreparation::Failed));
}

#[test]
fn file_system_module_is_absent() {
    assert!(!fs::register(0x1000, 1));
    assert!(!fs::is_loaded());
    assert!(!fs::is_mounted());
    assert_eq!(fs::mount(0), fs::ENOSYS);
    assert_eq!(fs::set_disk_ops(0x2000), fs::ENOSYS);
    assert_eq!(fs::create("/a", 0o644), fs::ENOSYS);
    assert_eq!(fs::remove("/a", false), fs::ENOSYS);
    assert_eq!(fs::rename("/a", "/b"), fs::ENOSYS);
    assert_eq!(fs::write_all("/a", 0, b"x"), None);
    assert_eq!(fs::truncate("/a", 0), fs::ENOSYS);
    assert!(!fs::register_builtin_bench_fs());
}

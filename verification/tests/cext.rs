use mnu::cext::disk::{DiskExtension, DiskOperations, ENOSYS};
use mnu::cext::{CextKind, CextRegistry, IpcEndpoint};

struct RamDisk;

impl DiskOperations for RamDisk {
    fn probe(&self) -> i32 {
        2
    }

    fn read_sector(&self, disk_id: u32, lba: u64, buf: &mut [u8]) -> i32 {
        for byte in buf.iter_mut() {
            *byte = (disk_id as u64 + lba) as u8;
        }
        0
    }

    fn write_sector(&self, _disk_id: u32, _lba: u64, buf: &[u8]) -> i32 {
        buf.len() as i32
    }

    fn flush(&self, disk_id: u32) -> i32 {
        disk_id as i32
    }
}

#[test]
fn disk_without_bundle_reports_enosys() {
    let disk: DiskExtension<RamDisk> = DiskExtension::new();
    assert!(!disk.is_loaded());
    assert!(disk.ops_ptr().is_none());
    assert_eq!(disk.version(), 0);
    let mut buf = [7u8; 4];
    assert_eq!(disk.probe(), ENOSYS);
    assert_eq!(disk.read_sector(0, 0, &mut buf), ENOSYS);
    assert_eq!(buf, [7u8; 4]);
    assert_eq!(disk.write_sector(0, 0, &buf), ENOSYS);
    assert_eq!(disk.flush(0), ENOSYS);
}

#[test]
fn disk_forwards_to_loaded_bundle() {
    let mut disk = DiskExtension::new();
    assert!(!disk.activate_bundle(3, None::<RamDisk>));
    assert!(!disk.is_loaded());
    assert!(disk.activate_bundle(3, Some(RamDisk)));
    assert!(disk.is_loaded());
    assert!(disk.ops_ptr().is_some());
    assert_eq!(disk.version(), 3);
    assert_eq!(disk.probe(), 2);
    let mut buf = [0u8; 4];
    assert_eq!(disk.read_sector(1, 2, &mut buf), 0);
    assert_eq!(buf, [3u8; 4]);
    assert_eq!(disk.write_sector(0, 0, &buf), 4);
    assert_eq!(disk.flush(5), 5);
}

#[test]
fn extensions_register_endpoints_and_revoke() {
    let mut registry = CextRegistry::new();
    let fs = registry.load_cext("fatfs", CextKind::Filesystem, Some(40));
    let disk = registry.load_cext("ahci", CextKind::BlockDevice, None);
    assert_eq!((fs, disk), (1, 2));
    assert_eq!(registry.endpoint_for(fs), None);
    assert!(registry.register_endpoint(fs, IpcEndpoint(900)));
    assert!(!registry.register_endpoint(77, IpcEndpoint(901)));
    assert_eq!(registry.endpoint_for(fs), Some(IpcEndpoint(900)));
    assert_eq!(registry.endpoint_for(disk), None);
    assert!(registry.revoke(fs));
    assert_eq!(registry.endpoint_for(fs), None);
    assert!(!registry.revoke(77));
    assert!(registry.unregister(disk));
    assert!(!registry.unregister(disk));
    assert_eq!(registry.endpoint_for(disk), None);
}

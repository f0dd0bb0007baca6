use mnu::virtio::device::{select_features, DeviceStatus, VirtioDevice};
use mnu::virtio::error::{VirtioError, VirtioResult};
use mnu::virtio::feature::{FeatureSet, VIRTIO_F_VERSION_1};
use mnu::virtio::transport::{
    CapabilityRegion, PciBar, PciConfig, PciTransportAccess, VirtioPciCapabilities, VirtioPciTransport,
    COMMON_DEVICE_FEATURE, COMMON_DEVICE_FEATURE_SELECT, COMMON_DEVICE_STATUS, COMMON_DRIVER_FEATURE,
    COMMON_DRIVER_FEATURE_SELECT,
};

const PCI_CAPABILITY_POINTER: usize = 0x34;
const PCI_CAPABILITY_VENDOR_SPECIFIC: u8 = 0x09;

#[allow(clippy::too_many_arguments)]
fn put_cap(
    config: &mut [u8],
    offset: usize,
    next: u8,
    length: u8,
    kind: u8,
    bar: u8,
    bar_offset: u32,
    bar_length: u32,
) {
    config[offset] = PCI_CAPABILITY_VENDOR_SPECIFIC;
    config[offset + 1] = next;
    config[offset + 2] = length;
    config[offset + 3] = kind;
    config[offset + 4] = bar;
    config[offset + 8..offset + 12].copy_from_slice(&bar_offset.to_le_bytes());
    config[offset + 12..offset + 16].copy_from_slice(&bar_length.to_le_bytes());
}

fn valid_capabilities() -> (PciConfig, [PciBar; 1]) {
    let mut config = vec![0u8; 256];
    config[PCI_CAPABILITY_POINTER] = 0x40;
    put_cap(&mut config, 0x40, 0x54, 16, 1, 0, 0x000, 0x100);
    put_cap(&mut config, 0x54, 0x68, 20, 2, 0, 0x100, 0x100);
    config[0x64..0x68].copy_from_slice(&4u32.to_le_bytes());
    put_cap(&mut config, 0x68, 0x78, 16, 3, 0, 0x200, 0x20);
    put_cap(&mut config, 0x78, 0, 16, 4, 0, 0x300, 0x100);
    (
        PciConfig::new(config),
        [PciBar {
            index: 0,
            address: 0x1000_0000,
            size: 0x1000,
            is_io: false,
        }],
    )
}

#[derive(Clone)]
struct MockAccess {
    bytes: Vec<u8>,
    device_features: u64,
    device_feature_page: u32,
    driver_feature_page: u32,
    driver_features: u64,
    reject_features: bool,
}

impl MockAccess {
    fn new(device_features: u64) -> Self {
        Self {
            bytes: vec![0; 0x1000],
            device_features,
            device_feature_page: 0,
            driver_feature_page: 0,
            driver_features: 0,
            reject_features: false,
        }
    }
}

impl PciTransportAccess for MockAccess {
    fn read_u8(&mut self, _bar: u8, offset: u32) -> VirtioResult<u8> {
        self.bytes.get(offset as usize).copied().ok_or(VirtioError::AccessFailed)
    }

    fn read_u32(&mut self, _bar: u8, offset: u32) -> VirtioResult<u32> {
        if offset == COMMON_DEVICE_FEATURE {
            return Ok((self.device_features >> (self.device_feature_page * 32)) as u32);
        }
        let start = offset as usize;
        let bytes = self.bytes.get(start..start + 4).ok_or(VirtioError::AccessFailed)?;
        Ok(u32::from_le_bytes([bytes[0], bytes[1], bytes[2], bytes[3]]))
    }

    fn write_u8(&mut self, _bar: u8, offset: u32, value: u8) -> VirtioResult<()> {
        if offset == COMMON_DEVICE_STATUS && self.reject_features {
            self.bytes[offset as usize] = value & !DeviceStatus::features_ok().bits();
        } else {
            self.bytes[offset as usize] = value;
        }
        Ok(())
    }

    fn write_u32(&mut self, _bar: u8, offset: u32, value: u32) -> VirtioResult<()> {
        match offset {
            COMMON_DEVICE_FEATURE_SELECT => self.device_feature_page = value,
            COMMON_DRIVER_FEATURE_SELECT => self.driver_feature_page = value,
            COMMON_DRIVER_FEATURE => {
                let shift = self.driver_feature_page * 32;
                let mask = u64::from(u32::MAX) << shift;
                self.driver_features = (self.driver_features & !mask) | (u64::from(value) << shift);
            }
            _ => {
                let start = offset as usize;
                let bytes = self.bytes.get_mut(start..start + 4).ok_or(VirtioError::AccessFailed)?;
                bytes.copy_from_slice(&value.to_le_bytes());
            }
        }
        Ok(())
    }
}

#[test]
fn parses_virtio_pci_capabilities() {
    let (config, bars) = valid_capabilities();
    let parsed = VirtioPciCapabilities::parse(&config, &bars).unwrap();
    assert_eq!(parsed.common.offset, 0);
    assert_eq!(parsed.notify.offset, 0x100);
    assert_eq!(parsed.notify_off_multiplier, 4);
    assert_eq!(parsed.isr.offset, 0x200);
    assert_eq!(parsed.device.map(|region| region.offset), Some(0x300));
}

#[test]
fn rejects_capability_outside_bar() {
    let (config, mut bars) = valid_capabilities();
    bars[0].size = 0x350;
    assert_eq!(VirtioPciCapabilities::parse(&config, &bars), Err(VirtioError::RegionOverflow));
}

#[test]
fn rejects_capability_offset_overflow() {
    let (mut config, bars) = valid_capabilities();
    config.write_u32(0x48, u32::MAX).unwrap();
    config.write_u32(0x4c, 2).unwrap();
    assert_eq!(VirtioPciCapabilities::parse(&config, &bars), Err(VirtioError::RegionOverflow));
}

#[test]
fn rejects_capability_loop() {
    let (mut config, bars) = valid_capabilities();
    config.write_u8(0x79, 0x40).unwrap();
    assert_eq!(VirtioPciCapabilities::parse(&config, &bars), Err(VirtioError::CapabilityLoop));
}

#[test]
fn negotiates_features_and_reaches_driver_ok() {
    let (config, bars) = valid_capabilities();
    let capabilities = VirtioPciCapabilities::parse(&config, &bars).unwrap();
    let access = MockAccess::new(VIRTIO_F_VERSION_1 | 5);
    let transport = VirtioPciTransport::new(capabilities, access);
    let mut device = VirtioDevice::new(transport);
    device.begin_initialization().unwrap();
    let selected = device
        .negotiate_features(FeatureSet::new(VIRTIO_F_VERSION_1 | 1), FeatureSet::new(VIRTIO_F_VERSION_1))
        .unwrap();
    device.finish_initialization().unwrap();
    assert_eq!(selected.bits(), VIRTIO_F_VERSION_1 | 1);
    assert_eq!(device.transport().access().driver_features, selected.bits());
    let status = device.transport_mut().read_status().unwrap();
    assert!(status.contains(DeviceStatus::acknowledge()));
    assert!(status.contains(DeviceStatus::driver()));
    assert!(status.contains(DeviceStatus::features_ok()));
    assert!(status.contains(DeviceStatus::driver_ok()));
}

#[test]
fn rejects_missing_required_feature() {
    let (config, bars) = valid_capabilities();
    let capabilities = VirtioPciCapabilities::parse(&config, &bars).unwrap();
    let transport = VirtioPciTransport::new(capabilities, MockAccess::new(0));
    let mut device = VirtioDevice::new(transport);
    device.begin_initialization().unwrap();
    assert_eq!(
        device.negotiate_features(FeatureSet::new(VIRTIO_F_VERSION_1), FeatureSet::new(VIRTIO_F_VERSION_1)),
        Err(VirtioError::RequiredFeatureMissing)
    );
    assert!(device.transport_mut().read_status().unwrap().contains(DeviceStatus::failed()));
}

#[test]
fn rejects_features_ok_clear_by_device() {
    let (config, bars) = valid_capabilities();
    let capabilities = VirtioPciCapabilities::parse(&config, &bars).unwrap();
    let mut access = MockAccess::new(VIRTIO_F_VERSION_1);
    access.reject_features = true;
    let transport = VirtioPciTransport::new(capabilities, access);
    let mut device = VirtioDevice::new(transport);
    device.begin_initialization().unwrap();
    assert_eq!(
        device.negotiate_features(FeatureSet::new(VIRTIO_F_VERSION_1), FeatureSet::new(VIRTIO_F_VERSION_1)),
        Err(VirtioError::FeaturesRejected)
    );
}

#[test]
fn selects_requested_and_required_features() {
    assert_eq!(
        select_features(FeatureSet::new(0b1011), FeatureSet::new(0b0011), FeatureSet::new(0b1000)),
        Ok(FeatureSet::new(0b1011))
    );
    assert_eq!(
        select_features(FeatureSet::new(0b0011), FeatureSet::new(0b0011), FeatureSet::new(0b1000)),
        Err(VirtioError::RequiredFeatureMissing)
    );
}

#[test]
fn capability_region_checks() {
    let bars = [
        PciBar { index: 1, address: 0x2000, size: 0x100, is_io: true },
        PciBar { index: 2, address: u64::MAX - 0x10, size: 0x100, is_io: false },
    ];
    let region = CapabilityRegion { bar: 0, offset: 0, length: 4 };
    assert_eq!(region.validate(&bars), Err(VirtioError::InvalidBar));
    let region = CapabilityRegion { bar: 1, offset: 0, length: 4 };
    assert_eq!(region.validate(&bars), Err(VirtioError::BarIsIo));
    let region = CapabilityRegion { bar: 2, offset: 0x20, length: 4 };
    assert_eq!(region.validate(&bars), Err(VirtioError::RegionOverflow));
    let region = CapabilityRegion { bar: 2, offset: 0, length: 4 };
    assert_eq!(region.validate(&bars), Ok(region));
    assert!(region.contains(0, 4));
    assert!(!region.contains(1, 4));
    assert!(!region.contains(u32::MAX, 2));
}

#[test]
fn missing_configurations_are_reported() {
    let mut config = vec![0u8; 256];
    config[PCI_CAPABILITY_POINTER] = 0;
    let bars = [PciBar { index: 0, address: 0, size: 0x1000, is_io: false }];
    assert_eq!(
        VirtioPciCapabilities::parse(&PciConfig::new(config.clone()), &bars),
        Err(VirtioError::MissingCommonConfiguration)
    );
    config[PCI_CAPABILITY_POINTER] = 0x41;
    assert_eq!(
        VirtioPciCapabilities::parse(&PciConfig::new(config), &bars),
        Err(VirtioError::InvalidPciCapabilityList)
    );
}

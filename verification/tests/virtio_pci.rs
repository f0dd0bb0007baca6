use std::collections::BTreeMap;

use mnu::virtio::error::{VirtioError, VirtioResult};
use mnu::virtio::pci::{
    find_pci_device, ConfigAccess, PciAddress, PciConfigIo, PciDevice, PCI_BAR_START, PCI_COMMAND, PCI_HEADER_TYPE,
    PCI_VENDOR_DEVICE,
};

struct MockPci {
    registers: BTreeMap<(u8, u8, u8, u16), u32>,
    bar_masks: BTreeMap<(u8, u8, u8, u16), u32>,
    probing: BTreeMap<(u8, u8, u8, u16), bool>,
}

impl MockPci {
    fn new() -> Self {
        Self {
            registers: BTreeMap::new(),
            bar_masks: BTreeMap::new(),
            probing: BTreeMap::new(),
        }
    }

    fn set(&mut self, address: PciAddress, offset: u16, value: u32) {
        self.registers
            .insert((address.bus, address.device, address.function, offset), value);
    }

    fn set_bar(&mut self, address: PciAddress, index: u8, value: u32, mask: u32) {
        let offset = PCI_BAR_START + u16::from(index) * 4;
        self.set(address, offset, value);
        self.bar_masks
            .insert((address.bus, address.device, address.function, offset), mask);
    }
}

impl PciConfigIo for MockPci {
    // The access log exists for proofs only and is never called at run time.
    fn config_log(&self) -> vstd::seq::Seq<ConfigAccess> {
        unreachable!()
    }

    fn read_u32(&mut self, address: PciAddress, offset: u16) -> VirtioResult<u32> {
        let key = (address.bus, address.device, address.function, offset);
        if self.probing.get(&key).copied().unwrap_or(false) {
            return Ok(self.bar_masks.get(&key).copied().unwrap_or(0));
        }
        Ok(self.registers.get(&key).copied().unwrap_or_else(|| {
            if (PCI_BAR_START..PCI_BAR_START + 24).contains(&offset) {
                0
            } else {
                u32::MAX
            }
        }))
    }

    fn write_u32(&mut self, address: PciAddress, offset: u16, value: u32) -> VirtioResult<()> {
        let key = (address.bus, address.device, address.function, offset);
        if value == u32::MAX && self.bar_masks.contains_key(&key) {
            self.probing.insert(key, true);
        } else {
            self.probing.remove(&key);
            self.registers.insert(key, value);
        }
        Ok(())
    }
}

#[test]
fn finds_device_on_multifunction_bus() {
    let mut io = MockPci::new();
    let function_zero = PciAddress::new(2, 3, 0).unwrap();
    let function_two = PciAddress::new(2, 3, 2).unwrap();
    io.set(function_zero, PCI_VENDOR_DEVICE, 0x0001_1234);
    io.set(function_zero, PCI_HEADER_TYPE, 0x0080_0000);
    io.set(function_two, PCI_VENDOR_DEVICE, 0x1050_1af4);
    assert_eq!(
        find_pci_device(&mut io, 0x1af4, 0x1050),
        Ok(Some(PciDevice {
            address: function_two,
            vendor_id: 0x1af4,
            device_id: 0x1050,
        }))
    );
}

#[test]
fn probes_32_and_64_bit_memory_bars() {
    let mut io = MockPci::new();
    let address = PciAddress::new(0, 2, 0).unwrap();
    io.set(address, PCI_COMMAND, 3);
    io.set_bar(address, 0, 0x8000_0000, 0xffff_f000);
    io.set_bar(address, 2, 0x0000_0004, 0xffff_0004);
    io.set_bar(address, 3, 0x0000_0001, 0xffff_ffff);
    let device = PciDevice {
        address,
        vendor_id: 0x1af4,
        device_id: 0x1050,
    };
    let bars = match device.probe_bars(&mut io) {
        Ok(bars) => bars,
        Err(error) => panic!("BAR probe failed: {error:?}"),
    };
    assert_eq!(bars.len(), 2);
    assert_eq!(bars[0].address, 0x8000_0000);
    assert_eq!(bars[0].size, 0x1000);
    assert_eq!(bars[1].address, 0x0000_0001_0000_0000);
    assert_eq!(bars[1].size, 0x1_0000);
    assert_eq!(io.read_u32(address, PCI_COMMAND), Ok(3), "command register must be restored");
}

#[test]
fn enables_only_memory_decode_and_bus_master() {
    let mut io = MockPci::new();
    let address = PciAddress::new(0, 1, 0).unwrap();
    io.set(address, PCI_COMMAND, 0x10000);
    let device = PciDevice {
        address,
        vendor_id: 0x1af4,
        device_id: 0x1050,
    };
    assert_eq!(device.enable_memory_and_bus_master(&mut io), Ok(()));
    assert_eq!(io.read_u32(address, PCI_COMMAND), Ok(0x10006));
}

#[test]
fn rejects_out_of_range_addresses() {
    assert_eq!(PciAddress::new(0, 32, 0), None);
    assert_eq!(PciAddress::new(0, 31, 8), None);
    assert_eq!(
        PciAddress::new(255, 31, 7),
        Some(PciAddress { bus: 255, device: 31, function: 7 })
    );
}

#[test]
fn missing_device_is_not_found() {
    let mut io = MockPci::new();
    assert_eq!(find_pci_device(&mut io, 0x1af4, 0x1050), Ok(None));
}

#[test]
fn io_bar_is_sized_and_64_bit_bar_in_last_slot_is_rejected() {
    let mut io = MockPci::new();
    let address = PciAddress::new(0, 4, 0).unwrap();
    io.set(address, PCI_COMMAND, 1);
    io.set_bar(address, 1, 0x0000_c001, 0xffff_ffe1);
    let device = PciDevice { address, vendor_id: 1, device_id: 2 };
    let bars = device.probe_bars(&mut io).unwrap();
    assert_eq!(bars.len(), 1);
    assert!(bars[0].is_io);
    assert_eq!(bars[0].address, 0xc000);
    assert_eq!(bars[0].size, 0x20);

    let mut io = MockPci::new();
    io.set_bar(address, 5, 0x0000_0004, 0xffff_0004);
    assert_eq!(device.probe_bars(&mut io), Err(VirtioError::InvalidBar));
}

#[test]
fn reads_whole_configuration_space() {
    let mut io = MockPci::new();
    let address = PciAddress::new(0, 5, 0).unwrap();
    io.set(address, PCI_VENDOR_DEVICE, 0x1050_1af4);
    let device = PciDevice { address, vendor_id: 0x1af4, device_id: 0x1050 };
    let config = device.read_config(&mut io).unwrap();
    assert_eq!(config.len(), 256);
    assert_eq!(config.read_u32(0), Ok(0x1050_1af4));
    assert_eq!(config.read_u8(0), Ok(0xf4));
}

use mnu::abi::boot::{BootInfo, BootInfoError, MemoryRegion, MemoryType, PhysicalRange};
use mnu::boot_memory::{
    boot_memory_map_len, boot_stack_range, reclaim_memory, reserve_boot_ranges, usable_bytes,
    BootMemoryError,
};

fn region(start: u64, len: u64, region_type: MemoryType) -> MemoryRegion {
    MemoryRegion { start, len, region_type }
}

fn map() -> Vec<MemoryRegion> {
    vec![
        region(0, 0x1000, MemoryType::Reserved),
        region(0x1000, 0x7000, MemoryType::Usable),
        region(0x8000, 0x8000, MemoryType::BootloaderReclaimable),
        region(0x10000, 0x10000, MemoryType::Usable),
    ]
}

#[test]
fn memory_map_length_is_checked_before_reading() {
    let mut info = BootInfo::empty();
    info.memory_map_addr = 0x9000;
    info.memory_map_len = 4;
    assert_eq!(boot_memory_map_len(&info), Ok(4));
    info.memory_map_len = 0;
    assert_eq!(boot_memory_map_len(&info), Err(BootMemoryError::InvalidMemoryMap));
    info.memory_map_len = 257;
    assert_eq!(boot_memory_map_len(&info), Err(BootMemoryError::InvalidMemoryMap));
    info.memory_map_len = 4;
    info.memory_map_addr = 0;
    assert_eq!(boot_memory_map_len(&info), Err(BootMemoryError::InvalidMemoryMap));
    info.magic = 0;
    assert_eq!(
        boot_memory_map_len(&info),
        Err(BootMemoryError::InvalidBootInfo(BootInfoError::InvalidMagic))
    );
}

#[test]
fn boot_stack_region_by_type() {
    let map = map();
    assert_eq!(
        boot_stack_range(&map, 0x9ff0),
        Ok(Some(PhysicalRange { start: 0x8000, len: 0x8000 }))
    );
    assert_eq!(boot_stack_range(&map, 0x10), Ok(None));
    assert_eq!(boot_stack_range(&map, 0x2000), Err(BootMemoryError::InvalidMemoryMap));
    assert_eq!(boot_stack_range(&map, 0x40000), Err(BootMemoryError::InvalidMemoryMap));
}

#[test]
fn reserved_ranges_in_order() {
    let mut info = BootInfo::empty();
    info.initfs_addr = 0x20800;
    info.initfs_size = 0x100;
    let ranges = reserve_boot_ranges(&info, &map(), 0x11000, 0x12800, 0x9000, 40).unwrap();
    assert_eq!(
        ranges,
        vec![
            PhysicalRange { start: 0x11000, len: 0x2000 },
            PhysicalRange { start: 0x20000, len: 0x1000 },
            PhysicalRange { start: 0x8000, len: 0x8000 },
        ]
    );
    assert_eq!(
        reserve_boot_ranges(&info, &map(), 0x12000, 0x12000, 0x9000, 40),
        Err(BootMemoryError::InvalidKernelRange)
    );
    info.smp_handoff_addr = 0x5000;
    assert_eq!(
        reserve_boot_ranges(&info, &map(), 0x11000, 0x12000, 0x9000, 40),
        Err(BootMemoryError::InvalidSmpHandoff)
    );
    info.smp_handoff_size = 40;
    assert!(reserve_boot_ranges(&info, &map(), 0x11000, 0x12000, 0x9000, 40).is_ok());
    info.smp_handoff_size = 48;
    assert_eq!(
        reserve_boot_ranges(&info, &map(), 0x11000, 0x12000, 0x9000, 40),
        Err(BootMemoryError::InvalidSmpHandoff)
    );
}

#[test]
fn reclaiming_counts_gained_bytes() {
    let input = map();
    assert_eq!(usable_bytes(&input), 0x17000);
    let mut output = [region(0, 0, MemoryType::Reserved); 8];
    let reserved = [PhysicalRange { start: 0x8000, len: 0x2000 }];
    let (written, gained) = reclaim_memory(&input, &reserved, &mut output).unwrap();
    assert_eq!(gained, 0x6000);
    assert_eq!(usable_bytes(&output[..written]), 0x17000 + 0x6000);
    let mut tiny = [region(0, 0, MemoryType::Reserved); 1];
    assert!(reclaim_memory(&input, &reserved, &mut tiny).is_err());
}

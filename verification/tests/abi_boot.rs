use mnu::abi::boot::{
    build_reclaimed_memory_map, BootInfo, BootInfoError, MemoryMapTransformError, MemoryRegion,
    MemoryType, PhysicalRange,
};

const EMPTY_REGION: MemoryRegion = MemoryRegion { start: 0, len: 0, region_type: MemoryType::Reserved };

fn region(start: u64, len: u64, region_type: MemoryType) -> MemoryRegion {
    MemoryRegion { start, len, region_type }
}

#[test]
fn empty_boot_info_is_valid() {
    assert_eq!(BootInfo::empty().validate(), Ok(()));
}

#[test]
fn rejects_unknown_version() {
    let mut info = BootInfo::empty();
    info.abi_version += 1;
    assert_eq!(info.validate(), Err(BootInfoError::UnsupportedVersion));
}

#[test]
fn rejects_short_structure() {
    let mut info = BootInfo::empty();
    info.struct_size -= 1;
    assert_eq!(info.validate(), Err(BootInfoError::InvalidStructSize));
}

#[test]
fn reclaims_unreserved_bootloader_pages() {
    let input = [region(0x1000, 0x4000, MemoryType::BootloaderReclaimable)];
    let mut output = [EMPTY_REGION; 1];
    let len = build_reclaimed_memory_map(&input, &[], &mut output).unwrap();
    assert_eq!(len, 1);
    assert_eq!(output[0], region(0x1000, 0x4000, MemoryType::Usable));
}

#[test]
fn preserves_a_reserved_region_starting_at_zero() {
    let input = [
        region(0, 0x1000, MemoryType::Reserved),
        region(0x1000, 0x1000, MemoryType::BootloaderReclaimable),
    ];
    let mut output = [EMPTY_REGION; 2];
    let len = build_reclaimed_memory_map(&input, &[], &mut output).unwrap();
    assert_eq!(len, 2);
    assert_eq!(output[0], region(0, 0x1000, MemoryType::Reserved));
    assert_eq!(output[1], region(0x1000, 0x1000, MemoryType::Usable));
}

#[test]
fn keeps_reserved_pages_out_of_reclaimed_memory() {
    let input = [region(0x1000, 0x8000, MemoryType::BootloaderReclaimable)];
    let reserved = [
        PhysicalRange { start: 0x3000, len: 0x2000 },
        PhysicalRange { start: 0x4000, len: 0x3000 },
    ];
    let mut output = [EMPTY_REGION; 3];
    let len = build_reclaimed_memory_map(&input, &reserved, &mut output).unwrap();
    assert_eq!(len, 3);
    assert_eq!(output[0], region(0x1000, 0x2000, MemoryType::Usable));
    assert_eq!(output[1], region(0x3000, 0x4000, MemoryType::Reserved));
    assert_eq!(output[2], region(0x7000, 0x2000, MemoryType::Usable));
}

#[test]
fn reports_insufficient_output_capacity() {
    let input = [region(0x1000, 0x3000, MemoryType::BootloaderReclaimable)];
    let reserved = [PhysicalRange { start: 0x2000, len: 0x1000 }];
    let mut output = [EMPTY_REGION; 2];
    assert_eq!(
        build_reclaimed_memory_map(&input, &reserved, &mut output),
        Err(MemoryMapTransformError::OutputTooSmall)
    );
}

#[test]
fn rejects_unaligned_reserved_ranges_and_reclaimable_regions() {
    let input = [region(0x1000, 0x3000, MemoryType::BootloaderReclaimable)];
    let mut output = [EMPTY_REGION; 4];
    assert_eq!(
        build_reclaimed_memory_map(&input, &[PhysicalRange { start: 0x2001, len: 0x1000 }], &mut output),
        Err(MemoryMapTransformError::InvalidReservedRange)
    );
    assert_eq!(
        build_reclaimed_memory_map(&input, &[PhysicalRange { start: 0x2000, len: 0 }], &mut output),
        Err(MemoryMapTransformError::InvalidReservedRange)
    );
    let unaligned = [region(0x1000, 0x3001, MemoryType::BootloaderReclaimable)];
    assert_eq!(
        build_reclaimed_memory_map(&unaligned, &[], &mut output),
        Err(MemoryMapTransformError::InvalidMemoryRegion)
    );
    let wrapping = [region(u64::MAX, 2, MemoryType::Usable)];
    assert_eq!(
        build_reclaimed_memory_map(&wrapping, &[], &mut output),
        Err(MemoryMapTransformError::InvalidMemoryRegion)
    );
}

#[test]
fn merges_adjacent_regions_of_one_type() {
    let input = [
        region(0, 0x1000, MemoryType::Usable),
        region(0x1000, 0x2000, MemoryType::BootloaderReclaimable),
        region(0x3000, 0, MemoryType::AcpiNvs),
        region(0x3000, 0x1000, MemoryType::Usable),
    ];
    let mut output = [EMPTY_REGION; 1];
    assert_eq!(build_reclaimed_memory_map(&input, &[], &mut output), Ok(1));
    assert_eq!(output[0], region(0, 0x4000, MemoryType::Usable));
}

#[test]
fn boot_info_checks_fields_in_order() {
    let mut info = BootInfo::empty();
    info.magic = 0;
    info.abi_version = 9;
    assert_eq!(info.validate(), Err(BootInfoError::InvalidMagic));
    let mut info = BootInfo::empty();
    info.memory_map_entry_size = 16;
    assert_eq!(info.validate(), Err(BootInfoError::InvalidMemoryMapEntrySize));
    let mut info = BootInfo::empty();
    info.cpu_apic_id_count = 65;
    assert_eq!(info.validate(), Err(BootInfoError::InvalidCpuCount));
}

#[test]
fn reclaimed_map_leaves_unwritten_entries_alone() {
    let sentinel = region(0xdead_0000, 0x1000, MemoryType::Reserved);
    let input = [
        region(0x1000, 0x1000, MemoryType::Usable),
        region(0x2000, 0x2000, MemoryType::BootloaderReclaimable),
    ];
    let mut output = [sentinel; 4];
    assert_eq!(build_reclaimed_memory_map(&input, &[], &mut output), Ok(1));
    assert_eq!(output[0], region(0x1000, 0x3000, MemoryType::Usable));
    assert_eq!(&output[1..], &[sentinel; 3]);
    let mut untouched = [sentinel; 4];
    assert_eq!(
        build_reclaimed_memory_map(&input, &[PhysicalRange { start: 0x2000, len: 0 }], &mut untouched),
        Err(MemoryMapTransformError::InvalidReservedRange)
    );
    assert_eq!(untouched, [sentinel; 4]);
}

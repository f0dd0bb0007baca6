use mnu::mem::heap::{
    align_user_ptr, check_header, cookie_seed, grow_amount, layout_ok, raw_layout, tagged_header,
    tail_value, FreeRejection, HeapHeader, HeapQuarantine, QuarantinedBlock, RawLayout,
    HEAP_GROWTH_SIZE, HEAP_HEADER_MAGIC, HEAP_HEADER_SIZE, HEAP_QUARANTINE_CAP, HEAP_SIZE,
    HEAP_TAIL_MAGIC,
};

#[test]
fn sealed_headers_validate_and_detect_tampering() {
    let header = HeapHeader::new(0x1234, 0x9000, 128, 16, 40, 8);
    assert!(header.is_valid());
    assert_eq!(check_header(Some(header)), Ok(header));
    let mut tampered = header;
    tampered.user_size = 41;
    assert!(!tampered.is_valid());
    assert_eq!(check_header(Some(tampered)), Err(FreeRejection::ChecksumMismatch));
    assert_eq!(check_header(None), Err(FreeRejection::MissingHeader));
    let mut untagged = header;
    untagged.magic = 0;
    assert_eq!(tagged_header(untagged), None);
    assert_eq!(tagged_header(header), Some(header));
    assert_eq!(header.magic, HEAP_HEADER_MAGIC);
    assert_eq!(tail_value(0x1234), 0x1234 ^ HEAP_TAIL_MAGIC);
}

#[test]
fn raw_layouts_reserve_header_canary_and_slack() {
    assert_eq!(raw_layout(40, 8), Some(RawLayout { size: 40 + 64 + 8 + 15, align: 16 }));
    assert_eq!(raw_layout(100, 64), Some(RawLayout { size: 100 + 64 + 8 + 63, align: 64 }));
    assert_eq!(raw_layout(usize::MAX - 10, 8), None);
    assert_eq!(raw_layout(16, 48), None);
    assert!(layout_ok(100, 4096));
    assert!(!layout_ok(100, 0));
    assert!(!layout_ok(100, 12));
    assert!(!layout_ok(isize::MAX as usize, 16));
}

#[test]
fn user_pointer_is_aligned_after_the_header() {
    assert_eq!(align_user_ptr(0x1000, HEAP_HEADER_SIZE, 16), 0x1040);
    assert_eq!(align_user_ptr(0x1008, HEAP_HEADER_SIZE, 16), 0x1050);
    assert_eq!(align_user_ptr(0x1008, HEAP_HEADER_SIZE, 4096), 0x2000);
}

#[test]
fn heap_grows_in_pages_up_to_its_span() {
    assert_eq!(grow_amount(0, 1), Some(HEAP_GROWTH_SIZE));
    assert_eq!(grow_amount(0, HEAP_GROWTH_SIZE + 1), Some(HEAP_GROWTH_SIZE + 4096));
    assert_eq!(grow_amount(HEAP_SIZE - 4096, 1), Some(4096));
    assert_eq!(grow_amount(HEAP_SIZE, 1), None);
    assert_eq!(grow_amount(0, usize::MAX), Some(HEAP_SIZE));
}

#[test]
fn cookie_is_kept_once_chosen_and_never_zero() {
    assert_eq!(cookie_seed(7, 1, 2), 7);
    let fresh = cookie_seed(0, 0x55, 0x1000);
    assert_eq!(fresh, 0x55 ^ (0x1000u64.rotate_left(17)) ^ HEAP_TAIL_MAGIC);
    assert_eq!(cookie_seed(0, HEAP_TAIL_MAGIC, 0), HEAP_TAIL_MAGIC);
}

fn block(user_addr: usize) -> QuarantinedBlock {
    QuarantinedBlock { user_addr, raw_addr: user_addr - 64, raw_size: 128, raw_align: 16 }
}

#[test]
fn quarantine_is_first_in_first_out() {
    let mut quarantine = HeapQuarantine::new();
    assert_eq!(quarantine.pop_oldest(), None);
    for i in 0..HEAP_QUARANTINE_CAP {
        assert_eq!(quarantine.push(block(0x1000 + i * 0x100)), None);
    }
    assert_eq!(quarantine.len(), HEAP_QUARANTINE_CAP);
    assert!(quarantine.contains(0x1000));
    assert_eq!(quarantine.push(block(0x9_0000)), Some(block(0x1000)));
    assert!(!quarantine.contains(0x1000));
    assert!(quarantine.contains(0x9_0000));
    assert_eq!(quarantine.pop_oldest(), Some(block(0x1100)));
    assert_eq!(quarantine.len(), HEAP_QUARANTINE_CAP - 1);
}

#[test]
fn retiring_detects_double_free_and_bad_layout() {
    let mut quarantine = HeapQuarantine::new();
    let header = HeapHeader::new(0x77, 0x4000, 200, 16, 64, 16);
    let retired = quarantine.retire(0x4040, &header, tail_value(0x77)).unwrap();
    assert!(retired.tail_intact);
    assert_eq!(retired.evicted, None);
    assert_eq!(quarantine.retire(0x4040, &header, tail_value(0x77)), Err(FreeRejection::DoubleFree));
    let smashed = quarantine.retire(0x5040, &header, 0).unwrap();
    assert!(!smashed.tail_intact);
    let bad = HeapHeader::new(0x77, 0x6000, 200, 24, 64, 16);
    assert_eq!(quarantine.retire(0x6040, &bad, tail_value(0x77)), Err(FreeRejection::InvalidLayout));
    assert_eq!(quarantine.len(), 2);
}

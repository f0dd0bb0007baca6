use mnu::abi::performance::{
    DistributionSnapshot, GaugeSnapshot, HeapAllocationSizeClass, VfsActivitySnapshot,
};
use mnu::abi::shared_ring::{
    initialize, pop_request, pop_response, push_request, push_response, validate,
    SharedRingError, SharedRingMessage, SHARED_RING_SLOT_COUNT,
};

#[test]
fn allocation_size_classes_cover_boundaries() {
    assert_eq!(HeapAllocationSizeClass::for_size(16), HeapAllocationSizeClass::Bytes16);
    assert_eq!(HeapAllocationSizeClass::for_size(17), HeapAllocationSizeClass::Bytes64);
    assert_eq!(HeapAllocationSizeClass::for_size(262_144), HeapAllocationSizeClass::Bytes262144);
    assert_eq!(HeapAllocationSizeClass::for_size(262_145), HeapAllocationSizeClass::Larger);
}

#[test]
fn vfs_activity_delta_does_not_underflow() {
    let earlier = VfsActivitySnapshot { metadata_queries: 7, temporary_buffer_bytes: 4_096, ..VfsActivitySnapshot::default() };
    let current = VfsActivitySnapshot { metadata_queries: 10, temporary_buffer_bytes: 2_048, ..VfsActivitySnapshot::default() };
    let delta = current.saturating_sub(earlier);
    assert_eq!(delta.metadata_queries, 3);
    assert_eq!(delta.temporary_buffer_bytes, 0);
}

#[test]
fn snapshot_parts_have_fixed_sizes() {
    assert_eq!(core::mem::size_of::<DistributionSnapshot>(), 48);
    assert_eq!(core::mem::size_of::<GaugeSnapshot>(), 16);
}

#[test]
fn request_and_response_round_trip() {
    let mut ring = initialize(7);
    assert_eq!(validate(&ring), Ok(7));
    let request = SharedRingMessage::new(1, 0, 42, b"request").unwrap();
    push_request(&mut ring, request).unwrap();
    assert_eq!(pop_request(&mut ring), Ok(request));
    let response = SharedRingMessage::new(2, 0, 42, b"response").unwrap();
    push_response(&mut ring, response).unwrap();
    assert_eq!(pop_response(&mut ring), Ok(response));
    assert_eq!(pop_response(&mut ring), Err(SharedRingError::Empty));
}

#[test]
fn full_ring_does_not_overwrite_unread_messages() {
    let mut ring = initialize(1);
    let message = SharedRingMessage::new(1, 0, 1, b"x").unwrap();
    for _ in 0..SHARED_RING_SLOT_COUNT {
        push_request(&mut ring, message).unwrap();
    }
    assert_eq!(push_request(&mut ring, message), Err(SharedRingError::Full));
}

#[test]
fn ring_delivers_in_order_and_rejects_oversized_entries() {
    let mut ring = initialize(3);
    for id in 0..5u64 {
        push_request(&mut ring, SharedRingMessage::new(1, 0, id, &[id as u8]).unwrap()).unwrap();
    }
    for id in 0..5u64 {
        let message = pop_request(&mut ring).unwrap();
        assert_eq!(message.request_id, id);
        assert_eq!(message.data(), Ok(&[id as u8][..]));
    }
    assert_eq!(pop_request(&mut ring), Err(SharedRingError::Empty));
    assert_eq!(SharedRingMessage::new(1, 0, 0, &[0u8; 49]), Err(SharedRingError::PayloadTooLarge));
    let mut corrupt = SharedRingMessage::new(1, 0, 0, b"x").unwrap();
    corrupt.len = 49;
    assert_eq!(corrupt.data(), Err(SharedRingError::CorruptEntry));
    assert_eq!(push_request(&mut ring, corrupt), Err(SharedRingError::CorruptEntry));
}

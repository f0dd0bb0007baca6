use mnu::virtio::dma::{DmaBuffer, DmaMemory};
use mnu::virtio::error::VirtioError;
use mnu::virtio::queue::{Descriptor, SplitVirtqueue, UsedDescriptor, VirtqueueLayout};

const USED_ELEMENT_SIZE: usize = 8;
const DESCRIPTOR_F_WRITE: u16 = 2;

fn queue(size: u16) -> SplitVirtqueue<DmaBuffer> {
    let layout = VirtqueueLayout::calculate(size).unwrap();
    SplitVirtqueue::new(DmaBuffer::new(layout.total_size, 0x4000), size).unwrap()
}

fn descriptor(address: u64) -> Descriptor {
    Descriptor {
        address,
        length: 64,
        device_writable: false,
    }
}

fn complete(queue: &mut SplitVirtqueue<DmaBuffer>, used_index: u16, head: u32, written: u32) {
    let layout = queue.layout();
    let slot = usize::from(used_index.wrapping_sub(1) % queue.size());
    let offset = layout.used_offset + 4 + slot * USED_ELEMENT_SIZE;
    queue.memory_mut().as_mut_slice()[offset..offset + 4].copy_from_slice(&head.to_le_bytes());
    queue.memory_mut().as_mut_slice()[offset + 4..offset + 8].copy_from_slice(&written.to_le_bytes());
    queue.memory_mut().as_mut_slice()[layout.used_offset + 2..layout.used_offset + 4]
        .copy_from_slice(&used_index.to_le_bytes());
}

#[test]
fn allocates_descriptor_chain_and_available_entry() {
    let mut queue = queue(8);
    let head = queue
        .enqueue(&[
            descriptor(0x8000),
            Descriptor {
                address: 0x9000,
                length: 32,
                device_writable: true,
            },
        ])
        .unwrap();
    assert_eq!(head, 0);
    assert_eq!(queue.free_descriptor_count(), 6);
    let bytes = queue.memory().as_slice();
    assert_eq!(u64::from_le_bytes(bytes[0..8].try_into().unwrap()), 0x8000);
    assert_eq!(u16::from_le_bytes(bytes[12..14].try_into().unwrap()), 1);
    assert_eq!(u16::from_le_bytes(bytes[14..16].try_into().unwrap()), 1);
    assert_eq!(
        u16::from_le_bytes(bytes[16 + 12..16 + 14].try_into().unwrap()),
        DESCRIPTOR_F_WRITE
    );
    let available = queue.layout().available_offset;
    assert_eq!(
        u16::from_le_bytes(bytes[available + 2..available + 4].try_into().unwrap()),
        1
    );
    assert_eq!(
        u16::from_le_bytes(bytes[available + 4..available + 6].try_into().unwrap()),
        head
    );
}

#[test]
fn reports_queue_full_without_losing_descriptors() {
    let mut queue = queue(2);
    queue.enqueue(&[descriptor(0x8000), descriptor(0x9000)]).unwrap();
    assert_eq!(queue.enqueue(&[descriptor(0xa000)]), Err(VirtioError::QueueFull));
    assert_eq!(queue.free_descriptor_count(), 0);
}

#[test]
fn reclaims_completed_chain() {
    let mut queue = queue(4);
    let head = queue.enqueue(&[descriptor(0x8000), descriptor(0x9000)]).unwrap();
    complete(&mut queue, 1, u32::from(head), 17);
    assert_eq!(queue.pop_used().unwrap(), Some(UsedDescriptor { head, written: 17 }));
    assert_eq!(queue.free_descriptor_count(), 4);
}

#[test]
fn handles_used_ring_wraparound() {
    let mut queue = queue(2);
    // Drive the driver's used index to u16::MAX through completed requests.
    let mut used: u16 = 0;
    while used != u16::MAX {
        let head = queue.enqueue(&[descriptor(0x8000)]).unwrap();
        used = used.wrapping_add(1);
        complete(&mut queue, used, u32::from(head), 8);
        assert_eq!(queue.pop_used().unwrap().unwrap().head, head);
    }
    let head = queue.enqueue(&[descriptor(0x8000)]).unwrap();
    complete(&mut queue, 0, u32::from(head), 8);
    assert_eq!(queue.pop_used().unwrap().unwrap().head, head);
    // The driver's index wrapped to zero: nothing further is pending.
    assert_eq!(queue.pop_used().unwrap(), None);
}

#[test]
fn rejects_invalid_used_descriptor() {
    let mut queue = queue(4);
    let _ = queue.enqueue(&[descriptor(0x8000)]).unwrap();
    complete(&mut queue, 1, 7, 0);
    assert_eq!(queue.pop_used(), Err(VirtioError::InvalidUsedIndex));
}

#[test]
fn rejects_used_index_jump_larger_than_queue() {
    let mut queue = queue(4);
    let _ = queue.enqueue(&[descriptor(0x8000)]).unwrap();
    let used = queue.layout().used_offset;
    queue.memory_mut().as_mut_slice()[used + 2..used + 4].copy_from_slice(&5u16.to_le_bytes());
    assert_eq!(queue.pop_used(), Err(VirtioError::InvalidUsedIndex));
}

#[test]
fn wait_times_out_without_reusing_chain() {
    let mut queue = queue(4);
    let head = queue.enqueue(&[descriptor(0x8000)]).unwrap();
    assert_eq!(queue.wait_for_used(head, 3, || {}), Err(VirtioError::CommandTimeout));
    assert_eq!(queue.free_descriptor_count(), 3);
}

#[test]
fn validates_queue_size_and_dma_length() {
    assert_eq!(VirtqueueLayout::calculate(3), Err(VirtioError::InvalidQueueSize));
    assert!(matches!(
        SplitVirtqueue::new(DmaBuffer::new(8, 0x1000), 8),
        Err(VirtioError::DmaBufferTooSmall)
    ));
}

#[test]
fn layout_of_eight_entry_queue() {
    let layout = VirtqueueLayout::calculate(8).unwrap();
    assert_eq!(layout.descriptor_offset, 0);
    assert_eq!(layout.available_offset, 128);
    assert_eq!(layout.used_offset, 152);
    assert_eq!(layout.total_size, 152 + 64 + 6);
}

#[test]
fn rejects_empty_and_zero_length_chains() {
    let mut queue = queue(4);
    assert_eq!(queue.enqueue(&[]), Err(VirtioError::InvalidDescriptor));
    let zero = Descriptor { address: 0x1000, length: 0, device_writable: false };
    assert_eq!(queue.enqueue(&[descriptor(0x8000), zero]), Err(VirtioError::InvalidDescriptor));
    assert_eq!(queue.free_descriptor_count(), 4);
}

#[test]
fn wait_returns_completed_chain_and_releases_others() {
    let mut queue = queue(4);
    let first = queue.enqueue(&[descriptor(0x8000)]).unwrap();
    let second = queue.enqueue(&[descriptor(0x9000)]).unwrap();
    complete(&mut queue, 1, u32::from(first), 4);
    complete(&mut queue, 2, u32::from(second), 9);
    assert_eq!(
        queue.wait_for_used(second, 1, || {}),
        Ok(UsedDescriptor { head: second, written: 9 })
    );
    assert_eq!(queue.free_descriptor_count(), 4);
    assert_eq!(queue.wait_for_used(second, 1, || {}), Err(VirtioError::InvalidDescriptor));
}

#[test]
fn pop_used_without_completion_returns_none() {
    let mut queue = queue(4);
    let _ = queue.enqueue(&[descriptor(0x8000)]).unwrap();
    assert_eq!(queue.pop_used(), Ok(None));
    assert_eq!(queue.free_descriptor_count(), 3);
}

#[test]
fn queue_addresses_follow_the_bus_address() {
    let queue = queue(8);
    assert_eq!(queue.descriptor_address(), Ok(0x4000));
    assert_eq!(queue.available_address(), Ok(0x4000 + 128));
    assert_eq!(queue.used_address(), Ok(0x4000 + 152));
    assert_eq!(queue.memory().device_address(), 0x4000);
}

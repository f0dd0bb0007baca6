use mnu::abi::mdriver_control::{
    MdriverControlRequest, MdriverControlResponse, MDRIVER_CONTROL_BLOCK_READ, MDRIVER_CONTROL_PING,
    MDRIVER_CONTROL_STATUS_OK, MDRIVER_DEVICE_FEATURE_BLOCK_FLUSH, MDRIVER_DEVICE_FEATURE_BLOCK_READ,
    MDRIVER_DEVICE_FEATURE_BLOCK_WRITE,
};
use mnu::abi::shared_ring::{SharedRingError, SharedRingMessage};
use mnu::abi::mdriver_control::{
    MDRIVER_CONTROL_ENUMERATE, MDRIVER_CONTROL_NEGOTIATE, MDRIVER_CONTROL_START_SESSION, MDRIVER_CONTROL_STATUS_END,
};
use mnu::abi::mdriver_control::{MDRIVER_CONTROL_DESCRIBE, MDRIVER_CONTROL_STATUS_UNSUPPORTED_OPERATION};
use mnu::mdriver::{BlockCandidate, ControlHandshake, ProtocolCheck, PING_COOKIE};
use mnu::mdriver::{
    block_flushes, block_readable, block_writable, check_disk_transfer, check_opened_block,
    control_io_request, control_io_status, control_message, first_block_byte, flush_status,
    read_control_response, transfer_bounds, transfer_step, BlockState, Error, EINVAL, EIO,
};

const RESPONSE_KIND: u16 = 2;

fn response_message(id: u64, response: MdriverControlResponse) -> SharedRingMessage {
    SharedRingMessage::new(RESPONSE_KIND, 0, id, &response.encode()).unwrap()
}

fn block() -> BlockState {
    BlockState {
        device_id: 4,
        capacity_sectors: 100,
        logical_block_size: 4096,
        features: MDRIVER_DEVICE_FEATURE_BLOCK_READ,
        data_address: 0x9000,
    }
}

#[test]
fn control_messages_carry_the_encoded_request() {
    let request = MdriverControlRequest::new(MDRIVER_CONTROL_PING, 0, [7, 0, 0, 0]);
    let message = control_message(9, request).unwrap();
    assert_eq!(message.kind, 1);
    assert_eq!(message.request_id, 9);
    assert_eq!(message.len, 48);
    assert_eq!(message.payload, request.encode());
}

#[test]
fn control_answers_are_matched_to_their_request() {
    let response = MdriverControlResponse::new(MDRIVER_CONTROL_PING, MDRIVER_CONTROL_STATUS_OK, 0, [7, 0, 0, 0]);
    assert_eq!(read_control_response(Ok(response_message(9, response)), 9, MDRIVER_CONTROL_PING), Ok(response));
    assert_eq!(read_control_response(Ok(response_message(8, response)), 9, MDRIVER_CONTROL_PING), Err(Error::Protocol));
    assert_eq!(read_control_response(Ok(response_message(9, response)), 9, 3), Err(Error::Protocol));
    assert_eq!(read_control_response(Err(SharedRingError::Empty), 9, 3), Err(Error::Timeout));
    assert_eq!(read_control_response(Err(SharedRingError::CorruptEntry), 9, 3), Err(Error::Ring));
    let short = SharedRingMessage::new(RESPONSE_KIND, 0, 9, &[1, 0]).unwrap();
    assert_eq!(read_control_response(Ok(short), 9, 1), Err(Error::Protocol));
    let mut reserved = response;
    reserved.reserved = 1;
    assert_eq!(read_control_response(Ok(response_message(9, reserved)), 9, MDRIVER_CONTROL_PING), Err(Error::Protocol));
}

#[test]
fn opened_block_devices_are_checked() {
    let good = MdriverControlResponse::new(6, MDRIVER_CONTROL_STATUS_OK, 4, [100, 4096, 4096, MDRIVER_DEVICE_FEATURE_BLOCK_READ]);
    assert_eq!(check_opened_block(&good, 4, 0x9000), Ok(block()));
    let odd_size = MdriverControlResponse::new(6, MDRIVER_CONTROL_STATUS_OK, 4, [100, 1536, 4096, MDRIVER_DEVICE_FEATURE_BLOCK_READ]);
    assert_eq!(check_opened_block(&odd_size, 4, 0x9000), Err(Error::Device));
    let small_transfer = MdriverControlResponse::new(6, MDRIVER_CONTROL_STATUS_OK, 4, [100, 4096, 512, MDRIVER_DEVICE_FEATURE_BLOCK_READ]);
    assert_eq!(check_opened_block(&small_transfer, 4, 0x9000), Err(Error::Device));
    let unreadable = MdriverControlResponse::new(6, MDRIVER_CONTROL_STATUS_OK, 4, [100, 512, 4096, 0]);
    assert_eq!(check_opened_block(&unreadable, 4, 0x9000), Err(Error::Device));
    assert!(block_readable(MDRIVER_DEVICE_FEATURE_BLOCK_READ));
    assert!(!block_writable(&block()));
    let mut writable = block();
    writable.features |= MDRIVER_DEVICE_FEATURE_BLOCK_WRITE | MDRIVER_DEVICE_FEATURE_BLOCK_FLUSH;
    assert!(block_writable(&writable));
    assert!(block_flushes(&writable));
    assert!(!block_flushes(&block()));
}

#[test]
fn disk_transfer_arguments() {
    assert_eq!(check_disk_transfer(0, true, 1024), Ok(()));
    assert_eq!(check_disk_transfer(1, true, 1024), Err(EINVAL));
    assert_eq!(check_disk_transfer(0, false, 1024), Err(EINVAL));
    assert_eq!(check_disk_transfer(0, true, 0), Err(EINVAL));
    assert_eq!(check_disk_transfer(0, true, 700), Err(EINVAL));
}

#[test]
fn transfers_stay_on_the_device() {
    assert_eq!(transfer_bounds(&block(), 2, 1024), Ok((1024, 2048)));
    assert_eq!(transfer_bounds(&block(), 99, 1024), Err(EIO));
    assert_eq!(transfer_bounds(&block(), u64::MAX, 1024), Err(EINVAL));
}

#[test]
fn unaligned_transfers_are_split_by_block() {
    let block = block();
    let (start, end) = transfer_bounds(&block, 7, 2048).unwrap();
    let first = first_block_byte(start, block.logical_block_size);
    assert_eq!(first, 0);
    let step = transfer_step(&block, start, end, first, true);
    assert_eq!((step.lba, step.shared_offset, step.caller_offset, step.copy_length), (0, 3584, 0, 512));
    assert!(step.read_first);
    let next = transfer_step(&block, start, end, first + 4096, true);
    assert_eq!((next.lba, next.shared_offset, next.caller_offset, next.copy_length), (8, 0, 512, 1536));
    let whole = transfer_step(&block, 0, 8192, 4096, true);
    assert!(!whole.read_first);
    assert!(transfer_step(&block, 0, 8192, 4096, false).read_first);
}

#[test]
fn io_requests_and_statuses() {
    let request = control_io_request(&block(), MDRIVER_CONTROL_BLOCK_READ, 8, 4096).unwrap();
    assert_eq!(request.arguments, [8, 4096, 0, 0]);
    assert_eq!(request.device_id, 4);
    assert_eq!(control_io_request(&block(), MDRIVER_CONTROL_BLOCK_READ, 8, 8192), Err(EINVAL));
    let done = MdriverControlResponse::new(MDRIVER_CONTROL_BLOCK_READ, MDRIVER_CONTROL_STATUS_OK, 4, [4096, 0, 0, 0]);
    assert_eq!(control_io_status(Ok(done), 4096), 0);
    assert_eq!(control_io_status(Ok(done), 512), EIO);
    assert_eq!(control_io_status(Err(Error::Timeout), 4096), EIO);
    assert_eq!(flush_status(Ok(done)), 0);
    let failed = MdriverControlResponse::new(10, 8, 4, [0; 4]);
    assert_eq!(flush_status(Ok(failed)), EIO);
}

fn ok(operation: u16, device_id: u32, values: [u64; 4]) -> MdriverControlResponse {
    MdriverControlResponse::new(operation, MDRIVER_CONTROL_STATUS_OK, device_id, values)
}

#[test]
fn handshake_walks_the_inventory() {
    let mut handshake = ControlHandshake::new();
    let negotiate = handshake.request().unwrap();
    assert_eq!(negotiate.operation, MDRIVER_CONTROL_NEGOTIATE);
    assert_eq!(negotiate.arguments, [1, 1, 0, 0]);
    assert_eq!(handshake.accept(&ok(MDRIVER_CONTROL_NEGOTIATE, 0, [1, 0x1f, 2, 1])), Ok(()));
    assert_eq!(handshake.request().unwrap().arguments, [0, 0, 0, 0]);
    assert_eq!(handshake.accept(&ok(MDRIVER_CONTROL_ENUMERATE, 10, [1, 1, 1, 0x700])), Ok(()));
    assert_eq!(handshake.request().unwrap().arguments, [1, 0, 0, 0]);
    assert_eq!(handshake.accept(&ok(MDRIVER_CONTROL_ENUMERATE, 11, [2, 3, 1, 0x55])), Ok(()));
    let end = MdriverControlResponse::new(MDRIVER_CONTROL_ENUMERATE, MDRIVER_CONTROL_STATUS_END, 0, [0; 4]);
    assert_eq!(handshake.request().unwrap().arguments, [2, 0, 0, 0]);
    assert_eq!(handshake.accept(&end), Ok(()));
    assert_eq!(handshake.request().unwrap().arguments, [PING_COOKIE, 0, 0, 0]);
    assert_eq!(handshake.accept(&ok(MDRIVER_CONTROL_PING, 0, [PING_COOKIE, 0, 0, 0])), Ok(()));
    assert_eq!(handshake.request().unwrap().operation, MDRIVER_CONTROL_START_SESSION);
    assert_eq!(handshake.accept(&ok(MDRIVER_CONTROL_START_SESSION, 0, [1, 0, 0, 0])), Ok(()));
    assert!(handshake.is_done());
    assert_eq!(handshake.request(), None);
    assert_eq!(handshake.device_count(), 2);
    assert_eq!(handshake.block_candidates(), &[BlockCandidate { device_id: 10, features: 0x700 }]);
    assert_eq!(handshake.display_candidate(), Some((11, 0x55)));
    assert_eq!(handshake.accept(&end), Err(Error::Protocol));
}

#[test]
fn handshake_rejects_unexpected_answers() {
    let mut handshake = ControlHandshake::new();
    assert_eq!(handshake.accept(&ok(MDRIVER_CONTROL_NEGOTIATE, 0, [2, 0x1f, 2, 1])), Err(Error::Protocol));
    assert_eq!(handshake.accept(&ok(MDRIVER_CONTROL_NEGOTIATE, 0, [1, 0x0f, 2, 1])), Err(Error::Protocol));
    assert_eq!(handshake.accept(&ok(MDRIVER_CONTROL_NEGOTIATE, 0, [1, 0x1f, 1 << 32, 1])), Err(Error::Protocol));
    assert_eq!(handshake.request().unwrap().operation, MDRIVER_CONTROL_NEGOTIATE);
    assert_eq!(handshake.accept(&ok(MDRIVER_CONTROL_NEGOTIATE, 0, [1, 0x1f, 1, 1])), Ok(()));
    assert_eq!(handshake.accept(&ok(MDRIVER_CONTROL_ENUMERATE, 0, [1, 1, 1, 0])), Err(Error::Protocol));
    assert_eq!(handshake.accept(&ok(MDRIVER_CONTROL_ENUMERATE, 5, [3, 1, 1, 0])), Err(Error::Protocol));
    assert_eq!(handshake.accept(&ok(MDRIVER_CONTROL_ENUMERATE, 5, [1, 1, 1, 0])), Ok(()));
    assert_eq!(handshake.accept(&ok(MDRIVER_CONTROL_ENUMERATE, 0, [0; 4])), Err(Error::Protocol));
}

#[test]
fn empty_inventory_goes_straight_to_its_end() {
    let mut handshake = ControlHandshake::new();
    assert_eq!(handshake.accept(&ok(MDRIVER_CONTROL_NEGOTIATE, 0, [1, 0x1f, 0, 1])), Ok(()));
    assert_eq!(handshake.request().unwrap().operation, MDRIVER_CONTROL_ENUMERATE);
    let end = MdriverControlResponse::new(MDRIVER_CONTROL_ENUMERATE, MDRIVER_CONTROL_STATUS_END, 0, [0; 4]);
    assert_eq!(handshake.accept(&end), Ok(()));
    assert!(handshake.block_candidates().is_empty());
}

#[test]
fn domain_check_describes_every_device() {
    let mut check = ProtocolCheck::new();
    assert_eq!(check.request().unwrap().operation, MDRIVER_CONTROL_NEGOTIATE);
    assert!(check.accept(&ok(MDRIVER_CONTROL_NEGOTIATE, 0, [1, 0x1f, 1, 1])));
    assert!(check.accept(&ok(MDRIVER_CONTROL_ENUMERATE, 7, [1, 1, 1, 0x707])));
    let describe = check.request().unwrap();
    assert_eq!((describe.operation, describe.device_id), (MDRIVER_CONTROL_DESCRIBE, 7));
    assert!(!check.accept(&ok(MDRIVER_CONTROL_DESCRIBE, 7, [1, 1, 0x700, 0])));
    assert!(check.accept(&ok(MDRIVER_CONTROL_DESCRIBE, 7, [1, 1, 0x707, 0])));
    assert_eq!(check.request().unwrap().arguments, [1, 0, 0, 0]);
    let end = MdriverControlResponse::new(MDRIVER_CONTROL_ENUMERATE, MDRIVER_CONTROL_STATUS_END, 0, [0; 4]);
    assert!(check.accept(&end));
    assert_eq!(check.request().unwrap().operation, u16::MAX);
    let refused = MdriverControlResponse::new(u16::MAX, MDRIVER_CONTROL_STATUS_UNSUPPORTED_OPERATION, 0, [0; 4]);
    assert!(check.accept(&refused));
    assert!(check.accept(&ok(MDRIVER_CONTROL_PING, 0, [PING_COOKIE, 0, 0, 0])));
    assert!(check.accept(&ok(MDRIVER_CONTROL_START_SESSION, 0, [1, 0, 0, 0])));
    assert_eq!(check.request().unwrap().arguments, [PING_COOKIE + 1, 0, 0, 0]);
    assert!(!check.accept(&ok(MDRIVER_CONTROL_PING, 0, [PING_COOKIE, 0, 0, 0])));
    assert!(check.accept(&ok(MDRIVER_CONTROL_PING, 0, [PING_COOKIE + 1, 0, 0, 0])));
    assert!(check.is_done());
    assert_eq!(check.block_device(), Some((7, 0x707)));
}

#[test]
fn domain_check_rejects_devices_without_isolation() {
    let mut check = ProtocolCheck::new();
    assert!(!check.accept(&ok(MDRIVER_CONTROL_NEGOTIATE, 0, [1, 0x1f, 65, 1])));
    assert!(check.accept(&ok(MDRIVER_CONTROL_NEGOTIATE, 0, [1, 0x1f, 1, 1])));
    assert!(!check.accept(&ok(MDRIVER_CONTROL_ENUMERATE, 7, [1, 1, 1, 0x6])));
    assert!(!check.accept(&ok(MDRIVER_CONTROL_ENUMERATE, 7, [1, 6, 1, 0x7])));
    assert!(!check.accept(&ok(MDRIVER_CONTROL_ENUMERATE, 7, [1, 1, 2, 0x7])));
    assert!(check.accept(&ok(MDRIVER_CONTROL_ENUMERATE, 7, [1, 3, 1, 0x7])));
}

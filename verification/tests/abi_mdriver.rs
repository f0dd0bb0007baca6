use mnu::abi::mdriver_block::{
    MdriverBlockRequest, MdriverBlockResponse, MDRIVER_BLOCK_READ, MDRIVER_BLOCK_STATUS_OK,
    MDRIVER_BLOCK_WRITE,
};
use mnu::abi::mdriver_control::{
    MdriverControlRequest, MdriverControlResponse, MDRIVER_CONTROL_DESCRIBE,
    MDRIVER_CONTROL_PAYLOAD_SIZE, MDRIVER_CONTROL_STATUS_OK,
};

#[test]
fn request_encoding_round_trips() {
    let request = MdriverBlockRequest::new(MDRIVER_BLOCK_WRITE, 7, 3, 0x1234, 4096, 0);
    assert_eq!(MdriverBlockRequest::decode(&request.encode()), Some(request));
}

#[test]
fn mdriver_block_response_encoding_round_trips() {
    let request = MdriverBlockRequest::new(MDRIVER_BLOCK_READ, 2, 1, 8, 512, 0);
    let response = MdriverBlockResponse::new(request, MDRIVER_BLOCK_STATUS_OK, 512);
    assert_eq!(MdriverBlockResponse::decode(&response.encode()), Some(response));
}

#[test]
fn mdriver_block_malformed_payloads_are_rejected() {
    assert_eq!(MdriverBlockRequest::decode(&[0; 47]), None);
    assert_eq!(MdriverBlockResponse::decode(&[0; 49]), None);
}

#[test]
fn request_encoding_is_fixed_and_little_endian() {
    let request = MdriverControlRequest::new(0x1234, 0x89ab_cdef, [1, 2, 3, 4]);
    let bytes = request.encode();
    assert_eq!(bytes.len(), MDRIVER_CONTROL_PAYLOAD_SIZE);
    assert_eq!(&bytes[0..4], &[1, 0, 0x34, 0x12]);
    assert_eq!(&bytes[8..12], &0x89ab_cdef_u32.to_le_bytes());
    assert_eq!(MdriverControlRequest::decode(&bytes), Some(request));
}

#[test]
fn mdriver_control_malformed_payloads_are_rejected() {
    assert_eq!(MdriverControlRequest::decode(&[0; 47]), None);
    assert_eq!(MdriverControlResponse::decode(&[0; 49]), None);
}

#[test]
fn mdriver_control_response_encoding_round_trips() {
    let response = MdriverControlResponse::new(MDRIVER_CONTROL_DESCRIBE, MDRIVER_CONTROL_STATUS_OK, 7, [11, 12, 13, 14]);
    assert_eq!(MdriverControlResponse::decode(&response.encode()), Some(response));
}

#[test]
fn block_fields_land_at_their_wire_offsets() {
    let request = MdriverBlockRequest::new(MDRIVER_BLOCK_WRITE, 0x0102_0304, 9, 0x1122_3344_5566_7788, 0x200, 0x40);
    let bytes = request.encode();
    assert_eq!(&bytes[0..4], &[1, 0, 2, 0]);
    assert_eq!(&bytes[8..12], &[4, 3, 2, 1]);
    assert_eq!(&bytes[16..24], &[0x88, 0x77, 0x66, 0x55, 0x44, 0x33, 0x22, 0x11]);
    assert_eq!(&bytes[24..28], &[0, 2, 0, 0]);
    let decoded = MdriverBlockRequest::decode(&bytes).unwrap();
    assert_eq!(decoded.sector, 0x1122_3344_5566_7788);
    let mut raw = [0xffu8; 48];
    raw[2] = 3;
    let any = MdriverBlockResponse::decode(&raw).unwrap();
    assert_eq!(any.operation, 0xff03);
    assert_eq!(any.encode(), raw);
}

//! Control-channel requests and responses exchanged with the driver domain,
//! encoded as 48-byte little-endian payloads.

use vstd::prelude::*;
use crate::le::{le_encode, le_decode, put_le, get_le, lemma_le_round_trip, lemma_le_decode_encode, lemma_le_encode_len, lemma_le_decode_bound, lemma_byte_scales};
use crate::abi::mdriver_block::field;

verus! {

pub const MDRIVER_CONTROL_VERSION: u16 = 1;

pub const MDRIVER_CONTROL_NEGOTIATE: u16 = 1;
pub const MDRIVER_CONTROL_ENUMERATE: u16 = 2;
pub const MDRIVER_CONTROL_DESCRIBE: u16 = 3;
pub const MDRIVER_CONTROL_PING: u16 = 4;
pub const MDRIVER_CONTROL_START_SESSION: u16 = 5;
pub const MDRIVER_CONTROL_OPEN_DEVICE: u16 = 6;
pub const MDRIVER_CONTROL_CLOSE_DEVICE: u16 = 7;
pub const MDRIVER_CONTROL_BLOCK_READ: u16 = 8;
pub const MDRIVER_CONTROL_BLOCK_WRITE: u16 = 9;
pub const MDRIVER_CONTROL_BLOCK_FLUSH: u16 = 10;

pub const MDRIVER_CONTROL_STATUS_OK: u32 = 0;
pub const MDRIVER_CONTROL_STATUS_UNSUPPORTED_VERSION: u32 = 1;
pub const MDRIVER_CONTROL_STATUS_INVALID_REQUEST: u32 = 2;
pub const MDRIVER_CONTROL_STATUS_UNSUPPORTED_OPERATION: u32 = 3;
pub const MDRIVER_CONTROL_STATUS_NOT_FOUND: u32 = 4;
pub const MDRIVER_CONTROL_STATUS_BAD_STATE: u32 = 5;
pub const MDRIVER_CONTROL_STATUS_END: u32 = 6;
pub const MDRIVER_CONTROL_STATUS_INTERNAL_ERROR: u32 = 7;
pub const MDRIVER_CONTROL_STATUS_IO_ERROR: u32 = 8;
pub const MDRIVER_CONTROL_STATUS_OUT_OF_RANGE: u32 = 9;

pub const MDRIVER_CONTROL_CAP_INVENTORY: u64 = 1 << 0;
pub const MDRIVER_CONTROL_CAP_DEVICE_STATUS: u64 = 1 << 1;
pub const MDRIVER_CONTROL_CAP_SESSION: u64 = 1 << 2;
pub const MDRIVER_CONTROL_CAP_PING: u64 = 1 << 3;
pub const MDRIVER_CONTROL_CAP_BLOCK_IO: u64 = 1 << 4;
/// Every control capability this kernel speaks.
pub const MDRIVER_CONTROL_CAPABILITIES: u64 = 0x1f;

pub const MDRIVER_DEVICE_KIND_OTHER: u64 = 0;
pub const MDRIVER_DEVICE_KIND_BLOCK: u64 = 1;
pub const MDRIVER_DEVICE_KIND_NETWORK: u64 = 2;
pub const MDRIVER_DEVICE_KIND_DISPLAY: u64 = 3;
pub const MDRIVER_DEVICE_KIND_USB: u64 = 4;
pub const MDRIVER_DEVICE_KIND_SOUND: u64 = 5;
pub const MDRIVER_DEVICE_STATE_ONLINE: u64 = 1;
pub const MDRIVER_DEVICE_FEATURE_DMA_ISOLATED: u64 = 1 << 0;
pub const MDRIVER_DEVICE_FEATURE_INTERRUPT_ACTIVE: u64 = 1 << 1;
pub const MDRIVER_DEVICE_FEATURE_PHYSICAL: u64 = 1 << 2;
pub const MDRIVER_DEVICE_FEATURE_EPHEMERAL: u64 = 1 << 3;
pub const MDRIVER_DEVICE_FEATURE_BLOCK_READ: u64 = 1 << 8;
pub const MDRIVER_DEVICE_FEATURE_BLOCK_WRITE: u64 = 1 << 9;
pub const MDRIVER_DEVICE_FEATURE_BLOCK_FLUSH: u64 = 1 << 10;

pub const MDRIVER_BLOCK_SECTOR_SIZE: u64 = 512;
pub const MDRIVER_BLOCK_MAX_TRANSFER: u64 = 4096;

pub const MDRIVER_CONTROL_PAYLOAD_SIZE: usize = 48;

#[derive(Clone, Copy, Debug, Eq, PartialEq)]
pub struct MdriverControlRequest {
    pub version: u16,
    pub operation: u16,
    pub flags: u32,
    pub device_id: u32,
    pub reserved: u32,
    pub arguments: [u64; 4],
}

/// Wire bytes of a `MdriverControlRequest`.
pub open spec fn control_request_bytes(r: MdriverControlRequest) -> Seq<u8> {
    le_encode(r.version as nat, 2) + le_encode(r.operation as nat, 2) + le_encode(r.flags as nat, 4) + le_encode(r.device_id as nat, 4) + le_encode(r.reserved as nat, 4) + le_encode(r.arguments[0] as nat, 8) + le_encode(r.arguments[1] as nat, 8) + le_encode(r.arguments[2] as nat, 8) + le_encode(r.arguments[3] as nat, 8)
}

/// Whether `r` is the value a 48-byte payload `b` decodes to.
pub open spec fn control_request_decodes(b: Seq<u8>, r: MdriverControlRequest) -> bool {
    &&& r.version == field(b, 0, 2)
    &&& r.operation == field(b, 2, 2)
    &&& r.flags == field(b, 4, 4)
    &&& r.device_id == field(b, 8, 4)
    &&& r.reserved == field(b, 12, 4)
    &&& r.arguments[0] == field(b, 16, 8)
    &&& r.arguments[1] == field(b, 24, 8)
    &&& r.arguments[2] == field(b, 32, 8)
    &&& r.arguments[3] == field(b, 40, 8)
}

impl MdriverControlRequest {
    pub fn new(operation: u16, device_id: u32, arguments: [u64; 4]) -> (r: Self)
        ensures
            r.version == MDRIVER_CONTROL_VERSION,
            r.operation == operation,
            r.flags == 0,
            r.device_id == device_id,
            r.reserved == 0,
            r.arguments == arguments,
    {
        MdriverControlRequest {
            version: MDRIVER_CONTROL_VERSION,
            operation,
            flags: 0,
            device_id,
            reserved: 0,
            arguments,
        }
    }

    pub fn encode(self) -> (bytes: [u8; 48])
        ensures
            bytes@ == control_request_bytes(self),
    {
        let mut bytes = [0u8; 48];
        put_le(&mut bytes, 0, self.version as u64, 2);
        put_le(&mut bytes, 2, self.operation as u64, 2);
        put_le(&mut bytes, 4, self.flags as u64, 4);
        put_le(&mut bytes, 8, self.device_id as u64, 4);
        put_le(&mut bytes, 12, self.reserved as u64, 4);
        put_le(&mut bytes, 16, self.arguments[0], 8);
        put_le(&mut bytes, 24, self.arguments[1], 8);
        put_le(&mut bytes, 32, self.arguments[2], 8);
        put_le(&mut bytes, 40, self.arguments[3], 8);
        proof {
            lemma_le_encode_len(self.version as nat, 2);
            lemma_le_encode_len(self.operation as nat, 2);
            lemma_le_encode_len(self.flags as nat, 4);
            lemma_le_encode_len(self.device_id as nat, 4);
            lemma_le_encode_len(self.reserved as nat, 4);
            lemma_le_encode_len(self.arguments[0] as nat, 8);
            lemma_le_encode_len(self.arguments[1] as nat, 8);
            lemma_le_encode_len(self.arguments[2] as nat, 8);
            lemma_le_encode_len(self.arguments[3] as nat, 8);
        }
        assert(bytes@ =~= control_request_bytes(self));
        bytes
    }

    pub fn decode(bytes: &[u8]) -> (r: Option<Self>)
        ensures
            bytes@.len() != 48 ==> r is None,
            bytes@.len() == 48 ==> r is Some && control_request_decodes(bytes@, r.unwrap()),
    {
        if bytes.len() != 48 {
            return None;
        }
        proof {
            lemma_byte_scales();
            lemma_le_decode_bound(bytes@.subrange(0, 2));
            lemma_le_decode_bound(bytes@.subrange(2, 4));
            lemma_le_decode_bound(bytes@.subrange(4, 8));
            lemma_le_decode_bound(bytes@.subrange(8, 12));
            lemma_le_decode_bound(bytes@.subrange(12, 16));
        }
        let version = get_le(bytes, 0, 2) as u16;
        let operation = get_le(bytes, 2, 2) as u16;
        let flags = get_le(bytes, 4, 4) as u32;
        let device_id = get_le(bytes, 8, 4) as u32;
        let reserved = get_le(bytes, 12, 4) as u32;
        let arguments0 = get_le(bytes, 16, 8);
        let arguments1 = get_le(bytes, 24, 8);
        let arguments2 = get_le(bytes, 32, 8);
        let arguments3 = get_le(bytes, 40, 8);
        Some(MdriverControlRequest {
            version,
            operation,
            flags,
            device_id,
            reserved,
            arguments: [arguments0, arguments1, arguments2, arguments3],
        })
    }
}

#[derive(Clone, Copy, Debug, Eq, PartialEq)]
pub struct MdriverControlResponse {
    pub version: u16,
    pub operation: u16,
    pub status: u32,
    pub device_id: u32,
    pub reserved: u32,
    pub values: [u64; 4],
}

/// Wire bytes of a `MdriverControlResponse`.
pub open spec fn control_response_bytes(r: MdriverControlResponse) -> Seq<u8> {
    le_encode(r.version as nat, 2) + le_encode(r.operation as nat, 2) + le_encode(r.status as nat, 4) + le_encode(r.device_id as nat, 4) + le_encode(r.reserved as nat, 4) + le_encode(r.values[0] as nat, 8) + le_encode(r.values[1] as nat, 8) + le_encode(r.values[2] as nat, 8) + le_encode(r.values[3] as nat, 8)
}

/// Whether `r` is the value a 48-byte payload `b` decodes to.
pub open spec fn control_response_decodes(b: Seq<u8>, r: MdriverControlResponse) -> bool {
    &&& r.version == field(b, 0, 2)
    &&& r.operation == field(b, 2, 2)
    &&& r.status == field(b, 4, 4)
    &&& r.device_id == field(b, 8, 4)
    &&& r.reserved == field(b, 12, 4)
    &&& r.values[0] == field(b, 16, 8)
    &&& r.values[1] == field(b, 24, 8)
    &&& r.values[2] == field(b, 32, 8)
    &&& r.values[3] == field(b, 40, 8)
}

impl MdriverControlResponse {
    pub fn new(operation: u16, status: u32, device_id: u32, values: [u64; 4]) -> (r: Self)
        ensures
            r.version == MDRIVER_CONTROL_VERSION,
            r.operation == operation,
            r.status == status,
            r.device_id == device_id,
            r.reserved == 0,
            r.values == values,
    {
        MdriverControlResponse {
            version: MDRIVER_CONTROL_VERSION,
            operation,
            status,
            device_id,
            reserved: 0,
            values,
        }
    }

    pub fn encode(self) -> (bytes: [u8; 48])
        ensures
            bytes@ == control_response_bytes(self),
    {
        let mut bytes = [0u8; 48];
        put_le(&mut bytes, 0, self.version as u64, 2);
        put_le(&mut bytes, 2, self.operation as u64, 2);
        put_le(&mut bytes, 4, self.status as u64, 4);
        put_le(&mut bytes, 8, self.device_id as u64, 4);
        put_le(&mut bytes, 12, self.reserved as u64, 4);
        put_le(&mut bytes, 16, self.values[0], 8);
        put_le(&mut bytes, 24, self.values[1], 8);
        put_le(&mut bytes, 32, self.values[2], 8);
        put_le(&mut bytes, 40, self.values[3], 8);
        proof {
            lemma_le_encode_len(self.version as nat, 2);
            lemma_le_encode_len(self.operation as nat, 2);
            lemma_le_encode_len(self.status as nat, 4);
            lemma_le_encode_len(self.device_id as nat, 4);
            lemma_le_encode_len(self.reserved as nat, 4);
            lemma_le_encode_len(self.values[0] as nat, 8);
            lemma_le_encode_len(self.values[1] as nat, 8);
            lemma_le_encode_len(self.values[2] as nat, 8);
            lemma_le_encode_len(self.values[3] as nat, 8);
        }
        assert(bytes@ =~= control_response_bytes(self));
        bytes
    }

    pub fn decode(bytes: &[u8]) -> (r: Option<Self>)
        ensures
            bytes@.len() != 48 ==> r is None,
            bytes@.len() == 48 ==> r is Some && control_response_decodes(bytes@, r.unwrap()),
    {
        if bytes.len() != 48 {
            return None;
        }
        proof {
            lemma_byte_scales();
            lemma_le_decode_bound(bytes@.subrange(0, 2));
            lemma_le_decode_bound(bytes@.subrange(2, 4));
            lemma_le_decode_bound(bytes@.subrange(4, 8));
            lemma_le_decode_bound(bytes@.subrange(8, 12));
            lemma_le_decode_bound(bytes@.subrange(12, 16));
        }
        let version = get_le(bytes, 0, 2) as u16;
        let operation = get_le(bytes, 2, 2) as u16;
        let status = get_le(bytes, 4, 4) as u32;
        let device_id = get_le(bytes, 8, 4) as u32;
        let reserved = get_le(bytes, 12, 4) as u32;
        let values0 = get_le(bytes, 16, 8);
        let values1 = get_le(bytes, 24, 8);
        let values2 = get_le(bytes, 32, 8);
        let values3 = get_le(bytes, 40, 8);
        Some(MdriverControlResponse {
            version,
            operation,
            status,
            device_id,
            reserved,
            values: [values0, values1, values2, values3],
        })
    }
}

/// Decoding the encoding of any `MdriverControlRequest` gives it back.
pub proof fn control_request_round_trip(r: MdriverControlRequest)
    ensures
        control_request_bytes(r).len() == 48,
        control_request_decodes(control_request_bytes(r), r),
{
    lemma_byte_scales();
    let b = control_request_bytes(r);
    lemma_le_encode_len(r.version as nat, 2);
    lemma_le_encode_len(r.operation as nat, 2);
    lemma_le_encode_len(r.flags as nat, 4);
    lemma_le_encode_len(r.device_id as nat, 4);
    lemma_le_encode_len(r.reserved as nat, 4);
    lemma_le_encode_len(r.arguments[0] as nat, 8);
    lemma_le_encode_len(r.arguments[1] as nat, 8);
    lemma_le_encode_len(r.arguments[2] as nat, 8);
    lemma_le_encode_len(r.arguments[3] as nat, 8);
    assert(b.subrange(0, 2) =~= le_encode(r.version as nat, 2));
    assert(b.subrange(2, 4) =~= le_encode(r.operation as nat, 2));
    assert(b.subrange(4, 8) =~= le_encode(r.flags as nat, 4));
    assert(b.subrange(8, 12) =~= le_encode(r.device_id as nat, 4));
    assert(b.subrange(12, 16) =~= le_encode(r.reserved as nat, 4));
    assert(b.subrange(16, 24) =~= le_encode(r.arguments[0] as nat, 8));
    assert(b.subrange(24, 32) =~= le_encode(r.arguments[1] as nat, 8));
    assert(b.subrange(32, 40) =~= le_encode(r.arguments[2] as nat, 8));
    assert(b.subrange(40, 48) =~= le_encode(r.arguments[3] as nat, 8));
    lemma_le_round_trip(r.version as nat, 2);
    lemma_le_round_trip(r.operation as nat, 2);
    lemma_le_round_trip(r.flags as nat, 4);
    lemma_le_round_trip(r.device_id as nat, 4);
    lemma_le_round_trip(r.reserved as nat, 4);
    lemma_le_round_trip(r.arguments[0] as nat, 8);
    lemma_le_round_trip(r.arguments[1] as nat, 8);
    lemma_le_round_trip(r.arguments[2] as nat, 8);
    lemma_le_round_trip(r.arguments[3] as nat, 8);
}

/// A 48-byte payload is exactly the encoding of the `MdriverControlRequest` it decodes to.
pub proof fn control_request_decode_is_exact(b: Seq<u8>, r: MdriverControlRequest)
    requires
        b.len() == 48,
        control_request_decodes(b, r),
    ensures
        control_request_bytes(r) == b,
{
    lemma_le_decode_encode(b.subrange(0, 2));
    lemma_le_decode_encode(b.subrange(2, 4));
    lemma_le_decode_encode(b.subrange(4, 8));
    lemma_le_decode_encode(b.subrange(8, 12));
    lemma_le_decode_encode(b.subrange(12, 16));
    lemma_le_decode_encode(b.subrange(16, 24));
    lemma_le_decode_encode(b.subrange(24, 32));
    lemma_le_decode_encode(b.subrange(32, 40));
    lemma_le_decode_encode(b.subrange(40, 48));
    assert(control_request_bytes(r) =~= b);
}
/// Decoding the encoding of any `MdriverControlResponse` gives it back.
pub proof fn control_response_round_trip(r: MdriverControlResponse)
    ensures
        control_response_bytes(r).len() == 48,
        control_response_decodes(control_response_bytes(r), r),
{
    lemma_byte_scales();
    let b = control_response_bytes(r);
    lemma_le_encode_len(r.version as nat, 2);
    lemma_le_encode_len(r.operation as nat, 2);
    lemma_le_encode_len(r.status as nat, 4);
    lemma_le_encode_len(r.device_id as nat, 4);
    lemma_le_encode_len(r.reserved as nat, 4);
    lemma_le_encode_len(r.values[0] as nat, 8);
    lemma_le_encode_len(r.values[1] as nat, 8);
    lemma_le_encode_len(r.values[2] as nat, 8);
    lemma_le_encode_len(r.values[3] as nat, 8);
    assert(b.subrange(0, 2) =~= le_encode(r.version as nat, 2));
    assert(b.subrange(2, 4) =~= le_encode(r.operation as nat, 2));
    assert(b.subrange(4, 8) =~= le_encode(r.status as nat, 4));
    assert(b.subrange(8, 12) =~= le_encode(r.device_id as nat, 4));
    assert(b.subrange(12, 16) =~= le_encode(r.reserved as nat, 4));
    assert(b.subrange(16, 24) =~= le_encode(r.values[0] as nat, 8));
    assert(b.subrange(24, 32) =~= le_encode(r.values[1] as nat, 8));
    assert(b.subrange(32, 40) =~= le_encode(r.values[2] as nat, 8));
    assert(b.subrange(40, 48) =~= le_encode(r.values[3] as nat, 8));
    lemma_le_round_trip(r.version as nat, 2);
    lemma_le_round_trip(r.operation as nat, 2);
    lemma_le_round_trip(r.status as nat, 4);
    lemma_le_round_trip(r.device_id as nat, 4);
    lemma_le_round_trip(r.reserved as nat, 4);
    lemma_le_round_trip(r.values[0] as nat, 8);
    lemma_le_round_trip(r.values[1] as nat, 8);
    lemma_le_round_trip(r.values[2] as nat, 8);
    lemma_le_round_trip(r.values[3] as nat, 8);
}

/// A 48-byte payload is exactly the encoding of the `MdriverControlResponse` it decodes to.
pub proof fn control_response_decode_is_exact(b: Seq<u8>, r: MdriverControlResponse)
    requires
        b.len() == 48,
        control_response_decodes(b, r),
    ensures
        control_response_bytes(r) == b,
{
    lemma_le_decode_encode(b.subrange(0, 2));
    lemma_le_decode_encode(b.subrange(2, 4));
    lemma_le_decode_encode(b.subrange(4, 8));
    lemma_le_decode_encode(b.subrange(8, 12));
    lemma_le_decode_encode(b.subrange(12, 16));
    lemma_le_decode_encode(b.subrange(16, 24));
    lemma_le_decode_encode(b.subrange(24, 32));
    lemma_le_decode_encode(b.subrange(32, 40));
    lemma_le_decode_encode(b.subrange(40, 48));
    assert(control_response_bytes(r) =~= b);
}
} // verus!

//! Block requests and responses exchanged with the driver domain, encoded as
//! 48-byte little-endian payloads.

use vstd::prelude::*;
use crate::le::{le_encode, le_decode, put_le, get_le, lemma_le_round_trip, lemma_le_decode_encode, lemma_le_encode_len, lemma_le_decode_bound, lemma_byte_scales};

verus! {

pub const MDRIVER_BLOCK_VERSION: u16 = 1;

pub const MDRIVER_BLOCK_READ: u16 = 1;
pub const MDRIVER_BLOCK_WRITE: u16 = 2;
pub const MDRIVER_BLOCK_FLUSH: u16 = 3;

pub const MDRIVER_BLOCK_STATUS_OK: u32 = 0;
pub const MDRIVER_BLOCK_STATUS_INVALID_REQUEST: u32 = 1;
pub const MDRIVER_BLOCK_STATUS_IO_ERROR: u32 = 2;
pub const MDRIVER_BLOCK_STATUS_OUT_OF_RANGE: u32 = 3;
pub const MDRIVER_BLOCK_STATUS_BAD_STATE: u32 = 4;
pub const MDRIVER_BLOCK_STATUS_READ_ONLY: u32 = 5;

pub const MDRIVER_BLOCK_PAYLOAD_SIZE: usize = 48;

#[derive(Clone, Copy, Debug, Eq, PartialEq)]
pub struct MdriverBlockRequest {
    pub version: u16,
    pub operation: u16,
    pub flags: u32,
    pub device_id: u32,
    pub buffer_id: u32,
    pub sector: u64,
    pub length: u32,
    pub buffer_offset: u32,
    pub reserved: [u64; 2],
}

/// Wire bytes of a block request.
pub open spec fn request_bytes(r: MdriverBlockRequest) -> Seq<u8> {
    le_encode(r.version as nat, 2) + le_encode(r.operation as nat, 2) + le_encode(r.flags as nat, 4)
        + le_encode(r.device_id as nat, 4) + le_encode(r.buffer_id as nat, 4) + le_encode(
        r.sector as nat,
        8,
    ) + le_encode(r.length as nat, 4) + le_encode(r.buffer_offset as nat, 4) + le_encode(
        r.reserved[0] as nat,
        8,
    ) + le_encode(r.reserved[1] as nat, 8)
}

/// Value of the `n`-byte field at `offset` of `b`.
pub open spec fn field(b: Seq<u8>, offset: int, n: int) -> nat {
    le_decode(b.subrange(offset, offset + n))
}

/// Whether `r` is the request a 48-byte payload `b` decodes to.
pub open spec fn request_decodes(b: Seq<u8>, r: MdriverBlockRequest) -> bool {
    &&& r.version == field(b, 0, 2)
    &&& r.operation == field(b, 2, 2)
    &&& r.flags == field(b, 4, 4)
    &&& r.device_id == field(b, 8, 4)
    &&& r.buffer_id == field(b, 12, 4)
    &&& r.sector == field(b, 16, 8)
    &&& r.length == field(b, 24, 4)
    &&& r.buffer_offset == field(b, 28, 4)
    &&& r.reserved[0] == field(b, 32, 8)
    &&& r.reserved[1] == field(b, 40, 8)
}

impl MdriverBlockRequest {
    pub fn new(
        operation: u16,
        device_id: u32,
        buffer_id: u32,
        sector: u64,
        length: u32,
        buffer_offset: u32,
    ) -> (r: Self)
        ensures
            r.version == MDRIVER_BLOCK_VERSION,
            r.operation == operation,
            r.flags == 0,
            r.device_id == device_id,
            r.buffer_id == buffer_id,
            r.sector == sector,
            r.length == length,
            r.buffer_offset == buffer_offset,
            r.reserved[0] == 0 && r.reserved[1] == 0,
    {
        MdriverBlockRequest {
            version: MDRIVER_BLOCK_VERSION,
            operation,
            flags: 0,
            device_id,
            buffer_id,
            sector,
            length,
            buffer_offset,
            reserved: [0u64; 2],
        }
    }

    pub fn encode(self) -> (bytes: [u8; 48])
        ensures
            bytes@ == request_bytes(self),
    {
        let mut bytes = [0u8; 48];
        put_le(&mut bytes, 0, self.version as u64, 2);
        put_le(&mut bytes, 2, self.operation as u64, 2);
        put_le(&mut bytes, 4, self.flags as u64, 4);
        put_le(&mut bytes, 8, self.device_id as u64, 4);
        put_le(&mut bytes, 12, self.buffer_id as u64, 4);
        put_le(&mut bytes, 16, self.sector, 8);
        put_le(&mut bytes, 24, self.length as u64, 4);
        put_le(&mut bytes, 28, self.buffer_offset as u64, 4);
        put_le(&mut bytes, 32, self.reserved[0], 8);
        put_le(&mut bytes, 40, self.reserved[1], 8);
        proof {
            lemma_le_encode_len(self.version as nat, 2);
            lemma_le_encode_len(self.operation as nat, 2);
            lemma_le_encode_len(self.flags as nat, 4);
            lemma_le_encode_len(self.device_id as nat, 4);
            lemma_le_encode_len(self.buffer_id as nat, 4);
            lemma_le_encode_len(self.sector as nat, 8);
            lemma_le_encode_len(self.length as nat, 4);
            lemma_le_encode_len(self.buffer_offset as nat, 4);
            lemma_le_encode_len(self.reserved[0] as nat, 8);
            lemma_le_encode_len(self.reserved[1] as nat, 8);
        }
        assert(bytes@ =~= request_bytes(self));
        bytes
    }

    pub fn decode(bytes: &[u8]) -> (r: Option<Self>)
        ensures
            bytes@.len() != 48 ==> r is None,
            bytes@.len() == 48 ==> r is Some && request_decodes(bytes@, r.unwrap()),
    {
        if bytes.len() != MDRIVER_BLOCK_PAYLOAD_SIZE {
            return None;
        }
        proof {
            lemma_byte_scales();
            lemma_le_decode_bound(bytes@.subrange(0, 2));
            lemma_le_decode_bound(bytes@.subrange(2, 4));
            lemma_le_decode_bound(bytes@.subrange(4, 8));
            lemma_le_decode_bound(bytes@.subrange(8, 12));
            lemma_le_decode_bound(bytes@.subrange(12, 16));
            lemma_le_decode_bound(bytes@.subrange(24, 28));
            lemma_le_decode_bound(bytes@.subrange(28, 32));
        }
        let version = get_le(bytes, 0, 2) as u16;
        let operation = get_le(bytes, 2, 2) as u16;
        let flags = get_le(bytes, 4, 4) as u32;
        let device_id = get_le(bytes, 8, 4) as u32;
        let buffer_id = get_le(bytes, 12, 4) as u32;
        let sector = get_le(bytes, 16, 8);
        let length = get_le(bytes, 24, 4) as u32;
        let buffer_offset = get_le(bytes, 28, 4) as u32;
        let reserved0 = get_le(bytes, 32, 8);
        let reserved1 = get_le(bytes, 40, 8);
        Some(MdriverBlockRequest {
            version,
            operation,
            flags,
            device_id,
            buffer_id,
            sector,
            length,
            buffer_offset,
            reserved: [reserved0, reserved1],
        })
    }
}

/// Decoding the encoding of any block request gives the request back.
pub proof fn block_request_round_trip(r: MdriverBlockRequest)
    ensures
        request_bytes(r).len() == 48,
        request_decodes(request_bytes(r), r),
{
    lemma_byte_scales();
    let b = request_bytes(r);
    lemma_le_encode_len(r.version as nat, 2);
    lemma_le_encode_len(r.operation as nat, 2);
    lemma_le_encode_len(r.flags as nat, 4);
    lemma_le_encode_len(r.device_id as nat, 4);
    lemma_le_encode_len(r.buffer_id as nat, 4);
    lemma_le_encode_len(r.sector as nat, 8);
    lemma_le_encode_len(r.length as nat, 4);
    lemma_le_encode_len(r.buffer_offset as nat, 4);
    lemma_le_encode_len(r.reserved[0] as nat, 8);
    lemma_le_encode_len(r.reserved[1] as nat, 8);
    assert(b.subrange(0, 2) =~= le_encode(r.version as nat, 2));
    assert(b.subrange(2, 4) =~= le_encode(r.operation as nat, 2));
    assert(b.subrange(4, 8) =~= le_encode(r.flags as nat, 4));
    assert(b.subrange(8, 12) =~= le_encode(r.device_id as nat, 4));
    assert(b.subrange(12, 16) =~= le_encode(r.buffer_id as nat, 4));
    assert(b.subrange(16, 24) =~= le_encode(r.sector as nat, 8));
    assert(b.subrange(24, 28) =~= le_encode(r.length as nat, 4));
    assert(b.subrange(28, 32) =~= le_encode(r.buffer_offset as nat, 4));
    assert(b.subrange(32, 40) =~= le_encode(r.reserved[0] as nat, 8));
    assert(b.subrange(40, 48) =~= le_encode(r.reserved[1] as nat, 8));
    lemma_le_round_trip(r.version as nat, 2);
    lemma_le_round_trip(r.operation as nat, 2);
    lemma_le_round_trip(r.flags as nat, 4);
    lemma_le_round_trip(r.device_id as nat, 4);
    lemma_le_round_trip(r.buffer_id as nat, 4);
    lemma_le_round_trip(r.sector as nat, 8);
    lemma_le_round_trip(r.length as nat, 4);
    lemma_le_round_trip(r.buffer_offset as nat, 4);
    lemma_le_round_trip(r.reserved[0] as nat, 8);
    lemma_le_round_trip(r.reserved[1] as nat, 8);
}

/// A 48-byte payload is exactly the encoding of the request it decodes to.
pub proof fn block_request_decode_is_exact(b: Seq<u8>, r: MdriverBlockRequest)
    requires
        b.len() == 48,
        request_decodes(b, r),
    ensures
        request_bytes(r) == b,
{
    lemma_le_decode_encode(b.subrange(0, 2));
    lemma_le_decode_encode(b.subrange(2, 4));
    lemma_le_decode_encode(b.subrange(4, 8));
    lemma_le_decode_encode(b.subrange(8, 12));
    lemma_le_decode_encode(b.subrange(12, 16));
    lemma_le_decode_encode(b.subrange(16, 24));
    lemma_le_decode_encode(b.subrange(24, 28));
    lemma_le_decode_encode(b.subrange(28, 32));
    lemma_le_decode_encode(b.subrange(32, 40));
    lemma_le_decode_encode(b.subrange(40, 48));
    assert(request_bytes(r) =~= b);
}

/// Wire bytes of a `MdriverBlockResponse`.
pub open spec fn response_bytes(r: MdriverBlockResponse) -> Seq<u8> {
    le_encode(r.version as nat, 2) + le_encode(r.operation as nat, 2) + le_encode(r.status as nat, 4) + le_encode(r.device_id as nat, 4) + le_encode(r.buffer_id as nat, 4) + le_encode(r.transferred as nat, 4) + le_encode(r.reserved0 as nat, 4) + le_encode(r.sector as nat, 8) + le_encode(r.reserved[0] as nat, 8) + le_encode(r.reserved[1] as nat, 8)
}

/// Whether `r` is the value a 48-byte payload `b` decodes to.
pub open spec fn response_decodes(b: Seq<u8>, r: MdriverBlockResponse) -> bool {
    &&& r.version == field(b, 0, 2)
    &&& r.operation == field(b, 2, 2)
    &&& r.status == field(b, 4, 4)
    &&& r.device_id == field(b, 8, 4)
    &&& r.buffer_id == field(b, 12, 4)
    &&& r.transferred == field(b, 16, 4)
    &&& r.reserved0 == field(b, 20, 4)
    &&& r.sector == field(b, 24, 8)
    &&& r.reserved[0] == field(b, 32, 8)
    &&& r.reserved[1] == field(b, 40, 8)
}

#[derive(Clone, Copy, Debug, Eq, PartialEq)]
pub struct MdriverBlockResponse {
    pub version: u16,
    pub operation: u16,
    pub status: u32,
    pub device_id: u32,
    pub buffer_id: u32,
    pub transferred: u32,
    pub reserved0: u32,
    pub sector: u64,
    pub reserved: [u64; 2],
}

impl MdriverBlockResponse {
    /// Response to `request` carrying `status` and the byte count moved.
    pub fn new(request: MdriverBlockRequest, status: u32, transferred: u32) -> (r: Self)
        ensures
            r.version == MDRIVER_BLOCK_VERSION,
            r.operation == request.operation,
            r.status == status,
            r.device_id == request.device_id,
            r.buffer_id == request.buffer_id,
            r.transferred == transferred,
            r.reserved0 == 0,
            r.sector == request.sector,
            r.reserved[0] == 0 && r.reserved[1] == 0,
    {
        MdriverBlockResponse {
            version: MDRIVER_BLOCK_VERSION,
            operation: request.operation,
            status,
            device_id: request.device_id,
            buffer_id: request.buffer_id,
            transferred,
            reserved0: 0,
            sector: request.sector,
            reserved: [0u64; 2],
        }
    }

    pub fn encode(self) -> (bytes: [u8; 48])
        ensures
            bytes@ == response_bytes(self),
    {
        let mut bytes = [0u8; 48];
        put_le(&mut bytes, 0, self.version as u64, 2);
        put_le(&mut bytes, 2, self.operation as u64, 2);
        put_le(&mut bytes, 4, self.status as u64, 4);
        put_le(&mut bytes, 8, self.device_id as u64, 4);
        put_le(&mut bytes, 12, self.buffer_id as u64, 4);
        put_le(&mut bytes, 16, self.transferred as u64, 4);
        put_le(&mut bytes, 20, self.reserved0 as u64, 4);
        put_le(&mut bytes, 24, self.sector, 8);
        put_le(&mut bytes, 32, self.reserved[0], 8);
        put_le(&mut bytes, 40, self.reserved[1], 8);
        proof {
            lemma_le_encode_len(self.version as nat, 2);
            lemma_le_encode_len(self.operation as nat, 2);
            lemma_le_encode_len(self.status as nat, 4);
            lemma_le_encode_len(self.device_id as nat, 4);
            lemma_le_encode_len(self.buffer_id as nat, 4);
            lemma_le_encode_len(self.transferred as nat, 4);
            lemma_le_encode_len(self.reserved0 as nat, 4);
            lemma_le_encode_len(self.sector as nat, 8);
            lemma_le_encode_len(self.reserved[0] as nat, 8);
            lemma_le_encode_len(self.reserved[1] as nat, 8);
        }
        assert(bytes@ =~= response_bytes(self));
        bytes
    }

    pub fn decode(bytes: &[u8]) -> (r: Option<Self>)
        ensures
            bytes@.len() != 48 ==> r is None,
            bytes@.len() == 48 ==> r is Some && response_decodes(bytes@, r.unwrap()),
    {
        if bytes.len() != 48 {
            return None;
        }
        proof {
            lemma_byte_scales();
            lemma_le_decode_bound(bytes@.subrange(0, 2));
            lemma_le_decode_bound(bytes@.subrange(2, 4));
            lemma_le_decode_bound(bytes@.subrange(4, 8));
            lemma_le_decode_bound(bytes@.subrange(8, 12));
            lemma_le_decode_bound(bytes@.subrange(12, 16));
            lemma_le_decode_bound(bytes@.subrange(16, 20));
            lemma_le_decode_bound(bytes@.subrange(20, 24));
        }
        let version = get_le(bytes, 0, 2) as u16;
        let operation = get_le(bytes, 2, 2) as u16;
        let status = get_le(bytes, 4, 4) as u32;
        let device_id = get_le(bytes, 8, 4) as u32;
        let buffer_id = get_le(bytes, 12, 4) as u32;
        let transferred = get_le(bytes, 16, 4) as u32;
        let reserved0 = get_le(bytes, 20, 4) as u32;
        let sector = get_le(bytes, 24, 8);
        let reserved_low = get_le(bytes, 32, 8);
        let reserved_high = get_le(bytes, 40, 8);
        Some(MdriverBlockResponse {
            version,
            operation,
            status,
            device_id,
            buffer_id,
            transferred,
            reserved0,
            sector,
            reserved: [reserved_low, reserved_high],
        })
    }
}

/// Decoding the encoding of any `MdriverBlockResponse` gives it back.
pub proof fn block_response_round_trip(r: MdriverBlockResponse)
    ensures
        response_bytes(r).len() == 48,
        response_decodes(response_bytes(r), r),
{
    lemma_byte_scales();
    let b = response_bytes(r);
    lemma_le_encode_len(r.version as nat, 2);
    lemma_le_encode_len(r.operation as nat, 2);
    lemma_le_encode_len(r.status as nat, 4);
    lemma_le_encode_len(r.device_id as nat, 4);
    lemma_le_encode_len(r.buffer_id as nat, 4);
    lemma_le_encode_len(r.transferred as nat, 4);
    lemma_le_encode_len(r.reserved0 as nat, 4);
    lemma_le_encode_len(r.sector as nat, 8);
    lemma_le_encode_len(r.reserved[0] as nat, 8);
    lemma_le_encode_len(r.reserved[1] as nat, 8);
    assert(b.subrange(0, 2) =~= le_encode(r.version as nat, 2));
    assert(b.subrange(2, 4) =~= le_encode(r.operation as nat, 2));
    assert(b.subrange(4, 8) =~= le_encode(r.status as nat, 4));
    assert(b.subrange(8, 12) =~= le_encode(r.device_id as nat, 4));
    assert(b.subrange(12, 16) =~= le_encode(r.buffer_id as nat, 4));
    assert(b.subrange(16, 20) =~= le_encode(r.transferred as nat, 4));
    assert(b.subrange(20, 24) =~= le_encode(r.reserved0 as nat, 4));
    assert(b.subrange(24, 32) =~= le_encode(r.sector as nat, 8));
    assert(b.subrange(32, 40) =~= le_encode(r.reserved[0] as nat, 8));
    assert(b.subrange(40, 48) =~= le_encode(r.reserved[1] as nat, 8));
    lemma_le_round_trip(r.version as nat, 2);
    lemma_le_round_trip(r.operation as nat, 2);
    lemma_le_round_trip(r.status as nat, 4);
    lemma_le_round_trip(r.device_id as nat, 4);
    lemma_le_round_trip(r.buffer_id as nat, 4);
    lemma_le_round_trip(r.transferred as nat, 4);
    lemma_le_round_trip(r.reserved0 as nat, 4);
    lemma_le_round_trip(r.sector as nat, 8);
    lemma_le_round_trip(r.reserved[0] as nat, 8);
    lemma_le_round_trip(r.reserved[1] as nat, 8);
}

/// A 48-byte payload is exactly the encoding of the `MdriverBlockResponse` it decodes to.
pub proof fn block_response_decode_is_exact(b: Seq<u8>, r: MdriverBlockResponse)
    requires
        b.len() == 48,
        response_decodes(b, r),
    ensures
        response_bytes(r) == b,
{
    lemma_le_decode_encode(b.subrange(0, 2));
    lemma_le_decode_encode(b.subrange(2, 4));
    lemma_le_decode_encode(b.subrange(4, 8));
    lemma_le_decode_encode(b.subrange(8, 12));
    lemma_le_decode_encode(b.subrange(12, 16));
    lemma_le_decode_encode(b.subrange(16, 20));
    lemma_le_decode_encode(b.subrange(20, 24));
    lemma_le_decode_encode(b.subrange(24, 32));
    lemma_le_decode_encode(b.subrange(32, 40));
    lemma_le_decode_encode(b.subrange(40, 48));
    assert(response_bytes(r) =~= b);
}
} // verus!

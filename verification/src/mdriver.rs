//! The kernel's side of the mDriver control protocol: framing control
//! messages on the shared ring and checking the answers, opening a block
//! device, and splitting sector transfers over the shared data page.

use vstd::prelude::*;
use crate::abi::hypervisor::{MDRIVER_CONTROL_REQUEST_KIND, MDRIVER_CONTROL_RESPONSE_KIND, MDRIVER_CONTROL_RING_GENERATION};
use crate::abi::mdriver_block::field;
use crate::abi::mdriver_control::{
    control_request_bytes, control_response_decodes, MdriverControlRequest, MdriverControlResponse,
    MDRIVER_BLOCK_MAX_TRANSFER, MDRIVER_BLOCK_SECTOR_SIZE, MDRIVER_CONTROL_CAPABILITIES, MDRIVER_CONTROL_ENUMERATE,
    MDRIVER_CONTROL_NEGOTIATE, MDRIVER_CONTROL_PING, MDRIVER_CONTROL_START_SESSION, MDRIVER_CONTROL_STATUS_END,
    MDRIVER_CONTROL_STATUS_OK, MDRIVER_CONTROL_VERSION, MDRIVER_DEVICE_KIND_BLOCK, MDRIVER_DEVICE_KIND_DISPLAY,
    MDRIVER_CONTROL_DESCRIBE, MDRIVER_CONTROL_STATUS_UNSUPPORTED_OPERATION, MDRIVER_DEVICE_KIND_SOUND,
    MDRIVER_DEVICE_STATE_ONLINE, MDRIVER_DEVICE_FEATURE_DMA_ISOLATED, MDRIVER_DEVICE_FEATURE_INTERRUPT_ACTIVE,
    MDRIVER_DEVICE_FEATURE_PHYSICAL,
    MDRIVER_DEVICE_FEATURE_BLOCK_FLUSH, MDRIVER_DEVICE_FEATURE_BLOCK_READ, MDRIVER_DEVICE_FEATURE_BLOCK_WRITE,
};
use crate::abi::shared_ring::{SharedRingError, SharedRingMessage};
use crate::mem::heap::{is_pow2, power_of_two};

verus! {

pub const EIO: i32 = -5;
pub const ENXIO: i32 = -6;
pub const EINVAL: i32 = -22;
pub const EROFS: i32 = -30;
/// Bytes of one sector as the disk interface counts them.
pub const SECTOR_BYTES: u64 = 512;

#[derive(Clone, Copy, Debug, PartialEq, Eq, Structural)]
pub enum Error {
    Unsupported,
    MissingGrantWindow,
    Hypercall,
    Timeout,
    Ring,
    Protocol,
    Device,
}

/// An opened block device and the shared page its data passes through.
#[derive(Clone, Copy, Debug, PartialEq, Eq, Structural)]
pub struct BlockState {
    pub device_id: u32,
    pub capacity_sectors: u64,
    pub logical_block_size: u64,
    pub features: u64,
    pub data_address: u64,
}

/// The ring message carrying control request `request` under `id`.
pub fn control_message(id: u64, request: MdriverControlRequest) -> (r: Result<SharedRingMessage, Error>)
    ensures
        r matches Ok(m) && m.kind == MDRIVER_CONTROL_REQUEST_KIND && m.flags == 0 && m.request_id == id
            && m.len == 48 && m.payload@ == control_request_bytes(request),
{
    let bytes = request.encode();
    match SharedRingMessage::new(MDRIVER_CONTROL_REQUEST_KIND, 0, id, &bytes) {
        Ok(m) => {
            assert(m.payload@ =~= m.payload@.subrange(0, 48));
            Ok(m)
        },
        Err(_) => Err(Error::Ring),
    }
}

/// The answer a popped ring entry gives to request `id` for `operation`:
/// an empty ring means the device did not answer in time, a damaged entry
/// is a ring error, and an entry that is not the matching, well-formed
/// control response of this protocol version is a protocol error.
pub open spec fn control_answer(popped: Result<SharedRingMessage, SharedRingError>, id: u64, operation: u16) -> Option<Error> {
    match popped {
        Err(SharedRingError::Empty) => Some(Error::Timeout),
        Err(_) => Some(Error::Ring),
        Ok(m) => if m.kind != MDRIVER_CONTROL_RESPONSE_KIND || m.flags != 0 || m.request_id != id {
            Some(Error::Protocol)
        } else if m.len > 48 {
            Some(Error::Ring)
        } else if m.len != 48 {
            Some(Error::Protocol)
        } else if field(m.payload@, 0, 2) != MDRIVER_CONTROL_VERSION || field(m.payload@, 2, 2) != operation
            || field(m.payload@, 12, 4) != 0 {
            Some(Error::Protocol)
        } else {
            None
        },
    }
}

/// Reads the answer to control request `id` for `operation` out of the
/// entry popped from the response ring.
pub fn read_control_response(
    popped: Result<SharedRingMessage, SharedRingError>,
    id: u64,
    operation: u16,
) -> (r: Result<MdriverControlResponse, Error>)
    ensures
        match control_answer(popped, id, operation) {
            Some(e) => r == Err::<MdriverControlResponse, Error>(e),
            None => r matches Ok(response) && control_response_decodes(popped->Ok_0.payload@, response),
        },
{
    let message = match popped {
        Ok(m) => m,
        Err(SharedRingError::Empty) => return Err(Error::Timeout),
        Err(_) => return Err(Error::Ring),
    };
    if message.kind != MDRIVER_CONTROL_RESPONSE_KIND || message.flags != 0 || message.request_id != id {
        return Err(Error::Protocol);
    }
    let data = match message.data() {
        Ok(d) => d,
        Err(_) => return Err(Error::Ring),
    };
    let response = match MdriverControlResponse::decode(data) {
        Some(r) => r,
        None => return Err(Error::Protocol),
    };
    assert(message.payload@.subrange(0, 48) =~= message.payload@);
    if response.version != MDRIVER_CONTROL_VERSION || response.operation != operation || response.reserved != 0 {
        return Err(Error::Protocol);
    }
    Ok(response)
}

/// Whether a device that offers `features` can be read.
pub fn block_readable(features: u64) -> (r: bool)
    ensures
        r == (features & MDRIVER_DEVICE_FEATURE_BLOCK_READ != 0),
{
    features & MDRIVER_DEVICE_FEATURE_BLOCK_READ != 0
}

/// The opened block device the answer `opened` describes: it must report a
/// nonzero capacity, a power-of-two block size from one sector to one
/// transfer, a transfer size of at least one block, and readability.
pub open spec fn opened_block(opened: MdriverControlResponse, device_id: u32, data_address: u64) -> Result<BlockState, Error> {
    let size = opened.values[1];
    if opened.status != MDRIVER_CONTROL_STATUS_OK || opened.values[0] == 0 || size < MDRIVER_BLOCK_SECTOR_SIZE
        || size > MDRIVER_BLOCK_MAX_TRANSFER || !is_pow2(size as nat) || opened.values[2] < size
        || opened.values[3] & MDRIVER_DEVICE_FEATURE_BLOCK_READ == 0 {
        Err(Error::Device)
    } else {
        Ok(BlockState {
            device_id,
            capacity_sectors: opened.values[0],
            logical_block_size: size,
            features: opened.values[3],
            data_address,
        })
    }
}

pub fn check_opened_block(opened: &MdriverControlResponse, device_id: u32, data_address: u64) -> (r: Result<BlockState, Error>)
    ensures
        r == opened_block(*opened, device_id, data_address),
{
    let size = opened.values[1];
    if opened.status != MDRIVER_CONTROL_STATUS_OK || opened.values[0] == 0 || size < MDRIVER_BLOCK_SECTOR_SIZE
        || size > MDRIVER_BLOCK_MAX_TRANSFER || !power_of_two(size as usize) || opened.values[2] < size
        || opened.values[3] & MDRIVER_DEVICE_FEATURE_BLOCK_READ == 0 {
        return Err(Error::Device);
    }
    Ok(BlockState {
        device_id,
        capacity_sectors: opened.values[0],
        logical_block_size: size,
        features: opened.values[3],
        data_address,
    })
}

/// Checks the arguments of a sector read or write on disk `disk_id` of
/// `length` bytes: only disk zero, a buffer, and a whole nonzero number of
/// sectors.
pub fn check_disk_transfer(disk_id: u32, has_buffer: bool, length: usize) -> (r: Result<(), i32>)
    ensures
        r is Err <==> (disk_id != 0 || !has_buffer || length == 0 || length % 512 != 0),
        r is Err ==> r == Err::<(), i32>(EINVAL),
{
    if disk_id != 0 || !has_buffer || length == 0 || length % 512 != 0 {
        return Err(EINVAL);
    }
    Ok(())
}

/// Whether the opened device accepts writes.
pub fn block_writable(block: &BlockState) -> (r: bool)
    ensures
        r == (block.features & MDRIVER_DEVICE_FEATURE_BLOCK_WRITE != 0),
{
    block.features & MDRIVER_DEVICE_FEATURE_BLOCK_WRITE != 0
}

/// Whether the opened device needs to be asked to flush.
pub fn block_flushes(block: &BlockState) -> (r: bool)
    ensures
        r == (block.features & MDRIVER_DEVICE_FEATURE_BLOCK_FLUSH != 0),
{
    block.features & MDRIVER_DEVICE_FEATURE_BLOCK_FLUSH != 0
}

/// Status of a flush: done when the device acknowledged it.
pub fn flush_status(answer: Result<MdriverControlResponse, Error>) -> (r: i32)
    ensures
        r == (if (answer matches Ok(response) && response.status == MDRIVER_CONTROL_STATUS_OK) { 0i32 } else { EIO }),
{
    match answer {
        Ok(response) => if response.status == MDRIVER_CONTROL_STATUS_OK { 0 } else { EIO },
        Err(_) => EIO,
    }
}

/// The request that moves `length` bytes of block `lba` of `block` through
/// the shared page; longer than one transfer is refused.
pub fn control_io_request(block: &BlockState, operation: u16, lba: u64, length: usize) -> (r: Result<MdriverControlRequest, i32>)
    ensures
        length > MDRIVER_BLOCK_MAX_TRANSFER ==> r == Err::<MdriverControlRequest, i32>(EINVAL),
        length <= MDRIVER_BLOCK_MAX_TRANSFER ==> (r matches Ok(request) && request.version == MDRIVER_CONTROL_VERSION
            && request.operation == operation && request.flags == 0 && request.device_id == block.device_id
            && request.reserved == 0 && request.arguments@ == seq![lba, length as u64, 0u64, 0u64]),
{
    if length as u64 > MDRIVER_BLOCK_MAX_TRANSFER {
        return Err(EINVAL);
    }
    let request = MdriverControlRequest::new(operation, block.device_id, [lba, length as u64, 0, 0]);
    Ok(request)
}

/// Status of a block transfer of `length` bytes: done when the device
/// acknowledged exactly that many bytes.
pub fn control_io_status(answer: Result<MdriverControlResponse, Error>, length: usize) -> (r: i32)
    ensures
        r == (if (answer matches Ok(response) && response.status == MDRIVER_CONTROL_STATUS_OK
            && response.values[0] == length as u64) { 0i32 } else { EIO }),
{
    match answer {
        Ok(response) => if response.status == MDRIVER_CONTROL_STATUS_OK && response.values[0] == length as u64 {
            0
        } else {
            EIO
        },
        Err(_) => EIO,
    }
}

/// The byte range of a transfer of `length` bytes from sector `lba`, once
/// it is known to lie on the device.
pub open spec fn transfer_range(block: BlockState, lba: u64, length: usize) -> Result<(u64, u64), i32> {
    let sectors = length / 512;
    if lba + sectors > u64::MAX {
        Err(EINVAL)
    } else if lba + sectors > block.capacity_sectors {
        Err(EIO)
    } else if lba * 512 > u64::MAX || lba * 512 + length > u64::MAX {
        Err(EINVAL)
    } else {
        Ok(((lba * 512) as u64, (lba * 512 + length) as u64))
    }
}

/// A transfer that lies on the device is accepted, as the byte range of its
/// sectors: when its sectors end at or before the device's last one, and its
/// bytes fit the 64-bit byte offsets, the range runs from `lba * 512` for
/// `length` bytes. Sectors past the end are an I/O error.
pub proof fn lemma_transfer_on_device(block: BlockState, lba: u64, length: usize)
    ensures
        lba + length / 512 <= block.capacity_sectors && lba * 512 + length <= u64::MAX
            ==> transfer_range(block, lba, length) == Ok::<(u64, u64), i32>(((lba * 512) as u64, (lba * 512 + length) as u64)),
        block.capacity_sectors < lba + length / 512 <= u64::MAX ==> transfer_range(block, lba, length) == Err::<(u64, u64), i32>(EIO),
        transfer_range(block, lba, length) matches Ok((first, end)) ==> first == lba * 512 && end - first == length
            && lba + length / 512 <= block.capacity_sectors,
{
}

pub fn transfer_bounds(block: &BlockState, lba: u64, length: usize) -> (r: Result<(u64, u64), i32>)
    ensures
        r == transfer_range(*block, lba, length),
{
    let request_end = match lba.checked_add((length / 512) as u64) {
        Some(end) => end,
        None => return Err(EINVAL),
    };
    if request_end > block.capacity_sectors {
        return Err(EIO);
    }
    let start_byte = match lba.checked_mul(512) {
        Some(value) => value,
        None => return Err(EINVAL),
    };
    let end_byte = match start_byte.checked_add(length as u64) {
        Some(value) => value,
        None => return Err(EINVAL),
    };
    Ok((start_byte, end_byte))
}

/// One block of a transfer: the device block starting at byte
/// `block_byte`, and the part of it the caller's bytes cover.
#[derive(Clone, Copy, Debug, PartialEq, Eq, Structural)]
pub struct TransferStep {
    /// First sector of the block.
    pub lba: u64,
    /// Where the caller's bytes start inside the shared page.
    pub shared_offset: usize,
    /// Where they start inside the caller's buffer.
    pub caller_offset: usize,
    pub copy_length: usize,
    /// Whether the block is read from the device first: always for a read,
    /// and for a write that covers only part of the block.
    pub read_first: bool,
}

/// First byte of the device block holding `start_byte`.
pub fn first_block_byte(start_byte: u64, block_size: u64) -> (r: u64)
    requires
        block_size > 0,
    ensures
        r == start_byte - start_byte % block_size,
        r <= start_byte < r + block_size,
{
    let rem = start_byte % block_size;
    assert(rem <= start_byte && rem < block_size) by (nonlinear_arith)
        requires
            rem == start_byte % block_size,
            block_size > 0,
    ;
    start_byte - rem
}

/// The part of the device block at `block_byte` that the transfer of bytes
/// `start_byte..end_byte` covers.
pub fn transfer_step(block: &BlockState, start_byte: u64, end_byte: u64, block_byte: u64, write: bool) -> (step: TransferStep)
    requires
        block.logical_block_size > 0,
        block.logical_block_size <= MDRIVER_BLOCK_MAX_TRANSFER,
        start_byte < block_byte + block.logical_block_size,
        block_byte < end_byte,
        start_byte <= end_byte,
        end_byte - start_byte <= usize::MAX,
        block_byte + block.logical_block_size <= u64::MAX,
    ensures
        ({
            let copy_start = if start_byte > block_byte { start_byte } else { block_byte };
            let copy_end = if end_byte < block_byte + block.logical_block_size { end_byte } else { (block_byte + block.logical_block_size) as u64 };
            &&& step.lba == block_byte / 512
            &&& step.shared_offset == copy_start - block_byte
            &&& step.caller_offset == copy_start - start_byte
            &&& step.copy_length == copy_end - copy_start
            &&& step.read_first == (!write || !(copy_start == block_byte && copy_end - copy_start == block.logical_block_size))
        }),
        step.shared_offset + step.copy_length <= block.logical_block_size,
        step.caller_offset + step.copy_length <= end_byte - start_byte,
{
    let size = block.logical_block_size;
    let copy_start = if start_byte > block_byte { start_byte } else { block_byte };
    let copy_end = if end_byte < block_byte + size { end_byte } else { block_byte + size };
    let copy_length = (copy_end - copy_start) as usize;
    let shared_offset = (copy_start - block_byte) as usize;
    let caller_offset = (copy_start - start_byte) as usize;
    let whole_block = shared_offset == 0 && copy_length as u64 == size;
    TransferStep { lba: block_byte / 512, shared_offset, caller_offset, copy_length, read_first: !write || !whole_block }
}

/// Consecutive blocks of a transfer hand over the caller's bytes without
/// gap or overlap: the next block's part starts where this one's ends.
pub proof fn lemma_transfer_steps_adjoin(start_byte: int, end_byte: int, block_byte: int, size: int)
    requires
        size > 0,
        start_byte < block_byte + size,
        block_byte + size < end_byte,
    ensures
        ({
            let copy_start = if start_byte > block_byte { start_byte } else { block_byte };
            let copy_end = if end_byte < block_byte + size { end_byte } else { block_byte + size };
            let next = block_byte + size;
            let next_start = if start_byte > next { start_byte } else { next };
            next_start - start_byte == (copy_start - start_byte) + (copy_end - copy_start)
        }),
{
}

/// Cookie the startup ping carries and expects back.
pub const PING_COOKIE: u64 = 0x6d6f_6368_694f_5321;
/// Block devices remembered from the inventory.
pub const MAX_BLOCK_CANDIDATES: usize = 16;

/// A device of the inventory that may hold the installed system.
#[derive(Clone, Copy, Debug, PartialEq, Eq, Structural)]
pub struct BlockCandidate {
    pub device_id: u32,
    pub features: u64,
}

/// Where the startup handshake with mDriver stands.
#[derive(Clone, Copy, Debug, PartialEq, Eq, Structural)]
pub enum HandshakeStage {
    Negotiate,
    Enumerate,
    EnumerateEnd,
    Ping,
    StartSession,
    Done,
}

/// The startup handshake: version negotiation, the device inventory, its
/// end marker, a ping and the start of the session, one request at a time.
pub struct ControlHandshake {
    stage: HandshakeStage,
    device_count: u32,
    enumerated: u32,
    cursor: u64,
    block_candidates: Vec<BlockCandidate>,
    display_candidate: Option<(u32, u64)>,
}

/// The request a handshake at `stage` sends next, with the inventory at
/// `cursor`; none once it is done.
pub open spec fn handshake_request(stage: HandshakeStage, cursor: u64) -> Option<(u16, [u64; 4])> {
    match stage {
        HandshakeStage::Negotiate => Some((
            MDRIVER_CONTROL_NEGOTIATE,
            [MDRIVER_CONTROL_VERSION as u64, MDRIVER_CONTROL_VERSION as u64, 0u64, 0u64],
        )),
        HandshakeStage::Enumerate => Some((MDRIVER_CONTROL_ENUMERATE, [cursor, 0u64, 0u64, 0u64])),
        HandshakeStage::EnumerateEnd => Some((MDRIVER_CONTROL_ENUMERATE, [cursor, 0u64, 0u64, 0u64])),
        HandshakeStage::Ping => Some((MDRIVER_CONTROL_PING, [PING_COOKIE, 0u64, 0u64, 0u64])),
        HandshakeStage::StartSession => Some((MDRIVER_CONTROL_START_SESSION, [0u64, 0u64, 0u64, 0u64])),
        HandshakeStage::Done => None,
    }
}

/// Whether the answer to version negotiation is acceptable: this version,
/// every required capability, a device count that fits, and this ring
/// generation.
pub open spec fn negotiation_ok(r: MdriverControlResponse) -> bool {
    &&& r.status == MDRIVER_CONTROL_STATUS_OK
    &&& r.values[0] == MDRIVER_CONTROL_VERSION as u64
    &&& r.values[1] & MDRIVER_CONTROL_CAPABILITIES == MDRIVER_CONTROL_CAPABILITIES
    &&& r.values[2] <= u32::MAX
    &&& r.values[3] == MDRIVER_CONTROL_RING_GENERATION
}

/// Whether an inventory entry read at `cursor` is acceptable: a device, and
/// the next cursor.
pub open spec fn inventory_entry_ok(r: MdriverControlResponse, cursor: u64) -> bool {
    r.status == MDRIVER_CONTROL_STATUS_OK && r.device_id != 0 && r.values[0] == cursor + 1
}

/// The block devices remembered after entry `r`, at most sixteen.
pub open spec fn with_block_candidate(candidates: Seq<BlockCandidate>, r: MdriverControlResponse) -> Seq<BlockCandidate> {
    if r.values[1] == MDRIVER_DEVICE_KIND_BLOCK && candidates.len() < MAX_BLOCK_CANDIDATES {
        candidates.push(BlockCandidate { device_id: r.device_id, features: r.values[3] })
    } else {
        candidates
    }
}

/// The display remembered after entry `r`: the first one listed.
pub open spec fn with_display_candidate(display: Option<(u32, u64)>, r: MdriverControlResponse) -> Option<(u32, u64)> {
    if r.values[1] == MDRIVER_DEVICE_KIND_DISPLAY && display is None {
        Some((r.device_id, r.values[3]))
    } else {
        display
    }
}

impl ControlHandshake {
    pub closed spec fn stage(&self) -> HandshakeStage {
        self.stage
    }

    pub closed spec fn listed(&self) -> u32 {
        self.device_count
    }

    pub closed spec fn enumerated(&self) -> u32 {
        self.enumerated
    }

    pub closed spec fn cursor(&self) -> u64 {
        self.cursor
    }

    pub closed spec fn candidates(&self) -> Seq<BlockCandidate> {
        self.block_candidates@
    }

    pub closed spec fn display(&self) -> Option<(u32, u64)> {
        self.display_candidate
    }

    pub closed spec fn wf(&self) -> bool {
        &&& self.enumerated <= self.device_count
        &&& self.block_candidates@.len() <= MAX_BLOCK_CANDIDATES
        &&& (self.stage == HandshakeStage::Enumerate ==> self.enumerated < self.device_count)
    }

    pub fn new() -> (h: Self)
        ensures
            h.wf(),
            h.stage() == HandshakeStage::Negotiate,
            h.listed() == 0 && h.enumerated() == 0 && h.cursor() == 0,
            h.candidates() == Seq::<BlockCandidate>::empty(),
            h.display() is None,
    {
        ControlHandshake {
            stage: HandshakeStage::Negotiate,
            device_count: 0,
            enumerated: 0,
            cursor: 0,
            block_candidates: Vec::new(),
            display_candidate: None,
        }
    }

    /// The next request to send, if the handshake is not done.
    pub fn request(&self) -> (r: Option<MdriverControlRequest>)
        ensures
            match handshake_request(self.stage(), self.cursor()) {
                None => r is None,
                Some((operation, arguments)) => r == Some(MdriverControlRequest {
                    version: MDRIVER_CONTROL_VERSION,
                    operation,
                    flags: 0,
                    device_id: 0,
                    reserved: 0,
                    arguments,
                }),
            },
    {
        match self.stage {
            HandshakeStage::Negotiate => Some(MdriverControlRequest::new(
                MDRIVER_CONTROL_NEGOTIATE,
                0,
                [MDRIVER_CONTROL_VERSION as u64, MDRIVER_CONTROL_VERSION as u64, 0, 0],
            )),
            HandshakeStage::Enumerate => Some(MdriverControlRequest::new(MDRIVER_CONTROL_ENUMERATE, 0, [self.cursor, 0, 0, 0])),
            HandshakeStage::EnumerateEnd => Some(MdriverControlRequest::new(MDRIVER_CONTROL_ENUMERATE, 0, [self.cursor, 0, 0, 0])),
            HandshakeStage::Ping => Some(MdriverControlRequest::new(MDRIVER_CONTROL_PING, 0, [PING_COOKIE, 0, 0, 0])),
            HandshakeStage::StartSession => Some(MdriverControlRequest::new(MDRIVER_CONTROL_START_SESSION, 0, [0, 0, 0, 0])),
            HandshakeStage::Done => None,
        }
    }

    /// Takes the answer to the request last sent. An answer that does not
    /// fit the stage is a protocol error, and the handshake stays where it
    /// was; an answer while done is refused.
    pub fn accept(&mut self, response: &MdriverControlResponse) -> (r: Result<(), Error>)
        requires
            old(self).wf(),
        ensures
            final(self).wf(),
            r is Err ==> final(self).stage() == old(self).stage() && final(self).cursor() == old(self).cursor()
                && final(self).enumerated() == old(self).enumerated() && final(self).listed() == old(self).listed()
                && final(self).candidates() == old(self).candidates() && final(self).display() == old(self).display(),
            r is Err ==> r == Err::<(), Error>(Error::Protocol),
            match old(self).stage() {
                HandshakeStage::Negotiate => (r is Ok <==> negotiation_ok(*response)) && (r is Ok ==> {
                    &&& final(self).listed() == response.values[2]
                    &&& final(self).enumerated() == 0
                    &&& final(self).cursor() == 0
                    &&& final(self).stage() == if response.values[2] == 0 {
                        HandshakeStage::EnumerateEnd
                    } else {
                        HandshakeStage::Enumerate
                    }
                    &&& final(self).candidates() == old(self).candidates()
                    &&& final(self).display() == old(self).display()
                }),
                HandshakeStage::Enumerate => (r is Ok <==> inventory_entry_ok(*response, old(self).cursor())) && (r is Ok ==> {
                    &&& final(self).listed() == old(self).listed()
                    &&& final(self).enumerated() == old(self).enumerated() + 1
                    &&& final(self).cursor() == response.values[0]
                    &&& final(self).candidates() == with_block_candidate(old(self).candidates(), *response)
                    &&& final(self).display() == with_display_candidate(old(self).display(), *response)
                    &&& final(self).stage() == if old(self).enumerated() + 1 == old(self).listed() {
                        HandshakeStage::EnumerateEnd
                    } else {
                        HandshakeStage::Enumerate
                    }
                }),
                HandshakeStage::EnumerateEnd => (r is Ok <==> response.status == MDRIVER_CONTROL_STATUS_END)
                    && (r is Ok ==> final(self).stage() == HandshakeStage::Ping),
                HandshakeStage::Ping => (r is Ok <==> (response.status == MDRIVER_CONTROL_STATUS_OK && response.values[0] == PING_COOKIE))
                    && (r is Ok ==> final(self).stage() == HandshakeStage::StartSession),
                HandshakeStage::StartSession => (r is Ok <==> (response.status == MDRIVER_CONTROL_STATUS_OK
                    && response.values[0] == MDRIVER_CONTROL_RING_GENERATION))
                    && (r is Ok ==> final(self).stage() == HandshakeStage::Done),
                HandshakeStage::Done => r is Err,
            },
            old(self).stage() != HandshakeStage::Negotiate && old(self).stage() != HandshakeStage::Enumerate ==>
                final(self).listed() == old(self).listed() && final(self).enumerated() == old(self).enumerated()
                && final(self).cursor() == old(self).cursor() && final(self).candidates() == old(self).candidates()
                && final(self).display() == old(self).display(),
    {
        match self.stage {
            HandshakeStage::Negotiate => {
                if response.status != MDRIVER_CONTROL_STATUS_OK || response.values[0] != MDRIVER_CONTROL_VERSION as u64
                    || response.values[1] & MDRIVER_CONTROL_CAPABILITIES != MDRIVER_CONTROL_CAPABILITIES
                    || response.values[2] > 0xffff_ffff || response.values[3] != MDRIVER_CONTROL_RING_GENERATION {
                    return Err(Error::Protocol);
                }
                self.device_count = response.values[2] as u32;
                self.enumerated = 0;
                self.cursor = 0;
                self.stage = if response.values[2] == 0 { HandshakeStage::EnumerateEnd } else { HandshakeStage::Enumerate };
                Ok(())
            },
            HandshakeStage::Enumerate => {
                if response.status != MDRIVER_CONTROL_STATUS_OK || response.device_id == 0 || self.cursor == u64::MAX
                    || response.values[0] != self.cursor + 1 {
                    return Err(Error::Protocol);
                }
                if response.values[1] == MDRIVER_DEVICE_KIND_BLOCK && self.block_candidates.len() < MAX_BLOCK_CANDIDATES {
                    self.block_candidates.push(BlockCandidate { device_id: response.device_id, features: response.values[3] });
                }
                if response.values[1] == MDRIVER_DEVICE_KIND_DISPLAY && self.display_candidate.is_none() {
                    self.display_candidate = Some((response.device_id, response.values[3]));
                }
                self.cursor = response.values[0];
                self.enumerated = self.enumerated + 1;
                if self.enumerated == self.device_count {
                    self.stage = HandshakeStage::EnumerateEnd;
                }
                Ok(())
            },
            HandshakeStage::EnumerateEnd => {
                if response.status != MDRIVER_CONTROL_STATUS_END {
                    return Err(Error::Protocol);
                }
                self.stage = HandshakeStage::Ping;
                Ok(())
            },
            HandshakeStage::Ping => {
                if response.status != MDRIVER_CONTROL_STATUS_OK || response.values[0] != PING_COOKIE {
                    return Err(Error::Protocol);
                }
                self.stage = HandshakeStage::StartSession;
                Ok(())
            },
            HandshakeStage::StartSession => {
                if response.status != MDRIVER_CONTROL_STATUS_OK || response.values[0] != MDRIVER_CONTROL_RING_GENERATION {
                    return Err(Error::Protocol);
                }
                self.stage = HandshakeStage::Done;
                Ok(())
            },
            HandshakeStage::Done => Err(Error::Protocol),
        }
    }

    /// Whether the handshake is done.
    pub fn is_done(&self) -> (r: bool)
        ensures
            r == (self.stage() == HandshakeStage::Done),
    {
        match self.stage {
            HandshakeStage::Done => true,
            _ => false,
        }
    }

    /// How many devices the inventory listed.
    pub fn device_count(&self) -> (r: u32)
        ensures
            r == self.listed(),
    {
        self.device_count
    }

    /// The block devices of the inventory, in order, at most sixteen.
    pub fn block_candidates(&self) -> (r: &[BlockCandidate])
        ensures
            r@ == self.candidates(),
    {
        self.block_candidates.as_slice()
    }

    /// The first display of the inventory and its features.
    pub fn display_candidate(&self) -> (r: Option<(u32, u64)>)
        ensures
            r == self.display(),
    {
        self.display_candidate
    }
}

/// Features every device of the system domain's inventory must show.
pub const REQUIRED_DEVICE_FEATURES: u64 = MDRIVER_DEVICE_FEATURE_DMA_ISOLATED | MDRIVER_DEVICE_FEATURE_INTERRUPT_ACTIVE
    | MDRIVER_DEVICE_FEATURE_PHYSICAL;
/// Most devices the system domain accepts in an inventory.
pub const MAX_CHECKED_DEVICES: u64 = 64;

/// Where the system domain's conformance check of the control protocol
/// stands.
#[derive(Clone, Copy, Debug, PartialEq, Eq, Structural)]
pub enum CheckStage {
    Negotiate,
    Enumerate,
    Describe,
    EnumerateEnd,
    Unsupported,
    Ping,
    StartSession,
    PersistentPing,
    Done,
}

/// The system domain's check of mDriver's control protocol: negotiation,
/// every inventory entry and its description, the end of the inventory, the
/// refusal of an unknown operation, a ping before and after the session
/// starts. Any answer out of line fails the check.
pub struct ProtocolCheck {
    stage: CheckStage,
    device_count: u64,
    enumerated: u64,
    cursor: u64,
    entry: MdriverControlResponse,
    block_device: Option<(u32, u64)>,
}

/// The request the check sends at `stage`, for the inventory at `cursor`
/// and the entry `entry` it is describing; none once it is done.
pub open spec fn check_request(stage: CheckStage, cursor: u64, entry: MdriverControlResponse) -> Option<(u16, u32, [u64; 4])> {
    match stage {
        CheckStage::Negotiate => Some((
            MDRIVER_CONTROL_NEGOTIATE,
            0u32,
            [MDRIVER_CONTROL_VERSION as u64, MDRIVER_CONTROL_VERSION as u64, 0u64, 0u64],
        )),
        CheckStage::Enumerate => Some((MDRIVER_CONTROL_ENUMERATE, 0u32, [cursor, 0u64, 0u64, 0u64])),
        CheckStage::Describe => Some((MDRIVER_CONTROL_DESCRIBE, entry.device_id, [0u64, 0u64, 0u64, 0u64])),
        CheckStage::EnumerateEnd => Some((MDRIVER_CONTROL_ENUMERATE, 0u32, [cursor, 0u64, 0u64, 0u64])),
        CheckStage::Unsupported => Some((0xffffu16, 0u32, [0u64, 0u64, 0u64, 0u64])),
        CheckStage::Ping => Some((MDRIVER_CONTROL_PING, 0u32, [PING_COOKIE, 0u64, 0u64, 0u64])),
        CheckStage::StartSession => Some((MDRIVER_CONTROL_START_SESSION, 0u32, [0u64, 0u64, 0u64, 0u64])),
        CheckStage::PersistentPing => Some((MDRIVER_CONTROL_PING, 0u32, [(PING_COOKIE + 1) as u64, 0u64, 0u64, 0u64])),
        CheckStage::Done => None,
    }
}

/// Whether an inventory entry read at `cursor` passes the domain's check:
/// a device at the next cursor, of a known kind, online, with isolated DMA,
/// active interrupts and physical hardware behind it.
pub open spec fn checked_entry_ok(r: MdriverControlResponse, cursor: u64) -> bool {
    &&& r.status == MDRIVER_CONTROL_STATUS_OK
    &&& r.device_id != 0
    &&& r.values[0] == cursor + 1
    &&& r.values[1] <= MDRIVER_DEVICE_KIND_SOUND
    &&& r.values[2] == MDRIVER_DEVICE_STATE_ONLINE
    &&& r.values[3] & REQUIRED_DEVICE_FEATURES == REQUIRED_DEVICE_FEATURES
}

/// Whether a description repeats what the inventory said of `entry`.
pub open spec fn description_ok(d: MdriverControlResponse, entry: MdriverControlResponse) -> bool {
    &&& d.status == MDRIVER_CONTROL_STATUS_OK
    &&& d.device_id == entry.device_id
    &&& d.values[0] == entry.values[1]
    &&& d.values[1] == entry.values[2]
    &&& d.values[2] == entry.values[3]
}

/// Whether answer `r` passes the check at `stage`.
pub open spec fn check_answer_ok(stage: CheckStage, cursor: u64, entry: MdriverControlResponse, r: MdriverControlResponse) -> bool {
    match stage {
        CheckStage::Negotiate => r.status == MDRIVER_CONTROL_STATUS_OK && r.values[0] == MDRIVER_CONTROL_VERSION as u64
            && r.values[1] & MDRIVER_CONTROL_CAPABILITIES == MDRIVER_CONTROL_CAPABILITIES
            && r.values[2] <= MAX_CHECKED_DEVICES && r.values[3] == MDRIVER_CONTROL_RING_GENERATION,
        CheckStage::Enumerate => checked_entry_ok(r, cursor),
        CheckStage::Describe => description_ok(r, entry),
        CheckStage::EnumerateEnd => r.status == MDRIVER_CONTROL_STATUS_END,
        CheckStage::Unsupported => r.status == MDRIVER_CONTROL_STATUS_UNSUPPORTED_OPERATION,
        CheckStage::Ping => r.status == MDRIVER_CONTROL_STATUS_OK && r.values[0] == PING_COOKIE,
        CheckStage::StartSession => r.status == MDRIVER_CONTROL_STATUS_OK && r.values[0] == MDRIVER_CONTROL_RING_GENERATION,
        CheckStage::PersistentPing => r.status == MDRIVER_CONTROL_STATUS_OK && r.values[0] == PING_COOKIE + 1,
        CheckStage::Done => false,
    }
}

/// The stage after an accepted answer at `stage`.
pub open spec fn check_next(stage: CheckStage, enumerated: u64, device_count: u64, r: MdriverControlResponse) -> CheckStage {
    match stage {
        CheckStage::Negotiate => if r.values[2] == 0 { CheckStage::EnumerateEnd } else { CheckStage::Enumerate },
        CheckStage::Enumerate => CheckStage::Describe,
        CheckStage::Describe => if enumerated + 1 == device_count { CheckStage::EnumerateEnd } else { CheckStage::Enumerate },
        CheckStage::EnumerateEnd => CheckStage::Unsupported,
        CheckStage::Unsupported => CheckStage::Ping,
        CheckStage::Ping => CheckStage::StartSession,
        CheckStage::StartSession => CheckStage::PersistentPing,
        CheckStage::PersistentPing => CheckStage::Done,
        CheckStage::Done => CheckStage::Done,
    }
}

impl ProtocolCheck {
    pub closed spec fn stage(&self) -> CheckStage {
        self.stage
    }

    pub closed spec fn cursor(&self) -> u64 {
        self.cursor
    }

    pub closed spec fn entry(&self) -> MdriverControlResponse {
        self.entry
    }

    pub closed spec fn enumerated(&self) -> u64 {
        self.enumerated
    }

    pub closed spec fn listed(&self) -> u64 {
        self.device_count
    }

    /// The first block device the inventory listed, with its features.
    pub closed spec fn block(&self) -> Option<(u32, u64)> {
        self.block_device
    }

    pub closed spec fn wf(&self) -> bool {
        &&& self.device_count <= MAX_CHECKED_DEVICES
        &&& self.enumerated < self.device_count || (self.stage != CheckStage::Enumerate && self.stage != CheckStage::Describe)
    }

    pub fn new() -> (c: Self)
        ensures
            c.wf(),
            c.stage() == CheckStage::Negotiate,
            c.block() is None,
    {
        ProtocolCheck {
            stage: CheckStage::Negotiate,
            device_count: 0,
            enumerated: 0,
            cursor: 0,
            entry: MdriverControlResponse::new(0, 0, 0, [0, 0, 0, 0]),
            block_device: None,
        }
    }

    /// The next request to send, if the check is not done.
    pub fn request(&self) -> (r: Option<MdriverControlRequest>)
        ensures
            match check_request(self.stage(), self.cursor(), self.entry()) {
                None => r is None,
                Some((operation, device_id, arguments)) => r == Some(MdriverControlRequest {
                    version: MDRIVER_CONTROL_VERSION,
                    operation,
                    flags: 0,
                    device_id,
                    reserved: 0,
                    arguments,
                }),
            },
    {
        match self.stage {
            CheckStage::Negotiate => Some(MdriverControlRequest::new(
                MDRIVER_CONTROL_NEGOTIATE,
                0,
                [MDRIVER_CONTROL_VERSION as u64, MDRIVER_CONTROL_VERSION as u64, 0, 0],
            )),
            CheckStage::Enumerate => Some(MdriverControlRequest::new(MDRIVER_CONTROL_ENUMERATE, 0, [self.cursor, 0, 0, 0])),
            CheckStage::Describe => Some(MdriverControlRequest::new(MDRIVER_CONTROL_DESCRIBE, self.entry.device_id, [0, 0, 0, 0])),
            CheckStage::EnumerateEnd => Some(MdriverControlRequest::new(MDRIVER_CONTROL_ENUMERATE, 0, [self.cursor, 0, 0, 0])),
            CheckStage::Unsupported => Some(MdriverControlRequest::new(0xffff, 0, [0, 0, 0, 0])),
            CheckStage::Ping => Some(MdriverControlRequest::new(MDRIVER_CONTROL_PING, 0, [PING_COOKIE, 0, 0, 0])),
            CheckStage::StartSession => Some(MdriverControlRequest::new(MDRIVER_CONTROL_START_SESSION, 0, [0, 0, 0, 0])),
            CheckStage::PersistentPing => Some(MdriverControlRequest::new(MDRIVER_CONTROL_PING, 0, [PING_COOKIE + 1, 0, 0, 0])),
            CheckStage::Done => None,
        }
    }

    /// Takes the answer to the request last sent: whether it passes. A
    /// failing answer leaves the check where it was.
    pub fn accept(&mut self, response: &MdriverControlResponse) -> (passed: bool)
        requires
            old(self).wf(),
        ensures
            final(self).wf(),
            passed == check_answer_ok(old(self).stage(), old(self).cursor(), old(self).entry(), *response),
            !passed ==> final(self).stage() == old(self).stage() && final(self).cursor() == old(self).cursor()
                && final(self).entry() == old(self).entry() && final(self).block() == old(self).block()
                && final(self).enumerated() == old(self).enumerated() && final(self).listed() == old(self).listed(),
            passed ==> final(self).stage() == check_next(old(self).stage(), old(self).enumerated(), old(self).listed(), *response),
            passed && old(self).stage() == CheckStage::Enumerate ==> final(self).entry() == *response
                && final(self).cursor() == old(self).cursor() && final(self).block() == old(self).block(),
            passed && old(self).stage() == CheckStage::Describe ==> final(self).cursor() == old(self).entry().values[0]
                && final(self).enumerated() == old(self).enumerated() + 1
                && final(self).block() == (if old(self).entry().values[1] == MDRIVER_DEVICE_KIND_BLOCK && old(self).block() is None {
                    Some((old(self).entry().device_id, old(self).entry().values[3]))
                } else {
                    old(self).block()
                }),
            passed && old(self).stage() != CheckStage::Enumerate && old(self).stage() != CheckStage::Describe
                && old(self).stage() != CheckStage::Negotiate ==> final(self).cursor() == old(self).cursor()
                && final(self).block() == old(self).block(),
    {
        match self.stage {
            CheckStage::Negotiate => {
                if response.status != MDRIVER_CONTROL_STATUS_OK || response.values[0] != MDRIVER_CONTROL_VERSION as u64
                    || response.values[1] & MDRIVER_CONTROL_CAPABILITIES != MDRIVER_CONTROL_CAPABILITIES
                    || response.values[2] > MAX_CHECKED_DEVICES || response.values[3] != MDRIVER_CONTROL_RING_GENERATION {
                    return false;
                }
                self.device_count = response.values[2];
                self.enumerated = 0;
                self.cursor = 0;
                self.stage = if response.values[2] == 0 { CheckStage::EnumerateEnd } else { CheckStage::Enumerate };
                true
            },
            CheckStage::Enumerate => {
                if response.status != MDRIVER_CONTROL_STATUS_OK || response.device_id == 0 || self.cursor == u64::MAX
                    || response.values[0] != self.cursor + 1 || response.values[1] > MDRIVER_DEVICE_KIND_SOUND
                    || response.values[2] != MDRIVER_DEVICE_STATE_ONLINE
                    || response.values[3] & REQUIRED_DEVICE_FEATURES != REQUIRED_DEVICE_FEATURES {
                    return false;
                }
                self.entry = *response;
                self.stage = CheckStage::Describe;
                true
            },
            CheckStage::Describe => {
                let entry = self.entry;
                if response.status != MDRIVER_CONTROL_STATUS_OK || response.device_id != entry.device_id
                    || response.values[0] != entry.values[1] || response.values[1] != entry.values[2]
                    || response.values[2] != entry.values[3] {
                    return false;
                }
                if entry.values[1] == MDRIVER_DEVICE_KIND_BLOCK && self.block_device.is_none() {
                    self.block_device = Some((entry.device_id, entry.values[3]));
                }
                self.cursor = entry.values[0];
                self.enumerated = self.enumerated + 1;
                self.stage = if self.enumerated == self.device_count { CheckStage::EnumerateEnd } else { CheckStage::Enumerate };
                true
            },
            CheckStage::EnumerateEnd => {
                if response.status != MDRIVER_CONTROL_STATUS_END {
                    return false;
                }
                self.stage = CheckStage::Unsupported;
                true
            },
            CheckStage::Unsupported => {
                if response.status != MDRIVER_CONTROL_STATUS_UNSUPPORTED_OPERATION {
                    return false;
                }
                self.stage = CheckStage::Ping;
                true
            },
            CheckStage::Ping => {
                if response.status != MDRIVER_CONTROL_STATUS_OK || response.values[0] != PING_COOKIE {
                    return false;
                }
                self.stage = CheckStage::StartSession;
                true
            },
            CheckStage::StartSession => {
                if response.status != MDRIVER_CONTROL_STATUS_OK || response.values[0] != MDRIVER_CONTROL_RING_GENERATION {
                    return false;
                }
                self.stage = CheckStage::PersistentPing;
                true
            },
            CheckStage::PersistentPing => {
                if response.status != MDRIVER_CONTROL_STATUS_OK || response.values[0] != PING_COOKIE + 1 {
                    return false;
                }
                self.stage = CheckStage::Done;
                true
            },
            CheckStage::Done => false,
        }
    }

    /// The first block device of the inventory, once the check is done.
    pub fn block_device(&self) -> (r: Option<(u32, u64)>)
        ensures
            r == self.block(),
    {
        self.block_device
    }

    pub fn is_done(&self) -> (r: bool)
        ensures
            r == (self.stage() == CheckStage::Done),
    {
        match self.stage {
            CheckStage::Done => true,
            _ => false,
        }
    }
}

/// Geometry and channel layout of the display mDriver shares.
#[derive(Clone, Copy, Debug, PartialEq, Eq, Structural)]
pub struct DisplayInfo {
    pub width: u32,
    pub height: u32,
    /// Pixels from the start of one line to the next.
    pub stride: u32,
    pub red_offset: u8,
    pub green_offset: u8,
    pub blue_offset: u8,
}

/// What opening the display and asking for its geometry yields: the open
/// must report `max_transfer` and `pixel_bytes`-byte pixels; the geometry
/// must fit 32 bits, be nonempty, have lines of whole pixels that hold the
/// width, and a format of `pixel_bytes * 8` bits with red at bit 16, green at
/// bit 8 and blue at bit 0.
pub open spec fn display_from(
    opened: MdriverControlResponse,
    info: MdriverControlResponse,
    max_transfer: u64,
    pixel_bytes: u64,
) -> Result<DisplayInfo, Error> {
    let width = info.values[0];
    let height = info.values[1];
    let line = info.values[2];
    let format = info.values[3];
    let needed = if width * pixel_bytes > u32::MAX { u32::MAX as int } else { width * pixel_bytes };
    if opened.status != MDRIVER_CONTROL_STATUS_OK || opened.values[0] != max_transfer || opened.values[1] != pixel_bytes {
        Err(Error::Device)
    } else if width > u32::MAX || height > u32::MAX || line > u32::MAX {
        Err(Error::Protocol)
    } else if info.status != MDRIVER_CONTROL_STATUS_OK || width == 0 || height == 0 || line < needed
        || line % pixel_bytes != 0 || format % 256 != pixel_bytes * 8 || format / 0x100 % 256 != 16
        || format / 0x1_0000 % 256 != 8 || format / 0x100_0000 % 256 != 0 {
        Err(Error::Protocol)
    } else {
        Ok(DisplayInfo {
            width: width as u32,
            height: height as u32,
            stride: (line / pixel_bytes) as u32,
            red_offset: 16,
            green_offset: 8,
            blue_offset: 0,
        })
    }
}

/// Checks the answers to opening the display (`opened`) and to asking its
/// geometry (`info`), for a display of `pixel_bytes`-byte pixels and
/// transfers of `max_transfer` bytes, and gives the display's geometry.
pub fn check_display(
    opened: &MdriverControlResponse,
    info: &MdriverControlResponse,
    max_transfer: u64,
    pixel_bytes: u64,
) -> (r: Result<DisplayInfo, Error>)
    requires
        0 < pixel_bytes < 32,
    ensures
        r == display_from(*opened, *info, max_transfer, pixel_bytes),
{
    if opened.status != MDRIVER_CONTROL_STATUS_OK || opened.values[0] != max_transfer || opened.values[1] != pixel_bytes {
        return Err(Error::Device);
    }
    let format = info.values[3];
    let width = info.values[0];
    let height = info.values[1];
    let line = info.values[2];
    if width > 0xffff_ffff || height > 0xffff_ffff || line > 0xffff_ffff {
        return Err(Error::Protocol);
    }
    proof {
        assert(width * pixel_bytes <= 0xffff_ffff * 32) by (nonlinear_arith)
            requires width <= 0xffff_ffff, pixel_bytes < 32;
    }
    let product = width * pixel_bytes;
    let needed = if product > 0xffff_ffff { 0xffff_ffff } else { product };
    if info.status != MDRIVER_CONTROL_STATUS_OK || width == 0 || height == 0 || line < needed
        || line % pixel_bytes != 0 || format % 256 != pixel_bytes * 8 || format / 0x100 % 256 != 16
        || format / 0x1_0000 % 256 != 8 || format / 0x100_0000 % 256 != 0 {
        return Err(Error::Protocol);
    }
    Ok(DisplayInfo {
        width: width as u32,
        height: height as u32,
        stride: (line / pixel_bytes) as u32,
        red_offset: 16,
        green_offset: 8,
        blue_offset: 0,
    })
}

/// Partition entries asked of each block device.
pub const MAX_PARTITION_ORDINALS: u64 = 128;

/// The search for the installed system's partition: it asks each block
/// candidate in turn for its partition entries, from ordinal 0 on, until the
/// device reports the end, refuses, or has been asked for every ordinal.
/// Entries of type `partition_type` are found; a second one makes the choice
/// ambiguous and ends the search with nothing chosen.
pub struct PartitionSearch {
    candidates: Vec<BlockCandidate>,
    partition_type: [u64; 2],
    index: usize,
    ordinal: u64,
    selected: Option<(BlockCandidate, [u64; 2])>,
    ambiguous: bool,
}

impl PartitionSearch {
    pub closed spec fn candidates(&self) -> Seq<BlockCandidate> {
        self.candidates@
    }

    pub closed spec fn partition_type(&self) -> [u64; 2] {
        self.partition_type
    }

    /// The candidate being asked.
    pub closed spec fn index(&self) -> int {
        self.index as int
    }

    /// The entry it is asked for.
    pub closed spec fn ordinal(&self) -> u64 {
        self.ordinal
    }

    /// The partition found so far, with the unique GUID it reported.
    pub closed spec fn selected(&self) -> Option<(BlockCandidate, [u64; 2])> {
        self.selected
    }

    /// Whether a second partition of the type turned up.
    pub closed spec fn ambiguous(&self) -> bool {
        self.ambiguous
    }

    pub open spec fn done(&self) -> bool {
        self.ambiguous() || self.index() >= self.candidates().len()
    }

    pub closed spec fn wf(&self) -> bool {
        self.index <= self.candidates@.len() && self.ordinal < MAX_PARTITION_ORDINALS
    }

    pub fn new(candidates: &[BlockCandidate], partition_type: [u64; 2]) -> (s: Self)
        ensures
            s.wf(),
            s.candidates() == candidates@,
            s.partition_type() == partition_type,
            s.index() == 0 && s.ordinal() == 0 && s.selected() is None && !s.ambiguous(),
    {
        let mut list: Vec<BlockCandidate> = Vec::new();
        let mut i: usize = 0;
        while i < candidates.len()
            invariant
                i <= candidates@.len(),
                list@ == candidates@.take(i as int),
            decreases candidates@.len() - i,
        {
            list.push(candidates[i]);
            i = i + 1;
            assert(list@ =~= candidates@.take(i as int));
        }
        assert(candidates@.take(candidates@.len() as int) =~= candidates@);
        PartitionSearch { candidates: list, partition_type, index: 0, ordinal: 0, selected: None, ambiguous: false }
    }

    /// The device to ask and the entry to ask for, while the search goes on.
    pub fn next_query(&self) -> (r: Option<(u32, u64)>)
        requires
            self.wf(),
        ensures
            self.done() ==> r is None,
            !self.done() ==> r == Some((self.candidates()[self.index()].device_id, self.ordinal())),
    {
        if self.ambiguous || self.index >= self.candidates.len() {
            None
        } else {
            Some((self.candidates[self.index].device_id, self.ordinal))
        }
    }

    /// Takes the answer to the last query: its status, whether it was the
    /// end of the device's entries, and its values (the entry's type, then
    /// its unique GUID).
    pub fn accept(&mut self, ok: bool, end: bool, values: [u64; 4])
        requires
            old(self).wf(),
            !old(self).done(),
        ensures
            final(self).wf(),
            final(self).candidates() == old(self).candidates(),
            final(self).partition_type() == old(self).partition_type(),
            ({
                let found = ok && !end && values[0] == old(self).partition_type()[0]
                    && values[1] == old(self).partition_type()[1];
                let next_device = end || !ok || old(self).ordinal() + 1 >= MAX_PARTITION_ORDINALS;
                if found && old(self).selected() is Some {
                    final(self).ambiguous() && final(self).selected() == old(self).selected()
                } else {
                    &&& final(self).ambiguous() == old(self).ambiguous()
                    &&& final(self).selected() == (if found {
                        Some((old(self).candidates()[old(self).index()], [values[2], values[3]]))
                    } else {
                        old(self).selected()
                    })
                    &&& next_device ==> final(self).index() == old(self).index() + 1 && final(self).ordinal() == 0
                    &&& !next_device ==> final(self).index() == old(self).index()
                        && final(self).ordinal() == old(self).ordinal() + 1
                }
            }),
    {
        let count = self.candidates.len();
        assert(self.index < count);
        let found = ok && !end && values[0] == self.partition_type[0] && values[1] == self.partition_type[1];
        if found {
            if self.selected.is_some() {
                self.ambiguous = true;
                return;
            }
            self.selected = Some((self.candidates[self.index], [values[2], values[3]]));
        }
        if end || !ok || self.ordinal + 1 >= MAX_PARTITION_ORDINALS {
            self.index = self.index + 1;
            self.ordinal = 0;
        } else {
            self.ordinal = self.ordinal + 1;
        }
    }

    pub fn is_done(&self) -> (r: bool)
        ensures
            r == self.done(),
    {
        self.ambiguous || self.index >= self.candidates.len()
    }

    /// The partition chosen: the only one of the type, if there was exactly
    /// one.
    pub fn chosen(&self) -> (r: Option<(BlockCandidate, [u64; 2])>)
        ensures
            r == (if self.ambiguous() { None } else { self.selected() }),
    {
        if self.ambiguous { None } else { self.selected }
    }
}

/// What the client found at start.
#[derive(Clone, Copy, Debug, PartialEq, Eq, Structural)]
pub struct Summary {
    pub device_count: u32,
    pub block_device: bool,
    pub block_read_only: bool,
    pub display_device: bool,
}

/// Whether every candidate has the feature bit `read_only`.
pub open spec fn all_read_only(candidates: Seq<BlockCandidate>, read_only: u64) -> bool {
    forall|i: int| 0 <= i < candidates.len() ==> #[trigger] candidates[i].features & read_only != 0
}

/// The summary of the start: the device count; whether the installed
/// system's block device was opened and is read-only (`opened` gives its
/// features), else whether every block candidate is read-only, if there are
/// any; and whether the display can show tiles (feature bit `display_tile`).
pub open spec fn summary_of(
    device_count: u32,
    candidates: Seq<BlockCandidate>,
    opened: Option<u64>,
    display: Option<(u32, u64)>,
    read_only: u64,
    display_tile: u64,
) -> Summary {
    Summary {
        device_count,
        block_device: opened is Some,
        block_read_only: match opened {
            Some(features) => features & read_only != 0,
            None => candidates.len() != 0 && all_read_only(candidates, read_only),
        },
        display_device: match display {
            Some((_, features)) => features & display_tile != 0,
            None => false,
        },
    }
}

pub fn summarize(
    device_count: u32,
    candidates: &[BlockCandidate],
    opened: Option<u64>,
    display: Option<(u32, u64)>,
    read_only: u64,
    display_tile: u64,
) -> (s: Summary)
    ensures
        s == summary_of(device_count, candidates@, opened, display, read_only, display_tile),
{
    let mut all = true;
    let mut i: usize = 0;
    while i < candidates.len()
        invariant
            i <= candidates@.len(),
            all == (forall|j: int| 0 <= j < i ==> #[trigger] candidates@[j].features & read_only != 0),
        decreases candidates@.len() - i,
    {
        if candidates[i].features & read_only == 0 {
            all = false;
        }
        i = i + 1;
    }
    let block_read_only = match opened {
        Some(features) => features & read_only != 0,
        None => candidates.len() != 0 && all,
    };
    let display_device = match display {
        Some((_, features)) => features & display_tile != 0,
        None => false,
    };
    Summary { device_count, block_device: opened.is_some(), block_read_only, display_device }
}

} // verus!

//! The system domain's checks of mDriver's block service: the synchronous
//! data path over the control ring and the asynchronous queue on its own
//! ring. Each check is a state machine: it names the next request, and takes
//! the answer that came back.

use vstd::prelude::*;
use crate::abi::mdriver_block::{
    MdriverBlockRequest, MdriverBlockResponse, MDRIVER_BLOCK_FLUSH, MDRIVER_BLOCK_READ, MDRIVER_BLOCK_WRITE, MDRIVER_BLOCK_STATUS_OK,
    MDRIVER_BLOCK_STATUS_OUT_OF_RANGE, MDRIVER_BLOCK_VERSION,
};
use crate::abi::hypervisor::{HYPERCALL_INVALID_ARGUMENT, HYPERCALL_UNSUPPORTED, GRANT_REF_INVALID, MDRIVER_BLOCK_DATA_PAGE};
use crate::abi::mdriver_control::{
    MdriverControlRequest, MdriverControlResponse, MDRIVER_BLOCK_MAX_TRANSFER, MDRIVER_BLOCK_SECTOR_SIZE,
    MDRIVER_CONTROL_BLOCK_FLUSH, MDRIVER_CONTROL_BLOCK_READ, MDRIVER_CONTROL_BLOCK_WRITE, MDRIVER_CONTROL_CLOSE_DEVICE,
    MDRIVER_CONTROL_OPEN_DEVICE, MDRIVER_CONTROL_STATUS_OK, MDRIVER_CONTROL_STATUS_OUT_OF_RANGE,
    MDRIVER_CONTROL_VERSION, MDRIVER_DEVICE_FEATURE_BLOCK_FLUSH, MDRIVER_DEVICE_FEATURE_BLOCK_READ,
    MDRIVER_DEVICE_FEATURE_BLOCK_WRITE, MDRIVER_DEVICE_FEATURE_EPHEMERAL,
};
use crate::mem::heap::{is_pow2, power_of_two};

verus! {

/// Requests the asynchronous check keeps in flight at once.
pub const QUEUE_CHECK_REQUESTS: u64 = 4;

/// The byte at `index` of the pattern written to the test sector.
pub open spec fn test_byte(index: int) -> u8 {
    (((index % 256) * 37 + 0x5a) % 256) as u8
}

/// The byte at `index` of the pattern written to the test sector.
pub fn block_test_byte(index: usize) -> (b: u8)
    ensures
        b == test_byte(index as int),
{
    let low: u8 = (index % 256) as u8;
    let b = low.wrapping_mul(37).wrapping_add(0x5a);
    assert(b == ((((index % 256) as int) * 37 % 256) + 0x5a) % 256);
    assert(((((index % 256) as int) * 37 % 256) + 0x5a) % 256 == (((index % 256) as int) * 37 + 0x5a) % 256)
        by (nonlinear_arith);
    b
}

/// Why the asynchronous queue check refused a completion.
#[derive(Clone, Copy, Debug, PartialEq, Eq, Structural)]
pub enum QueueCheckError {
    /// The device is too small for the requests the check sends.
    TooSmall,
    /// The device's block size is not a power of two from a sector up to
    /// the largest transfer.
    BadBlockSize,
    /// A completion names a request that was never sent.
    UnknownId,
    /// A completion arrived twice for one request.
    Duplicate,
    /// A completion does not answer its request as expected.
    BadCompletion,
    /// The test sector read back other bytes than were written.
    DataMismatch,
}

/// The request in slot `slot` of the asynchronous check: four reads, of the
/// first block, the second, the sector just past the end and the third.
pub open spec fn queue_request(device_id: u32, capacity: u64, block_size: u64, slot: int) -> MdriverBlockRequest {
    let per_block = block_size / MDRIVER_BLOCK_SECTOR_SIZE;
    let sector: u64 = if slot == 0 {
        0
    } else if slot == 1 {
        per_block
    } else if slot == 2 {
        capacity
    } else {
        (per_block * 2) as u64
    };
    MdriverBlockRequest {
        version: MDRIVER_BLOCK_VERSION,
        operation: MDRIVER_BLOCK_READ,
        flags: 0,
        device_id,
        buffer_id: slot as u32,
        sector,
        length: block_size as u32,
        buffer_offset: 0,
        reserved: [0, 0],
    }
}

/// Whether a block size is one the checks accept: a power of two from a
/// sector up to the largest transfer.
pub open spec fn block_size_ok(block_size: u64) -> bool {
    MDRIVER_BLOCK_SECTOR_SIZE <= block_size <= MDRIVER_BLOCK_MAX_TRANSFER && is_pow2(block_size as nat)
}

/// Whether `response` completes `request` with `status` and `transferred`
/// bytes, in a well-formed record.
pub open spec fn completes(request: MdriverBlockRequest, response: MdriverBlockResponse, status: u32, transferred: u32) -> bool {
    &&& response.version == MDRIVER_BLOCK_VERSION
    &&& response.reserved0 == 0
    &&& response.reserved[0] == 0 && response.reserved[1] == 0
    &&& response.operation == request.operation
    &&& response.status == status
    &&& response.device_id == request.device_id
    &&& response.buffer_id == request.buffer_id
    &&& response.sector == request.sector
    &&& response.transferred == transferred
}

/// The slot that request id `id` has, for ids handed out from `first` on.
pub open spec fn slot_of(first: u64, id: u64) -> int {
    if id >= first { id - first } else { id - first + 0x1_0000_0000_0000_0000int }
}

/// The status expected in slot `slot`: the read past the end is refused.
pub open spec fn expected_status(slot: int) -> u32 {
    if slot == 2 { MDRIVER_BLOCK_STATUS_OUT_OF_RANGE } else { MDRIVER_BLOCK_STATUS_OK }
}

/// The bytes expected in slot `slot`: none for the refused read.
pub open spec fn expected_transfer(slot: int, block_size: u64) -> u32 {
    if slot == 2 { 0 } else { block_size as u32 }
}

/// Tracks the completions of the asynchronous check's four reads, sent
/// under consecutive ids from `first_id` on, which may arrive in any order.
pub struct AsyncQueueCheck {
    device_id: u32,
    capacity: u64,
    block_size: u64,
    first_id: u64,
    seen: Vec<bool>,
}

impl AsyncQueueCheck {
    pub closed spec fn device(&self) -> u32 {
        self.device_id
    }

    pub closed spec fn capacity(&self) -> u64 {
        self.capacity
    }

    pub closed spec fn block_size(&self) -> u64 {
        self.block_size
    }

    pub closed spec fn first(&self) -> u64 {
        self.first_id
    }

    /// Whether the request in `slot` has been answered.
    pub closed spec fn answered(&self, slot: int) -> bool {
        self.seen@[slot]
    }

    pub closed spec fn wf(&self) -> bool {
        &&& self.seen@.len() == QUEUE_CHECK_REQUESTS
        &&& MDRIVER_BLOCK_SECTOR_SIZE <= self.block_size <= MDRIVER_BLOCK_MAX_TRANSFER
    }

    /// The ids still waiting for their completion.
    pub open spec fn pending(&self) -> Set<u64> {
        Set::new(|id: u64| 0 <= slot_of(self.first(), id) < QUEUE_CHECK_REQUESTS && !self.answered(slot_of(self.first(), id)))
    }

    /// The check for a device of `capacity` sectors and `block_size`-byte
    /// blocks, whose requests go out under ids `first_id` and on. The block
    /// size must be a power of two from a sector up to the largest transfer,
    /// and a device with fewer than three blocks is too small.
    pub fn new(device_id: u32, capacity: u64, block_size: u64, first_id: u64) -> (r: Result<Self, QueueCheckError>)
        ensures
            !block_size_ok(block_size) ==> r == Err::<Self, QueueCheckError>(QueueCheckError::BadBlockSize),
            block_size_ok(block_size) && capacity < (block_size / MDRIVER_BLOCK_SECTOR_SIZE) * 3
                ==> r == Err::<Self, QueueCheckError>(QueueCheckError::TooSmall),
            block_size_ok(block_size) && capacity >= (block_size / MDRIVER_BLOCK_SECTOR_SIZE) * 3 ==> r is Ok,
            r matches Ok(c) ==> c.wf() && c.device() == device_id && c.capacity() == capacity
                && c.block_size() == block_size && c.first() == first_id
                && forall|slot: int| 0 <= slot < QUEUE_CHECK_REQUESTS ==> !c.answered(slot),
    {
        if block_size < MDRIVER_BLOCK_SECTOR_SIZE || block_size > MDRIVER_BLOCK_MAX_TRANSFER
            || !power_of_two(block_size as usize) {
            return Err(QueueCheckError::BadBlockSize);
        }
        let per_block = block_size / MDRIVER_BLOCK_SECTOR_SIZE;
        if capacity < per_block * 3 {
            return Err(QueueCheckError::TooSmall);
        }
        Ok(AsyncQueueCheck { device_id, capacity, block_size, first_id, seen: vec![false, false, false, false] })
    }

    /// The request in `slot`, to send under id `first + slot`.
    pub fn request(&self, slot: usize) -> (r: MdriverBlockRequest)
        requires
            self.wf(),
            slot < QUEUE_CHECK_REQUESTS,
        ensures
            r == queue_request(self.device(), self.capacity(), self.block_size(), slot as int),
    {
        let per_block = self.block_size / MDRIVER_BLOCK_SECTOR_SIZE;
        let sector = if slot == 0 {
            0
        } else if slot == 1 {
            per_block
        } else if slot == 2 {
            self.capacity
        } else {
            per_block * 2
        };
        MdriverBlockRequest {
            version: MDRIVER_BLOCK_VERSION,
            operation: MDRIVER_BLOCK_READ,
            flags: 0,
            device_id: self.device_id,
            buffer_id: slot as u32,
            sector,
            length: self.block_size as u32,
            buffer_offset: 0,
            reserved: [0, 0],
        }
    }

    /// Takes the completion of request `id`. It is accepted when `id` is one
    /// of the check's requests not answered before, and `response` answers
    /// that request: the read past the end refused with nothing moved, the
    /// others done with a whole block. A refused completion changes nothing.
    pub fn accept_completion(&mut self, id: u64, response: &MdriverBlockResponse) -> (r: Result<(), QueueCheckError>)
        requires
            old(self).wf(),
        ensures
            final(self).wf(),
            final(self).device() == old(self).device() && final(self).capacity() == old(self).capacity()
                && final(self).block_size() == old(self).block_size() && final(self).first() == old(self).first(),
            ({
                let slot = slot_of(old(self).first(), id);
                if slot >= QUEUE_CHECK_REQUESTS {
                    r == Err::<(), QueueCheckError>(QueueCheckError::UnknownId)
                } else if old(self).answered(slot) {
                    r == Err::<(), QueueCheckError>(QueueCheckError::Duplicate)
                } else if !completes(
                    queue_request(old(self).device(), old(self).capacity(), old(self).block_size(), slot),
                    *response,
                    expected_status(slot),
                    expected_transfer(slot, old(self).block_size()),
                ) {
                    r == Err::<(), QueueCheckError>(QueueCheckError::BadCompletion)
                } else {
                    r is Ok
                }
            }),
            r is Ok <==> old(self).pending().contains(id) && completes(
                queue_request(old(self).device(), old(self).capacity(), old(self).block_size(), slot_of(old(self).first(), id)),
                *response,
                expected_status(slot_of(old(self).first(), id)),
                expected_transfer(slot_of(old(self).first(), id), old(self).block_size()),
            ),
            r is Ok ==> final(self).pending() == old(self).pending().remove(id),
            r is Err ==> final(self).pending() == old(self).pending(),
    {
        let slot_id = id.wrapping_sub(self.first_id);
        if slot_id >= 4 {
            return Err(QueueCheckError::UnknownId);
        }
        let slot = slot_id as usize;
        if self.seen[slot] {
            return Err(QueueCheckError::Duplicate);
        }
        let request = self.request(slot);
        let status = if slot == 2 { MDRIVER_BLOCK_STATUS_OUT_OF_RANGE } else { MDRIVER_BLOCK_STATUS_OK };
        let transferred: u32 = if slot == 2 { 0 } else { self.block_size as u32 };
        if response.version != MDRIVER_BLOCK_VERSION || response.reserved0 != 0 || response.reserved[0] != 0
            || response.reserved[1] != 0 || response.operation != request.operation || response.status != status
            || response.device_id != request.device_id || response.buffer_id != request.buffer_id
            || response.sector != request.sector || response.transferred != transferred {
            return Err(QueueCheckError::BadCompletion);
        }
        let ghost before = *self;
        self.seen.set(slot, true);
        proof {
            assert(self.pending() =~= before.pending().remove(id)) by {
                assert forall|x: u64| self.pending().contains(x) <==> before.pending().remove(id).contains(x) by {
                }
            }
        }
        Ok(())
    }

    /// Whether every request has had its completion.
    pub fn finished(&self) -> (b: bool)
        requires
            self.wf(),
        ensures
            b == (self.pending() == Set::<u64>::empty()),
    {
        let b = self.seen[0] && self.seen[1] && self.seen[2] && self.seen[3];
        proof {
            if b {
                assert(self.pending() =~= Set::<u64>::empty());
            } else {
                let slot: u64 = if !self.seen@[0] { 0 } else if !self.seen@[1] { 1 } else if !self.seen@[2] { 2 } else { 3 };
                let id: u64 = if self.first_id + slot <= u64::MAX {
                    (self.first_id + slot) as u64
                } else {
                    (self.first_id + slot - 0x1_0000_0000_0000_0000int) as u64
                };
                assert(slot_of(self.first_id, id) == slot);
                assert(self.pending().contains(id));
            }
        }
        b
    }
}


/// Where the check of the synchronous block data path stands.
#[derive(Clone, Copy, Debug, PartialEq, Eq, Structural)]
pub enum PathStage {
    Open,
    Read,
    Outside,
    Write,
    Flush,
    Reread,
    Close,
    Done,
}

/// Why the check of the synchronous block data path failed.
#[derive(Clone, Copy, Debug, PartialEq, Eq, Structural)]
pub enum BlockPathError {
    /// The device does not read, write and flush.
    MissingFeatures,
    /// The grant window has no room for the data page.
    GrantWindow,
    /// The hypervisor gave no usable grant for the data page.
    Grant,
    /// An answer was not the one the step expects.
    Refused,
    /// The device has no room for the test sector.
    TooSmall,
    /// The test sector read back other bytes than were written.
    DataMismatch,
}

/// Features a device needs for the data path check.
pub const PATH_REQUIRED_FEATURES: u64 = MDRIVER_DEVICE_FEATURE_BLOCK_READ | MDRIVER_DEVICE_FEATURE_BLOCK_WRITE
    | MDRIVER_DEVICE_FEATURE_BLOCK_FLUSH;

/// Whether a device with `features`, and a grant window of
/// `grant_window_size` bytes, can take the data path check.
pub open spec fn path_possible(features: u64, grant_window_size: u64) -> bool {
    features & PATH_REQUIRED_FEATURES == PATH_REQUIRED_FEATURES
        && grant_window_size >= (MDRIVER_BLOCK_DATA_PAGE + 1) * 4096
}

/// Whether a grant hypercall's answer is a usable reference.
pub open spec fn grant_usable(reference: u64) -> bool {
    reference != GRANT_REF_INVALID && reference != HYPERCALL_UNSUPPORTED && reference != HYPERCALL_INVALID_ARGUMENT
}

/// Whether the answer to opening the device is one the check accepts: a
/// nonempty device whose block size is a power of two from a sector up to
/// the largest transfer, a transfer limit of at least a block, and the
/// features the check uses.
pub open spec fn opened_ok(r: MdriverControlResponse) -> bool {
    &&& r.status == MDRIVER_CONTROL_STATUS_OK
    &&& r.values[0] != 0
    &&& MDRIVER_BLOCK_SECTOR_SIZE <= r.values[1] <= MDRIVER_BLOCK_MAX_TRANSFER
    &&& is_pow2(r.values[1] as nat)
    &&& r.values[2] >= r.values[1]
    &&& r.values[3] & PATH_REQUIRED_FEATURES == PATH_REQUIRED_FEATURES
}

/// The sector the write test uses on a device with `block_size`-byte blocks.
pub open spec fn test_sector(block_size: u64) -> int {
    let per_block = block_size / MDRIVER_BLOCK_SECTOR_SIZE;
    if per_block > 16 { per_block as int } else { 16 }
}

/// The request the check sends at `stage`; none once it is done.
pub open spec fn path_request(
    stage: PathStage,
    device_id: u32,
    reference: u64,
    capacity: u64,
    block_size: u64,
) -> Option<(u16, [u64; 4])> {
    let sector = test_sector(block_size) as u64;
    match stage {
        PathStage::Open => Some((MDRIVER_CONTROL_OPEN_DEVICE, [reference, MDRIVER_BLOCK_MAX_TRANSFER, 0u64, 0u64])),
        PathStage::Read => Some((MDRIVER_CONTROL_BLOCK_READ, [0u64, block_size, 0u64, 0u64])),
        PathStage::Outside => Some((MDRIVER_CONTROL_BLOCK_READ, [capacity, block_size, 0u64, 0u64])),
        PathStage::Write => Some((MDRIVER_CONTROL_BLOCK_WRITE, [sector, block_size, 0u64, 0u64])),
        PathStage::Flush => Some((MDRIVER_CONTROL_BLOCK_FLUSH, [0u64, 0u64, 0u64, 0u64])),
        PathStage::Reread => Some((MDRIVER_CONTROL_BLOCK_READ, [sector, block_size, 0u64, 0u64])),
        PathStage::Close => Some((MDRIVER_CONTROL_CLOSE_DEVICE, [0u64, 0u64, 0u64, 0u64])),
        PathStage::Done => None,
    }
}

/// Whether `data` starts with the test pattern over `len` bytes.
pub open spec fn holds_pattern(data: Seq<u8>, len: int) -> bool {
    data.len() >= len && forall|i: int| 0 <= i < len ==> data[i] == test_byte(i)
}

/// The outcome of answer `r` at `stage`, with the data page holding `data`
/// after it: the next stage, or the error.
pub open spec fn path_step(
    stage: PathStage,
    features: u64,
    capacity: u64,
    block_size: u64,
    r: MdriverControlResponse,
    data: Seq<u8>,
) -> Result<PathStage, BlockPathError> {
    let done_block = r.status == MDRIVER_CONTROL_STATUS_OK && r.values[0] == block_size;
    match stage {
        PathStage::Open => if opened_ok(r) { Ok(PathStage::Read) } else { Err(BlockPathError::Refused) },
        PathStage::Read => if done_block { Ok(PathStage::Outside) } else { Err(BlockPathError::Refused) },
        PathStage::Outside => if r.status != MDRIVER_CONTROL_STATUS_OUT_OF_RANGE {
            Err(BlockPathError::Refused)
        } else if features & MDRIVER_DEVICE_FEATURE_EPHEMERAL == 0 {
            Ok(PathStage::Close)
        } else if capacity < test_sector(block_size) + block_size / MDRIVER_BLOCK_SECTOR_SIZE {
            Err(BlockPathError::TooSmall)
        } else {
            Ok(PathStage::Write)
        },
        PathStage::Write => if done_block { Ok(PathStage::Flush) } else { Err(BlockPathError::Refused) },
        PathStage::Flush => if r.status == MDRIVER_CONTROL_STATUS_OK { Ok(PathStage::Reread) } else { Err(BlockPathError::Refused) },
        PathStage::Reread => if !done_block {
            Err(BlockPathError::Refused)
        } else if !holds_pattern(data, block_size as int) {
            Err(BlockPathError::DataMismatch)
        } else {
            Ok(PathStage::Close)
        },
        PathStage::Close => if r.status == MDRIVER_CONTROL_STATUS_OK { Ok(PathStage::Done) } else { Err(BlockPathError::Refused) },
        PathStage::Done => Err(BlockPathError::Refused),
    }
}

/// Whether the data path check can run: the features, and room in the grant
/// window for the data page.
pub fn block_path_possible(features: u64, grant_window_size: u64) -> (r: bool)
    ensures
        r == path_possible(features, grant_window_size),
{
    features & PATH_REQUIRED_FEATURES == PATH_REQUIRED_FEATURES
        && grant_window_size >= (MDRIVER_BLOCK_DATA_PAGE + 1) * 4096
}

/// The test pattern over `len` bytes, to put on the data page before the
/// write.
pub fn test_pattern(len: usize) -> (v: Vec<u8>)
    ensures
        v@.len() == len,
        holds_pattern(v@, len as int),
{
    let mut v: Vec<u8> = Vec::new();
    let mut i: usize = 0;
    while i < len
        invariant
            i <= len,
            v@.len() == i,
            forall|k: int| 0 <= k < i ==> v@[k] == test_byte(k),
        decreases len - i,
    {
        v.push(block_test_byte(i));
        i = i + 1;
    }
    v
}

/// Whether `data` starts with the test pattern over `len` bytes.
pub fn pattern_matches(data: &[u8], len: usize) -> (r: bool)
    ensures
        r == holds_pattern(data@, len as int),
{
    if data.len() < len {
        return false;
    }
    let mut i: usize = 0;
    while i < len
        invariant
            i <= len <= data@.len(),
            forall|k: int| 0 <= k < i ==> data@[k] == test_byte(k),
        decreases len - i,
    {
        if data[i] != block_test_byte(i) {
            return false;
        }
        i = i + 1;
    }
    true
}

/// The system domain's check of a block device's synchronous data path: it
/// opens the device, reads the first block, is refused a read past the end,
/// writes, flushes and reads back the test sector where the device is
/// ephemeral, and closes the device.
pub struct BlockPathCheck {
    stage: PathStage,
    device_id: u32,
    features: u64,
    reference: u64,
    capacity: u64,
    block_size: u64,
}

impl BlockPathCheck {
    pub closed spec fn stage(&self) -> PathStage {
        self.stage
    }

    pub closed spec fn device(&self) -> u32 {
        self.device_id
    }

    pub closed spec fn features(&self) -> u64 {
        self.features
    }

    pub closed spec fn reference(&self) -> u64 {
        self.reference
    }

    /// The device's size in sectors, once it is open.
    pub closed spec fn capacity(&self) -> u64 {
        self.capacity
    }

    /// The device's block size, once it is open.
    pub closed spec fn block_size(&self) -> u64 {
        self.block_size
    }

    pub closed spec fn wf(&self) -> bool {
        self.stage != PathStage::Open ==> MDRIVER_BLOCK_SECTOR_SIZE <= self.block_size <= MDRIVER_BLOCK_MAX_TRANSFER
    }

    /// The check of device `device_id`, with `features`, whose data page
    /// the hypervisor granted under `reference`. An unusable grant is an
    /// error.
    pub fn new(device_id: u32, features: u64, reference: u64) -> (r: Result<Self, BlockPathError>)
        ensures
            r is Err <==> !grant_usable(reference),
            r is Err ==> r == Err::<Self, BlockPathError>(BlockPathError::Grant),
            r matches Ok(c) ==> c.wf() && c.stage() == PathStage::Open && c.device() == device_id
                && c.features() == features && c.reference() == reference,
    {
        if reference == GRANT_REF_INVALID || reference == HYPERCALL_UNSUPPORTED || reference == HYPERCALL_INVALID_ARGUMENT {
            return Err(BlockPathError::Grant);
        }
        Ok(BlockPathCheck { stage: PathStage::Open, device_id, features, reference, capacity: 0, block_size: 0 })
    }

    /// The next request to send, if the check is not done.
    pub fn request(&self) -> (r: Option<MdriverControlRequest>)
        requires
            self.wf(),
        ensures
            match path_request(self.stage(), self.device(), self.reference(), self.capacity(), self.block_size()) {
                None => r is None,
                Some((operation, arguments)) => r == Some(MdriverControlRequest {
                    version: MDRIVER_CONTROL_VERSION,
                    operation,
                    flags: 0,
                    device_id: self.device(),
                    reserved: 0,
                    arguments,
                }),
            },
    {
        let per_block = self.block_size / MDRIVER_BLOCK_SECTOR_SIZE;
        let sector = if per_block > 16 { per_block } else { 16 };
        let (operation, arguments) = match self.stage {
            PathStage::Open => (MDRIVER_CONTROL_OPEN_DEVICE, [self.reference, MDRIVER_BLOCK_MAX_TRANSFER, 0, 0]),
            PathStage::Read => (MDRIVER_CONTROL_BLOCK_READ, [0, self.block_size, 0, 0]),
            PathStage::Outside => (MDRIVER_CONTROL_BLOCK_READ, [self.capacity, self.block_size, 0, 0]),
            PathStage::Write => (MDRIVER_CONTROL_BLOCK_WRITE, [sector, self.block_size, 0, 0]),
            PathStage::Flush => (MDRIVER_CONTROL_BLOCK_FLUSH, [0, 0, 0, 0]),
            PathStage::Reread => (MDRIVER_CONTROL_BLOCK_READ, [sector, self.block_size, 0, 0]),
            PathStage::Close => (MDRIVER_CONTROL_CLOSE_DEVICE, [0, 0, 0, 0]),
            PathStage::Done => { return None; },
        };
        Some(MdriverControlRequest::new(operation, self.device_id, arguments))
    }

    /// Takes the answer to the request last sent, with `data` the data page
    /// as it stands after it (read only after the test sector is read back).
    /// A refused answer leaves the check where it was.
    pub fn accept(&mut self, response: &MdriverControlResponse, data: &[u8]) -> (r: Result<(), BlockPathError>)
        requires
            old(self).wf(),
        ensures
            final(self).wf(),
            final(self).device() == old(self).device() && final(self).features() == old(self).features()
                && final(self).reference() == old(self).reference(),
            match path_step(old(self).stage(), old(self).features(), old(self).capacity(), old(self).block_size(), *response, data@) {
                Ok(next) => r is Ok && final(self).stage() == next,
                Err(e) => r == Err::<(), BlockPathError>(e) && final(self).stage() == old(self).stage(),
            },
            old(self).stage() == PathStage::Open && r is Ok ==> final(self).capacity() == response.values[0]
                && final(self).block_size() == response.values[1],
            old(self).stage() != PathStage::Open || r is Err ==> final(self).capacity() == old(self).capacity()
                && final(self).block_size() == old(self).block_size(),
    {
        let ok = response.status == MDRIVER_CONTROL_STATUS_OK;
        let done_block = ok && response.values[0] == self.block_size;
        match self.stage {
            PathStage::Open => {
                let size = response.values[1];
                if !ok || response.values[0] == 0 || size < MDRIVER_BLOCK_SECTOR_SIZE || size > MDRIVER_BLOCK_MAX_TRANSFER
                    || !power_of_two(size as usize) || response.values[2] < size
                    || response.values[3] & PATH_REQUIRED_FEATURES != PATH_REQUIRED_FEATURES {
                    return Err(BlockPathError::Refused);
                }
                self.capacity = response.values[0];
                self.block_size = size;
                self.stage = PathStage::Read;
            },
            PathStage::Read => {
                if !done_block {
                    return Err(BlockPathError::Refused);
                }
                self.stage = PathStage::Outside;
            },
            PathStage::Outside => {
                if response.status != MDRIVER_CONTROL_STATUS_OUT_OF_RANGE {
                    return Err(BlockPathError::Refused);
                }
                if self.features & MDRIVER_DEVICE_FEATURE_EPHEMERAL == 0 {
                    self.stage = PathStage::Close;
                } else {
                    let per_block = self.block_size / MDRIVER_BLOCK_SECTOR_SIZE;
                    let sector = if per_block > 16 { per_block } else { 16 };
                    if self.capacity < sector + per_block {
                        return Err(BlockPathError::TooSmall);
                    }
                    self.stage = PathStage::Write;
                }
            },
            PathStage::Write => {
                if !done_block {
                    return Err(BlockPathError::Refused);
                }
                self.stage = PathStage::Flush;
            },
            PathStage::Flush => {
                if !ok {
                    return Err(BlockPathError::Refused);
                }
                self.stage = PathStage::Reread;
            },
            PathStage::Reread => {
                if !done_block {
                    return Err(BlockPathError::Refused);
                }
                if !pattern_matches(data, self.block_size as usize) {
                    return Err(BlockPathError::DataMismatch);
                }
                self.stage = PathStage::Close;
            },
            PathStage::Close => {
                if !ok {
                    return Err(BlockPathError::Refused);
                }
                self.stage = PathStage::Done;
            },
            PathStage::Done => {
                return Err(BlockPathError::Refused);
            },
        }
        Ok(())
    }

    pub fn current_stage(&self) -> (r: PathStage)
        ensures
            r == self.stage(),
    {
        self.stage
    }

    pub fn is_done(&self) -> (r: bool)
        ensures
            r == (self.stage() == PathStage::Done),
    {
        match self.stage {
            PathStage::Done => true,
            _ => false,
        }
    }
}

/// Where the write test on the asynchronous queue stands.
#[derive(Clone, Copy, Debug, PartialEq, Eq, Structural)]
pub enum QueueWriteStage {
    Write,
    Flush,
    Reread,
    Done,
}

/// The request the write test sends at `stage` on buffer 0: the test
/// pattern written to the test sector, a flush, and the sector read back.
pub open spec fn queue_write_request(stage: QueueWriteStage, device_id: u32, block_size: u64) -> Option<MdriverBlockRequest> {
    let sector = test_sector(block_size) as u64;
    let (operation, sector, length) = match stage {
        QueueWriteStage::Write => (MDRIVER_BLOCK_WRITE, sector, block_size as u32),
        QueueWriteStage::Flush => (MDRIVER_BLOCK_FLUSH, 0u64, 0u32),
        _ => (MDRIVER_BLOCK_READ, sector, block_size as u32),
    };
    if stage == QueueWriteStage::Done {
        None
    } else {
        Some(MdriverBlockRequest {
            version: MDRIVER_BLOCK_VERSION,
            operation,
            flags: 0,
            device_id,
            buffer_id: 0,
            sector,
            length,
            buffer_offset: 0,
            reserved: [0, 0],
        })
    }
}

/// The stage after `stage`.
pub open spec fn queue_write_next(stage: QueueWriteStage) -> QueueWriteStage {
    match stage {
        QueueWriteStage::Write => QueueWriteStage::Flush,
        QueueWriteStage::Flush => QueueWriteStage::Reread,
        _ => QueueWriteStage::Done,
    }
}

/// The write test of an ephemeral device over the asynchronous queue: each
/// request must come back under the id it was sent with, done and with the
/// whole block moved (nothing for the flush), and the block read back must
/// hold the test pattern.
pub struct QueueWriteCheck {
    stage: QueueWriteStage,
    device_id: u32,
    block_size: u64,
}

impl QueueWriteCheck {
    pub closed spec fn stage(&self) -> QueueWriteStage {
        self.stage
    }

    pub closed spec fn device(&self) -> u32 {
        self.device_id
    }

    pub closed spec fn block_size(&self) -> u64 {
        self.block_size
    }

    pub closed spec fn wf(&self) -> bool {
        MDRIVER_BLOCK_SECTOR_SIZE <= self.block_size <= MDRIVER_BLOCK_MAX_TRANSFER
    }

    /// The test for a device of `capacity` sectors and `block_size`-byte
    /// blocks; the device needs room for a block at the test sector.
    pub fn new(device_id: u32, capacity: u64, block_size: u64) -> (r: Result<Self, QueueCheckError>)
        ensures
            !block_size_ok(block_size) ==> r == Err::<Self, QueueCheckError>(QueueCheckError::BadBlockSize),
            block_size_ok(block_size) && capacity < test_sector(block_size) + block_size / MDRIVER_BLOCK_SECTOR_SIZE
                ==> r == Err::<Self, QueueCheckError>(QueueCheckError::TooSmall),
            block_size_ok(block_size) && capacity >= test_sector(block_size) + block_size / MDRIVER_BLOCK_SECTOR_SIZE
                ==> (r matches Ok(c) && c.wf() && c.stage() == QueueWriteStage::Write && c.device() == device_id
                && c.block_size() == block_size),
    {
        if block_size < MDRIVER_BLOCK_SECTOR_SIZE || block_size > MDRIVER_BLOCK_MAX_TRANSFER
            || !power_of_two(block_size as usize) {
            return Err(QueueCheckError::BadBlockSize);
        }
        let per_block = block_size / MDRIVER_BLOCK_SECTOR_SIZE;
        let sector = if per_block > 16 { per_block } else { 16 };
        if capacity < sector + per_block {
            return Err(QueueCheckError::TooSmall);
        }
        Ok(QueueWriteCheck { stage: QueueWriteStage::Write, device_id, block_size })
    }

    /// The next request to send, if the test is not done.
    pub fn request(&self) -> (r: Option<MdriverBlockRequest>)
        requires
            self.wf(),
        ensures
            r == queue_write_request(self.stage(), self.device(), self.block_size()),
    {
        let per_block = self.block_size / MDRIVER_BLOCK_SECTOR_SIZE;
        let sector = if per_block > 16 { per_block } else { 16 };
        let (operation, sector, length) = match self.stage {
            QueueWriteStage::Write => (MDRIVER_BLOCK_WRITE, sector, self.block_size as u32),
            QueueWriteStage::Flush => (MDRIVER_BLOCK_FLUSH, 0, 0),
            QueueWriteStage::Reread => (MDRIVER_BLOCK_READ, sector, self.block_size as u32),
            QueueWriteStage::Done => { return None; },
        };
        Some(MdriverBlockRequest {
            version: MDRIVER_BLOCK_VERSION,
            operation,
            flags: 0,
            device_id: self.device_id,
            buffer_id: 0,
            sector,
            length,
            buffer_offset: 0,
            reserved: [0, 0],
        })
    }

    /// Takes the completion `response`, which came back under `received_id`
    /// for the request sent under `sent_id`; `data` is buffer 0 after it. A
    /// refused completion leaves the test where it was.
    pub fn accept(&mut self, sent_id: u64, received_id: u64, response: &MdriverBlockResponse, data: &[u8]) -> (r: Result<(), QueueCheckError>)
        requires
            old(self).wf(),
        ensures
            final(self).wf(),
            final(self).device() == old(self).device() && final(self).block_size() == old(self).block_size(),
            match queue_write_request(old(self).stage(), old(self).device(), old(self).block_size()) {
                None => r == Err::<(), QueueCheckError>(QueueCheckError::UnknownId),
                Some(request) => if received_id != sent_id {
                    r == Err::<(), QueueCheckError>(QueueCheckError::UnknownId)
                } else if !completes(request, *response, MDRIVER_BLOCK_STATUS_OK, request.length) {
                    r == Err::<(), QueueCheckError>(QueueCheckError::BadCompletion)
                } else if old(self).stage() == QueueWriteStage::Reread && !holds_pattern(data@, old(self).block_size() as int) {
                    r == Err::<(), QueueCheckError>(QueueCheckError::DataMismatch)
                } else {
                    r is Ok
                },
            },
            r is Ok ==> final(self).stage() == queue_write_next(old(self).stage()),
            r is Err ==> final(self).stage() == old(self).stage(),
    {
        let request = match self.request() {
            Some(request) => request,
            None => { return Err(QueueCheckError::UnknownId); },
        };
        if received_id != sent_id {
            return Err(QueueCheckError::UnknownId);
        }
        if response.version != MDRIVER_BLOCK_VERSION || response.reserved0 != 0 || response.reserved[0] != 0
            || response.reserved[1] != 0 || response.operation != request.operation
            || response.status != MDRIVER_BLOCK_STATUS_OK || response.device_id != request.device_id
            || response.buffer_id != request.buffer_id || response.sector != request.sector
            || response.transferred != request.length {
            return Err(QueueCheckError::BadCompletion);
        }
        match self.stage {
            QueueWriteStage::Write => {
                self.stage = QueueWriteStage::Flush;
            },
            QueueWriteStage::Flush => {
                self.stage = QueueWriteStage::Reread;
            },
            _ => {
                if !pattern_matches(data, self.block_size as usize) {
                    return Err(QueueCheckError::DataMismatch);
                }
                self.stage = QueueWriteStage::Done;
            },
        }
        Ok(())
    }

    pub fn is_done(&self) -> (r: bool)
        ensures
            r == (self.stage() == QueueWriteStage::Done),
    {
        match self.stage {
            QueueWriteStage::Done => true,
            _ => false,
        }
    }
}

} // verus!

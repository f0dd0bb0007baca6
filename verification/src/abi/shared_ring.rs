//! Single-producer/single-consumer message rings shared between two domains:
//! one ring of requests and one of responses, each with 31 fixed-size slots.

use vstd::prelude::*;

verus! {

/// `MNURING\0` read as a little-endian `u64`.
pub const SHARED_RING_MAGIC: u64 = 0x0047_4e49_5255_4e4d;
pub const SHARED_RING_VERSION: u32 = 1;
pub const SHARED_RING_SLOT_COUNT: usize = 31;
pub const SHARED_RING_PAYLOAD_SIZE: usize = 48;

#[derive(Clone, Copy, Debug, Eq, PartialEq, Structural)]
pub enum SharedRingError {
    InvalidHeader,
    PayloadTooLarge,
    Full,
    Empty,
    CorruptEntry,
}

pub struct SharedRingHeader {
    magic: u64,
    version: u32,
    slot_count: u32,
    request_producer: u32,
    request_consumer: u32,
    response_producer: u32,
    response_consumer: u32,
    generation: u64,
    reserved: [u64; 3],
}

#[derive(Clone, Copy, Debug, Eq, PartialEq)]
pub struct SharedRingMessage {
    pub kind: u16,
    pub flags: u16,
    pub len: u32,
    pub request_id: u64,
    pub payload: [u8; 48],
}

impl SharedRingMessage {
    /// A message carrying a copy of `payload` in its first bytes.
    pub fn new(kind: u16, flags: u16, request_id: u64, payload: &[u8]) -> (r: Result<
        Self,
        SharedRingError,
    >)
        ensures
            payload@.len() > 48 ==> r == Err::<Self, SharedRingError>(SharedRingError::PayloadTooLarge),
            payload@.len() <= 48 ==> (r matches Ok(m) && m.kind == kind && m.flags == flags
                && m.request_id == request_id && m.len == payload@.len()
                && m.payload@.subrange(0, payload@.len() as int) == payload@
                && (forall|i: int| payload@.len() <= i < 48 ==> m.payload@[i] == 0)),
    {
        if payload.len() > SHARED_RING_PAYLOAD_SIZE {
            return Err(SharedRingError::PayloadTooLarge);
        }
        let mut bytes = [0u8; 48];
        let mut i: usize = 0;
        while i < payload.len()
            invariant
                i <= payload@.len() <= 48,
                bytes@.len() == 48,
                forall|j: int| 0 <= j < i ==> bytes@[j] == payload@[j],
                forall|j: int| payload@.len() <= j < 48 ==> bytes@[j] == 0,
            decreases payload@.len() - i,
        {
            bytes[i] = payload[i];
            i = i + 1;
        }
        let m = SharedRingMessage {
            kind,
            flags,
            len: payload.len() as u32,
            request_id,
            payload: bytes,
        };
        assert(m.payload@.subrange(0, payload@.len() as int) =~= payload@);
        Ok(m)
    }

    /// The meaningful prefix of the payload; an entry claiming more than the
    /// slot holds is corrupt.
    pub fn data(&self) -> (r: Result<&[u8], SharedRingError>)
        ensures
            self.len > 48 ==> r == Err::<&[u8], SharedRingError>(SharedRingError::CorruptEntry),
            self.len <= 48 ==> (r matches Ok(d) && d@ == self.payload@.subrange(0, self.len as int)),
    {
        if self.len as usize > SHARED_RING_PAYLOAD_SIZE {
            return Err(SharedRingError::CorruptEntry);
        }
        Ok(vstd::slice::slice_subrange(self.payload.as_slice(), 0, self.len as usize))
    }
}

/// One page shared between two domains.
pub struct SharedRingPage {
    header: SharedRingHeader,
    requests: [SharedRingMessage; 31],
    responses: [SharedRingMessage; 31],
    reserved: [u8; 64],
}

/// Number of unread messages as the ring computes it, modulo `2^32`.
pub open spec fn occupancy(producer: u32, consumer: u32) -> u32 {
    (if producer >= consumer { producer - consumer } else { producer + 0x1_0000_0000 - consumer }) as u32
}

/// The counter after `counter`, wrapping as the ring's counters do.
pub open spec fn next_counter(counter: u32) -> u32 {
    if counter == u32::MAX { 0 } else { (counter + 1) as u32 }
}

/// The counter value `k` places after `consumer`, modulo `2^32`.
pub open spec fn ring_position(consumer: u32, k: int) -> int {
    (consumer + k) % 0x1_0000_0000
}

/// Unread messages in delivery order: as many as the occupancy says, the
/// first in the slot the consumer counter names, each next one in the slot
/// of the next counter value.
pub open spec fn pending(slots: Seq<SharedRingMessage>, producer: u32, consumer: u32) -> Seq<
    SharedRingMessage,
> {
    Seq::new(
        occupancy(producer, consumer) as nat,
        |k: int| slots[ring_position(consumer, k) % 31],
    )
}

/// Whether writing the slot of `producer` leaves every unread message in
/// place: no unread counter value shares its slot. The slots repeat every
/// 31 counter values, and `2^32` is no multiple of 31, so across the wrap of
/// the counters two values fewer than 31 apart can share a slot.
pub open spec fn push_keeps_order(producer: u32, consumer: u32) -> bool {
    forall|k: int| 0 <= k < occupancy(producer, consumer) ==> #[trigger] ring_position(consumer, k) % 31 != producer as int % 31
}

fn empty_message() -> (m: SharedRingMessage)
    ensures
        m.kind == 0 && m.flags == 0 && m.len == 0 && m.request_id == 0,
{
    SharedRingMessage { kind: 0, flags: 0, len: 0, request_id: 0, payload: [0u8; 48] }
}

/// Appends `message` to the ring described by `producer`, `consumer` and `slots`.
fn push(
    producer: &mut u32,
    consumer: u32,
    slots: &mut [SharedRingMessage; 31],
    message: SharedRingMessage,
) -> (r: Result<(), SharedRingError>)
    ensures
        message.len > 48 ==> r == Err::<(), SharedRingError>(SharedRingError::CorruptEntry)
            && *final(producer) == *old(producer) && final(slots)@ == old(slots)@,
        message.len <= 48 && occupancy(*old(producer), consumer) >= 31 ==> r == Err::<
            (),
            SharedRingError,
        >(SharedRingError::Full) && *final(producer) == *old(producer) && final(slots)@ == old(
            slots,
        )@,
        message.len <= 48 && occupancy(*old(producer), consumer) < 31 ==> r is Ok
            && final(slots)@ == old(slots)@.update(*old(producer) as int % 31, message)
            && *final(producer) == (if *old(producer) == u32::MAX { 0 } else { *old(producer) + 1 }),
{
    if message.len as usize > SHARED_RING_PAYLOAD_SIZE {
        return Err(SharedRingError::CorruptEntry);
    }
    let producer_index = *producer;
    if producer_index.wrapping_sub(consumer) >= SHARED_RING_SLOT_COUNT as u32 {
        return Err(SharedRingError::Full);
    }
    let slot = producer_index as usize % SHARED_RING_SLOT_COUNT;
    slots[slot] = message;
    *producer = producer_index.wrapping_add(1);
    Ok(())
}

/// Takes the oldest unread message of the ring described by `producer`,
/// `consumer` and `slots`.
fn pop(producer: u32, consumer: &mut u32, slots: &[SharedRingMessage; 31]) -> (r: Result<
    SharedRingMessage,
    SharedRingError,
>)
    ensures
        *old(consumer) == producer ==> r == Err::<SharedRingMessage, SharedRingError>(
            SharedRingError::Empty,
        ) && *final(consumer) == *old(consumer),
        *old(consumer) != producer && slots@[*old(consumer) as int % 31].len > 48 ==> r == Err::<
            SharedRingMessage,
            SharedRingError,
        >(SharedRingError::CorruptEntry) && *final(consumer) == *old(consumer),
        *old(consumer) != producer && slots@[*old(consumer) as int % 31].len <= 48 ==> r == Ok::<
            SharedRingMessage,
            SharedRingError,
        >(slots@[*old(consumer) as int % 31]) && *final(consumer) == (if *old(consumer)
            == u32::MAX {
            0
        } else {
            *old(consumer) + 1
        }),
{
    let consumer_index = *consumer;
    if consumer_index == producer {
        return Err(SharedRingError::Empty);
    }
    let slot = consumer_index as usize % SHARED_RING_SLOT_COUNT;
    let message = slots[slot];
    if message.len as usize > SHARED_RING_PAYLOAD_SIZE {
        return Err(SharedRingError::CorruptEntry);
    }
    *consumer = consumer_index.wrapping_add(1);
    Ok(message)
}

impl SharedRingPage {
    pub closed spec fn generation(&self) -> u64 {
        self.header.generation
    }

    pub closed spec fn header_valid(&self) -> bool {
        &&& self.header.magic == SHARED_RING_MAGIC
        &&& self.header.version == SHARED_RING_VERSION
        &&& self.header.slot_count == 31
        &&& self.header.reserved@ == seq![0u64, 0u64, 0u64]
    }

    pub closed spec fn request_producer(&self) -> u32 {
        self.header.request_producer
    }

    pub closed spec fn request_consumer(&self) -> u32 {
        self.header.request_consumer
    }

    pub closed spec fn response_producer(&self) -> u32 {
        self.header.response_producer
    }

    pub closed spec fn response_consumer(&self) -> u32 {
        self.header.response_consumer
    }

    /// Unread requests in delivery order.
    pub closed spec fn requests(&self) -> Seq<SharedRingMessage> {
        pending(self.requests@, self.header.request_producer, self.header.request_consumer)
    }

    /// Unread responses in delivery order.
    pub closed spec fn responses(&self) -> Seq<SharedRingMessage> {
        pending(self.responses@, self.header.response_producer, self.header.response_consumer)
    }

}

/// A fresh ring page for `generation` with both rings empty.
pub fn initialize(generation: u64) -> (ring: SharedRingPage)
    ensures
        ring.header_valid(),
        ring.generation() == generation,
        ring.request_producer() == 0 && ring.request_consumer() == 0,
        ring.response_producer() == 0 && ring.response_consumer() == 0,
        ring.requests().len() == 0 && ring.responses().len() == 0,
{
    let e = empty_message();
    let ring = SharedRingPage {
        header: SharedRingHeader {
            magic: SHARED_RING_MAGIC,
            version: SHARED_RING_VERSION,
            slot_count: 31,
            request_producer: 0,
            request_consumer: 0,
            response_producer: 0,
            response_consumer: 0,
            generation,
            reserved: [0u64; 3],
        },
        requests: [e; 31],
        responses: [e; 31],
        reserved: [0u8; 64],
    };
    assert(ring.header.reserved@ =~= seq![0u64, 0u64, 0u64]);
    ring
}

/// Checks the immutable header and returns the ring generation.
pub fn validate(ring: &SharedRingPage) -> (r: Result<u64, SharedRingError>)
    ensures
        ring.header_valid() ==> r == Ok::<u64, SharedRingError>(ring.generation()),
        !ring.header_valid() ==> r == Err::<u64, SharedRingError>(SharedRingError::InvalidHeader),
{
    let h = &ring.header;
    if h.magic != SHARED_RING_MAGIC || h.version != SHARED_RING_VERSION || h.slot_count != 31
        || h.reserved[0] != 0 || h.reserved[1] != 0 || h.reserved[2] != 0 {
        assert(!ring.header_valid()) by {
            if ring.header_valid() {
                assert(h.reserved@[0] == 0 && h.reserved@[1] == 0 && h.reserved@[2] == 0);
            }
        }
        return Err(SharedRingError::InvalidHeader);
    }
    assert(h.reserved@ =~= seq![0u64, 0u64, 0u64]);
    Ok(h.generation)
}

/// A message written into a ring that is not full is read after every
/// message already waiting, when writing its slot keeps them in place.
pub proof fn lemma_pending_push(slots: Seq<SharedRingMessage>, producer: u32, consumer: u32, m: SharedRingMessage)
    requires
        slots.len() == 31,
        occupancy(producer, consumer) < 31,
        push_keeps_order(producer, consumer),
    ensures
        pending(slots.update(producer as int % 31, m), next_counter(producer), consumer) =~= pending(
            slots,
            producer,
            consumer,
        ).push(m),
{
    let n = occupancy(producer, consumer) as int;
    assert(occupancy(next_counter(producer), consumer) == n + 1);
    let after = pending(slots.update(producer as int % 31, m), next_counter(producer), consumer);
    let before = pending(slots, producer, consumer).push(m);
    assert forall|k: int| 0 <= k < n + 1 implies #[trigger] after[k] == before[k] by {
        if k < n {
            assert(ring_position(consumer, k) % 31 != producer as int % 31);
        } else {
            assert(ring_position(consumer, k) == producer);
        }
    }
}

/// Writing into a ring whose unread counters have not wrapped keeps every
/// unread message in place.
pub proof fn lemma_unwrapped_keeps_order(producer: u32, consumer: u32)
    requires
        consumer <= producer,
        producer - consumer < 31,
    ensures
        push_keeps_order(producer, consumer),
{
    assert forall|k: int| 0 <= k < occupancy(producer, consumer) implies #[trigger] ring_position(consumer, k) % 31
        != producer as int % 31 by {
        assert(ring_position(consumer, k) == consumer + k);
        assert((consumer + k) % 31 != producer as int % 31) by (nonlinear_arith)
            requires
                0 <= k < producer - consumer,
                producer - consumer < 31,
                consumer >= 0,
        ;
    }
}

/// A read takes the oldest waiting message and leaves the rest in order.
pub proof fn lemma_pending_pop(slots: Seq<SharedRingMessage>, producer: u32, consumer: u32)
    requires
        consumer != producer,
    ensures
        pending(slots, producer, next_counter(consumer)) =~= pending(slots, producer, consumer).drop_first(),
        pending(slots, producer, consumer).len() > 0,
        pending(slots, producer, consumer)[0] == slots[consumer as int % 31],
{
    let n = occupancy(producer, consumer) as int;
    assert(n > 0);
    assert(occupancy(producer, next_counter(consumer)) == n - 1);
    assert(ring_position(consumer, 0) == consumer);
    assert forall|k: int| 0 <= k < n - 1 implies #[trigger] ring_position(next_counter(consumer), k) == ring_position(
        consumer,
        k + 1,
    ) by {
        if consumer == u32::MAX {
            assert(ring_position(next_counter(consumer), k) == k);
            assert((consumer + k + 1) % 0x1_0000_0000 == k) by (nonlinear_arith)
                requires
                    consumer == 0xffff_ffff,
                    0 <= k < 0xffff_ffff,
            ;
        }
    }
}

/// Whether a ring holds no unread message.
pub open spec fn ring_empty(producer: u32, consumer: u32) -> bool {
    producer == consumer
}

/// Pushes one request for the other domain.
pub fn push_request(ring: &mut SharedRingPage, message: SharedRingMessage) -> (r: Result<
    (),
    SharedRingError,
>)
    ensures
        final(ring).header_valid() == old(ring).header_valid(),
        final(ring).generation() == old(ring).generation(),
        final(ring).request_consumer() == old(ring).request_consumer(),
        final(ring).response_producer() == old(ring).response_producer(),
        final(ring).response_consumer() == old(ring).response_consumer(),
        final(ring).responses() == old(ring).responses(),
        message.len > 48 ==> r == Err::<(), SharedRingError>(SharedRingError::CorruptEntry)
            && final(ring).request_producer() == old(ring).request_producer()
            && final(ring).requests() == old(ring).requests(),
        message.len <= 48 && occupancy(old(ring).request_producer(), old(ring).request_consumer())
            >= 31 ==> r == Err::<(), SharedRingError>(SharedRingError::Full)
            && final(ring).request_producer() == old(ring).request_producer()
            && final(ring).requests() == old(ring).requests(),
        message.len <= 48 && occupancy(old(ring).request_producer(), old(ring).request_consumer())
            < 31 ==> r is Ok,
        r is Ok ==> final(ring).request_producer() == next_counter(old(ring).request_producer()),
        r is Ok && push_keeps_order(old(ring).request_producer(), old(ring).request_consumer())
            ==> final(ring).requests() == old(ring).requests().push(message),
{
    proof {
        if occupancy(ring.header.request_producer, ring.header.request_consumer) < 31
            && push_keeps_order(ring.header.request_producer, ring.header.request_consumer) {
            lemma_pending_push(ring.requests@, ring.header.request_producer, ring.header.request_consumer, message);
        }
    }
    let consumer = ring.header.request_consumer;
    push(&mut ring.header.request_producer, consumer, &mut ring.requests, message)
}

/// Pops the oldest request sent by the other domain.
pub fn pop_request(ring: &mut SharedRingPage) -> (r: Result<SharedRingMessage, SharedRingError>)
    ensures
        final(ring).header_valid() == old(ring).header_valid(),
        final(ring).generation() == old(ring).generation(),
        final(ring).request_producer() == old(ring).request_producer(),
        final(ring).response_producer() == old(ring).response_producer(),
        final(ring).response_consumer() == old(ring).response_consumer(),
        final(ring).responses() == old(ring).responses(),
        old(ring).request_consumer() == old(ring).request_producer() ==> r == Err::<
            SharedRingMessage,
            SharedRingError,
        >(SharedRingError::Empty) && final(ring).requests() == old(ring).requests(),
        r is Err ==> final(ring).request_consumer() == old(ring).request_consumer(),
        old(ring).requests().len() == 0 <==> old(ring).request_consumer() == old(ring).request_producer(),
        old(ring).requests().len() > 0 ==> {
            ||| r == Ok::<SharedRingMessage, SharedRingError>(old(ring).requests()[0])
                && old(ring).requests()[0].len <= 48
                && final(ring).requests() == old(ring).requests().drop_first()
                && final(ring).request_consumer() == next_counter(old(ring).request_consumer())
            ||| r == Err::<SharedRingMessage, SharedRingError>(SharedRingError::CorruptEntry)
                && old(ring).requests()[0].len > 48
                && final(ring).requests() == old(ring).requests()
        },
{
    proof {
        if ring.header.request_consumer != ring.header.request_producer {
            lemma_pending_pop(ring.requests@, ring.header.request_producer, ring.header.request_consumer);
        }
    }
    let producer = ring.header.request_producer;
    pop(producer, &mut ring.header.request_consumer, &ring.requests)
}

/// Pushes one response for the other domain.
pub fn push_response(ring: &mut SharedRingPage, message: SharedRingMessage) -> (r: Result<
    (),
    SharedRingError,
>)
    ensures
        final(ring).header_valid() == old(ring).header_valid(),
        final(ring).generation() == old(ring).generation(),
        final(ring).response_consumer() == old(ring).response_consumer(),
        final(ring).request_producer() == old(ring).request_producer(),
        final(ring).request_consumer() == old(ring).request_consumer(),
        final(ring).requests() == old(ring).requests(),
        message.len > 48 ==> r == Err::<(), SharedRingError>(SharedRingError::CorruptEntry)
            && final(ring).response_producer() == old(ring).response_producer()
            && final(ring).responses() == old(ring).responses(),
        message.len <= 48 && occupancy(old(ring).response_producer(), old(ring).response_consumer())
            >= 31 ==> r == Err::<(), SharedRingError>(SharedRingError::Full)
            && final(ring).response_producer() == old(ring).response_producer()
            && final(ring).responses() == old(ring).responses(),
        message.len <= 48 && occupancy(old(ring).response_producer(), old(ring).response_consumer())
            < 31 ==> r is Ok,
        r is Ok ==> final(ring).response_producer() == next_counter(old(ring).response_producer()),
        r is Ok && push_keeps_order(old(ring).response_producer(), old(ring).response_consumer())
            ==> final(ring).responses() == old(ring).responses().push(message),
{
    proof {
        if occupancy(ring.header.response_producer, ring.header.response_consumer) < 31
            && push_keeps_order(ring.header.response_producer, ring.header.response_consumer) {
            lemma_pending_push(ring.responses@, ring.header.response_producer, ring.header.response_consumer, message);
        }
    }
    let consumer = ring.header.response_consumer;
    push(&mut ring.header.response_producer, consumer, &mut ring.responses, message)
}

/// Pops the oldest response sent by the other domain.
pub fn pop_response(ring: &mut SharedRingPage) -> (r: Result<SharedRingMessage, SharedRingError>)
    ensures
        final(ring).header_valid() == old(ring).header_valid(),
        final(ring).generation() == old(ring).generation(),
        final(ring).response_producer() == old(ring).response_producer(),
        final(ring).request_producer() == old(ring).request_producer(),
        final(ring).request_consumer() == old(ring).request_consumer(),
        final(ring).requests() == old(ring).requests(),
        old(ring).response_consumer() == old(ring).response_producer() ==> r == Err::<
            SharedRingMessage,
            SharedRingError,
        >(SharedRingError::Empty) && final(ring).responses() == old(ring).responses(),
        r is Err ==> final(ring).response_consumer() == old(ring).response_consumer(),
        old(ring).responses().len() == 0 <==> old(ring).response_consumer() == old(ring).response_producer(),
        old(ring).responses().len() > 0 ==> {
            ||| r == Ok::<SharedRingMessage, SharedRingError>(old(ring).responses()[0])
                && old(ring).responses()[0].len <= 48
                && final(ring).responses() == old(ring).responses().drop_first()
                && final(ring).response_consumer() == next_counter(old(ring).response_consumer())
            ||| r == Err::<SharedRingMessage, SharedRingError>(SharedRingError::CorruptEntry)
                && old(ring).responses()[0].len > 48
                && final(ring).responses() == old(ring).responses()
        },
{
    proof {
        if ring.header.response_consumer != ring.header.response_producer {
            lemma_pending_pop(ring.responses@, ring.header.response_producer, ring.header.response_consumer);
        }
    }
    let producer = ring.header.response_producer;
    pop(producer, &mut ring.header.response_consumer, &ring.responses)
}

/// On an empty ring, whatever its counter, a message that is written is the
/// one read back, and the ring is empty again afterwards.
pub proof fn lemma_ring_read_back(slots: Seq<SharedRingMessage>, counter: u32, m: SharedRingMessage)
    requires
        slots.len() == 31,
    ensures
        pending(slots.update(counter as int % 31, m), next_counter(counter), counter) == seq![m],
        pending(slots.update(counter as int % 31, m), next_counter(counter), next_counter(counter)).len() == 0,
{
    assert(push_keeps_order(counter, counter));
    lemma_pending_push(slots, counter, counter, m);
    assert(pending(slots, counter, counter) =~= Seq::<SharedRingMessage>::empty());
    assert(Seq::<SharedRingMessage>::empty().push(m) =~= seq![m]);
}

} // verus!

//! Split virtqueues: a descriptor table, an available ring the driver fills
//! and a used ring the device fills, all in one DMA buffer.

use vstd::prelude::*;
use crate::le::{le_encode, le_decode, put_le, get_le, lemma_byte_scales, lemma_le_decode_bound};
use crate::virtio::dma::DmaMemory;
use crate::virtio::error::{VirtioError, VirtioResult};

verus! {

const DESCRIPTOR_SIZE: usize = 16;
const USED_ELEMENT_SIZE: usize = 8;
const DESCRIPTOR_F_NEXT: u16 = 1;
const DESCRIPTOR_F_WRITE: u16 = 2;

#[derive(Clone, Copy, Debug, PartialEq, Eq, Structural)]
pub struct Descriptor {
    pub address: u64,
    pub length: u32,
    pub device_writable: bool,
}

#[derive(Clone, Copy, Debug, PartialEq, Eq, Structural)]
pub struct UsedDescriptor {
    pub head: u16,
    pub written: u32,
}

#[derive(Clone, Copy, Debug, PartialEq, Eq, Structural)]
pub struct VirtqueueLayout {
    pub descriptor_offset: usize,
    pub available_offset: usize,
    pub used_offset: usize,
    pub total_size: usize,
}

/// Whether `n` is a power of two.
pub open spec fn power_of_two(n: nat) -> bool
    decreases n,
{
    if n == 1 {
        true
    } else if n == 0 || n % 2 != 0 {
        false
    } else {
        power_of_two(n / 2)
    }
}

/// Smallest multiple of `a` that is at least `v`.
pub open spec fn round_up(v: int, a: int) -> int {
    ((v + a - 1) / a) * a
}

/// Byte layout of a split virtqueue of `size` entries: the descriptor table,
/// then the available ring, then the used ring at the next 4-byte boundary.
pub open spec fn layout_of(size: int) -> VirtqueueLayout {
    let descriptor_bytes = size * 16;
    let available_bytes = size * 2 + 6;
    let used_offset = round_up(descriptor_bytes + available_bytes, 4);
    VirtqueueLayout {
        descriptor_offset: 0,
        available_offset: descriptor_bytes as usize,
        used_offset: used_offset as usize,
        total_size: (used_offset + size * 8 + 6) as usize,
    }
}

fn is_power_of_two(size: u16) -> (r: bool)
    ensures
        r == power_of_two(size as nat),
{
    let mut v = size;
    while v > 1 && v % 2 == 0
        invariant
            power_of_two(v as nat) == power_of_two(size as nat),
        decreases v,
    {
        v = v / 2;
    }
    v == 1
}

fn align_up(value: usize, alignment: usize) -> (r: VirtioResult<usize>)
    requires
        alignment > 0,
    ensures
        value + alignment - 1 > usize::MAX ==> r == Err::<usize, VirtioError>(
            VirtioError::ArithmeticOverflow,
        ),
        value + alignment - 1 <= usize::MAX ==> r == Ok::<usize, VirtioError>(
            round_up(value as int, alignment as int) as usize,
        ),
{
    match value.checked_add(alignment - 1) {
        Some(v) => {
            let q = v / alignment;
            assert(q * alignment <= v) by (nonlinear_arith)
                requires
                    q == v / alignment,
                    alignment > 0,
            ;
            Ok(q * alignment)
        },
        None => Err(VirtioError::ArithmeticOverflow),
    }
}

impl VirtqueueLayout {
    /// Layout of a queue of `size` entries; the size must be a power of two of at least 2.
    pub fn calculate(size: u16) -> (r: VirtioResult<Self>)
        ensures
            (size < 2 || !power_of_two(size as nat)) ==> r == Err::<Self, VirtioError>(
                VirtioError::InvalidQueueSize,
            ),
            (size >= 2 && power_of_two(size as nat)) ==> r == Ok::<Self, VirtioError>(
                layout_of(size as int),
            ),
    {
        if size < 2 || !is_power_of_two(size) {
            return Err(VirtioError::InvalidQueueSize);
        }
        let count = size as usize;
        let descriptor_bytes = count * DESCRIPTOR_SIZE;
        let available_bytes = count * 2 + 6;
        let used_offset = match align_up(descriptor_bytes + available_bytes, 4) {
            Ok(v) => v,
            Err(e) => return Err(e),
        };
        let used_bytes = count * USED_ELEMENT_SIZE + 6;
        assert(used_offset <= descriptor_bytes + available_bytes + 3) by (nonlinear_arith)
            requires
                used_offset == ((descriptor_bytes + available_bytes + 3) / 4) * 4,
        ;
        Ok(VirtqueueLayout {
            descriptor_offset: 0,
            available_offset: descriptor_bytes,
            used_offset,
            total_size: used_offset + used_bytes,
        })
    }
}

/// Whether `s` has no repeated element and every element is below `n`.
proof fn lemma_distinct_below_len(s: Seq<u16>, n: int)
    requires
        s.no_duplicates(),
        forall|k: int| 0 <= k < s.len() ==> #[trigger] s[k] < n,
        n >= 0,
    ensures
        s.len() <= n,
{
    let wide = s.map_values(|x: u16| x as int);
    s.lemma_no_duplicates_injective(|x: u16| x as int);
    wide.unique_seq_to_set();
    vstd::set_lib::lemma_int_range(0, n);
    assert forall|x: int| wide.to_set().contains(x) implies vstd::set_lib::set_int_range(0, n).contains(x) by {
        let k = choose|k: int| 0 <= k < wide.len() && wide[k] == x;
        assert(s[k] < n);
    }
    vstd::set_lib::lemma_len_subset(wide.to_set(), vstd::set_lib::set_int_range(0, n));
}

/// Table entry for `d`: address, length, flags and the next index, little-endian.
pub open spec fn descriptor_entry(d: Descriptor, flags: u16, next: u16) -> Seq<u8> {
    le_encode(d.address as nat, 8) + le_encode(d.length as nat, 4) + le_encode(flags as nat, 2)
        + le_encode(next as nat, 2)
}

/// Flags of the `k`-th descriptor of a chain built from `ds`: `NEXT` unless it
/// is the last, `WRITE` when the device may write it.
pub open spec fn chain_flags(ds: Seq<Descriptor>, k: int) -> u16 {
    ((if k + 1 < ds.len() { 1int } else { 0int }) + (if ds[k].device_writable { 2int } else { 0int })) as u16
}

/// Index stored as the `next` field of the `k`-th entry of `chain`.
pub open spec fn chain_next(chain: Seq<u16>, k: int) -> u16 {
    if k + 1 < chain.len() { chain[k + 1] } else { 0 }
}

/// Table entry of descriptor `i` in `bytes`.
pub open spec fn table_entry(bytes: Seq<u8>, i: u16) -> Seq<u8> {
    bytes.subrange(16 * i, 16 * i + 16)
}

/// Whether the first `count` descriptors of `ds` are written to the table
/// entries named by `chain`.
pub open spec fn chain_written(bytes: Seq<u8>, chain: Seq<u16>, ds: Seq<Descriptor>, count: int) -> bool {
    forall|k: int| 0 <= k < count ==> #[trigger] table_entry(bytes, chain[k]) == descriptor_entry(
        ds[k],
        chain_flags(ds, k),
        chain_next(chain, k),
    )
}

/// The `n` descriptors at the end of `free`, in the order they are handed out.
pub open spec fn taken(free: Seq<u16>, n: int) -> Seq<u16> {
    Seq::new(n as nat, |k: int| free[free.len() - 1 - k])
}

/// Split virtqueue over the DMA memory `M`.
pub struct SplitVirtqueue<M> {
    memory: M,
    size: u16,
    layout: VirtqueueLayout,
    free: Vec<u16>,
    next: Vec<Option<u16>>,
    active_heads: Vec<bool>,
    available_index: u16,
    last_used_index: u16,
    /// Descriptor indices of every chain the device owns, by head.
    chains: Ghost<Map<u16, Seq<u16>>>,
    /// Head of the chain each in-flight descriptor belongs to.
    owner: Ghost<Map<u16, u16>>,
}

/// Whether `chain` is a well-formed descriptor chain starting at `head` in a
/// table of `size` entries linked by `next`.
pub open spec fn chain_linked(chain: Seq<u16>, head: u16, next: Seq<Option<u16>>, size: int) -> bool {
    &&& chain.len() >= 1
    &&& chain[0] == head
    &&& chain.no_duplicates()
    &&& forall|k: int| 0 <= k < chain.len() ==> #[trigger] chain[k] < size
    &&& forall|k: int| 0 <= k < chain.len() - 1 ==> next[#[trigger] chain[k] as int] == Some(chain[k + 1])
    &&& next[chain.last() as int] is None
}

impl<M: DmaMemory> SplitVirtqueue<M> {
    pub closed spec fn queue_size(&self) -> u16 {
        self.size
    }

    pub closed spec fn queue_layout(&self) -> VirtqueueLayout {
        self.layout
    }

    pub closed spec fn memory_view(&self) -> M {
        self.memory
    }

    /// Free descriptor indices; the last is handed out first.
    pub closed spec fn free_list(&self) -> Seq<u16> {
        self.free@
    }

    /// Chains the device owns, by head descriptor.
    pub closed spec fn in_flight(&self) -> Map<u16, Seq<u16>> {
        self.chains@
    }

    /// Descriptors that belong to some in-flight chain.
    pub closed spec fn owned(&self) -> Set<u16> {
        self.owner@.dom()
    }

    pub closed spec fn avail_index(&self) -> u16 {
        self.available_index
    }

    pub closed spec fn used_index(&self) -> u16 {
        self.last_used_index
    }

    /// Queue invariant: the layout fits in memory, every descriptor is either
    /// free or part of exactly one in-flight chain, and each chain is linked
    /// through `next` from its head to a terminating entry.
    pub closed spec fn wf(&self) -> bool {
        let size = self.size as int;
        &&& self.size >= 2 && power_of_two(self.size as nat)
        &&& self.layout == layout_of(size)
        &&& self.memory.contents().len() >= self.layout.total_size
        &&& self.next@.len() == size
        &&& self.active_heads@.len() == size
        &&& self.free@.no_duplicates()
        &&& forall|k: int| 0 <= k < self.free@.len() ==> #[trigger] self.free@[k] < size
        &&& forall|i: u16| i < size ==> (self.free@.contains(i) <==> !self.owner@.dom().contains(i))
        &&& forall|i: u16| #[trigger] self.owner@.dom().contains(i) ==> i < size
        &&& forall|h: u16| h < size ==> (self.active_heads@[h as int] <==> self.chains@.dom().contains(h))
        &&& forall|h: u16| #[trigger] self.chains@.dom().contains(h) ==> {
            &&& h < size
            &&& chain_linked(self.chains@[h], h, self.next@, size)
            &&& forall|k: int| 0 <= k < self.chains@[h].len() ==> #[trigger] self.owner@.dom().contains(self.chains@[h][k])
                && self.owner@[self.chains@[h][k]] == h
        }
        &&& forall|i: u16| #[trigger] self.owner@.dom().contains(i) ==> self.chains@.dom().contains(self.owner@[i])
            && self.chains@[self.owner@[i]].contains(i)
    }

    /// Every descriptor of a well-formed queue is either free or part of an
    /// in-flight chain, never both, and no more descriptors are free than the
    /// queue has.
    pub proof fn lemma_descriptors_accounted(&self)
        requires
            self.wf(),
        ensures
            self.free_list().len() <= self.queue_size(),
            forall|i: u16| i < self.queue_size() ==> (#[trigger] self.free_list().contains(i) <==> !exists|h: u16|
                self.in_flight().dom().contains(h) && #[trigger] self.in_flight()[h].contains(i)),
            forall|h: u16| #[trigger] self.in_flight().dom().contains(h) ==> self.in_flight()[h].len() >= 1
                && self.in_flight()[h][0] == h,
    {
        lemma_distinct_below_len(self.free@, self.size as int);
        assert forall|i: u16| i < self.queue_size() implies (#[trigger] self.free_list().contains(i) <==> !exists|h: u16|
            self.in_flight().dom().contains(h) && #[trigger] self.in_flight()[h].contains(i)) by {
            assert(self.free@.contains(i) <==> !self.owner@.dom().contains(i));
            if exists|h: u16| self.in_flight().dom().contains(h) && #[trigger] self.in_flight()[h].contains(i) {
                let h = choose|h: u16| self.in_flight().dom().contains(h) && #[trigger] self.in_flight()[h].contains(i);
                assert(self.chains@.dom().contains(h));
                let k = choose|k: int| 0 <= k < self.chains@[h].len() && self.chains@[h][k] == i;
                assert(self.owner@.dom().contains(self.chains@[h][k]));
                assert(self.owner@.dom().contains(i));
            } else {
                if self.owner@.dom().contains(i) {
                    let h = self.owner@[i];
                    assert(self.chains@.dom().contains(h) && self.chains@[h].contains(i));
                    assert(self.in_flight().dom().contains(h) && self.in_flight()[h].contains(i));
                    assert(false);
                }
            }
        }
        assert forall|h: u16| #[trigger] self.in_flight().dom().contains(h) implies self.in_flight()[h].len() >= 1
            && self.in_flight()[h][0] == h by {
            assert(chain_linked(self.chains@[h], h, self.next@, self.size as int));
        }
    }

    /// A queue of `size` entries in `memory`, with the queue area zeroed and
    /// every descriptor free.
    pub fn new(memory: M, size: u16) -> (r: VirtioResult<Self>)
        ensures
            (size < 2 || !power_of_two(size as nat)) ==> r == Err::<Self, VirtioError>(
                VirtioError::InvalidQueueSize,
            ),
            (size >= 2 && power_of_two(size as nat) && memory.contents().len() < layout_of(
                size as int,
            ).total_size) ==> r matches Err(VirtioError::DmaBufferTooSmall),
            (size >= 2 && power_of_two(size as nat) && memory.contents().len() >= layout_of(
                size as int,
            ).total_size) ==> (r matches Ok(q) && {
                let total = layout_of(size as int).total_size as int;
                &&& q.wf()
                &&& q.queue_size() == size
                &&& q.queue_layout() == layout_of(size as int)
                &&& q.free_list() == Seq::new(size as nat, |k: int| (size - 1 - k) as u16)
                &&& q.in_flight() == Map::<u16, Seq<u16>>::empty()
                &&& q.avail_index() == 0 && q.used_index() == 0
                &&& q.memory_view().bus_address() == memory.bus_address()
                &&& q.memory_view().contents().len() == memory.contents().len()
                &&& forall|j: int| 0 <= j < total ==> q.memory_view().contents()[j] == 0
                &&& forall|j: int| total <= j < memory.contents().len() ==> q.memory_view().contents()[j] == memory.contents()[j]
            }),
    {
        let layout = match VirtqueueLayout::calculate(size) {
            Ok(l) => l,
            Err(e) => return Err(e),
        };
        let mut memory = memory;
        if memory.len() < layout.total_size {
            return Err(VirtioError::DmaBufferTooSmall);
        }
        let ghost original = memory.contents();
        let ghost address = memory.bus_address();
        let bytes = memory.bytes_mut();
        let mut i: usize = 0;
        while i < layout.total_size
            invariant
                i <= layout.total_size,
                layout.total_size <= bytes@.len(),
                bytes@.len() == original.len(),
                forall|j: int| 0 <= j < i ==> bytes@[j] == 0,
                forall|j: int| layout.total_size <= j < original.len() ==> bytes@[j] == original[j],
            decreases layout.total_size - i,
        {
            bytes[i] = 0;
            i = i + 1;
        }
        let mut free: Vec<u16> = Vec::new();
        let mut k: u16 = size;
        while k > 0
            invariant
                k <= size,
                free@ == Seq::new((size - k) as nat, |j: int| (size - 1 - j) as u16),
            decreases k,
        {
            k = k - 1;
            free.push(k);
            assert(free@ =~= Seq::new((size - k) as nat, |j: int| (size - 1 - j) as u16));
        }
        let next: Vec<Option<u16>> = vec![None; size as usize];
        let active_heads: Vec<bool> = vec![false; size as usize];
        let q = SplitVirtqueue {
            memory,
            size,
            layout,
            free,
            next,
            active_heads,
            available_index: 0,
            last_used_index: 0,
            chains: Ghost(Map::empty()),
            owner: Ghost(Map::empty()),
        };
        proof {
            assert(q.free@.no_duplicates());
            assert forall|i: u16| i < size implies q.free@.contains(i) by {
                assert(q.free@[size - 1 - i] == i);
            }
        }
        Ok(q)
    }

    pub fn size(&self) -> (r: u16)
        ensures
            r == self.queue_size(),
    {
        self.size
    }

    pub fn layout(&self) -> (r: VirtqueueLayout)
        ensures
            r == self.queue_layout(),
    {
        self.layout
    }

    pub fn memory(&self) -> (r: &M)
        ensures
            *r == self.memory_view(),
    {
        &self.memory
    }

    /// Direct access to the queue memory, for inspecting what the device wrote.
    /// The queue's own bookkeeping is left as it was.
    pub fn memory_mut(&mut self) -> (r: &mut M)
        ensures
            *r == old(self).memory_view(),
            final(self).memory_view() == *final(r),
            final(self).queue_size() == old(self).queue_size(),
            final(self).free_list() == old(self).free_list(),
            final(self).in_flight() == old(self).in_flight(),
    {
        &mut self.memory
    }

    pub fn free_descriptor_count(&self) -> (r: usize)
        ensures
            r == self.free_list().len(),
    {
        self.free.len()
    }

    fn address_at(&self, offset: usize) -> (r: VirtioResult<u64>)
        ensures
            self.memory.bus_address() + offset > u64::MAX ==> r == Err::<u64, VirtioError>(
                VirtioError::ArithmeticOverflow,
            ),
            self.memory.bus_address() + offset <= u64::MAX ==> r == Ok::<u64, VirtioError>(
                (self.memory.bus_address() + offset) as u64,
            ),
    {
        match self.memory.device_address().checked_add(offset as u64) {
            Some(a) => Ok(a),
            None => Err(VirtioError::ArithmeticOverflow),
        }
    }

    /// Bus address of the descriptor table.
    pub fn descriptor_address(&self) -> (r: VirtioResult<u64>)
        ensures
            self.memory_view().bus_address() + self.queue_layout().descriptor_offset > u64::MAX
                ==> r == Err::<u64, VirtioError>(VirtioError::ArithmeticOverflow),
            self.memory_view().bus_address() + self.queue_layout().descriptor_offset <= u64::MAX
                ==> r == Ok::<u64, VirtioError>(
                (self.memory_view().bus_address() + self.queue_layout().descriptor_offset) as u64,
            ),
    {
        self.address_at(self.layout.descriptor_offset)
    }

    /// Bus address of the available ring.
    pub fn available_address(&self) -> (r: VirtioResult<u64>)
        ensures
            self.memory_view().bus_address() + self.queue_layout().available_offset > u64::MAX
                ==> r == Err::<u64, VirtioError>(VirtioError::ArithmeticOverflow),
            self.memory_view().bus_address() + self.queue_layout().available_offset <= u64::MAX
                ==> r == Ok::<u64, VirtioError>(
                (self.memory_view().bus_address() + self.queue_layout().available_offset) as u64,
            ),
    {
        self.address_at(self.layout.available_offset)
    }

    /// Bus address of the used ring.
    pub fn used_address(&self) -> (r: VirtioResult<u64>)
        ensures
            self.memory_view().bus_address() + self.queue_layout().used_offset > u64::MAX
                ==> r == Err::<u64, VirtioError>(VirtioError::ArithmeticOverflow),
            self.memory_view().bus_address() + self.queue_layout().used_offset <= u64::MAX
                ==> r == Ok::<u64, VirtioError>(
                (self.memory_view().bus_address() + self.queue_layout().used_offset) as u64,
            ),
    {
        self.address_at(self.layout.used_offset)
    }

    fn read_u16(&self, offset: usize) -> (r: VirtioResult<u16>)
        requires
            offset + 2 <= usize::MAX,
        ensures
            offset + 2 > self.memory.contents().len() ==> r == Err::<u16, VirtioError>(
                VirtioError::DmaBufferTooSmall,
            ),
            offset + 2 <= self.memory.contents().len() ==> r == Ok::<u16, VirtioError>(
                le_decode(self.memory.contents().subrange(offset as int, offset + 2)) as u16,
            ),
    {
        let bytes = self.memory.bytes();
        if offset + 2 > bytes.len() {
            return Err(VirtioError::DmaBufferTooSmall);
        }
        proof {
            lemma_byte_scales();
            lemma_le_decode_bound(bytes@.subrange(offset as int, offset + 2));
        }
        Ok(get_le(bytes, offset, 2) as u16)
    }

    fn read_u32(&self, offset: usize) -> (r: VirtioResult<u32>)
        requires
            offset + 4 <= usize::MAX,
        ensures
            offset + 4 > self.memory.contents().len() ==> r == Err::<u32, VirtioError>(
                VirtioError::DmaBufferTooSmall,
            ),
            offset + 4 <= self.memory.contents().len() ==> r == Ok::<u32, VirtioError>(
                le_decode(self.memory.contents().subrange(offset as int, offset + 4)) as u32,
            ),
    {
        let bytes = self.memory.bytes();
        if offset + 4 > bytes.len() {
            return Err(VirtioError::DmaBufferTooSmall);
        }
        proof {
            lemma_byte_scales();
            lemma_le_decode_bound(bytes@.subrange(offset as int, offset + 4));
        }
        Ok(get_le(bytes, offset, 4) as u32)
    }

    /// Offsets of the three rings all lie inside the queue memory.
    proof fn lemma_layout_bounds(&self)
        requires
            self.wf(),
        ensures
            self.layout.available_offset == 16 * self.size,
            self.layout.available_offset + 2 * self.size + 6 <= self.layout.used_offset,
            self.layout.used_offset + 8 * self.size + 6 == self.layout.total_size,
            self.layout.total_size <= self.memory.contents().len(),
            self.layout.used_offset % 4 == 0,
    {
        let v = 16 * self.size + 2 * self.size + 6;
        assert(round_up(v, 4) >= v && round_up(v, 4) % 4 == 0) by (nonlinear_arith)
            requires
                v >= 0,
        ;
    }

    fn write_descriptor(&mut self, index: u16, descriptor: Descriptor, flags: u16, next: u16) -> (r: VirtioResult<()>)
        requires
            16 * index + 16 <= old(self).memory.contents().len(),
        ensures
            r is Ok,
            final(self).memory.contents().len() == old(self).memory.contents().len(),
            table_entry(final(self).memory.contents(), index) == descriptor_entry(descriptor, flags, next),
            forall|j: int| 0 <= j < old(self).memory.contents().len() && !(16 * index <= j < 16 * index + 16)
                ==> #[trigger] final(self).memory.contents()[j] == old(self).memory.contents()[j],
            final(self).memory.bus_address() == old(self).memory.bus_address(),
            final(self).size == old(self).size,
            final(self).layout == old(self).layout,
            final(self).free == old(self).free,
            final(self).next == old(self).next,
            final(self).active_heads == old(self).active_heads,
            final(self).available_index == old(self).available_index,
            final(self).last_used_index == old(self).last_used_index,
            final(self).chains == old(self).chains,
            final(self).owner == old(self).owner,
    {
        let ghost before = self.memory.contents();
        let offset = match (index as usize).checked_mul(DESCRIPTOR_SIZE) {
            Some(o) => o,
            None => return Err(VirtioError::ArithmeticOverflow),
        };
        let _ = self.write_le(offset, descriptor.address, 8);
        let _ = self.write_le(offset + 8, descriptor.length as u64, 4);
        let _ = self.write_le(offset + 12, flags as u64, 2);
        let _ = self.write_le(offset + 14, next as u64, 2);
        proof {
            let after = self.memory.contents();
            assert(table_entry(after, index) =~= descriptor_entry(descriptor, flags, next)) by {
                crate::le::lemma_le_encode_len(descriptor.address as nat, 8);
                crate::le::lemma_le_encode_len(descriptor.length as nat, 4);
                crate::le::lemma_le_encode_len(flags as nat, 2);
                crate::le::lemma_le_encode_len(next as nat, 2);
            }
        }
        Ok(())
    }

    /// Adding the chain taken from the end of the free list to the in-flight
    /// chains, with its links written into `next`, keeps the queue invariant.
    proof fn lemma_chain_added(old_q: Self, new_q: Self, chain: Seq<u16>, n: int)
        requires
            old_q.wf(),
            1 <= n <= old_q.free@.len(),
            chain == taken(old_q.free@, n),
            new_q.size == old_q.size,
            new_q.layout == old_q.layout,
            new_q.memory.contents().len() == old_q.memory.contents().len(),
            new_q.free@ == old_q.free@.take(old_q.free@.len() - n),
            new_q.next@.len() == old_q.next@.len(),
            forall|q: int| 0 <= q < n ==> new_q.next@[#[trigger] chain[q] as int] == (
                if q + 1 < n { Some(chain[q + 1]) } else { None::<u16> }),
            forall|j: int| 0 <= j < old_q.next@.len() && !chain.contains(j as u16)
                ==> #[trigger] new_q.next@[j] == old_q.next@[j],
            new_q.active_heads@ == old_q.active_heads@.update(chain[0] as int, true),
            new_q.chains@ == old_q.chains@.insert(chain[0], chain),
            new_q.owner@ == Map::new(
                |i: u16| old_q.owner@.dom().contains(i) || chain.contains(i),
                |i: u16| if chain.contains(i) { chain[0] } else { old_q.owner@[i] },
            ),
        ensures
            new_q.wf(),
    {
        let size = old_q.size as int;
        let free = old_q.free@;
        let len = free.len() as int;
        let head = chain[0];
        assert forall|q: int| 0 <= q < n implies #[trigger] chain[q] == free[len - 1 - q]
            && chain[q] < size && free.contains(chain[q]) && !old_q.owner@.dom().contains(chain[q]) by {
            assert(free[len - 1 - q] == chain[q]);
        }
        assert(chain.no_duplicates()) by {
            assert forall|x: int, y: int| 0 <= x < y < chain.len() implies chain[x] != chain[y] by {
                assert(free[len - 1 - x] != free[len - 1 - y]);
            }
        }
        assert(!old_q.chains@.dom().contains(head)) by {
            if old_q.chains@.dom().contains(head) {
                assert(old_q.chains@[head][0] == head);
                assert(old_q.owner@.dom().contains(old_q.chains@[head][0]));
            }
        }
        let new_free = new_q.free@;
        assert forall|p: int| 0 <= p < new_free.len() implies !chain.contains(#[trigger] new_free[p]) by {
            if chain.contains(new_free[p]) {
                let q = choose|q: int| 0 <= q < chain.len() && chain[q] == new_free[p];
                assert(free[p] == free[len - 1 - q]);
            }
        }
        assert(new_free.no_duplicates()) by {
            assert forall|x: int, y: int| 0 <= x < y < new_free.len() implies new_free[x] != new_free[y] by {
                assert(free[x] != free[y]);
            }
        }
        assert forall|k: int| 0 <= k < new_free.len() implies #[trigger] new_free[k] < size by {
            assert(free[k] < size);
        }
        assert forall|i: u16| i < size implies (new_free.contains(i) <==> !new_q.owner@.dom().contains(i)) by {
            if new_free.contains(i) {
                let p = choose|p: int| 0 <= p < new_free.len() && new_free[p] == i;
                assert(free[p] == i);
                assert(free.contains(i));
                assert(!chain.contains(i));
            }
            if !new_q.owner@.dom().contains(i) {
                assert(!old_q.owner@.dom().contains(i));
                assert(free.contains(i));
                let p = choose|p: int| 0 <= p < len && free[p] == i;
                if p >= len - n {
                    assert(chain[len - 1 - p] == i);
                }
                assert(new_free[p] == i);
            }
        }
        assert forall|i: u16| #[trigger] new_q.owner@.dom().contains(i) implies i < size by {
            if chain.contains(i) {
                let q = choose|q: int| 0 <= q < chain.len() && chain[q] == i;
                assert(chain[q] < size);
            }
        }
        assert forall|h: u16| h < size implies (new_q.active_heads@[h as int] <==> new_q.chains@.dom().contains(h)) by {
            if h != head {
                assert(old_q.active_heads@[h as int] <==> old_q.chains@.dom().contains(h));
            }
        }
        assert forall|h: u16| #[trigger] new_q.chains@.dom().contains(h) implies {
            &&& h < size
            &&& chain_linked(new_q.chains@[h], h, new_q.next@, size)
            &&& forall|k: int| 0 <= k < new_q.chains@[h].len() ==> #[trigger] new_q.owner@.dom().contains(new_q.chains@[h][k])
                && new_q.owner@[new_q.chains@[h][k]] == h
        } by {
            if h == head {
                assert(new_q.chains@[h] == chain);
                assert forall|k: int| 0 <= k < chain.len() - 1 implies new_q.next@[#[trigger] chain[k] as int] == Some(chain[k + 1]) by {}
                assert(new_q.next@[chain.last() as int] is None);
                assert forall|k: int| 0 <= k < chain.len() implies #[trigger] new_q.owner@.dom().contains(chain[k])
                    && new_q.owner@[chain[k]] == h by {
                    assert(chain.contains(chain[k]));
                }
            } else {
                let c = old_q.chains@[h];
                assert(old_q.chains@.dom().contains(h));
                assert(new_q.chains@[h] == c);
                assert forall|k: int| 0 <= k < c.len() implies !chain.contains(#[trigger] c[k]) by {
                    assert(old_q.owner@.dom().contains(c[k]));
                    if chain.contains(c[k]) {
                        let q = choose|q: int| 0 <= q < chain.len() && chain[q] == c[k];
                        assert(!old_q.owner@.dom().contains(chain[q]));
                    }
                }
                assert forall|k: int| 0 <= k < c.len() implies new_q.next@[#[trigger] c[k] as int] == old_q.next@[c[k] as int] by {
                    assert(!chain.contains(c[k]));
                    assert(c[k] < size);
                }
                assert forall|k: int| 0 <= k < c.len() implies #[trigger] new_q.owner@.dom().contains(c[k])
                    && new_q.owner@[c[k]] == h by {
                    assert(!chain.contains(c[k]));
                    assert(old_q.owner@.dom().contains(c[k]));
                }
                assert(chain_linked(c, h, new_q.next@, size)) by {
                    assert(!chain.contains(c.last()));
                    assert(c.last() == c[c.len() - 1]);
                }
            }
        }
        assert forall|i: u16| #[trigger] new_q.owner@.dom().contains(i) implies new_q.chains@.dom().contains(new_q.owner@[i])
            && new_q.chains@[new_q.owner@[i]].contains(i) by {
            if !chain.contains(i) {
                let h = old_q.owner@[i];
                assert(old_q.chains@.dom().contains(h));
                assert(h != head);
            }
        }
    }

    /// Hands the device a chain of `descriptors` and returns its head index.
    pub fn enqueue(&mut self, descriptors: &[Descriptor]) -> (r: VirtioResult<u16>)
        requires
            old(self).wf(),
        ensures
            final(self).wf(),
            final(self).queue_size() == old(self).queue_size(),
            final(self).queue_layout() == old(self).queue_layout(),
            final(self).used_index() == old(self).used_index(),
            (descriptors@.len() == 0 || exists|k: int| 0 <= k < descriptors@.len() && descriptors@[k].length == 0)
                ==> r == Err::<u16, VirtioError>(VirtioError::InvalidDescriptor)
                && final(self).free_list() == old(self).free_list()
                && final(self).in_flight() == old(self).in_flight()
                && final(self).avail_index() == old(self).avail_index()
                && final(self).memory_view() == old(self).memory_view(),
            (descriptors@.len() != 0 && (forall|k: int| 0 <= k < descriptors@.len() ==> descriptors@[k].length != 0)
                && descriptors@.len() > old(self).free_list().len())
                ==> r == Err::<u16, VirtioError>(VirtioError::QueueFull)
                && final(self).free_list() == old(self).free_list()
                && final(self).in_flight() == old(self).in_flight()
                && final(self).avail_index() == old(self).avail_index()
                && final(self).memory_view() == old(self).memory_view(),
            (descriptors@.len() != 0 && (forall|k: int| 0 <= k < descriptors@.len() ==> descriptors@[k].length != 0)
                && descriptors@.len() <= old(self).free_list().len()) ==> {
                let n = descriptors@.len() as int;
                let free = old(self).free_list();
                let chain = taken(free, n);
                let bytes = final(self).memory_view().contents();
                let avail = old(self).queue_layout().available_offset;
                let slot = old(self).avail_index() % old(self).queue_size();
                &&& (r matches Ok(h) ==> h == chain[0])
                &&& final(self).free_list() == free.take(free.len() - n)
                &&& final(self).in_flight() == old(self).in_flight().insert(chain[0], chain)
                &&& final(self).avail_index() == (if old(self).avail_index() == u16::MAX { 0 } else { old(self).avail_index() + 1 })
                &&& chain_written(bytes, chain, descriptors@, n)
                &&& bytes.subrange(avail + 4 + 2 * slot, avail + 6 + 2 * slot) == le_encode(chain[0] as nat, 2)
                &&& bytes.subrange(avail + 2, avail + 4) == le_encode(final(self).avail_index() as nat, 2)
                &&& final(self).memory_view().bus_address() == old(self).memory_view().bus_address()
            },
    {
        let n = descriptors.len();
        if n == 0 {
            return Err(VirtioError::InvalidDescriptor);
        }
        let mut k: usize = 0;
        let mut valid = true;
        while k < n
            invariant
                k <= n,
                n == descriptors@.len(),
                valid <==> forall|q: int| 0 <= q < k ==> descriptors@[q].length != 0,
            decreases n - k,
        {
            if descriptors[k].length == 0 {
                valid = false;
            }
            k = k + 1;
        }
        if !valid {
            return Err(VirtioError::InvalidDescriptor);
        }
        if n > self.free.len() {
            return Err(VirtioError::QueueFull);
        }
        proof {
            self.lemma_layout_bounds();
        }
        let ghost old_free = self.free@;
        let ghost old_next = self.next@;
        let ghost old_chains = self.chains@;
        let ghost old_owner = self.owner@;
        let ghost chain = taken(old_free, n as int);
        let head = self.free[self.free.len() - 1];
        if self.active_heads[head as usize] {
            proof {
                assert(old_free[old_free.len() - 1] == head);
                assert(old_free.contains(head));
                assert(head < self.size);
                assert(!old_owner.dom().contains(head));
                assert(old_chains.dom().contains(head));
                assert(chain_linked(old_chains[head], head, old_next, self.size as int));
                assert(old_chains[head][0] == head);
                assert(old_owner.dom().contains(old_chains[head][0]));
            }
            return Err(VirtioError::InvalidDescriptor);
        }
        let mut allocated: Vec<u16> = Vec::new();
        let mut a: usize = 0;
        while a < n
            invariant
                a <= n,
                n <= old_free.len(),
                self.free@ == old_free.take(old_free.len() - a),
                allocated@ == chain.take(a as int),
                chain == taken(old_free, n as int),
                self.memory == old(self).memory,
                self.size == old(self).size,
                self.layout == old(self).layout,
                self.next == old(self).next,
                self.active_heads == old(self).active_heads,
                self.available_index == old(self).available_index,
                self.last_used_index == old(self).last_used_index,
                self.chains == old(self).chains,
                self.owner == old(self).owner,
            decreases n - a,
        {
            let index = match self.free.pop() {
                Some(i) => i,
                None => 0,
            };
            allocated.push(index);
            a = a + 1;
            proof {
                assert(allocated@ =~= chain.take(a as int));
                assert(self.free@ =~= old_free.take(old_free.len() - a));
            }
        }
        assert(allocated@ =~= chain);
        proof {
            assert(chain.no_duplicates()) by {
                assert forall|x: int, y: int| 0 <= x < y < chain.len() implies chain[x] != chain[y] by {
                    assert(old_free[old_free.len() - 1 - x] != old_free[old_free.len() - 1 - y]);
                }
            }
            assert forall|q: int| 0 <= q < chain.len() implies #[trigger] chain[q] < self.size && old_free.contains(chain[q]) && !old_owner.dom().contains(chain[q]) by {
                assert(old_free[old_free.len() - 1 - q] == chain[q]);
            }
        }
        let mut position: usize = 0;
        while position < n
            invariant
                position <= n,
                n == descriptors@.len(),
                n <= old_free.len(),
                allocated@ == chain,
                chain.len() == n,
                chain.no_duplicates(),
                forall|q: int| 0 <= q < chain.len() ==> #[trigger] chain[q] < self.size,
                self.free@ == old_free.take(old_free.len() - n),
                self.size == old(self).size,
                self.layout == old(self).layout,
                self.layout.available_offset == 16 * self.size,
                self.layout.total_size <= self.memory.contents().len(),
                self.layout.available_offset <= self.layout.total_size,
                self.memory.contents().len() == old(self).memory.contents().len(),
                self.memory.bus_address() == old(self).memory.bus_address(),
                self.active_heads == old(self).active_heads,
                self.available_index == old(self).available_index,
                self.last_used_index == old(self).last_used_index,
                self.chains == old(self).chains,
                self.owner == old(self).owner,
                self.next@.len() == old_next.len(),
                old_next.len() == self.size,
                forall|q: int| 0 <= q < position ==> self.next@[#[trigger] chain[q] as int] == (
                    if q + 1 < n { Some(chain[q + 1]) } else { None::<u16> }),
                forall|j: int| 0 <= j < old_next.len() && !chain.take(position as int).contains(j as u16)
                    ==> #[trigger] self.next@[j] == old_next[j],
                chain_written(self.memory.contents(), chain, descriptors@, position as int),
            decreases n - position,
        {
            let index = allocated[position];
            let following: Option<u16> = if position + 1 < n { Some(allocated[position + 1]) } else { None };
            self.next.set(index as usize, following);
            let mut flags: u16 = 0;
            if following.is_some() {
                flags = flags + DESCRIPTOR_F_NEXT;
            }
            if descriptors[position].device_writable {
                flags = flags + DESCRIPTOR_F_WRITE;
            }
            let next_index = match following {
                Some(f) => f,
                None => 0,
            };
            let ghost before = self.memory.contents();
            let _ = self.write_descriptor(index, descriptors[position], flags, next_index);
            proof {
                assert forall|q: int| 0 <= q < position + 1 implies #[trigger] table_entry(self.memory.contents(), chain[q]) == descriptor_entry(descriptors@[q], chain_flags(descriptors@, q), chain_next(chain, q)) by {
                    if q < position {
                        assert(chain[q] != index);
                        assert(table_entry(self.memory.contents(), chain[q]) =~= table_entry(before, chain[q]));
                    }
                }
                assert forall|q: int| 0 <= q < position + 1 implies self.next@[#[trigger] chain[q] as int] == (
                    if q + 1 < n { Some(chain[q + 1]) } else { None::<u16> }) by {
                    if q < position {
                        assert(chain[q] != index);
                    }
                }
                let done = chain.take(position + 1);
                assert(done =~= chain.take(position as int).push(index));
                assert forall|j: int| 0 <= j < old_next.len() && !done.contains(j as u16)
                    implies #[trigger] self.next@[j] == old_next[j] by {
                    if j == index as int {
                        assert(done[position as int] == index);
                    } else if chain.take(position as int).contains(j as u16) {
                        let m = choose|m: int| 0 <= m < position && chain.take(position as int)[m] == j as u16;
                        assert(done[m] == j as u16);
                    }
                }
            }
            position = position + 1;
        }
        self.active_heads.set(head as usize, true);
        proof {
            let new_owner = Map::new(|i: u16| old_owner.dom().contains(i) || chain.contains(i), |i: u16| if chain.contains(i) { chain[0] } else { old_owner[i] });
            self.owner@ = new_owner;
            self.chains@ = old_chains.insert(head, chain);
            assert(chain.take(n as int) =~= chain);
            assert(chain[0] == head) by {
                assert(old_free[old_free.len() - 1] == head);
            }
            Self::lemma_chain_added(*old(self), *self, chain, n as int);
        }
        let slot = (self.available_index % self.size) as usize;
        let ring_offset = self.layout.available_offset + 4 + slot * 2;
        let ghost descriptors_done = self.memory.contents();
        let _ = self.write_le(ring_offset, head as u64, 2);
        self.available_index = self.available_index.wrapping_add(1);
        let ghost slot_done = self.memory.contents();
        let _ = self.write_le(self.layout.available_offset + 2, self.available_index as u64, 2);
        proof {
            let bytes = self.memory.contents();
            assert forall|q: int| 0 <= q < n implies #[trigger] table_entry(bytes, chain[q]) == descriptor_entry(descriptors@[q], chain_flags(descriptors@, q), chain_next(chain, q)) by {
                assert(table_entry(bytes, chain[q]) =~= table_entry(descriptors_done, chain[q]));
            }
            assert(bytes.subrange(ring_offset as int, ring_offset + 2) =~= slot_done.subrange(ring_offset as int, ring_offset + 2));
        }
        match self.memory.sync_for_device() {
            Ok(()) => {},
            Err(e) => return Err(e),
        }
        Ok(head)
    }

    /// Index the device has published in the used ring.
    pub open spec fn device_index(&self) -> u16 {
        le_decode(self.memory_view().contents().subrange(
            self.queue_layout().used_offset + 2,
            self.queue_layout().used_offset + 4,
        )) as u16
    }

    /// Number of used entries the device has published and the driver has not taken.
    pub open spec fn pending_used(&self) -> int {
        (self.device_index() - self.used_index() + 0x10000) % 0x10000
    }

    /// Offset of the next used-ring entry the driver will take.
    pub open spec fn next_used_offset(&self) -> int {
        self.queue_layout().used_offset + 4 + (self.used_index() % self.queue_size()) * 8
    }

    /// Head index stored in the next used-ring entry.
    pub open spec fn next_used_head(&self) -> nat {
        le_decode(self.memory_view().contents().subrange(self.next_used_offset(), self.next_used_offset() + 4))
    }

    /// Byte count stored in the next used-ring entry.
    pub open spec fn next_used_written(&self) -> nat {
        le_decode(self.memory_view().contents().subrange(self.next_used_offset() + 4, self.next_used_offset() + 8))
    }

    /// Whether the next used entry names a chain the device owns.
    pub open spec fn next_used_valid(&self) -> bool {
        &&& self.next_used_head() <= u16::MAX
        &&& self.next_used_head() < self.queue_size()
        &&& self.in_flight().dom().contains(self.next_used_head() as u16)
    }

    /// Whether `after` is `before` with nothing changed.
    pub open spec fn unchanged(before: &Self, after: &Self) -> bool {
        &&& after.queue_size() == before.queue_size()
        &&& after.queue_layout() == before.queue_layout()
        &&& after.memory_view() == before.memory_view()
        &&& after.free_list() == before.free_list()
        &&& after.in_flight() == before.in_flight()
        &&& after.avail_index() == before.avail_index()
        &&& after.used_index() == before.used_index()
    }

    /// Takes the next completed chain once the device's writes are visible:
    /// `synced` is the outcome of making them visible. The chain's
    /// descriptors return to the free list in chain order.
    pub fn take_used(&mut self, synced: VirtioResult<()>) -> (r: VirtioResult<Option<UsedDescriptor>>)
        requires
            old(self).wf(),
        ensures
            final(self).wf(),
            synced is Err ==> r == Err::<Option<UsedDescriptor>, VirtioError>(synced->Err_0)
                && Self::unchanged(old(self), final(self)),
            synced is Ok && old(self).pending_used() == 0 ==> r == Ok::<Option<UsedDescriptor>, VirtioError>(None)
                && Self::unchanged(old(self), final(self)),
            synced is Ok && old(self).pending_used() > old(self).queue_size() ==> r == Err::<Option<UsedDescriptor>, VirtioError>(
                VirtioError::InvalidUsedIndex,
            ) && Self::unchanged(old(self), final(self)),
            synced is Ok && 0 < old(self).pending_used() <= old(self).queue_size() && !old(self).next_used_valid()
                ==> r == Err::<Option<UsedDescriptor>, VirtioError>(VirtioError::InvalidUsedIndex)
                && Self::unchanged(old(self), final(self)),
            synced is Ok && 0 < old(self).pending_used() <= old(self).queue_size() && old(self).next_used_valid() ==> {
                let head = old(self).next_used_head() as u16;
                &&& r == Ok::<Option<UsedDescriptor>, VirtioError>(Some(UsedDescriptor {
                    head,
                    written: old(self).next_used_written() as u32,
                }))
                &&& final(self).free_list() == old(self).free_list() + old(self).in_flight()[head]
                &&& final(self).in_flight() == old(self).in_flight().remove(head)
                &&& final(self).used_index() == (if old(self).used_index() == u16::MAX { 0 } else { old(self).used_index() + 1 })
                &&& final(self).queue_size() == old(self).queue_size()
                &&& final(self).queue_layout() == old(self).queue_layout()
                &&& final(self).memory_view() == old(self).memory_view()
                &&& final(self).avail_index() == old(self).avail_index()
            },
    {
        if let Err(e) = synced {
            return Err(e);
        }
        proof {
            self.lemma_layout_bounds();
        }
        let device_index = match self.read_u16(self.layout.used_offset + 2) {
            Ok(v) => v,
            Err(e) => return Err(e),
        };
        let pending = device_index.wrapping_sub(self.last_used_index);
        assert(pending == self.pending_used());
        if pending == 0 {
            return Ok(None);
        }
        if pending > self.size {
            return Err(VirtioError::InvalidUsedIndex);
        }
        let slot = (self.last_used_index % self.size) as usize;
        assert(slot * 8 <= 8 * self.size - 8) by (nonlinear_arith)
            requires
                slot < self.size,
        ;
        let element_offset = self.layout.used_offset + 4 + slot * USED_ELEMENT_SIZE;
        assert(element_offset == old(self).next_used_offset());
        proof {
            lemma_byte_scales();
            lemma_le_decode_bound(self.memory.contents().subrange(element_offset as int, element_offset + 4));
            lemma_le_decode_bound(self.memory.contents().subrange(element_offset + 4, element_offset + 8));
        }
        let raw_head = match self.read_u32(element_offset) {
            Ok(v) => v,
            Err(e) => return Err(e),
        };
        if raw_head > 0xffff {
            return Err(VirtioError::InvalidUsedIndex);
        }
        let head = raw_head as u16;
        if head >= self.size || !self.active_heads[head as usize] {
            return Err(VirtioError::InvalidUsedIndex);
        }
        let written = match self.read_u32(element_offset + 4) {
            Ok(v) => v,
            Err(e) => return Err(e),
        };
        match self.release_chain(head) {
            Ok(()) => {},
            Err(e) => return Err(e),
        }
        self.last_used_index = self.last_used_index.wrapping_add(1);
        assert(self.wf());
        Ok(Some(UsedDescriptor { head, written }))
    }

    /// Takes the next chain the device has completed, if there is one.
    pub fn pop_used(&mut self) -> (r: VirtioResult<Option<UsedDescriptor>>)
        requires
            old(self).wf(),
        ensures
            final(self).wf(),
            r matches Ok(Some(u)) ==> {
                &&& old(self).pending_used() > 0
                &&& old(self).next_used_valid()
                &&& u.head == old(self).next_used_head()
                &&& u.written == old(self).next_used_written() as u32
                &&& final(self).free_list() == old(self).free_list() + old(self).in_flight()[u.head]
                &&& final(self).in_flight() == old(self).in_flight().remove(u.head)
                &&& final(self).used_index() == (if old(self).used_index() == u16::MAX { 0 } else { old(self).used_index() + 1 })
                &&& final(self).queue_size() == old(self).queue_size()
                &&& final(self).queue_layout() == old(self).queue_layout()
                &&& final(self).memory_view() == old(self).memory_view()
                &&& final(self).avail_index() == old(self).avail_index()
            },
            r matches Ok(None) ==> old(self).pending_used() == 0 && Self::unchanged(old(self), final(self)),
            r is Err ==> Self::unchanged(old(self), final(self)),
    {
        let synced = self.memory.sync_for_cpu();
        self.take_used(synced)
    }

    /// Polls until the device completes the chain starting at `head`, calling
    /// `poll` between rounds, at most `max_polls` rounds. Chains completed
    /// before it are taken and released on the way.
    pub fn wait_for_used(&mut self, head: u16, max_polls: u32, poll: impl Fn()) -> (r: VirtioResult<UsedDescriptor>)
        requires
            old(self).wf(),
            call_requires(poll, ()),
        ensures
            final(self).wf(),
            (head >= old(self).queue_size() || !old(self).in_flight().dom().contains(head))
                ==> r == Err::<UsedDescriptor, VirtioError>(VirtioError::InvalidDescriptor)
                && Self::unchanged(old(self), final(self)),
            head < old(self).queue_size() && old(self).in_flight().dom().contains(head) && max_polls == 0
                ==> r == Err::<UsedDescriptor, VirtioError>(VirtioError::CommandTimeout)
                && Self::unchanged(old(self), final(self)),
            r matches Ok(u) ==> u.head == head && !final(self).in_flight().dom().contains(head),
            r == Err::<UsedDescriptor, VirtioError>(VirtioError::CommandTimeout) ==> {
                &&& head < old(self).queue_size()
                &&& final(self).in_flight().dom().contains(head)
                &&& final(self).in_flight()[head] == old(self).in_flight()[head]
            },
            old(self).pending_used() == 0 ==> Self::unchanged(old(self), final(self)),
            final(self).in_flight().dom().subset_of(old(self).in_flight().dom()),
            forall|h: u16| #[trigger] final(self).in_flight().dom().contains(h)
                ==> old(self).in_flight().dom().contains(h) && final(self).in_flight()[h] == old(self).in_flight()[h],
            final(self).queue_size() == old(self).queue_size(),
            final(self).queue_layout() == old(self).queue_layout(),
            final(self).avail_index() == old(self).avail_index(),
    {
        if head >= self.size || !self.active_heads[head as usize] {
            return Err(VirtioError::InvalidDescriptor);
        }
        let ghost start = *self;
        let mut round: u32 = 0;
        while round < max_polls
            invariant
                self.wf(),
                call_requires(poll, ()),
                start.wf(),
                self.size == start.size,
                self.layout == start.layout,
                self.available_index == start.available_index,
                head < self.size,
                self.chains@.dom().contains(head),
                self.chains@.dom().subset_of(start.chains@.dom()),
                forall|h: u16| #[trigger] self.chains@.dom().contains(h) ==> self.chains@[h] == start.chains@[h],
                round <= max_polls,
                start == *old(self),
                round == 0 ==> Self::unchanged(&start, self),
                start.pending_used() == 0 ==> Self::unchanged(&start, self),
            decreases max_polls - round,
        {
            loop
                invariant
                    self.wf(),
                    start.wf(),
                    self.size == start.size,
                    self.layout == start.layout,
                    self.available_index == start.available_index,
                    head < self.size,
                    self.chains@.dom().contains(head),
                    self.chains@.dom().subset_of(start.chains@.dom()),
                    forall|h: u16| #[trigger] self.chains@.dom().contains(h) ==> self.chains@[h] == start.chains@[h],
                    round < max_polls,
                    start == *old(self),
                    start.pending_used() == 0 ==> Self::unchanged(&start, self),
                decreases self.size - self.free@.len(),
            {
                proof {
                    lemma_distinct_below_len(self.free@, self.size as int);
                }
                let ghost before = *self;
                let completed = match self.pop_used() {
                    Ok(Some(c)) => c,
                    Ok(None) => break,
                    Err(e) => return Err(e),
                };
                if completed.head == head {
                    return Ok(completed);
                }
                proof {
                    assert(before.chains@.dom().contains(completed.head));
                    assert(chain_linked(before.chains@[completed.head], completed.head, before.next@, before.size as int));
                    lemma_distinct_below_len(self.free@, self.size as int);
                }
            }
            poll();
            round = round + 1;
        }
        Err(VirtioError::CommandTimeout)
    }

    /// Returns every descriptor of the chain starting at `head` to the free list,
    /// in chain order.
    fn release_chain(&mut self, head: u16) -> (r: VirtioResult<()>)
        requires
            old(self).wf(),
            old(self).chains@.dom().contains(head),
        ensures
            r is Ok,
            final(self).wf(),
            final(self).free@ == old(self).free@ + old(self).chains@[head],
            final(self).chains@ == old(self).chains@.remove(head),
            final(self).memory == old(self).memory,
            final(self).size == old(self).size,
            final(self).layout == old(self).layout,
            final(self).available_index == old(self).available_index,
            final(self).last_used_index == old(self).last_used_index,
    {
        let ghost chain = self.chains@[head];
        let ghost old_free = self.free@;
        let ghost old_next = self.next@;
        let ghost old_owner = self.owner@;
        let ghost old_chains = self.chains@;
        proof {
            lemma_distinct_below_len(chain, self.size as int);
        }
        self.active_heads.set(head as usize, false);
        let mut current: Option<u16> = Some(head);
        let mut released: u16 = 0;
        while current.is_some()
            invariant
                0 <= released <= chain.len(),
                chain.len() <= self.size,
                chain_linked(chain, head, old_next, self.size as int),
                self.size >= 2,
                self.next@.len() == self.size,
                old_next.len() == self.size,
                self.memory == old(self).memory,
                self.size == old(self).size,
                self.layout == old(self).layout,
                self.available_index == old(self).available_index,
                self.last_used_index == old(self).last_used_index,
                self.chains == old(self).chains,
                self.owner == old(self).owner,
                self.active_heads@ == old(self).active_heads@.update(head as int, false),
                old_chains == old(self).chains@,
                old_owner == old(self).owner@,
                current == (if released < chain.len() { Some(chain[released as int]) } else { None::<u16> }),
                self.free@ == old_free + chain.take(released as int),
                forall|j: int| 0 <= j < self.size ==> #[trigger] self.next@[j] == (if chain.take(released as int).contains(j as u16) { None::<u16> } else { old_next[j] }),
            decreases chain.len() - released,
        {
            let index = match current {
                Some(i) => i,
                None => 0,
            };
            if index >= self.size || released >= self.size {
                return Err(VirtioError::InvalidDescriptor);
            }
            proof {
                assert(!chain.take(released as int).contains(index)) by {
                    if chain.take(released as int).contains(index) {
                        let m = choose|m: int| 0 <= m < released && chain.take(released as int)[m] == index;
                        assert(chain[m] == chain[released as int]);
                    }
                }
            }
            current = self.next[index as usize];
            self.next.set(index as usize, None);
            self.free.push(index);
            released = released + 1;
            proof {
                assert(chain.take(released as int) =~= chain.take(released - 1).push(index));
                assert forall|j: int| 0 <= j < self.size implies #[trigger] self.next@[j] == (if chain.take(released as int).contains(j as u16) { None::<u16> } else { old_next[j] }) by {
                    if j == index as int {
                        assert(chain.take(released as int)[released - 1] == index);
                    } else {
                        assert(chain.take(released as int).contains(j as u16) == chain.take(released - 1).contains(j as u16));
                    }
                }
                assert(self.free@ =~= old_free + chain.take(released as int));
                if (released as int) < chain.len() {
                    assert(old_next[chain[released - 1] as int] == Some(chain[released as int]));
                }
            }
        }
        proof {
            assert(chain.take(chain.len() as int) =~= chain);
            let new_owner = old_owner.remove_keys(chain.to_set());
            self.owner@ = new_owner;
            self.chains@ = old_chains.remove(head);
            assert forall|i: u16| i < self.size implies (self.free@.contains(i) <==> !self.owner@.dom().contains(i)) by {
                if chain.contains(i) {
                    let k = choose|k: int| 0 <= k < chain.len() && chain[k] == i;
                    assert(self.free@[old_free.len() + k] == i);
                    assert(chain.to_set().contains(i));
                } else {
                    assert(!chain.to_set().contains(i));
                    assert(self.owner@.dom().contains(i) == old_owner.dom().contains(i));
                    if self.free@.contains(i) {
                        let k = choose|k: int| 0 <= k < self.free@.len() && self.free@[k] == i;
                        if k >= old_free.len() {
                            assert(chain[k - old_free.len()] == i);
                        }
                        assert(old_free[k] == i);
                    }
                    if old_free.contains(i) {
                        let k = choose|k: int| 0 <= k < old_free.len() && old_free[k] == i;
                        assert(self.free@[k] == i);
                    }
                }
            }
            assert forall|a: int, b: int| 0 <= a < b < self.free@.len() implies self.free@[a] != self.free@[b] by {
                if b >= old_free.len() && a < old_free.len() {
                    let x = self.free@[b];
                    assert(chain.contains(x));
                    assert(old_owner.dom().contains(x));
                }
            }
            assert forall|h: u16| #[trigger] self.chains@.dom().contains(h) implies {
                &&& h < self.size
                &&& chain_linked(self.chains@[h], h, self.next@, self.size as int)
                &&& forall|k: int| 0 <= k < self.chains@[h].len() ==> #[trigger] self.owner@.dom().contains(self.chains@[h][k])
                    && self.owner@[self.chains@[h][k]] == h
            } by {
                let c = old_chains[h];
                assert(old_chains.dom().contains(h));
                assert(h != head);
                assert forall|k: int| 0 <= k < c.len() implies !chain.contains(#[trigger] c[k]) by {
                    assert(old_owner.dom().contains(c[k]));
                    assert(old_owner[c[k]] == h);
                    if chain.contains(c[k]) {
                        let m = choose|m: int| 0 <= m < chain.len() && chain[m] == c[k];
                        assert(old_owner.dom().contains(chain[m]));
                        assert(old_owner[chain[m]] == head);
                    }
                }
                assert forall|k: int| 0 <= k < c.len() implies !chain.to_set().contains(#[trigger] c[k]) by {
                    assert(!chain.contains(c[k]));
                }
                assert(forall|k: int| 0 <= k < c.len() ==> self.next@[#[trigger] c[k] as int] == old_next[c[k] as int]);
            }
        }
        Ok(())
    }

    /// Writes the `n`-byte little-endian `value` at `offset` of the queue memory.
    fn write_le(&mut self, offset: usize, value: u64, n: usize) -> (r: VirtioResult<()>)
        requires
            offset + n <= usize::MAX,
            n <= 8,
        ensures
            offset + n > old(self).memory.contents().len() ==> r == Err::<(), VirtioError>(
                VirtioError::DmaBufferTooSmall,
            ) && final(self).memory == old(self).memory,
            offset + n <= old(self).memory.contents().len() ==> r is Ok
                && final(self).memory.contents() == old(self).memory.contents().subrange(0, offset as int)
                + le_encode(value as nat, n as nat) + old(self).memory.contents().subrange(
                offset + n,
                old(self).memory.contents().len() as int,
            ),
            offset + n <= old(self).memory.contents().len() ==> (forall|j: int|
                0 <= j < old(self).memory.contents().len() && !(offset <= j < offset + n)
                    ==> #[trigger] final(self).memory.contents()[j] == old(self).memory.contents()[j])
                && final(self).memory.contents().len() == old(self).memory.contents().len()
                && final(self).memory.contents().subrange(offset as int, offset + n) == le_encode(value as nat, n as nat),
            final(self).memory.bus_address() == old(self).memory.bus_address(),
            final(self).size == old(self).size,
            final(self).layout == old(self).layout,
            final(self).free == old(self).free,
            final(self).next == old(self).next,
            final(self).active_heads == old(self).active_heads,
            final(self).available_index == old(self).available_index,
            final(self).last_used_index == old(self).last_used_index,
            final(self).chains == old(self).chains,
            final(self).owner == old(self).owner,
    {
        if offset + n > self.memory.len() {
            return Err(VirtioError::DmaBufferTooSmall);
        }
        let ghost before = self.memory.contents();
        let bytes = self.memory.bytes_mut();
        put_le(bytes, offset, value, n);
        proof {
            crate::le::lemma_le_encode_len(value as nat, n as nat);
            let after = self.memory.contents();
            assert(after.subrange(offset as int, offset + n) =~= le_encode(value as nat, n as nat));
        }
        Ok(())
    }
}

} // verus!

//! Bookkeeping of the hardened kernel heap: the header and tail canary
//! around each allocation, the layout asked of the underlying allocator,
//! how far the heap grows, and the quarantine that delays reuse of freed
//! blocks.

use vstd::prelude::*;

verus! {

/// Virtual address the heap starts at.
pub const HEAP_START: u64 = 0x4444_4444_0000;
/// Most bytes the heap may span.
pub const HEAP_SIZE: usize = 32 * 1024 * 1024;
pub const HEAP_INITIAL_SIZE: usize = 256 * 1024;
pub const HEAP_GROWTH_SIZE: usize = 256 * 1024;
/// Freed blocks held back before their memory is reused.
pub const HEAP_QUARANTINE_CAP: usize = 64;
pub const HEAP_HEADER_MAGIC: u64 = 0x9d7d_5f1b_1b7d_2b41;
pub const HEAP_TAIL_MAGIC: u64 = 0xc6c4_19b8_4d7f_53a9;
pub const HEAP_HEADER_ALIGNMENT: usize = 16;
/// Bytes of the header stored before each allocation.
pub const HEAP_HEADER_SIZE: usize = 64;
/// Bytes of the canary stored after each allocation.
pub const HEAP_TRAILER_SIZE: usize = 8;

/// Header stored right before the bytes handed out.
#[derive(Clone, Copy, Debug, PartialEq, Eq, Structural)]
pub struct HeapHeader {
    pub magic: u64,
    pub cookie: u64,
    pub raw_addr: u64,
    pub raw_size: usize,
    pub raw_align: usize,
    pub user_size: usize,
    pub user_align: usize,
    pub checksum: u64,
}

pub open spec fn header_checksum(h: HeapHeader, cookie: u64) -> u64 {
    h.magic ^ h.raw_addr ^ (h.raw_size as u64) ^ (h.raw_align as u64) ^ (h.user_size as u64)
        ^ (h.user_align as u64) ^ cookie ^ HEAP_HEADER_MAGIC
}

pub open spec fn header_valid(h: HeapHeader) -> bool {
    h.magic == HEAP_HEADER_MAGIC && header_checksum(h, h.cookie) == h.checksum
}

impl HeapHeader {
    /// A sealed header for `user_size` bytes aligned to `user_align`, carved
    /// from the raw block at `raw_addr`.
    pub fn new(cookie: u64, raw_addr: u64, raw_size: usize, raw_align: usize, user_size: usize, user_align: usize) -> (h: Self)
        ensures
            h.magic == HEAP_HEADER_MAGIC,
            h.cookie == cookie,
            h.raw_addr == raw_addr,
            h.raw_size == raw_size,
            h.raw_align == raw_align,
            h.user_size == user_size,
            h.user_align == user_align,
            h.checksum == header_checksum(h, cookie),
            header_valid(h),
    {
        let mut h = HeapHeader {
            magic: HEAP_HEADER_MAGIC,
            cookie,
            raw_addr,
            raw_size,
            raw_align,
            user_size,
            user_align,
            checksum: 0,
        };
        h.checksum = h.checksum(cookie);
        h
    }

    pub fn checksum(&self, cookie: u64) -> (r: u64)
        ensures
            r == header_checksum(*self, cookie),
    {
        self.magic ^ self.raw_addr ^ (self.raw_size as u64) ^ (self.raw_align as u64) ^ (self.user_size as u64)
            ^ (self.user_align as u64) ^ cookie ^ HEAP_HEADER_MAGIC
    }

    pub fn is_valid(&self) -> (r: bool)
        ensures
            r == header_valid(*self),
    {
        self.magic == HEAP_HEADER_MAGIC && self.checksum(self.cookie) == self.checksum
    }
}

/// The header read before a freed pointer, when it carries the magic.
pub fn tagged_header(header: HeapHeader) -> (r: Option<HeapHeader>)
    ensures
        r == (if header.magic == HEAP_HEADER_MAGIC { Some(header) } else { None::<HeapHeader> }),
{
    if header.magic != HEAP_HEADER_MAGIC {
        return None;
    }
    Some(header)
}

/// The canary stored after an allocation.
pub open spec fn tail_canary(cookie: u64) -> u64 {
    cookie ^ HEAP_TAIL_MAGIC
}

pub fn tail_value(cookie: u64) -> (r: u64)
    ensures
        r == tail_canary(cookie),
{
    cookie ^ HEAP_TAIL_MAGIC
}

pub open spec fn is_pow2(n: nat) -> bool
    decreases n,
{
    if n == 0 {
        false
    } else if n == 1 {
        true
    } else {
        n % 2 == 0 && is_pow2(n / 2)
    }
}

pub fn power_of_two(n: usize) -> (r: bool)
    ensures
        r == is_pow2(n as nat),
{
    let mut m = n;
    while m > 1 && m % 2 == 0
        invariant
            is_pow2(m as nat) == is_pow2(n as nat),
        decreases m,
    {
        m = m / 2;
    }
    m == 1
}

/// `size` rounded up to a multiple of `align`.
pub open spec fn round_up(size: int, align: int) -> int {
    if size % align == 0 { size } else { size + (align - size % align) }
}

/// Whether `size` bytes aligned to `align` make a valid memory layout: the
/// alignment is a power of two and the rounded size fits in `isize`.
pub open spec fn layout_valid(size: usize, align: usize) -> bool {
    is_pow2(align as nat) && round_up(size as int, align as int) <= isize::MAX
}

pub fn layout_ok(size: usize, align: usize) -> (r: bool)
    ensures
        r == layout_valid(size, align),
{
    if !power_of_two(align) {
        return false;
    }
    let rem = size % align;
    let pad = if rem == 0 { 0 } else { align - rem };
    (size as u128) + (pad as u128) <= (isize::MAX as u128)
}

/// A block of the underlying allocator.
#[derive(Clone, Copy, Debug, PartialEq, Eq, Structural)]
pub struct RawLayout {
    pub size: usize,
    pub align: usize,
}

/// The block asked of the underlying allocator for `size` bytes aligned to
/// `align`: room for the header, the bytes, the canary and the slack that
/// alignment may cost, aligned to at least the header's alignment.
pub open spec fn raw_layout_spec(size: usize, align: usize) -> Option<RawLayout> {
    let user_align = if align > HEAP_HEADER_ALIGNMENT { align } else { HEAP_HEADER_ALIGNMENT };
    let payload = size + HEAP_HEADER_SIZE + HEAP_TRAILER_SIZE + (user_align - 1);
    if payload > usize::MAX || !layout_valid(payload as usize, user_align) {
        None
    } else {
        Some(RawLayout { size: payload as usize, align: user_align })
    }
}

pub fn raw_layout(size: usize, align: usize) -> (r: Option<RawLayout>)
    ensures
        r == raw_layout_spec(size, align),
{
    let user_align = if align > HEAP_HEADER_ALIGNMENT { align } else { HEAP_HEADER_ALIGNMENT };
    let payload = match size.checked_add(HEAP_HEADER_SIZE) {
        None => return None,
        Some(v) => match v.checked_add(HEAP_TRAILER_SIZE) {
            None => return None,
            Some(v) => match v.checked_add(user_align - 1) {
                None => return None,
                Some(v) => v,
            },
        },
    };
    if !layout_ok(payload, user_align) {
        return None;
    }
    Some(RawLayout { size: payload, align: user_align })
}

/// The first address after `header_size` bytes from `raw_addr` that is a
/// multiple of `user_align`.
pub fn align_user_ptr(raw_addr: usize, header_size: usize, user_align: usize) -> (r: usize)
    requires
        user_align > 0,
        raw_addr + header_size + user_align - 1 <= usize::MAX,
    ensures
        r % user_align == 0,
        raw_addr + header_size <= r < raw_addr + header_size + user_align,
{
    let base = raw_addr + header_size;
    let rem = base % user_align;
    if rem == 0 {
        base
    } else {
        assert((base + (user_align - rem)) % (user_align as int) == 0) by (nonlinear_arith)
            requires
                rem == base % user_align,
                user_align > 0,
                rem > 0,
        {
            assert(base == (base / user_align) * user_align + rem);
            assert(base + (user_align - rem) == (base / user_align + 1) * user_align);
        }
        base + (user_align - rem)
    }
}

/// How many bytes the heap grows by to satisfy `minimum_bytes` more: at
/// least one growth step, in whole pages, never past the heap's span; none
/// once the span is used up.
pub open spec fn grow_spec(committed: usize, minimum_bytes: usize) -> Option<usize> {
    if committed >= HEAP_SIZE {
        None
    } else {
        let wanted = if minimum_bytes > HEAP_GROWTH_SIZE { minimum_bytes } else { HEAP_GROWTH_SIZE };
        let padded = if wanted + 4095 > usize::MAX { usize::MAX as int } else { wanted + 4095 };
        let pages = padded - padded % 4096;
        let room = HEAP_SIZE - committed;
        Some((if pages < room { pages } else { room }) as usize)
    }
}

pub fn grow_amount(committed: usize, minimum_bytes: usize) -> (r: Option<usize>)
    ensures
        r == grow_spec(committed, minimum_bytes),
{
    if committed >= HEAP_SIZE {
        return None;
    }
    let wanted = if minimum_bytes > HEAP_GROWTH_SIZE { minimum_bytes } else { HEAP_GROWTH_SIZE };
    let padded = wanted.saturating_add(4095);
    let pages = padded & !4095usize;
    assert(pages == padded - padded % 4096) by (bit_vector)
        requires
            pages == padded & !4095usize,
    ;
    let room = HEAP_SIZE - committed;
    Some(if pages < room { pages } else { room })
}

/// The canary cookie: boot entropy mixed with the heap's address, never zero.
pub open spec fn cookie_from(entropy: u64, heap_address: u64) -> u64 {
    let mixed = entropy ^ ((heap_address << 17u64) | (heap_address >> 47u64)) ^ HEAP_TAIL_MAGIC;
    if mixed == 0 { HEAP_TAIL_MAGIC } else { mixed }
}

/// The cookie to use: the one already chosen, else a new one.
pub fn cookie_seed(cached: u64, entropy: u64, heap_address: u64) -> (r: u64)
    ensures
        r == (if cached != 0 { cached } else { cookie_from(entropy, heap_address) }),
        r != 0,
{
    if cached != 0 {
        return cached;
    }
    let mut seed = entropy ^ ((heap_address << 17u64) | (heap_address >> 47u64)) ^ HEAP_TAIL_MAGIC;
    if seed == 0 {
        seed = HEAP_TAIL_MAGIC;
    }
    seed
}

/// A freed allocation held back from reuse.
#[derive(Clone, Copy, Debug, PartialEq, Eq, Structural)]
pub struct QuarantinedBlock {
    pub user_addr: usize,
    pub raw_addr: usize,
    pub raw_size: usize,
    pub raw_align: usize,
}

/// Why a free was refused.
#[derive(Clone, Copy, Debug, PartialEq, Eq, Structural)]
pub enum FreeRejection {
    MissingHeader,
    ChecksumMismatch,
    InvalidLayout,
    DoubleFree,
}

/// What retiring a freed block did.
#[derive(Clone, Copy, Debug, PartialEq, Eq, Structural)]
pub struct Retired {
    /// Whether the canary after the bytes was intact.
    pub tail_intact: bool,
    /// The oldest block, pushed out to be reused.
    pub evicted: Option<QuarantinedBlock>,
}

/// The most recently freed blocks, oldest first, in a ring of fixed size.
pub struct HeapQuarantine {
    blocks: Vec<Option<QuarantinedBlock>>,
    head: usize,
    len: usize,
}

spec fn ring_slot(head: int, i: int) -> int {
    if head + i < HEAP_QUARANTINE_CAP { head + i } else { head + i - HEAP_QUARANTINE_CAP }
}

/// How far slot `j` lies after `head` around the ring.
spec fn ring_offset(head: int, j: int) -> int {
    if j >= head { j - head } else { j - head + HEAP_QUARANTINE_CAP }
}

/// How holding `block` changes the held blocks, and which one it pushes out.
pub open spec fn retired_as(
    before: Seq<QuarantinedBlock>,
    after: Seq<QuarantinedBlock>,
    evicted: Option<QuarantinedBlock>,
    block: QuarantinedBlock,
) -> bool {
    if before.len() < HEAP_QUARANTINE_CAP {
        evicted is None && after == before.push(block)
    } else {
        evicted == Some(before[0]) && after == before.drop_first().push(block)
    }
}

/// Checks a header read before a freed pointer: it must carry the magic
/// and a matching checksum.
pub fn check_header(header: Option<HeapHeader>) -> (r: Result<HeapHeader, FreeRejection>)
    ensures
        match header {
            None => r == Err::<HeapHeader, FreeRejection>(FreeRejection::MissingHeader),
            Some(h) => if header_valid(h) {
                r == Ok::<HeapHeader, FreeRejection>(h)
            } else {
                r == Err::<HeapHeader, FreeRejection>(FreeRejection::ChecksumMismatch)
            },
        },
{
    match header {
        None => Err(FreeRejection::MissingHeader),
        Some(h) => if h.is_valid() {
            Ok(h)
        } else {
            Err(FreeRejection::ChecksumMismatch)
        },
    }
}

impl HeapQuarantine {
    /// The held blocks, oldest first.
    pub closed spec fn held(&self) -> Seq<QuarantinedBlock> {
        Seq::new(self.len as nat, |i: int| self.blocks@[ring_slot(self.head as int, i)]->Some_0)
    }

    pub closed spec fn wf(&self) -> bool {
        &&& self.blocks@.len() == HEAP_QUARANTINE_CAP
        &&& self.head < HEAP_QUARANTINE_CAP
        &&& self.len <= HEAP_QUARANTINE_CAP
        &&& forall|j: int| 0 <= j < HEAP_QUARANTINE_CAP ==> (#[trigger] self.blocks@[j] is Some
            <==> ring_offset(self.head as int, j) < self.len)
    }

    pub fn new() -> (q: Self)
        ensures
            q.wf(),
            q.held() == Seq::<QuarantinedBlock>::empty(),
    {
        let mut blocks: Vec<Option<QuarantinedBlock>> = Vec::new();
        let mut i: usize = 0;
        while i < HEAP_QUARANTINE_CAP
            invariant
                i <= HEAP_QUARANTINE_CAP,
                blocks@.len() == i,
                forall|j: int| 0 <= j < i ==> #[trigger] blocks@[j] is None,
            decreases HEAP_QUARANTINE_CAP - i,
        {
            blocks.push(None);
            i = i + 1;
        }
        let q = HeapQuarantine { blocks, head: 0, len: 0 };
        assert(q.held() =~= Seq::<QuarantinedBlock>::empty());
        q
    }

    pub fn len(&self) -> (n: usize)
        requires
            self.wf(),
        ensures
            n == self.held().len(),
    {
        self.len
    }

    /// Whether a held block was handed out at `user_addr`.
    pub fn contains(&self, user_addr: usize) -> (r: bool)
        requires
            self.wf(),
        ensures
            r == exists|i: int| 0 <= i < self.held().len() && #[trigger] self.held()[i].user_addr == user_addr,
    {
        let mut j: usize = 0;
        while j < self.blocks.len()
            invariant
                self.wf(),
                j <= HEAP_QUARANTINE_CAP,
                forall|k: int| 0 <= k < j ==> !(#[trigger] self.blocks@[k] matches Some(b) && b.user_addr == user_addr),
            decreases HEAP_QUARANTINE_CAP - j,
        {
            if let Some(block) = self.blocks[j] {
                if block.user_addr == user_addr {
                    proof {
                        let i = ring_offset(self.head as int, j as int);
                        assert(ring_slot(self.head as int, i) == j);
                        assert(self.held()[i] == block);
                    }
                    return true;
                }
            }
            j = j + 1;
        }
        proof {
            assert forall|i: int| 0 <= i < self.held().len() implies #[trigger] self.held()[i].user_addr != user_addr by {
                let k = ring_slot(self.head as int, i);
                assert(ring_offset(self.head as int, k) == i);
                assert(self.blocks@[k] is Some);
            }
        }
        false
    }

    /// Holds `block`; when the ring is full the oldest block leaves it and
    /// is returned.
    pub fn push(&mut self, block: QuarantinedBlock) -> (evicted: Option<QuarantinedBlock>)
        requires
            old(self).wf(),
        ensures
            final(self).wf(),
            old(self).held().len() < HEAP_QUARANTINE_CAP ==> evicted is None
                && final(self).held() == old(self).held().push(block),
            old(self).held().len() == HEAP_QUARANTINE_CAP ==> evicted == Some(old(self).held()[0])
                && final(self).held() == old(self).held().drop_first().push(block),
    {
        let ghost before = self.held();
        if self.len < HEAP_QUARANTINE_CAP {
            let sum = self.head + self.len;
            let index = if sum >= HEAP_QUARANTINE_CAP { sum - HEAP_QUARANTINE_CAP } else { sum };
            self.blocks.set(index, Some(block));
            self.len = self.len + 1;
            assert(self.held() =~= before.push(block));
            None
        } else {
            let evicted = self.blocks[self.head];
            self.blocks.set(self.head, Some(block));
            self.head = if self.head + 1 == HEAP_QUARANTINE_CAP { 0 } else { self.head + 1 };
            proof {
                assert(evicted == Some(before[0]));
                assert forall|i: int| 0 <= i < HEAP_QUARANTINE_CAP implies #[trigger] self.held()[i]
                    == before.drop_first().push(block)[i] by {
                    if i < HEAP_QUARANTINE_CAP - 1 {
                        assert(before.drop_first()[i] == before[i + 1]);
                    }
                }
                assert(self.held() =~= before.drop_first().push(block));
            }
            evicted
        }
    }

    /// Takes the oldest held block out, if any.
    pub fn pop_oldest(&mut self) -> (r: Option<QuarantinedBlock>)
        requires
            old(self).wf(),
        ensures
            final(self).wf(),
            old(self).held().len() == 0 ==> r is None && final(self).held() == old(self).held(),
            old(self).held().len() > 0 ==> r == Some(old(self).held()[0])
                && final(self).held() == old(self).held().drop_first(),
    {
        if self.len == 0 {
            return None;
        }
        let ghost before = self.held();
        let block = self.blocks[self.head];
        self.blocks.set(self.head, None);
        self.head = if self.head + 1 == HEAP_QUARANTINE_CAP { 0 } else { self.head + 1 };
        self.len = self.len - 1;
        proof {
            assert forall|i: int| 0 <= i < self.len implies #[trigger] self.held()[i] == before.drop_first()[i] by {
                assert(before.drop_first()[i] == before[i + 1]);
            }
            assert(self.held() =~= before.drop_first());
        }
        block
    }

    /// Retires the freed allocation at `user_addr`, whose checked header is
    /// `header` and whose canary slot holds `tail`: refused when the header
    /// describes no valid block or the block is already held; otherwise the
    /// block is held, and the oldest one leaves when the ring is full.
    pub fn retire(&mut self, user_addr: usize, header: &HeapHeader, tail: u64) -> (r: Result<Retired, FreeRejection>)
        requires
            old(self).wf(),
        ensures
            final(self).wf(),
            !layout_valid(header.raw_size, header.raw_align) ==> r == Err::<Retired, FreeRejection>(FreeRejection::InvalidLayout)
                && final(self).held() == old(self).held(),
            layout_valid(header.raw_size, header.raw_align)
                && (exists|i: int| 0 <= i < old(self).held().len() && #[trigger] old(self).held()[i].user_addr == user_addr)
                ==> r == Err::<Retired, FreeRejection>(FreeRejection::DoubleFree) && final(self).held() == old(self).held(),
            layout_valid(header.raw_size, header.raw_align)
                && !(exists|i: int| 0 <= i < old(self).held().len() && #[trigger] old(self).held()[i].user_addr == user_addr)
                ==> (r matches Ok(retired) && retired.tail_intact == (tail == tail_canary(header.cookie))
                    && retired_as(old(self).held(), final(self).held(), retired.evicted, QuarantinedBlock {
                        user_addr,
                        raw_addr: header.raw_addr as usize,
                        raw_size: header.raw_size,
                        raw_align: header.raw_align,
                    })),
    {
        let tail_intact = tail == tail_value(header.cookie);
        if !layout_ok(header.raw_size, header.raw_align) {
            return Err(FreeRejection::InvalidLayout);
        }
        if self.contains(user_addr) {
            return Err(FreeRejection::DoubleFree);
        }
        let block = QuarantinedBlock {
            user_addr,
            raw_addr: header.raw_addr as usize,
            raw_size: header.raw_size,
            raw_align: header.raw_align,
        };
        let evicted = self.push(block);
        Ok(Retired { tail_intact, evicted })
    }
}

/// The header before the bytes handed out, the bytes and the canary after
/// them all lie inside the block asked of the underlying allocator.
pub proof fn lemma_block_fits(raw_addr: int, user_addr: int, size: usize, align: usize, layout: RawLayout)
    requires
        raw_layout_spec(size, align) == Some(layout),
        raw_addr + HEAP_HEADER_SIZE <= user_addr < raw_addr + HEAP_HEADER_SIZE + layout.align,
    ensures
        raw_addr <= user_addr - HEAP_HEADER_SIZE,
        user_addr + size + HEAP_TRAILER_SIZE <= raw_addr + layout.size,
{
}

/// A block pushed out of a full quarantine is the oldest one held, and the
/// newest freed block is held last.
pub proof fn lemma_quarantine_fifo(held: Seq<QuarantinedBlock>, block: QuarantinedBlock)
    requires
        held.len() == HEAP_QUARANTINE_CAP,
    ensures
        held.drop_first().push(block).len() == HEAP_QUARANTINE_CAP,
        held.drop_first().push(block).last() == block,
        forall|i: int| 0 <= i < HEAP_QUARANTINE_CAP - 1 ==> #[trigger] held.drop_first().push(block)[i] == held[i + 1],
{
}

} // verus!

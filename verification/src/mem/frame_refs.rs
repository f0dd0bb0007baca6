//! Reference counts of physical frames that several address spaces share,
//! kept in an open-addressing hash table with linear probing.
//!
//! A frame is listed only while it is shared: its first extra reference
//! enters it with a count of two, and it leaves the table when the count
//! would drop back to one.

use vstd::prelude::*;

verus! {

/// Slot markers below the smallest count a listed frame has.
const EMPTY: u32 = 0;
const DELETED: u32 = 1;
const INITIAL_CAPACITY: usize = 64;

#[derive(Clone, Copy)]
struct Slot {
    phys: u64,
    refs: u32,
}

#[derive(Clone, Copy, Debug, PartialEq, Eq, Structural)]
pub enum FrameRefError {
    OutOfMemory,
}

/// Shared frames and their reference counts.
pub struct FrameReferenceTable {
    slots: Vec<Slot>,
    live: usize,
    deleted: usize,
}

/// The bucket hash of a frame address.
pub open spec fn frame_hash(phys: u64) -> u64 {
    let v0 = phys >> 12u64;
    let v1 = v0 ^ (v0 >> 30u64);
    let v2 = v1.wrapping_mul(0xbf58_476d_1ce4_e5b9u64);
    let v3 = v2 ^ (v2 >> 27u64);
    let v4 = v3.wrapping_mul(0x94d0_49bb_1331_11ebu64);
    v4 ^ (v4 >> 31u64)
}

/// Counts after one more reference to `phys`.
pub open spec fn after_retain(counts: Map<u64, u32>, phys: u64) -> Map<u64, u32> {
    if counts.contains_key(phys) {
        counts.insert(phys, (counts[phys] + 1) as u32)
    } else {
        counts.insert(phys, 2)
    }
}

/// Counts after one reference to `phys` is dropped.
pub open spec fn after_release(counts: Map<u64, u32>, phys: u64) -> Map<u64, u32> {
    if !counts.contains_key(phys) {
        counts
    } else if counts[phys] == 2 {
        counts.remove(phys)
    } else {
        counts.insert(phys, (counts[phys] - 1) as u32)
    }
}

spec fn is_live(s: Slot) -> bool {
    s.refs >= 2
}

/// 0 for an empty slot, 1 for a deleted one, 2 for a listed frame.
spec fn state_of(s: Slot) -> int {
    if s.refs == EMPTY {
        0
    } else if s.refs == DELETED {
        1
    } else {
        2
    }
}

spec fn count_state(s: Seq<Slot>, state: int) -> nat
    decreases s.len(),
{
    if s.len() == 0 {
        0
    } else {
        count_state(s.drop_last(), state) + if state_of(s.last()) == state { 1nat } else { 0nat }
    }
}

spec fn home(phys: u64, cap: int) -> int {
    (frame_hash(phys) as int) % cap
}

/// Slot `j` steps after `h` on a table of `cap` slots.
spec fn pos(h: int, j: int, cap: int) -> int {
    if h + j < cap {
        h + j
    } else {
        h + j - cap
    }
}

/// Steps from `h` to slot `i`.
spec fn dist(h: int, i: int, cap: int) -> int {
    if i >= h {
        i - h
    } else {
        i - h + cap
    }
}

/// The first `n` slots probed from `h` are all in use.
spec fn probe_clear(s: Seq<Slot>, h: int, n: int) -> bool {
    forall|j: int| 0 <= j < n ==> #[trigger] s[pos(h, j, s.len() as int)].refs != EMPTY
}

spec fn keys_unique(s: Seq<Slot>) -> bool {
    forall|i: int, j: int|
        0 <= i < s.len() && 0 <= j < s.len() && i != j && is_live(#[trigger] s[i]) && is_live(#[trigger] s[j])
            ==> s[i].phys != s[j].phys
}

/// Each listed frame is reached from its home slot without passing an empty slot.
spec fn probes_valid(s: Seq<Slot>) -> bool {
    forall|i: int|
        0 <= i < s.len() && is_live(#[trigger] s[i]) ==> probe_clear(
            s,
            home(s[i].phys, s.len() as int),
            dist(home(s[i].phys, s.len() as int), i, s.len() as int),
        )
}

spec fn live_index(s: Seq<Slot>, phys: u64) -> int {
    choose|i: int| 0 <= i < s.len() && is_live(#[trigger] s[i]) && s[i].phys == phys
}

spec fn table_map(s: Seq<Slot>) -> Map<u64, u32> {
    Map::new(
        |k: u64| exists|i: int| 0 <= i < s.len() && is_live(#[trigger] s[i]) && s[i].phys == k,
        |k: u64| s[live_index(s, k)].refs,
    )
}

proof fn lemma_count_update(s: Seq<Slot>, i: int, v: Slot, state: int)
    requires
        0 <= i < s.len(),
    ensures
        count_state(s.update(i, v), state) + (if state_of(s[i]) == state { 1int } else { 0int })
            == count_state(s, state) + (if state_of(v) == state { 1int } else { 0int }),
    decreases s.len(),
{
    let u = s.update(i, v);
    if i == s.len() - 1 {
        assert(u.drop_last() =~= s.drop_last());
    } else {
        assert(u.drop_last() =~= s.drop_last().update(i, v));
        lemma_count_update(s.drop_last(), i, v, state);
    }
}

proof fn lemma_count_partition(s: Seq<Slot>)
    ensures
        count_state(s, 0) + count_state(s, 1) + count_state(s, 2) == s.len(),
    decreases s.len(),
{
    if s.len() > 0 {
        lemma_count_partition(s.drop_last());
    }
}

proof fn lemma_count_witness(s: Seq<Slot>, state: int)
    requires
        count_state(s, state) > 0,
    ensures
        exists|i: int| 0 <= i < s.len() && state_of(#[trigger] s[i]) == state,
    decreases s.len(),
{
    if state_of(s.last()) == state {
        assert(state_of(s[s.len() - 1]) == state);
    } else {
        lemma_count_witness(s.drop_last(), state);
        let i = choose|i: int| 0 <= i < s.drop_last().len() && state_of(#[trigger] s.drop_last()[i]) == state;
        assert(state_of(s[i]) == state);
    }
}

proof fn lemma_count_none(s: Seq<Slot>, state: int)
    requires
        count_state(s, state) == 0,
    ensures
        forall|i: int| 0 <= i < s.len() ==> state_of(#[trigger] s[i]) != state,
    decreases s.len(),
{
    if s.len() > 0 {
        lemma_count_none(s.drop_last(), state);
        assert forall|i: int| 0 <= i < s.len() implies state_of(#[trigger] s[i]) != state by {
            if i < s.len() - 1 {
                assert(s[i] == s.drop_last()[i]);
            }
        }
    }
}

/// A table with room to spare has an empty slot.
proof fn lemma_has_empty(s: Seq<Slot>)
    requires
        count_state(s, 1) + count_state(s, 2) < s.len(),
    ensures
        exists|e: int| 0 <= e < s.len() && #[trigger] s[e].refs == EMPTY,
{
    lemma_count_partition(s);
    lemma_count_witness(s, 0);
    let e = choose|e: int| 0 <= e < s.len() && state_of(#[trigger] s[e]) == 0;
    assert(s[e].refs == EMPTY);
}

proof fn lemma_map_at(s: Seq<Slot>, i: int)
    requires
        keys_unique(s),
        0 <= i < s.len(),
        is_live(s[i]),
    ensures
        table_map(s).contains_key(s[i].phys),
        table_map(s)[s[i].phys] == s[i].refs,
{
    let k = s[i].phys;
    assert(exists|j: int| 0 <= j < s.len() && is_live(#[trigger] s[j]) && s[j].phys == k);
    let j = live_index(s, k);
    if j != i {
        assert(s[i].phys != s[j].phys);
    }
}

/// Storing a listed frame in slot `i`, where no other slot lists it.
proof fn lemma_map_set(s: Seq<Slot>, i: int, v: Slot)
    requires
        keys_unique(s),
        0 <= i < s.len(),
        is_live(v),
        forall|j: int| 0 <= j < s.len() && j != i && is_live(#[trigger] s[j]) ==> s[j].phys != v.phys,
        is_live(s[i]) ==> s[i].phys == v.phys,
    ensures
        keys_unique(s.update(i, v)),
        table_map(s.update(i, v)) == table_map(s).insert(v.phys, v.refs),
{
    let n = s.update(i, v);
    assert forall|a: int, b: int|
        0 <= a < n.len() && 0 <= b < n.len() && a != b && is_live(#[trigger] n[a]) && is_live(#[trigger] n[b])
        implies n[a].phys != n[b].phys by {
        if a != i && b != i {
            assert(n[a] == s[a] && n[b] == s[b]);
        } else if a == i {
            assert(n[b] == s[b]);
        } else {
            assert(n[a] == s[a]);
        }
    }
    {
        let m = table_map(s).insert(v.phys, v.refs);
        assert forall|k: u64| table_map(n).contains_key(k) <==> m.contains_key(k) by {
            if table_map(n).contains_key(k) && k != v.phys {
                let j = choose|j: int| 0 <= j < n.len() && is_live(#[trigger] n[j]) && n[j].phys == k;
                assert(j != i);
                assert(n[j] == s[j]);
            }
            if table_map(s).contains_key(k) && k != v.phys {
                let j = choose|j: int| 0 <= j < s.len() && is_live(#[trigger] s[j]) && s[j].phys == k;
                assert(j != i);
                assert(n[j] == s[j]);
            }
            if k == v.phys {
                assert(is_live(n[i]) && n[i].phys == k);
            }
        }
        assert forall|k: u64| #[trigger] table_map(n).contains_key(k) implies table_map(n)[k] == m[k] by {
            let j = live_index(n, k);
            lemma_map_at(n, j);
            if j != i {
                assert(n[j] == s[j]);
                lemma_map_at(s, j);
            }
        }
        assert(table_map(n) =~= m);
    }
}

/// Unlisting the frame in slot `i`.
proof fn lemma_map_clear(s: Seq<Slot>, i: int, v: Slot)
    requires
        keys_unique(s),
        0 <= i < s.len(),
        is_live(s[i]),
        !is_live(v),
    ensures
        keys_unique(s.update(i, v)),
        table_map(s.update(i, v)) == table_map(s).remove(s[i].phys),
{
    let n = s.update(i, v);
    let gone = s[i].phys;
    assert forall|a: int, b: int|
        0 <= a < n.len() && 0 <= b < n.len() && a != b && is_live(#[trigger] n[a]) && is_live(#[trigger] n[b])
        implies n[a].phys != n[b].phys by {
        assert(n[a] == s[a] && n[b] == s[b]);
    }
    let m = table_map(s).remove(gone);
    assert forall|k: u64| table_map(n).contains_key(k) <==> m.contains_key(k) by {
        if table_map(n).contains_key(k) {
            let j = choose|j: int| 0 <= j < n.len() && is_live(#[trigger] n[j]) && n[j].phys == k;
            assert(j != i);
            assert(n[j] == s[j]);
            assert(s[i].phys != s[j].phys);
        }
        if m.contains_key(k) {
            let j = choose|j: int| 0 <= j < s.len() && is_live(#[trigger] s[j]) && s[j].phys == k;
            assert(j != i);
            assert(n[j] == s[j]);
        }
    }
    assert forall|k: u64| #[trigger] table_map(n).contains_key(k) implies table_map(n)[k] == m[k] by {
        let j = live_index(n, k);
        lemma_map_at(n, j);
        assert(j != i);
        assert(n[j] == s[j]);
        lemma_map_at(s, j);
    }
    assert(table_map(n) =~= m);
}

/// A slot update that empties no slot keeps every probe path, given one for
/// the frame it lists.
proof fn lemma_probes_update(s: Seq<Slot>, i: int, v: Slot)
    requires
        probes_valid(s),
        0 <= i < s.len(),
        v.refs != EMPTY,
        is_live(v) ==> (is_live(s[i]) && s[i].phys == v.phys) || probe_clear(
            s,
            home(v.phys, s.len() as int),
            dist(home(v.phys, s.len() as int), i, s.len() as int),
        ),
    ensures
        probes_valid(s.update(i, v)),
{
    let n = s.update(i, v);
    let cap = s.len() as int;
    assert forall|a: int| 0 <= a < n.len() && is_live(#[trigger] n[a]) implies probe_clear(
        n,
        home(n[a].phys, cap),
        dist(home(n[a].phys, cap), a, cap),
    ) by {
        let h = home(n[a].phys, cap);
        if a != i {
            assert(n[a] == s[a]);
        }
        assert(probe_clear(s, h, dist(h, a, cap)));
        assert forall|j: int| 0 <= j < dist(h, a, cap) implies #[trigger] n[pos(h, j, cap)].refs != EMPTY by {
            assert(s[pos(h, j, cap)].refs != EMPTY);
        }
    }
}

fn hash(phys: u64) -> (r: u64)
    ensures
        r == frame_hash(phys),
{
    let mut value = phys >> 12u64;
    value = value ^ (value >> 30u64);
    value = value.wrapping_mul(0xbf58_476d_1ce4_e5b9u64);
    value = value ^ (value >> 27u64);
    value = value.wrapping_mul(0x94d0_49bb_1331_11ebu64);
    value ^ (value >> 31u64)
}

/// Probes for `phys` from its home slot. Returns the slot that lists it, or
/// the empty slot that ends its probe path when it is not listed, with the
/// first deleted slot passed on the way.
fn locate(slots: &Vec<Slot>, phys: u64) -> (r: (usize, Option<usize>))
    requires
        slots@.len() > 0,
        keys_unique(slots@),
        probes_valid(slots@),
        exists|e: int| 0 <= e < slots@.len() && #[trigger] slots@[e].refs == EMPTY,
    ensures
        r.0 < slots@.len(),
        is_live(slots@[r.0 as int]) && slots@[r.0 as int].phys == phys
            || slots@[r.0 as int].refs == EMPTY && !table_map(slots@).contains_key(phys),
        slots@[r.0 as int].refs == EMPTY ==> probe_clear(
            slots@,
            home(phys, slots@.len() as int),
            dist(home(phys, slots@.len() as int), r.0 as int, slots@.len() as int),
        ),
        r.1 matches Some(d) ==> d < slots@.len() && slots@[d as int].refs == DELETED && probe_clear(
            slots@,
            home(phys, slots@.len() as int),
            dist(home(phys, slots@.len() as int), d as int, slots@.len() as int),
        ),
{
    let cap = slots.len();
    let ghost s = slots@;
    let ghost c = cap as int;
    let h = (hash(phys) % (cap as u64)) as usize;
    let ghost gh = h as int;
    assert(gh == home(phys, c));
    let mut index = h;
    let mut step: usize = 0;
    let mut first_deleted: Option<usize> = None;
    while step < cap
        invariant
            s == slots@,
            c == cap,
            cap == slots@.len(),
            keys_unique(s),
            probes_valid(s),
            exists|e: int| 0 <= e < s.len() && #[trigger] s[e].refs == EMPTY,
            cap > 0,
            gh == home(phys, c),
            0 <= gh < c,
            step <= cap,
            index == pos(gh, step as int, c),
            index < cap,
            probe_clear(s, gh, step as int),
            forall|j: int| 0 <= j < step ==> !(is_live(#[trigger] s[pos(gh, j, c)]) && s[pos(gh, j, c)].phys == phys),
            first_deleted matches Some(d) ==> d < cap && s[d as int].refs == DELETED && probe_clear(s, gh, dist(gh, d as int, c)),
        decreases cap - step,
    {
        let slot = slots[index];
        if slot.refs == EMPTY {
            assert(dist(gh, index as int, c) == step);
            assert(!table_map(s).contains_key(phys)) by {
                if table_map(s).contains_key(phys) {
                    let i = choose|i: int| 0 <= i < s.len() && is_live(#[trigger] s[i]) && s[i].phys == phys;
                    let di = dist(gh, i, c);
                    assert(probe_clear(s, gh, di));
                    assert(pos(gh, di, c) == i);
                    if di < step {
                        assert(!(is_live(s[pos(gh, di, c)]) && s[pos(gh, di, c)].phys == phys));
                    } else if di > step {
                        assert(s[pos(gh, step as int, c)].refs != EMPTY);
                    }
                }
            }
            return (index, first_deleted);
        } else if slot.refs == DELETED {
            if first_deleted.is_none() {
                assert(dist(gh, index as int, c) == step);
                first_deleted = Some(index);
            }
        } else if slot.phys == phys {
            return (index, first_deleted);
        }
        assert(s[pos(gh, step as int, c)] == slot);
        index = if index + 1 == cap { 0 } else { index + 1 };
        step = step + 1;
        assert(probe_clear(s, gh, step as int)) by {
            assert forall|j: int| 0 <= j < step implies #[trigger] s[pos(gh, j, c)].refs != EMPTY by {
                if j < step - 1 {
                    assert(s[pos(gh, j, c)].refs != EMPTY);
                }
            }
        }
    }
    proof {
        let e = choose|e: int| 0 <= e < s.len() && #[trigger] s[e].refs == EMPTY;
        assert(pos(gh, dist(gh, e, c), c) == e);
        assert(s[pos(gh, dist(gh, e, c), c)].refs != EMPTY);
    }
    (index, first_deleted)
}

/// `Vec::try_reserve_exact`: asks the allocator for room for `additional`
/// more slots; the slots held are unchanged either way. Whether the
/// allocator grants the request is not stated: it depends on the machine.
#[verifier::external_body]
fn try_reserve_slots(slots: &mut Vec<Slot>, additional: usize) -> (granted: bool)
    ensures
        final(slots)@ == old(slots)@,
{
    slots.try_reserve_exact(additional).is_ok()
}

proof fn lemma_count_zero(s: Seq<Slot>)
    requires
        forall|j: int| 0 <= j < s.len() ==> #[trigger] s[j].refs == EMPTY,
    ensures
        count_state(s, 1) == 0,
        count_state(s, 2) == 0,
    decreases s.len(),
{
    if s.len() > 0 {
        assert forall|j: int| 0 <= j < s.drop_last().len() implies #[trigger] s.drop_last()[j].refs == EMPTY by {
            assert(s.drop_last()[j] == s[j]);
        }
        lemma_count_zero(s.drop_last());
        assert(s.last().refs == EMPTY);
    }
}

proof fn lemma_count_prefix(s: Seq<Slot>, k: int, state: int)
    requires
        0 <= k <= s.len(),
    ensures
        count_state(s.take(k), state) <= count_state(s, state),
    decreases s.len(),
{
    if k == s.len() {
        assert(s.take(k) =~= s);
    } else {
        assert(s.drop_last().take(k) =~= s.take(k));
        lemma_count_prefix(s.drop_last(), k, state);
    }
}

proof fn lemma_take_unique(s: Seq<Slot>, k: int)
    requires
        keys_unique(s),
        0 <= k <= s.len(),
    ensures
        keys_unique(s.take(k)),
{
    let t = s.take(k);
    assert forall|a: int, b: int|
        0 <= a < t.len() && 0 <= b < t.len() && a != b && is_live(#[trigger] t[a]) && is_live(#[trigger] t[b])
        implies t[a].phys != t[b].phys by {
        assert(t[a] == s[a] && t[b] == s[b]);
    }
}

proof fn lemma_take_absent(s: Seq<Slot>, i: int)
    requires
        keys_unique(s),
        0 <= i < s.len(),
        is_live(s[i]),
    ensures
        forall|j: int| 0 <= j < i && is_live(#[trigger] s.take(i)[j]) ==> s.take(i)[j].phys != s[i].phys,
{
    assert forall|j: int| 0 <= j < i && is_live(#[trigger] s.take(i)[j]) implies s.take(i)[j].phys != s[i].phys by {
        assert(s.take(i)[j] == s[j]);
    }
}

proof fn lemma_map_push(s: Seq<Slot>, v: Slot)
    requires
        keys_unique(s),
        is_live(v) ==> forall|j: int| 0 <= j < s.len() && is_live(#[trigger] s[j]) ==> s[j].phys != v.phys,
    ensures
        keys_unique(s.push(v)),
        table_map(s.push(v)) == (if is_live(v) { table_map(s).insert(v.phys, v.refs) } else { table_map(s) }),
{
    let n = s.push(v);
    let last = s.len() as int;
    assert forall|a: int, b: int|
        0 <= a < n.len() && 0 <= b < n.len() && a != b && is_live(#[trigger] n[a]) && is_live(#[trigger] n[b])
        implies n[a].phys != n[b].phys by {
        if a < last {
            assert(n[a] == s[a]);
        }
        if b < last {
            assert(n[b] == s[b]);
        }
    }
    let m = if is_live(v) { table_map(s).insert(v.phys, v.refs) } else { table_map(s) };
    assert forall|k: u64| table_map(n).contains_key(k) <==> m.contains_key(k) by {
        if table_map(n).contains_key(k) {
            let j = choose|j: int| 0 <= j < n.len() && is_live(#[trigger] n[j]) && n[j].phys == k;
            if j < last {
                assert(n[j] == s[j]);
            }
        }
        if table_map(s).contains_key(k) {
            let j = choose|j: int| 0 <= j < s.len() && is_live(#[trigger] s[j]) && s[j].phys == k;
            assert(n[j] == s[j]);
        }
        if is_live(v) && k == v.phys {
            assert(is_live(n[last]) && n[last].phys == k);
        }
    }
    assert forall|k: u64| #[trigger] table_map(n).contains_key(k) implies table_map(n)[k] == m[k] by {
        let j = live_index(n, k);
        lemma_map_at(n, j);
        if j < last {
            assert(n[j] == s[j]);
            lemma_map_at(s, j);
        }
    }
    assert(table_map(n) =~= m);
}

impl FrameReferenceTable {
    /// The reference count of each shared frame.
    pub closed spec fn counts(&self) -> Map<u64, u32> {
        table_map(self.slots@)
    }

    pub closed spec fn wf(&self) -> bool {
        let s = self.slots@;
        &&& self.live == count_state(s, 2)
        &&& self.deleted == count_state(s, 1)
        &&& s.len() == 0 || (s.len() >= INITIAL_CAPACITY && 4 * (self.live + self.deleted) <= 3 * s.len())
        &&& keys_unique(s)
        &&& probes_valid(s)
    }

    /// Whether the next new frame fits without growing the table.
    pub closed spec fn has_room(&self) -> bool {
        self.slots@.len() > 0 && 4 * (self.live + self.deleted + 1) <= 3 * self.slots@.len()
    }

    pub fn new() -> (t: Self)
        ensures
            t.wf(),
            t.counts() == Map::<u64, u32>::empty(),
    {
        let t = FrameReferenceTable { slots: Vec::new(), live: 0, deleted: 0 };
        assert(t.counts() =~= Map::<u64, u32>::empty());
        t
    }

    /// Rebuilds the table with `capacity` slots, dropping deleted ones.
    fn rehash(&mut self, capacity: usize) -> (r: Result<(), FrameRefError>)
        requires
            old(self).wf(),
            capacity >= INITIAL_CAPACITY,
            4 * (old(self).live + 1) <= 3 * capacity,
        ensures
            final(self).wf(),
            final(self).counts() == old(self).counts(),
            r is Ok ==> final(self).has_room(),
            r is Ok ==> final(self).slots@.len() == capacity && final(self).deleted == 0
                && final(self).live == old(self).live,
            r is Err ==> final(self).slots@ == old(self).slots@ && final(self).live == old(self).live
                && final(self).deleted == old(self).deleted,
    {
        let mut slots: Vec<Slot> = Vec::new();
        if !try_reserve_slots(&mut slots, capacity) {
            return Err(FrameRefError::OutOfMemory);
        }
        let mut n: usize = 0;
        while n < capacity
            invariant
                n <= capacity,
                slots@.len() == n,
                forall|j: int| 0 <= j < n ==> #[trigger] slots@[j].refs == EMPTY,
            decreases capacity - n,
        {
            slots.push(Slot { phys: 0, refs: EMPTY });
            n = n + 1;
        }
        let ghost old_slots = self.slots@;
        let ghost c = capacity as int;
        proof {
            lemma_count_partition(old_slots);
            assert(count_state(slots@, 1) == 0 && count_state(slots@, 2) == 0) by {
                lemma_count_zero(slots@);
            }
            assert(table_map(slots@) =~= table_map(old_slots.take(0)));
        }
        let mut i: usize = 0;
        let mut inserted: usize = 0;
        while i < self.slots.len()
            invariant
                old_slots == self.slots@,
                old_slots == old(self).slots@,
                self.live == old(self).live,
                self.deleted == old(self).deleted,
                old(self).wf(),
                c == capacity,
                slots@.len() == capacity,
                capacity >= INITIAL_CAPACITY,
                4 * (old(self).live + 1) <= 3 * capacity,
                i <= old_slots.len(),
                inserted == count_state(old_slots.take(i as int), 2),
                count_state(slots@, 2) == inserted,
                count_state(slots@, 1) == 0,
                keys_unique(slots@),
                probes_valid(slots@),
                table_map(slots@) == table_map(old_slots.take(i as int)),
            decreases old_slots.len() - i,
        {
            let old_slot = self.slots[i];
            proof {
                assert(old_slots.take(i + 1).drop_last() =~= old_slots.take(i as int));
                assert(old_slots.take(i + 1).last() == old_slot);
            }
            if old_slot.refs >= 2 {
                proof {
                    lemma_count_prefix(old_slots, i + 1, 2);
                    lemma_count_partition(slots@);
                    lemma_has_empty(slots@);
                    lemma_take_unique(old_slots, i as int);
                    lemma_take_absent(old_slots, i as int);
                }
                let (index, _) = locate(&slots, old_slot.phys);
                proof {
                    assert(!table_map(slots@).contains_key(old_slot.phys));
                    assert forall|j: int| 0 <= j < slots@.len() && j != index && is_live(#[trigger] slots@[j])
                        implies slots@[j].phys != old_slot.phys by {
                        lemma_map_at(slots@, j);
                    }
                    lemma_map_set(slots@, index as int, old_slot);
                    lemma_probes_update(slots@, index as int, old_slot);
                    lemma_count_update(slots@, index as int, old_slot, 1);
                    lemma_count_update(slots@, index as int, old_slot, 2);
                    lemma_map_push(old_slots.take(i as int), old_slot);
                    assert(old_slots.take(i + 1) =~= old_slots.take(i as int).push(old_slot));
                }
                slots.set(index, old_slot);
                inserted = inserted + 1;
            } else {
                proof {
                    lemma_take_unique(old_slots, i as int);
                    lemma_map_push(old_slots.take(i as int), old_slot);
                    assert(old_slots.take(i + 1) =~= old_slots.take(i as int).push(old_slot));
                }
            }
            i = i + 1;
        }
        proof {
            assert(old_slots.take(old_slots.len() as int) =~= old_slots);
        }
        self.slots = slots;
        self.deleted = 0;
        Ok(())
    }

    /// Makes room for one more frame: the first frame allocates the table,
    /// and a table three quarters full is rebuilt, twice as large when half
    /// of it is live.
    fn ensure_insert_capacity(&mut self) -> (r: Result<(), FrameRefError>)
        requires
            old(self).wf(),
        ensures
            final(self).wf(),
            final(self).counts() == old(self).counts(),
            r is Ok ==> final(self).has_room(),
            old(self).has_room() ==> r is Ok && final(self).slots@ == old(self).slots@
                && final(self).live == old(self).live && final(self).deleted == old(self).deleted,
    {
        let len = self.slots.len();
        if len == 0 {
            return self.rehash(INITIAL_CAPACITY);
        }
        proof {
            lemma_count_partition(self.slots@);
        }
        if self.live + self.deleted + 1 <= len / 4 * 3 + len % 4 * 3 / 4 {
            return Ok(());
        }
        let capacity = if self.live + 1 <= len / 2 {
            len
        } else {
            match len.checked_mul(2) {
                Some(doubled) => doubled,
                None => return Err(FrameRefError::OutOfMemory),
            }
        };
        self.rehash(capacity)
    }

    /// Records one more reference to the frame at `phys`. Refused when its
    /// count would overflow or the table cannot grow; the counts are then
    /// unchanged.
    pub fn retain(&mut self, phys: u64) -> (r: Result<(), FrameRefError>)
        requires
            old(self).wf(),
        ensures
            final(self).wf(),
            r is Ok ==> final(self).counts() == after_retain(old(self).counts(), phys),
            r is Err ==> final(self).counts() == old(self).counts(),
            old(self).counts().contains_key(phys) && old(self).counts()[phys] == u32::MAX ==> r is Err,
            old(self).has_room() && !(old(self).counts().contains_key(phys) && old(self).counts()[phys] == u32::MAX)
                ==> r is Ok,
    {
        match self.ensure_insert_capacity() {
            Ok(()) => {},
            Err(e) => return Err(e),
        }
        let ghost s = self.slots@;
        proof {
            lemma_count_partition(s);
            lemma_has_empty(s);
        }
        let (index, first_deleted) = locate(&self.slots, phys);
        if self.slots[index].refs == EMPTY {
            let target = match first_deleted {
                Some(d) => d,
                None => index,
            };
            self.insert_new(target, phys);
            Ok(())
        } else {
            proof {
                lemma_map_at(s, index as int);
            }
            match self.slots[index].refs.checked_add(1) {
                None => Err(FrameRefError::OutOfMemory),
                Some(refs) => {
                    self.set_count(index, phys, refs);
                    Ok(())
                },
            }
        }
    }

    /// Lists `phys` with a count of two in slot `target`, an empty or deleted
    /// slot whose probe path from the home of `phys` is in use.
    fn insert_new(&mut self, target: usize, phys: u64)
        requires
            old(self).wf(),
            old(self).has_room(),
            target < old(self).slots@.len(),
            !is_live(old(self).slots@[target as int]),
            !old(self).counts().contains_key(phys),
            probe_clear(
                old(self).slots@,
                home(phys, old(self).slots@.len() as int),
                dist(home(phys, old(self).slots@.len() as int), target as int, old(self).slots@.len() as int),
            ),
        ensures
            final(self).wf(),
            final(self).counts() == old(self).counts().insert(phys, 2),
    {
        let ghost s = self.slots@;
        let new_slot = Slot { phys, refs: 2 };
        let was_deleted = self.slots[target].refs == DELETED;
        let len = self.slots.len();
        assert(self.live + 1 <= len);
        let live = self.live + 1;
        proof {
            assert forall|j: int| 0 <= j < s.len() && j != target && is_live(#[trigger] s[j])
                implies s[j].phys != phys by {
                lemma_map_at(s, j);
            }
            lemma_map_set(s, target as int, new_slot);
            lemma_probes_update(s, target as int, new_slot);
            lemma_count_update(s, target as int, new_slot, 1);
            lemma_count_update(s, target as int, new_slot, 2);
        }
        self.slots.set(target, new_slot);
        self.live = live;
        if was_deleted {
            self.deleted = self.deleted - 1;
        }
    }

    /// Sets the count of `phys`, listed in slot `index`, to `refs`.
    fn set_count(&mut self, index: usize, phys: u64, refs: u32)
        requires
            old(self).wf(),
            index < old(self).slots@.len(),
            is_live(old(self).slots@[index as int]),
            old(self).slots@[index as int].phys == phys,
            refs >= 2,
        ensures
            final(self).wf(),
            final(self).counts() == old(self).counts().insert(phys, refs),
    {
        let ghost s = self.slots@;
        let new_slot = Slot { phys, refs };
        proof {
            assert forall|j: int| 0 <= j < s.len() && j != index && is_live(#[trigger] s[j])
                implies s[j].phys != phys by {
                assert(s[index as int].phys != s[j].phys);
            }
            lemma_map_set(s, index as int, new_slot);
            lemma_probes_update(s, index as int, new_slot);
            lemma_count_update(s, index as int, new_slot, 1);
            lemma_count_update(s, index as int, new_slot, 2);
        }
        self.slots.set(index, new_slot);
    }

    /// Drops one reference to the frame at `phys`; whether the frame was not
    /// shared, so that its last owner may free it.
    pub fn release(&mut self, phys: u64) -> (unshared: bool)
        requires
            old(self).wf(),
        ensures
            final(self).wf(),
            unshared == !old(self).counts().contains_key(phys),
            final(self).counts() == after_release(old(self).counts(), phys),
    {
        let ghost s = self.slots@;
        if self.slots.len() == 0 {
            assert(!self.counts().contains_key(phys));
            return true;
        }
        proof {
            lemma_count_partition(s);
            lemma_has_empty(s);
        }
        let (index, _) = locate(&self.slots, phys);
        let slot = self.slots[index];
        if slot.refs == EMPTY {
            return true;
        }
        proof {
            lemma_map_at(s, index as int);
        }
        if slot.refs == 2 {
            let new_slot = Slot { phys: slot.phys, refs: DELETED };
            proof {
                lemma_map_clear(s, index as int, new_slot);
                lemma_probes_update(s, index as int, new_slot);
                lemma_count_update(s, index as int, new_slot, 1);
                lemma_count_update(s, index as int, new_slot, 2);
            }
            self.slots.set(index, new_slot);
            self.live = self.live - 1;
            self.deleted = self.deleted + 1;
        } else {
            self.set_count(index, phys, slot.refs - 1);
        }
        false
    }

}

/// Every count the table holds is at least two.
pub open spec fn counts_shared(counts: Map<u64, u32>) -> bool {
    forall|k: u64| #[trigger] counts.contains_key(k) ==> counts[k] >= 2
}

/// A well-formed table lists only shared frames.
pub proof fn lemma_counts_shared(table: &FrameReferenceTable)
    requires
        table.wf(),
    ensures
        counts_shared(table.counts()),
{
    assert forall|k: u64| #[trigger] table.counts().contains_key(k) implies table.counts()[k] >= 2 by {
        let i = live_index(table.slots@, k);
        lemma_map_at(table.slots@, i);
    }
}

/// Dropping a reference right after taking one gives back the counts there
/// were before.
pub proof fn lemma_release_undoes_retain(counts: Map<u64, u32>, phys: u64)
    requires
        counts_shared(counts),
        !(counts.contains_key(phys) && counts[phys] == u32::MAX),
    ensures
        after_release(after_retain(counts, phys), phys) == counts,
{
    if counts.contains_key(phys) {
        assert(counts[phys] >= 2);
        assert(after_release(after_retain(counts, phys), phys) =~= counts);
    } else {
        assert(after_release(after_retain(counts, phys), phys) =~= counts);
    }
}

/// The counts after `k` more references to `phys`.
pub open spec fn retain_times(counts: Map<u64, u32>, phys: u64, k: nat) -> Map<u64, u32>
    decreases k,
{
    if k == 0 {
        counts
    } else {
        after_retain(retain_times(counts, phys, (k - 1) as nat), phys)
    }
}

/// The counts after `k` references to `phys` are dropped.
pub open spec fn release_times(counts: Map<u64, u32>, phys: u64, k: nat) -> Map<u64, u32>
    decreases k,
{
    if k == 0 {
        counts
    } else {
        after_release(release_times(counts, phys, (k - 1) as nat), phys)
    }
}

proof fn lemma_retain_times(counts: Map<u64, u32>, phys: u64, k: nat)
    requires
        !counts.contains_key(phys),
        k < u32::MAX,
    ensures
        retain_times(counts, phys, k) == (if k == 0 { counts } else { counts.insert(phys, (k + 1) as u32) }),
    decreases k,
{
    if k > 0 {
        lemma_retain_times(counts, phys, (k - 1) as nat);
        if k == 1 {
            assert(retain_times(counts, phys, k) =~= counts.insert(phys, 2));
        } else {
            assert(retain_times(counts, phys, k) =~= counts.insert(phys, (k + 1) as u32));
        }
    }
}

proof fn lemma_release_times(counts: Map<u64, u32>, phys: u64, m: nat, j: nat)
    requires
        !counts.contains_key(phys),
        2 <= m <= u32::MAX,
    ensures
        release_times(counts.insert(phys, m as u32), phys, j)
            == (if j + 1 < m { counts.insert(phys, (m - j) as u32) } else { counts }),
    decreases j,
{
    if j > 0 {
        lemma_release_times(counts, phys, m, (j - 1) as nat);
        if j + 1 < m {
            assert(release_times(counts.insert(phys, m as u32), phys, j) =~= counts.insert(phys, (m - j) as u32));
        } else if j + 1 == m {
            assert(release_times(counts.insert(phys, m as u32), phys, j) =~= counts);
        }
    } else {
        assert(release_times(counts.insert(phys, m as u32), phys, j) =~= counts.insert(phys, m as u32));
    }
}

/// A frame that nobody shared, `retain`ed `k` times and then `release`d:
/// each of the first `k` releases finds it still shared and returns false,
/// and after them the counts are as they were, so that release `k + 1`
/// returns true. (`retain` and `release` change the counts exactly as
/// `after_retain` and `after_release` say, and `release` returns whether the
/// frame had no entry.)
pub proof fn lemma_retains_then_releases(counts: Map<u64, u32>, phys: u64, k: nat)
    requires
        !counts.contains_key(phys),
        k < u32::MAX,
    ensures
        forall|j: nat| j < k ==> #[trigger] release_times(retain_times(counts, phys, k), phys, j).contains_key(phys),
        release_times(retain_times(counts, phys, k), phys, k) == counts,
{
    lemma_retain_times(counts, phys, k);
    if k == 0 {
    } else {
        assert forall|j: nat| j < k implies #[trigger] release_times(retain_times(counts, phys, k), phys, j).contains_key(phys) by {
            lemma_release_times(counts, phys, k + 1, j);
        }
        lemma_release_times(counts, phys, k + 1, k);
    }
}

/// Retaining or releasing another frame leaves the count of `phys` as it was.
pub proof fn lemma_other_frame_untouched(counts: Map<u64, u32>, phys: u64, other: u64)
    requires
        other != phys,
    ensures
        after_retain(counts, other).contains_key(phys) == counts.contains_key(phys),
        after_release(counts, other).contains_key(phys) == counts.contains_key(phys),
        counts.contains_key(phys) ==> after_retain(counts, other)[phys] == counts[phys]
            && after_release(counts, other)[phys] == counts[phys],
{
}

/// How many owners the frame at `phys` has: its count when it is listed,
/// else its one owner.
pub open spec fn owners(counts: Map<u64, u32>, phys: u64) -> int {
    if counts.contains_key(phys) { counts[phys] as int } else { 1 }
}

/// The counts after the operations `ops` in order, each a frame and whether
/// a reference to it is taken (else one is dropped).
pub open spec fn apply_ops(counts: Map<u64, u32>, ops: Seq<(bool, u64)>) -> Map<u64, u32>
    decreases ops.len(),
{
    if ops.len() == 0 {
        counts
    } else {
        let prev = apply_ops(counts, ops.drop_last());
        if ops.last().0 { after_retain(prev, ops.last().1) } else { after_release(prev, ops.last().1) }
    }
}

/// The owners `phys` has after `ops`, from `start` owners: each retain of
/// it adds one, each release takes one away down to the last owner, and
/// operations on other frames change nothing.
pub open spec fn owners_after(start: int, ops: Seq<(bool, u64)>, phys: u64) -> int
    decreases ops.len(),
{
    if ops.len() == 0 {
        start
    } else {
        let prev = owners_after(start, ops.drop_last(), phys);
        if ops.last().1 != phys {
            prev
        } else if ops.last().0 {
            prev + 1
        } else if prev > 1 {
            prev - 1
        } else {
            prev
        }
    }
}

/// Whether no count can overflow over `steps` more references.
pub open spec fn room_for(counts: Map<u64, u32>, steps: int) -> bool {
    &&& steps + 1 < u32::MAX
    &&& forall|k: u64| #[trigger] counts.contains_key(k) ==> counts[k] + steps < u32::MAX
}

proof fn lemma_apply_ops_room(counts: Map<u64, u32>, ops: Seq<(bool, u64)>)
    requires
        counts_shared(counts),
        room_for(counts, ops.len() as int),
    ensures
        counts_shared(apply_ops(counts, ops)),
        forall|k: u64| #[trigger] apply_ops(counts, ops).contains_key(k) ==> apply_ops(counts, ops)[k] <= owners(counts, k) + ops.len(),
    decreases ops.len(),
{
    if ops.len() > 0 {
        let prev = apply_ops(counts, ops.drop_last());
        lemma_apply_ops_room(counts, ops.drop_last());
        assert forall|k: u64| #[trigger] apply_ops(counts, ops).contains_key(k) implies apply_ops(counts, ops)[k]
            <= owners(counts, k) + ops.len() by {
            if prev.contains_key(k) {
            }
        }
    }
}

/// Every interleaving of `retain` and `release` calls, over this frame and
/// others:
/// the frame at `phys` ends with the owners `owners_after` counts, and a
/// release of it reports the frame unshared exactly when it had one owner.
pub proof fn lemma_owners_follow_ops(counts: Map<u64, u32>, ops: Seq<(bool, u64)>, phys: u64)
    requires
        counts_shared(counts),
        room_for(counts, ops.len() as int),
    ensures
        owners(apply_ops(counts, ops), phys) == owners_after(owners(counts, phys), ops, phys),
        apply_ops(counts, ops).contains_key(phys) <==> owners_after(owners(counts, phys), ops, phys) > 1,
    decreases ops.len(),
{
    lemma_apply_ops_room(counts, ops);
    if ops.len() > 0 {
        let prev = apply_ops(counts, ops.drop_last());
        lemma_owners_follow_ops(counts, ops.drop_last(), phys);
        lemma_apply_ops_room(counts, ops.drop_last());
        if prev.contains_key(phys) {
            assert(prev[phys] >= 2);
        }
    }
}

} // verus!

//! Path-level rights and the registry of protected paths.

use vstd::prelude::*;
use vstd::string::StringSliceAdditionalSpecFns;
use crate::capability::{Capability, DynamicCapabilityRegistry, intern_spec};
use crate::policy::PrivilegeLevel;
use crate::policy::signature::{newline_from, strip_cr, text_lines};
use crate::text::{bytes_equal, first_index_of, has_prefix, split_on, split_ranges, trim, trim_range};

verus! {

pub const PATH_READ: u32 = 1;
pub const PATH_WRITE: u32 = 2;
pub const PATH_EXEC: u32 = 4;
pub const PATH_CREATE: u32 = 8;
pub const PATH_DELETE: u32 = 16;
pub const PATH_LIST: u32 = 32;
pub const PATH_MOUNT: u32 = 64;
pub const PATH_MANAGE: u32 = 128;

#[derive(Debug, Clone, Copy, PartialEq, Eq, Structural)]
pub enum PathOwner {
    System,
    User(u64),
    Service(u64),
    Application(u64),
    Any,
}

#[derive(Debug, Clone, Copy, PartialEq, Eq, Structural)]
pub struct PathRights {
    pub bits: u32,
}

impl PathRights {
    pub fn new(bits: u32) -> (r: Self)
        ensures
            r.bits == bits,
    {
        PathRights { bits }
    }

    /// Whether every bit of `rights` is granted.
    pub fn contains(self, rights: u32) -> (r: bool)
        ensures
            r == (self.bits & rights == rights),
    {
        (self.bits & rights) == rights
    }
}

#[derive(Debug, Clone, Copy, PartialEq, Eq, Structural)]
pub enum PathRegistryError {
    AlreadyRegistered,
    InvalidPath,
    InvalidCapability,
}

/// Who owns a registered path, what it grants, and the capabilities that
/// stand for reading and writing under it.
#[derive(Debug, Clone, Copy, PartialEq, Eq, Structural)]
pub struct PathGrant {
    pub owner: PathOwner,
    pub rights: PathRights,
    pub read_capability: Capability,
    pub write_capability: Capability,
}

/// A registered path, normalized, with its grant.
#[derive(Debug, Clone)]
pub struct PathCapability {
    pub path: Vec<u8>,
    pub owner: PathOwner,
    pub rights: PathRights,
    pub read_capability: Capability,
    pub write_capability: Capability,
}

impl PathCapability {
    pub open spec fn grant(&self) -> PathGrant {
        PathGrant {
            owner: self.owner,
            rights: self.rights,
            read_capability: self.read_capability,
            write_capability: self.write_capability,
        }
    }
}

/// Path components after applying `segment`: empty and `.` segments are
/// dropped and `..` removes the last component, if any.
pub open spec fn apply_segment(parts: Seq<Seq<u8>>, segment: Seq<u8>) -> Seq<Seq<u8>> {
    if segment.len() == 0 || segment == seq![0x2eu8] {
        parts
    } else if segment == seq![0x2eu8, 0x2eu8] {
        if parts.len() == 0 { parts } else { parts.drop_last() }
    } else {
        parts.push(segment)
    }
}

/// Components left after applying `segments` in turn.
pub open spec fn resolve_segments(segments: Seq<Seq<u8>>) -> Seq<Seq<u8>>
    decreases segments.len(),
{
    if segments.len() == 0 {
        Seq::empty()
    } else {
        apply_segment(resolve_segments(segments.drop_last()), segments.last())
    }
}

/// `/` followed by each component, separated by `/`.
pub open spec fn join_components(parts: Seq<Seq<u8>>) -> Seq<u8>
    decreases parts.len(),
{
    if parts.len() == 0 {
        Seq::empty()
    } else {
        join_components(parts.drop_last()).push(0x2fu8) + parts.last()
    }
}

/// The normal form of an absolute path: its components with `.`, empty
/// components and `..` resolved, joined by single slashes; `/` for the root.
pub open spec fn normalize(path: Seq<u8>) -> Option<Seq<u8>> {
    if path.len() == 0 || path[0] != 0x2f {
        None
    } else {
        let parts = resolve_segments(split_on(path, 0x2f));
        if parts.len() == 0 { Some(seq![0x2fu8]) } else { Some(join_components(parts)) }
    }
}

fn copy_range(bytes: &[u8], from: usize, to: usize) -> (v: Vec<u8>)
    requires
        from <= to <= bytes@.len(),
    ensures
        v@ == bytes@.subrange(from as int, to as int),
{
    let mut v: Vec<u8> = Vec::new();
    let mut i = from;
    while i < to
        invariant
            from <= i <= to <= bytes@.len(),
            v@ == bytes@.subrange(from as int, i as int),
        decreases to - i,
    {
        v.push(bytes[i]);
        i = i + 1;
        assert(v@ =~= bytes@.subrange(from as int, i as int));
    }
    v
}

fn is_dot(bytes: &[u8], from: usize, to: usize) -> (r: bool)
    requires
        from <= to <= bytes@.len(),
    ensures
        r == (bytes@.subrange(from as int, to as int) == seq![0x2eu8]),
{
    if to - from == 1 && bytes[from] == 0x2e {
        assert(bytes@.subrange(from as int, to as int) =~= seq![0x2eu8]);
        true
    } else {
        assert(seq![0x2eu8].len() == 1 && seq![0x2eu8][0] == 0x2eu8);
        if to - from == 1 {
            assert(bytes@.subrange(from as int, to as int)[0] != 0x2eu8);
        }
        false
    }
}

fn is_dot_dot(bytes: &[u8], from: usize, to: usize) -> (r: bool)
    requires
        from <= to <= bytes@.len(),
    ensures
        r == (bytes@.subrange(from as int, to as int) == seq![0x2eu8, 0x2eu8]),
{
    if to - from == 2 && bytes[from] == 0x2e && bytes[from + 1] == 0x2e {
        assert(bytes@.subrange(from as int, to as int) =~= seq![0x2eu8, 0x2eu8]);
        true
    } else {
        assert(seq![0x2eu8, 0x2eu8].len() == 2 && seq![0x2eu8, 0x2eu8][0] == 0x2eu8 && seq![0x2eu8, 0x2eu8][1] == 0x2eu8);
        if to - from == 2 {
            assert(bytes@.subrange(from as int, to as int)[0] != 0x2eu8 || bytes@.subrange(from as int, to as int)[1] != 0x2eu8);
        }
        false
    }
}

/// Normal form of `path`, if it is absolute.
pub fn normalize_path(path: &[u8]) -> (r: Option<Vec<u8>>)
    ensures
        match normalize(path@) {
            None => r is None,
            Some(n) => r matches Some(v) && v@ == n,
        },
{
    let n = path.len();
    if n == 0 || path[0] != 0x2f {
        return None;
    }
    let ranges = split_ranges(path, 0, n, 0x2f);
    let ghost segments = split_on(path@.subrange(0, n as int), 0x2f);
    assert(path@.subrange(0, n as int) =~= path@);
    let mut parts: Vec<(usize, usize)> = Vec::new();
    let mut k: usize = 0;
    while k < ranges.len()
        invariant
            k <= ranges@.len() == segments.len(),
            segments == split_on(path@, 0x2f),
            forall|j: int| 0 <= j < ranges@.len() ==> (#[trigger] ranges@[j]).0 <= ranges@[j].1 <= path@.len()
                && path@.subrange(ranges@[j].0 as int, ranges@[j].1 as int) == segments[j],
            forall|j: int| 0 <= j < parts@.len() ==> (#[trigger] parts@[j]).0 <= parts@[j].1 <= path@.len(),
            parts@.map_values(|p: (usize, usize)| path@.subrange(p.0 as int, p.1 as int)) == resolve_segments(segments.take(k as int)),
        decreases ranges@.len() - k,
    {
        let (from, to) = ranges[k];
        let ghost before = parts@.map_values(|p: (usize, usize)| path@.subrange(p.0 as int, p.1 as int));
        proof {
            assert(segments.take(k + 1).drop_last() =~= segments.take(k as int));
            assert(segments.take(k + 1).last() == segments[k as int]);
        }
        if from == to || is_dot(path, from, to) {
        } else if is_dot_dot(path, from, to) {
            if parts.len() > 0 {
                let _ = parts.pop();
                assert(parts@.map_values(|p: (usize, usize)| path@.subrange(p.0 as int, p.1 as int)) =~= before.drop_last());
            }
        } else {
            parts.push((from, to));
            assert(parts@.map_values(|p: (usize, usize)| path@.subrange(p.0 as int, p.1 as int)) =~= before.push(segments[k as int]));
        }
        k = k + 1;
    }
    assert(segments.take(k as int) =~= segments);
    let ghost components = parts@.map_values(|p: (usize, usize)| path@.subrange(p.0 as int, p.1 as int));
    if parts.len() == 0 {
        let mut root: Vec<u8> = Vec::new();
        root.push(0x2f);
        assert(root@ =~= seq![0x2fu8]);
        return Some(root);
    }
    let mut out: Vec<u8> = Vec::new();
    let mut j: usize = 0;
    while j < parts.len()
        invariant
            j <= parts@.len(),
            components == parts@.map_values(|p: (usize, usize)| path@.subrange(p.0 as int, p.1 as int)),
            forall|i: int| 0 <= i < parts@.len() ==> (#[trigger] parts@[i]).0 <= parts@[i].1 <= path@.len(),
            out@ == join_components(components.take(j as int)),
        decreases parts@.len() - j,
    {
        let (from, to) = parts[j];
        let ghost before = out@;
        out.push(0x2f);
        let mut i = from;
        while i < to
            invariant
                from <= i <= to <= path@.len(),
                out@ == before.push(0x2fu8) + path@.subrange(from as int, i as int),
            decreases to - i,
        {
            out.push(path[i]);
            i = i + 1;
            assert(out@ =~= before.push(0x2fu8) + path@.subrange(from as int, i as int));
        }
        proof {
            assert(components.take(j + 1).drop_last() =~= components.take(j as int));
            assert(components.take(j + 1).last() == components[j as int]);
        }
        j = j + 1;
    }
    assert(components.take(j as int) =~= components);
    Some(out)
}

/// Owner of paths a process registers: the system for core processes, the
/// service for services and the application for user processes.
pub fn path_owner_for_current_process(pid: u64, privilege: PrivilegeLevel) -> (o: PathOwner)
    ensures
        o == (match privilege {
            PrivilegeLevel::Core => PathOwner::System,
            PrivilegeLevel::Service => PathOwner::Service(pid),
            PrivilegeLevel::User => PathOwner::Application(pid),
        }),
{
    match privilege {
        PrivilegeLevel::Core => PathOwner::System,
        PrivilegeLevel::Service => PathOwner::Service(pid),
        PrivilegeLevel::User => PathOwner::Application(pid),
    }
}

struct PathEntry {
    path: Vec<u8>,
    grant: PathGrant,
}

/// Whether `a` comes before `b` in byte-wise lexicographic order.
pub open spec fn lex_less(a: Seq<u8>, b: Seq<u8>) -> bool
    decreases a.len(),
{
    if a.len() == 0 {
        b.len() > 0
    } else if b.len() == 0 {
        false
    } else if a[0] != b[0] {
        a[0] < b[0]
    } else {
        lex_less(a.drop_first(), b.drop_first())
    }
}

proof fn lemma_lex_total(a: Seq<u8>, b: Seq<u8>)
    ensures
        a != b ==> (lex_less(a, b) || lex_less(b, a)),
        !(lex_less(a, b) && lex_less(b, a)),
        !lex_less(a, a),
    decreases a.len(),
{
    if a.len() > 0 && b.len() > 0 {
        lemma_lex_total(a.drop_first(), b.drop_first());
        if a[0] == b[0] && a != b {
            assert(a =~= seq![a[0]] + a.drop_first());
            assert(b =~= seq![b[0]] + b.drop_first());
        }
    } else if a.len() == 0 && b.len() == 0 {
        assert(a =~= b);
    } else if a.len() > 0 {
        lemma_lex_total(a.drop_first(), a.drop_first());
    }
}

proof fn lemma_lex_transitive(a: Seq<u8>, b: Seq<u8>, c: Seq<u8>)
    requires
        lex_less(a, b),
        lex_less(b, c),
    ensures
        lex_less(a, c),
    decreases a.len(),
{
    if a.len() > 0 && b.len() > 0 && c.len() > 0 && a[0] == b[0] && b[0] == c[0] {
        lemma_lex_transitive(a.drop_first(), b.drop_first(), c.drop_first());
    }
}

fn compare_less(a: &[u8], b: &[u8]) -> (r: bool)
    ensures
        r == lex_less(a@, b@),
{
    let mut i: usize = 0;
    assert(a@.subrange(0, a@.len() as int) =~= a@);
    assert(b@.subrange(0, b@.len() as int) =~= b@);
    while i < a.len() && i < b.len() && a[i] == b[i]
        invariant
            i <= a@.len(),
            i <= b@.len(),
            lex_less(a@, b@) == lex_less(a@.subrange(i as int, a@.len() as int), b@.subrange(i as int, b@.len() as int)),
        decreases a@.len() - i,
    {
        proof {
            let x = a@.subrange(i as int, a@.len() as int);
            let y = b@.subrange(i as int, b@.len() as int);
            assert(x.drop_first() =~= a@.subrange(i + 1, a@.len() as int));
            assert(y.drop_first() =~= b@.subrange(i + 1, b@.len() as int));
        }
        i = i + 1;
    }
    let ghost x = a@.subrange(i as int, a@.len() as int);
    let ghost y = b@.subrange(i as int, b@.len() as int);
    if i == a.len() {
        i < b.len()
    } else if i == b.len() {
        false
    } else {
        assert(x[0] == a@[i as int] && y[0] == b@[i as int]);
        a[i] < b[i]
    }
}

/// Protected paths, each normalized, with the grant registered for it.
pub struct PathRegistry {
    entries: Vec<PathEntry>,
}

/// Whether `registered` covers `path`: the root covers everything, and a
/// path covers itself and everything below it.
pub open spec fn covers(registered: Seq<u8>, path: Seq<u8>) -> bool {
    registered == seq![0x2fu8] || registered == path || (has_prefix(path, registered) && path.len() > registered.len()
        && path[registered.len() as int] == 0x2f)
}

/// Outcome of registering `grant` for the normalized `path` in `map`: an
/// identical registration is accepted and changes nothing, a different one
/// for the same path is refused.
pub open spec fn register_spec(map: Map<Seq<u8>, PathGrant>, path: Seq<u8>, grant: PathGrant) -> (Result<(), PathRegistryError>, Map<Seq<u8>, PathGrant>) {
    if map.contains_key(path) {
        if map[path] == grant {
            (Ok(()), map)
        } else {
            (Err(PathRegistryError::AlreadyRegistered), map)
        }
    } else {
        (Ok(()), map.insert(path, grant))
    }
}

/// Outcome of registering `path` with `rights` for `owner`, read and written
/// under the broad file-system capabilities.
pub open spec fn register_path_spec(map: Map<Seq<u8>, PathGrant>, path: Seq<u8>, owner: PathOwner, rights: PathRights) -> (Result<(), PathRegistryError>, Map<Seq<u8>, PathGrant>) {
    match normalize(path) {
        None => (Err(PathRegistryError::InvalidPath), map),
        Some(n) => register_spec(map, n, PathGrant {
            owner,
            rights,
            read_capability: Capability::FsReadAll,
            write_capability: Capability::FsWriteAll,
        }),
    }
}

impl PathRegistry {
    pub closed spec fn paths(&self) -> Seq<Seq<u8>> {
        self.entries@.map_values(|e: PathEntry| e.path@)
    }

    /// Registered paths and their grants.
    pub closed spec fn view_map(&self) -> Map<Seq<u8>, PathGrant> {
        entries_map(self.entries@)
    }

    #[verifier::type_invariant]
    spec fn sorted(self) -> bool {
        forall|i: int, j: int| 0 <= i < j < self.entries@.len() ==> lex_less(#[trigger] self.entries@[i].path@, #[trigger] self.entries@[j].path@)
    }

    pub fn new() -> (r: Self)
        ensures
            r.view_map() == Map::<Seq<u8>, PathGrant>::empty(),
    {
        let r = PathRegistry { entries: Vec::new() };
        assert(r.view_map() =~= Map::<Seq<u8>, PathGrant>::empty());
        r
    }
}


/// Map from path to grant of `entries`.
spec fn entries_map(entries: Seq<PathEntry>) -> Map<Seq<u8>, PathGrant> {
    Map::new(
        |p: Seq<u8>| exists|i: int| 0 <= i < entries.len() && #[trigger] entries[i].path@ == p,
        |p: Seq<u8>| entries[entry_index(entries, p)].grant,
    )
}

/// Position of an entry for `p` in `entries`.
spec fn entry_index(entries: Seq<PathEntry>, p: Seq<u8>) -> int {
    choose|i: int| 0 <= i < entries.len() && #[trigger] entries[i].path@ == p
}

spec fn sorted_entries(entries: Seq<PathEntry>) -> bool {
    forall|i: int, j: int| 0 <= i < j < entries.len() ==> lex_less(#[trigger] entries[i].path@, #[trigger] entries[j].path@)
}

proof fn lemma_sorted_distinct(entries: Seq<PathEntry>, i: int, j: int)
    requires
        sorted_entries(entries),
        0 <= i < entries.len(),
        0 <= j < entries.len(),
        entries[i].path@ == entries[j].path@,
    ensures
        i == j,
{
    if i < j {
        lemma_lex_total(entries[i].path@, entries[j].path@);
    } else if j < i {
        lemma_lex_total(entries[j].path@, entries[i].path@);
    }
}

proof fn lemma_entry_in_map(entries: Seq<PathEntry>, i: int)
    requires
        sorted_entries(entries),
        0 <= i < entries.len(),
    ensures
        entries_map(entries).contains_key(entries[i].path@),
        entries_map(entries)[entries[i].path@] == entries[i].grant,
{
    let p = entries[i].path@;
    assert(exists|k: int| 0 <= k < entries.len() && #[trigger] entries[k].path@ == p);
    let k = entry_index(entries, p);
    lemma_sorted_distinct(entries, i, k);
}

proof fn lemma_insert_entry(entries: Seq<PathEntry>, at: int, e: PathEntry)
    requires
        sorted_entries(entries),
        0 <= at <= entries.len(),
        forall|i: int| 0 <= i < at ==> lex_less(#[trigger] entries[i].path@, e.path@),
        forall|i: int| at <= i < entries.len() ==> lex_less(e.path@, #[trigger] entries[i].path@),
    ensures
        sorted_entries(entries.insert(at, e)),
        !entries_map(entries).contains_key(e.path@),
        entries_map(entries.insert(at, e)) == entries_map(entries).insert(e.path@, e.grant),
{
    let n = entries.insert(at, e);
    assert forall|i: int, j: int| 0 <= i < j < n.len() implies lex_less(#[trigger] n[i].path@, #[trigger] n[j].path@) by {
        if j < at {
        } else if j == at {
        } else if i < at {
            assert(n[j] == entries[j - 1]);
            lemma_lex_transitive(n[i].path@, e.path@, n[j].path@);
        } else if i == at {
            assert(n[j] == entries[j - 1]);
        } else {
            assert(n[i] == entries[i - 1] && n[j] == entries[j - 1]);
        }
    }
    assert(!entries_map(entries).contains_key(e.path@)) by {
        if entries_map(entries).contains_key(e.path@) {
            let k = choose|k: int| 0 <= k < entries.len() && #[trigger] entries[k].path@ == e.path@;
            if k < at {
                lemma_lex_total(entries[k].path@, e.path@);
            } else {
                lemma_lex_total(e.path@, entries[k].path@);
            }
        }
    }
    assert forall|p: Seq<u8>| entries_map(n).contains_key(p) <==> entries_map(entries).insert(e.path@, e.grant).contains_key(p) by {
        if entries_map(n).contains_key(p) {
            let k = choose|k: int| 0 <= k < n.len() && #[trigger] n[k].path@ == p;
            if k < at {
                assert(entries[k].path@ == p);
            } else if k > at {
                assert(entries[k - 1].path@ == p);
            }
        }
        if entries_map(entries).contains_key(p) {
            let k = choose|k: int| 0 <= k < entries.len() && #[trigger] entries[k].path@ == p;
            if k < at {
                assert(n[k].path@ == p);
            } else {
                assert(n[k + 1].path@ == p);
            }
        }
        if p == e.path@ {
            assert(n[at].path@ == p);
        }
    }
    assert forall|p: Seq<u8>| #[trigger] entries_map(n).contains_key(p) implies entries_map(n)[p] == entries_map(entries).insert(e.path@, e.grant)[p] by {
        let k = choose|k: int| 0 <= k < n.len() && #[trigger] n[k].path@ == p;
        lemma_entry_in_map(n, k);
        if k < at {
            lemma_entry_in_map(entries, k);
        } else if k > at {
            lemma_entry_in_map(entries, k - 1);
        }
    }
    assert(entries_map(n) =~= entries_map(entries).insert(e.path@, e.grant));
}

impl PathRegistry {
    /// Position where `path` is, or would be inserted.
    fn slot(&self, path: &[u8]) -> (r: usize)
        ensures
            r <= self.entries@.len(),
            forall|i: int| 0 <= i < r ==> lex_less(#[trigger] self.entries@[i].path@, path@),
            forall|i: int| r <= i < self.entries@.len() ==> !lex_less(#[trigger] self.entries@[i].path@, path@),
    {
        proof {
            use_type_invariant(self);
        }
        let mut i: usize = 0;
        while i < self.entries.len()
            invariant
                i <= self.entries@.len(),
                sorted_entries(self.entries@),
                forall|j: int| 0 <= j < i ==> lex_less(#[trigger] self.entries@[j].path@, path@),
            decreases self.entries@.len() - i,
        {
            if !compare_less(self.entries[i].path.as_slice(), path) {
                assert forall|j: int| i <= j < self.entries@.len() implies !lex_less(#[trigger] self.entries@[j].path@, path@) by {
                    if j > i && lex_less(self.entries@[j].path@, path@) {
                        assert(lex_less(self.entries@[i as int].path@, self.entries@[j].path@));
                        lemma_lex_transitive(self.entries@[i as int].path@, self.entries@[j].path@, path@);
                    }
                }
                return i;
            }
            i = i + 1;
        }
        i
    }

    /// Registers `grant` for the normalized path `normalized`.
    fn register_normalized(&mut self, normalized: Vec<u8>, grant: PathGrant) -> (r: Result<(), PathRegistryError>)
        ensures
            (r, final(self).view_map()) == register_spec(old(self).view_map(), normalized@, grant),
    {
        proof {
            use_type_invariant(&*self);
        }
        let at = self.slot(normalized.as_slice());
        if at < self.entries.len() && bytes_equal(self.entries[at].path.as_slice(), normalized.as_slice()) {
            proof {
                lemma_entry_in_map(self.entries@, at as int);
            }
            if self.entries[at].grant == grant {
                return Ok(());
            }
            return Err(PathRegistryError::AlreadyRegistered);
        }
        let ghost before = self.entries@;
        proof {
            assert forall|i: int| at <= i < before.len() implies lex_less(normalized@, #[trigger] before[i].path@) by {
                lemma_lex_total(before[i].path@, normalized@);
                if i > at {
                    assert(lex_less(before[at as int].path@, before[i].path@));
                    if before[i].path@ == normalized@ {
                        lemma_lex_total(before[at as int].path@, normalized@);
                    }
                }
            }
        }
        let entry = PathEntry { path: normalized, grant };
        proof {
            lemma_insert_entry(before, at as int, entry);
        }
        let mut entries = Vec::new();
        std::mem::swap(&mut entries, &mut self.entries);
        entries.insert(at, entry);
        self.entries = entries;
        Ok(())
    }

    /// Registers `path` with `rights` for `owner`; paths are read and written
    /// under the broad file-system capabilities.
    pub fn register_path(&mut self, path: &str, owner: PathOwner, rights: PathRights) -> (r: Result<(), PathRegistryError>)
        ensures
            (r, final(self).view_map()) == register_path_spec(old(self).view_map(), path.spec_bytes(), owner, rights),
    {
        let normalized = match normalize_path(path.as_bytes()) {
            Some(n) => n,
            None => return Err(PathRegistryError::InvalidPath),
        };
        self.register_normalized(normalized, PathGrant {
            owner,
            rights,
            read_capability: Capability::FsReadAll,
            write_capability: Capability::FsWriteAll,
        })
    }

    /// Registers `path` for any owner, read and written under the named
    /// capabilities, interned in `capabilities`.
    pub fn register_configured_path(
        &mut self,
        capabilities: &mut DynamicCapabilityRegistry,
        path: &[u8],
        read_capability: &[u8],
        write_capability: &[u8],
        rights: PathRights,
    ) -> (r: Result<(), PathRegistryError>)
        requires
            old(capabilities).wf(),
        ensures
            final(capabilities).wf(),
            (r, final(self).view_map(), final(capabilities).names()) == configured_spec(
                old(self).view_map(),
                old(capabilities).names(),
                path@,
                read_capability@,
                write_capability@,
                rights,
            ),
    {
        let normalized = match normalize_path(path) {
            Some(n) => n,
            None => return Err(PathRegistryError::InvalidPath),
        };
        let read = match Capability::intern_bytes(read_capability, capabilities) {
            Some(c) => c,
            None => return Err(PathRegistryError::InvalidCapability),
        };
        let write = match Capability::intern_bytes(write_capability, capabilities) {
            Some(c) => c,
            None => return Err(PathRegistryError::InvalidCapability),
        };
        self.register_normalized(normalized, PathGrant {
            owner: PathOwner::Any,
            rights,
            read_capability: read,
            write_capability: write,
        })
    }

    /// Registers each of `paths` for the service `service_pid`, in order; how
    /// many were accepted.
    pub fn register_service_paths(&mut self, service_pid: u64, paths: &[(&str, PathRights)]) -> (count: usize)
        ensures
            (count as nat, final(self).view_map()) == register_all(old(self).view_map(), service_pid, path_list(paths@)),
    {
        let ghost list = path_list(paths@);
        let ghost start = self.view_map();
        let mut registered: usize = 0;
        let mut i: usize = 0;
        assert(list.take(0) =~= Seq::<(Seq<u8>, PathRights)>::empty());
        while i < paths.len()
            invariant
                i <= paths@.len(),
                list == path_list(paths@),
                start == old(self).view_map(),
                (registered as nat, self.view_map()) == register_all(start, service_pid, list.take(i as int)),
                registered <= i,
            decreases paths@.len() - i,
        {
            let (path, rights) = paths[i];
            proof {
                assert(list.take(i + 1).drop_last() =~= list.take(i as int));
                assert(list.take(i + 1).last() == (path.spec_bytes(), rights));
            }
            if self.register_path(path, PathOwner::Service(service_pid), rights).is_ok() {
                registered = registered + 1;
            }
            i = i + 1;
        }
        assert(list.take(i as int) =~= list);
        registered
    }

    /// Registers the `capability.path` rules of the kernel configuration
    /// text `config`, in order; a text that is not UTF-8 registers nothing.
    pub fn init_from_kernel_config(&mut self, capabilities: &mut DynamicCapabilityRegistry, config: &[u8])
        requires
            old(capabilities).wf(),
        ensures
            final(capabilities).wf(),
            !vstd::utf8::valid_utf8(config@) ==> final(self).view_map() == old(self).view_map()
                && final(capabilities).names() == old(capabilities).names(),
            vstd::utf8::valid_utf8(config@) ==> (final(self).view_map(), final(capabilities).names()) == apply_rules(
                old(self).view_map(),
                old(capabilities).names(),
                config_rules(text_lines(config@)),
            ),
    {
        if !crate::policy::signature::valid_utf8_text(config) {
            return;
        }
        let n = config.len();
        let ghost all = text_lines(config@);
        let ghost start_map = self.view_map();
        let ghost start_names = capabilities.names();
        let ghost mut done: Seq<Seq<u8>> = Seq::empty();
        let mut pos: usize = 0;
        assert(config@.subrange(0, n as int) =~= config@);
        while pos < n
            invariant
                pos <= n == config@.len(),
                capabilities.wf(),
                all == text_lines(config@),
                all == done + text_lines(config@.subrange(pos as int, n as int)),
                start_map == old(self).view_map(),
                start_names == old(capabilities).names(),
                (self.view_map(), capabilities.names()) == apply_rules(start_map, start_names, config_rules(done)),
            decreases n - pos,
        {
            let (line_end, next) = next_line(config, pos);
            let ghost line = config@.subrange(pos as int, line_end as int);
            let rule = parse_config_line(config, pos, line_end);
            proof {
                assert(done.push(line).drop_last() =~= done);
                assert(done.push(line).last() == line);
            }
            if let Some((p, read, write, rights)) = rule {
                let ghost spec_rule = config_rule(line)->0;
                let ghost rules = config_rules(done);
                proof {
                    assert(config_rules(done.push(line)) == rules.push(spec_rule));
                    assert(rules.push(spec_rule).drop_last() =~= rules);
                    assert(rules.push(spec_rule).last() == spec_rule);
                }
                let _ = self.register_configured_path(
                    capabilities,
                    slice_of(config, p).as_slice(),
                    slice_of(config, read).as_slice(),
                    slice_of(config, write).as_slice(),
                    PathRights::new(rights),
                );
            } else {
                assert(config_rules(done.push(line)) == config_rules(done));
            }
            proof {
                done = done.push(line);
                assert(all =~= done + text_lines(config@.subrange(next as int, n as int)));
            }
            pos = next;
        }
        proof {
            assert(config@.subrange(n as int, n as int) =~= Seq::<u8>::empty());
            assert(all =~= done);
        }
    }

    /// The registration whose path covers `path` most narrowly.
    pub fn lookup_path(&self, path: &str) -> (r: Option<PathCapability>)
        ensures
            normalize(path.spec_bytes()) is None ==> r is None,
            normalize(path.spec_bytes()) matches Some(n) ==> match r {
                None => forall|p: Seq<u8>| #[trigger] self.view_map().contains_key(p) ==> !covers(p, n),
                Some(c) => self.view_map().contains_key(c.path@) && covers(c.path@, n)
                    && self.view_map()[c.path@] == c.grant()
                    && forall|p: Seq<u8>| #[trigger] self.view_map().contains_key(p) && covers(p, n) ==> p.len() <= c.path@.len(),
            },
    {
        proof {
            use_type_invariant(self);
        }
        let normalized = match normalize_path(path.as_bytes()) {
            Some(n) => n,
            None => return None,
        };
        let mut best: Option<usize> = None;
        let mut i: usize = 0;
        while i < self.entries.len()
            invariant
                i <= self.entries@.len(),
                sorted_entries(self.entries@),
                best matches Some(b) ==> b < i && covers(self.entries@[b as int].path@, normalized@),
                forall|j: int| 0 <= j < i && #[trigger] covers(self.entries@[j].path@, normalized@) ==> best is Some
                    && self.entries@[j].path@.len() <= self.entries@[best->0 as int].path@.len(),
            decreases self.entries@.len() - i,
        {
            let candidate = self.entries[i].path.as_slice();
            let is_match = covers_exec(candidate, normalized.as_slice());
            if is_match {
                best = match best {
                    Some(current) if self.entries[current].path.len() >= candidate.len() => Some(current),
                    _ => Some(i),
                };
            }
            i = i + 1;
        }
        match best {
            None => {
                assert forall|p: Seq<u8>| #[trigger] self.view_map().contains_key(p) implies !covers(p, normalized@) by {
                    let k = choose|k: int| 0 <= k < self.entries@.len() && #[trigger] self.entries@[k].path@ == p;
                }
                None
            },
            Some(b) => {
                let entry = &self.entries[b];
                assert(entry.path@.subrange(0, entry.path@.len() as int) =~= entry.path@);
                proof {
                    lemma_entry_in_map(self.entries@, b as int);
                    assert forall|p: Seq<u8>| #[trigger] self.view_map().contains_key(p) && covers(p, normalized@) implies p.len() <= entry.path@.len() by {
                        let k = choose|k: int| 0 <= k < self.entries@.len() && #[trigger] self.entries@[k].path@ == p;
                    }
                }
                Some(PathCapability {
                    path: copy_range(entry.path.as_slice(), 0, entry.path.len()),
                    owner: entry.grant.owner,
                    rights: entry.grant.rights,
                    read_capability: entry.grant.read_capability,
                    write_capability: entry.grant.write_capability,
                })
            },
        }
    }

    /// Every registration, in byte order of the paths.
    pub fn list_paths(&self) -> (r: Vec<PathCapability>)
        ensures
            r@.len() == self.view_map().len(),
            forall|i: int| 0 <= i < r@.len() ==> self.view_map().contains_key((#[trigger] r@[i]).path@)
                && self.view_map()[r@[i].path@] == r@[i].grant(),
            forall|i: int, j: int| 0 <= i < j < r@.len() ==> lex_less((#[trigger] r@[i]).path@, (#[trigger] r@[j]).path@),
    {
        proof {
            use_type_invariant(self);
            lemma_entries_map_len(self.entries@);
        }
        let mut out: Vec<PathCapability> = Vec::new();
        let mut i: usize = 0;
        while i < self.entries.len()
            invariant
                i <= self.entries@.len(),
                sorted_entries(self.entries@),
                out@.len() == i,
                forall|k: int| 0 <= k < i ==> (#[trigger] out@[k]).path@ == self.entries@[k].path@
                    && out@[k].grant() == self.entries@[k].grant,
            decreases self.entries@.len() - i,
        {
            let entry = &self.entries[i];
            out.push(PathCapability {
                path: copy_range(entry.path.as_slice(), 0, entry.path.len()),
                owner: entry.grant.owner,
                rights: entry.grant.rights,
                read_capability: entry.grant.read_capability,
                write_capability: entry.grant.write_capability,
            });
            proof {
                assert(entry.path@.subrange(0, entry.path@.len() as int) =~= entry.path@);
            }
            i = i + 1;
        }
        proof {
            assert forall|k: int| 0 <= k < out@.len() implies self.view_map().contains_key((#[trigger] out@[k]).path@)
                && self.view_map()[out@[k].path@] == out@[k].grant() by {
                lemma_entry_in_map(self.entries@, k);
            }
        }
        out
    }
}

proof fn lemma_entries_map_len(entries: Seq<PathEntry>)
    requires
        sorted_entries(entries),
    ensures
        entries_map(entries).len() == entries.len(),
        entries_map(entries).dom().finite(),
    decreases entries.len(),
{
    if entries.len() == 0 {
        assert(entries_map(entries).dom() =~= Set::<Seq<u8>>::empty());
    } else {
        let init = entries.drop_last();
        let last = entries.last();
        assert(sorted_entries(init));
        lemma_entries_map_len(init);
        assert(entries =~= init.insert(init.len() as int, last));
        assert forall|i: int| 0 <= i < init.len() implies lex_less(#[trigger] init[i].path@, last.path@) by {
            assert(lex_less(entries[i].path@, entries[entries.len() - 1].path@));
        }
        lemma_insert_entry(init, init.len() as int, last);
        assert(!entries_map(init).contains_key(last.path@)) by {
            if entries_map(init).contains_key(last.path@) {
                let k = choose|k: int| 0 <= k < init.len() && #[trigger] init[k].path@ == last.path@;
                lemma_lex_total(init[k].path@, last.path@);
            }
        }
    }
}

fn covers_exec(registered: &[u8], path: &[u8]) -> (r: bool)
    ensures
        r == covers(registered@, path@),
{
    if registered.len() == 1 && registered[0] == 0x2f {
        assert(registered@ =~= seq![0x2fu8]);
        return true;
    }
    if bytes_equal(registered, path) {
        return true;
    }
    proof {
        if registered@.len() == 1 {
            assert(registered@ != seq![0x2fu8]) by {
                assert(seq![0x2fu8][0] == 0x2f);
            }
        }
        if registered@.len() != 1 {
            assert(registered@.len() != seq![0x2fu8].len());
        }
    }
    if path.len() > registered.len() && crate::text::starts_with(path, registered) {
        return path[registered.len()] == 0x2f;
    }
    false
}

/// Label of right number `i`, in bit order.
pub open spec fn right_label(i: nat) -> Seq<char> {
    if i == 0 {
        "read"@
    } else if i == 1 {
        "write"@
    } else if i == 2 {
        "exec"@
    } else if i == 3 {
        "create"@
    } else if i == 4 {
        "delete"@
    } else if i == 5 {
        "list"@
    } else if i == 6 {
        "mount"@
    } else {
        "manage"@
    }
}

fn right_label_str(i: u32) -> (s: &'static str)
    requires
        i < 8,
    ensures
        s@ == right_label(i as nat),
{
    if i == 0 {
        "read"
    } else if i == 1 {
        "write"
    } else if i == 2 {
        "exec"
    } else if i == 3 {
        "create"
    } else if i == 4 {
        "delete"
    } else if i == 5 {
        "list"
    } else if i == 6 {
        "mount"
    } else {
        "manage"
    }
}

/// Labels of the rights among the low `n` bits of `bits`, in bit order.
pub open spec fn rights_labels(bits: u32, n: nat) -> Seq<Seq<char>>
    decreases n,
{
    if n == 0 {
        Seq::empty()
    } else {
        let before = rights_labels(bits, (n - 1) as nat);
        if bits & (1u32 << ((n - 1) as u32)) != 0 { before.push(right_label((n - 1) as nat)) } else { before }
    }
}

/// `labels` joined by `|`.
pub open spec fn join_with_bar(labels: Seq<Seq<char>>) -> Seq<char>
    decreases labels.len(),
{
    if labels.len() == 0 {
        Seq::empty()
    } else if labels.len() == 1 {
        labels[0]
    } else {
        join_with_bar(labels.drop_last()) + "|"@ + labels.last()
    }
}

/// Labels of the rights in `bits`, in bit order, joined by `|`; `-` for none.
pub open spec fn rights_text(bits: u32) -> Seq<char> {
    let labels = rights_labels(bits, 8);
    if labels.len() == 0 { "-"@ } else { join_with_bar(labels) }
}

pub fn rights_to_string(rights: PathRights) -> (s: String)
    ensures
        s@ == rights_text(rights.bits),
{
    let mut s = String::new();
    let mut any = false;
    let mut i: u32 = 0;
    while i < 8
        invariant
            i <= 8,
            any == (rights_labels(rights.bits, i as nat).len() > 0),
            s@ == join_with_bar(rights_labels(rights.bits, i as nat)),
        decreases 8 - i,
    {
        let bit = 1u32 << i;
        if rights.bits & bit != 0 {
            let ghost before = rights_labels(rights.bits, i as nat);
            if any {
                s.append("|");
            }
            s.append(right_label_str(i));
            any = true;
            proof {
                let after = rights_labels(rights.bits, (i + 1) as nat);
                assert(after == before.push(right_label(i as nat)));
                assert(after.drop_last() =~= before);
                if before.len() == 0 {
                    assert(s@ =~= Seq::<char>::empty() + right_label(i as nat));
                    assert(join_with_bar(before) =~= Seq::<char>::empty());
                }
            }
        }
        i = i + 1;
    }
    if !any {
        s.append("-");
        assert(s@ =~= Seq::<char>::empty() + "-"@);
    }
    s
}

/// Digit `d` of a numeral, lowercase above nine.
pub open spec fn digit_text(d: nat) -> Seq<char> {
    if d == 0 {
        "0"@
    } else if d == 1 {
        "1"@
    } else if d == 2 {
        "2"@
    } else if d == 3 {
        "3"@
    } else if d == 4 {
        "4"@
    } else if d == 5 {
        "5"@
    } else if d == 6 {
        "6"@
    } else if d == 7 {
        "7"@
    } else if d == 8 {
        "8"@
    } else if d == 9 {
        "9"@
    } else if d == 10 {
        "a"@
    } else if d == 11 {
        "b"@
    } else if d == 12 {
        "c"@
    } else if d == 13 {
        "d"@
    } else if d == 14 {
        "e"@
    } else {
        "f"@
    }
}

/// Numeral of `n` in base `base`, most significant digit first, without
/// leading zeros.
pub open spec fn numeral(n: nat, base: nat) -> Seq<char>
    decreases n,
{
    if base < 2 || n < base {
        digit_text(n)
    } else {
        proof {
            assert(n / base < n) by (nonlinear_arith)
                requires
                    base >= 2,
                    n >= base,
            ;
        }
        numeral(n / base, base) + digit_text(n % base)
    }
}

fn digit_str(d: u64) -> (s: &'static str)
    requires
        d < 16,
    ensures
        s@ == digit_text(d as nat),
{
    if d == 0 {
        "0"
    } else if d == 1 {
        "1"
    } else if d == 2 {
        "2"
    } else if d == 3 {
        "3"
    } else if d == 4 {
        "4"
    } else if d == 5 {
        "5"
    } else if d == 6 {
        "6"
    } else if d == 7 {
        "7"
    } else if d == 8 {
        "8"
    } else if d == 9 {
        "9"
    } else if d == 10 {
        "a"
    } else if d == 11 {
        "b"
    } else if d == 12 {
        "c"
    } else if d == 13 {
        "d"
    } else if d == 14 {
        "e"
    } else {
        "f"
    }
}

fn push_numeral(s: &mut String, n: u64, base: u64)
    requires
        base == 10 || base == 16,
    ensures
        final(s)@ == old(s)@ + numeral(n as nat, base as nat),
    decreases n,
{
    if n >= base {
        push_numeral(s, n / base, base);
    }
    s.append(digit_str(n % base));
    proof {
        if n >= base {
            assert(final(s)@ =~= old(s)@ + numeral(n as nat, base as nat)) by {
                assert(numeral(n as nat, base as nat) == numeral((n / base) as nat, base as nat) + digit_text((n % base) as nat));
            }
        } else {
            assert((n % base) == n) by (nonlinear_arith)
                requires
                    n < base,
                    base > 0,
            ;
        }
    }
}

/// Text naming `owner`: user ids in decimal, process ids in `0x` hexadecimal.
pub open spec fn owner_text(owner: PathOwner) -> Seq<char> {
    match owner {
        PathOwner::System => "system"@,
        PathOwner::User(uid) => "user:"@ + numeral(uid as nat, 10),
        PathOwner::Service(pid) => "service:0x"@ + numeral(pid as nat, 16),
        PathOwner::Application(pid) => "application:0x"@ + numeral(pid as nat, 16),
        PathOwner::Any => "any"@,
    }
}

pub fn owner_to_string(owner: PathOwner) -> (s: String)
    ensures
        s@ == owner_text(owner),
{
    let mut s = String::new();
    match owner {
        PathOwner::System => {
            s.append("system");
        },
        PathOwner::User(uid) => {
            s.append("user:");
            push_numeral(&mut s, uid, 10);
        },
        PathOwner::Service(pid) => {
            s.append("service:0x");
            push_numeral(&mut s, pid, 16);
        },
        PathOwner::Application(pid) => {
            s.append("application:0x");
            push_numeral(&mut s, pid, 16);
        },
        PathOwner::Any => {
            s.append("any");
        },
    }
    assert(s@ =~= owner_text(owner));
    s
}


/// Outcome of registering a configured rule: the path normalized, then the
/// read and the write capability interned, then the grant registered for any
/// owner; the registry of capability names afterwards.
pub open spec fn configured_spec(
    map: Map<Seq<u8>, PathGrant>,
    names: Seq<Seq<u8>>,
    path: Seq<u8>,
    read: Seq<u8>,
    write: Seq<u8>,
    rights: PathRights,
) -> (Result<(), PathRegistryError>, Map<Seq<u8>, PathGrant>, Seq<Seq<u8>>) {
    match normalize(path) {
        None => (Err(PathRegistryError::InvalidPath), map, names),
        Some(n) => {
            let (read_cap, after_read) = intern_spec(names, read);
            match read_cap {
                None => (Err(PathRegistryError::InvalidCapability), map, after_read),
                Some(rc) => {
                    let (write_cap, after_write) = intern_spec(after_read, write);
                    match write_cap {
                        None => (Err(PathRegistryError::InvalidCapability), map, after_write),
                        Some(wc) => {
                            let (r, m) = register_spec(map, n, PathGrant {
                                owner: PathOwner::Any,
                                rights,
                                read_capability: rc,
                                write_capability: wc,
                            });
                            (r, m, after_write)
                        },
                    }
                },
            }
        },
    }
}

/// UTF-8 bytes and rights of each path of `paths`.
pub open spec fn path_list(paths: Seq<(&str, PathRights)>) -> Seq<(Seq<u8>, PathRights)> {
    paths.map_values(|p: (&str, PathRights)| (p.0.spec_bytes(), p.1))
}

/// Registers each of `paths` for the service `pid` in turn: how many were
/// accepted, and the registrations afterwards.
pub open spec fn register_all(map: Map<Seq<u8>, PathGrant>, pid: u64, paths: Seq<(Seq<u8>, PathRights)>) -> (nat, Map<Seq<u8>, PathGrant>)
    decreases paths.len(),
{
    if paths.len() == 0 {
        (0, map)
    } else {
        let (count, before) = register_all(map, pid, paths.drop_last());
        let (r, after) = register_path_spec(before, paths.last().0, PathOwner::Service(pid), paths.last().1);
        (if r is Ok { count + 1 } else { count }, after)
    }
}

/// Bit of the right named `name`.
pub open spec fn right_bit(name: Seq<u8>) -> Option<u32> {
    if name == "read".spec_bytes() {
        Some(1u32)
    } else if name == "write".spec_bytes() {
        Some(2u32)
    } else if name == "exec".spec_bytes() {
        Some(4u32)
    } else if name == "create".spec_bytes() {
        Some(8u32)
    } else if name == "delete".spec_bytes() {
        Some(16u32)
    } else if name == "list".spec_bytes() {
        Some(32u32)
    } else if name == "mount".spec_bytes() {
        Some(64u32)
    } else if name == "manage".spec_bytes() {
        Some(128u32)
    } else {
        None
    }
}

/// Rights a comma-separated list of names grants, each name trimmed; `None`
/// if one is not a right.
pub open spec fn rights_of(items: Seq<Seq<u8>>) -> Option<u32>
    decreases items.len(),
{
    if items.len() == 0 {
        Some(0)
    } else {
        match (rights_of(items.drop_last()), right_bit(trim(items.last()))) {
            (Some(bits), Some(bit)) => Some(bits | bit),
            _ => None,
        }
    }
}

/// The rule a configuration line states: `capability.path = PATH; READ;
/// WRITE; RIGHTS`, with each field trimmed, as byte sequences and rights.
pub open spec fn config_rule(line: Seq<u8>) -> Option<(Seq<u8>, Seq<u8>, Seq<u8>, u32)> {
    let t = trim(line);
    if t.len() == 0 || t[0] == 0x23 || first_index_of(t, 0x3d) is None {
        None
    } else {
        let eq = first_index_of(t, 0x3d)->0;
        let fields = split_on(t.subrange(eq + 1, t.len() as int), 0x3b);
        if trim(t.subrange(0, eq)) != "capability.path".spec_bytes() || fields.len() != 4 {
            None
        } else {
            match rights_of(split_on(trim(fields[3]), 0x2c)) {
                None => None,
                Some(bits) => Some((trim(fields[0]), trim(fields[1]), trim(fields[2]), bits)),
            }
        }
    }
}

/// Rules of the configuration lines, in order.
pub open spec fn config_rules(lines: Seq<Seq<u8>>) -> Seq<(Seq<u8>, Seq<u8>, Seq<u8>, u32)>
    decreases lines.len(),
{
    if lines.len() == 0 {
        Seq::empty()
    } else {
        let before = config_rules(lines.drop_last());
        match config_rule(lines.last()) {
            Some(rule) => before.push(rule),
            None => before,
        }
    }
}

/// Registrations and capability names after registering each rule in turn;
/// a rule that is refused changes nothing but the capabilities it interned.
pub open spec fn apply_rules(
    map: Map<Seq<u8>, PathGrant>,
    names: Seq<Seq<u8>>,
    rules: Seq<(Seq<u8>, Seq<u8>, Seq<u8>, u32)>,
) -> (Map<Seq<u8>, PathGrant>, Seq<Seq<u8>>)
    decreases rules.len(),
{
    if rules.len() == 0 {
        (map, names)
    } else {
        let (m, n) = apply_rules(map, names, rules.drop_last());
        let rule = rules.last();
        let (_, m2, n2) = configured_spec(m, n, rule.0, rule.1, rule.2, PathRights { bits: rule.3 });
        (m2, n2)
    }
}

fn slice_of(bytes: &[u8], range: (usize, usize)) -> (v: Vec<u8>)
    requires
        range.0 <= range.1 <= bytes@.len(),
    ensures
        v@ == bytes@.subrange(range.0 as int, range.1 as int),
{
    copy_range(bytes, range.0, range.1)
}

fn right_bit_of(bytes: &[u8], from: usize, to: usize) -> (r: Option<u32>)
    requires
        from <= to <= bytes@.len(),
    ensures
        r == right_bit(bytes@.subrange(from as int, to as int)),
{
    let word = slice_of(bytes, (from, to));
    if bytes_equal(word.as_slice(), "read".as_bytes()) {
        Some(1)
    } else if bytes_equal(word.as_slice(), "write".as_bytes()) {
        Some(2)
    } else if bytes_equal(word.as_slice(), "exec".as_bytes()) {
        Some(4)
    } else if bytes_equal(word.as_slice(), "create".as_bytes()) {
        Some(8)
    } else if bytes_equal(word.as_slice(), "delete".as_bytes()) {
        Some(16)
    } else if bytes_equal(word.as_slice(), "list".as_bytes()) {
        Some(32)
    } else if bytes_equal(word.as_slice(), "mount".as_bytes()) {
        Some(64)
    } else if bytes_equal(word.as_slice(), "manage".as_bytes()) {
        Some(128)
    } else {
        None
    }
}

fn parse_rights(bytes: &[u8], from: usize, to: usize) -> (r: Option<u32>)
    requires
        from <= to <= bytes@.len(),
    ensures
        r == rights_of(split_on(bytes@.subrange(from as int, to as int), 0x2c)),
{
    let ranges = split_ranges(bytes, from, to, 0x2c);
    let ghost items = split_on(bytes@.subrange(from as int, to as int), 0x2c);
    let mut bits: u32 = 0;
    let mut k: usize = 0;
    assert(items.take(0) =~= Seq::<Seq<u8>>::empty());
    while k < ranges.len()
        invariant
            k <= ranges@.len() == items.len(),
            items == split_on(bytes@.subrange(from as int, to as int), 0x2c),
            forall|j: int| 0 <= j < ranges@.len() ==> from <= (#[trigger] ranges@[j]).0 <= ranges@[j].1 <= to
                && bytes@.subrange(ranges@[j].0 as int, ranges@[j].1 as int) == items[j],
            to <= bytes@.len(),
            rights_of(items.take(k as int)) == Some(bits),
        decreases ranges@.len() - k,
    {
        let (a, b) = ranges[k];
        let (x, y) = trim_range(bytes, a, b);
        proof {
            assert(items.take(k + 1).drop_last() =~= items.take(k as int));
            assert(items.take(k + 1).last() == items[k as int]);
        }
        match right_bit_of(bytes, x, y) {
            Some(bit) => {
                bits = bits | bit;
            },
            None => {
                proof {
                    lemma_rights_stop(items, k + 1);
                    assert(items.take(items.len() as int) =~= items);
                }
                return None;
            },
        }
        k = k + 1;
    }
    assert(items.take(k as int) =~= items);
    Some(bits)
}

proof fn lemma_rights_stop(items: Seq<Seq<u8>>, m: int)
    requires
        0 < m <= items.len(),
        rights_of(items.take(m)) is None,
    ensures
        rights_of(items) is None,
    decreases items.len() - m,
{
    if m < items.len() {
        assert(items.take(m + 1).drop_last() =~= items.take(m));
        lemma_rights_stop(items, m + 1);
    } else {
        assert(items.take(m) =~= items);
    }
}

/// Reads the configuration line `bytes[start..end]`: the bounds of its path,
/// read and write fields, and its rights.
fn parse_config_line(bytes: &[u8], start: usize, end: usize) -> (r: Option<((usize, usize), (usize, usize), (usize, usize), u32)>)
    requires
        start <= end <= bytes@.len(),
    ensures
        match config_rule(bytes@.subrange(start as int, end as int)) {
            None => r is None,
            Some((p, rd, wr, bits)) => r matches Some((pr, rr, wr_range, b)) && b == bits
                && pr.0 <= pr.1 <= bytes@.len() && bytes@.subrange(pr.0 as int, pr.1 as int) == p
                && rr.0 <= rr.1 <= bytes@.len() && bytes@.subrange(rr.0 as int, rr.1 as int) == rd
                && wr_range.0 <= wr_range.1 <= bytes@.len() && bytes@.subrange(wr_range.0 as int, wr_range.1 as int) == wr,
        },
{
    let (from, to) = trim_range(bytes, start, end);
    let ghost t = bytes@.subrange(from as int, to as int);
    if from == to || bytes[from] == 0x23 {
        return None;
    }
    let mut eq = from;
    while eq < to && bytes[eq] != 0x3d
        invariant
            from <= eq <= to <= bytes@.len(),
            t == bytes@.subrange(from as int, to as int),
            forall|j: int| from <= j < eq ==> bytes@[j] != 0x3d,
        decreases to - eq,
    {
        eq = eq + 1;
    }
    if eq == to {
        assert forall|j: int| 0 <= j < t.len() implies t[j] != 0x3d by {
            assert(t[j] == bytes@[from + j]);
        }
        return None;
    }
    proof {
        assert(t[eq - from] == 0x3d);
        let k = first_index_of(t, 0x3d)->0;
        assert(first_index_of(t, 0x3d) is Some);
        if k < eq - from {
            assert(t[k] == bytes@[from + k]);
        } else if k > eq - from {
            assert(t[eq - from] == 0x3d);
        }
        assert(t.subrange(0, eq - from) =~= bytes@.subrange(from as int, eq as int));
        assert(t.subrange(eq - from + 1, t.len() as int) =~= bytes@.subrange(eq + 1, to as int));
    }
    let (kx, ky) = trim_range(bytes, from, eq);
    let key = slice_of(bytes, (kx, ky));
    if !bytes_equal(key.as_slice(), "capability.path".as_bytes()) {
        return None;
    }
    let fields = split_ranges(bytes, eq + 1, to, 0x3b);
    if fields.len() != 4 {
        return None;
    }
    let (p0, p1) = fields[0];
    let (r0, r1) = fields[1];
    let (w0, w1) = fields[2];
    let (g0, g1) = fields[3];
    let path = trim_range(bytes, p0, p1);
    let read = trim_range(bytes, r0, r1);
    let write = trim_range(bytes, w0, w1);
    let (gx, gy) = trim_range(bytes, g0, g1);
    let bits = match parse_rights(bytes, gx, gy) {
        Some(b) => b,
        None => return None,
    };
    Some((path, read, write, bits))
}

/// End of the line at `pos`, without its line ending, and the start of the
/// next one.
pub(crate) fn next_line(bytes: &[u8], pos: usize) -> (r: (usize, usize))
    requires
        pos < bytes@.len(),
    ensures
        pos <= r.0 <= r.1 <= bytes@.len(),
        r.1 > pos,
        text_lines(bytes@.subrange(pos as int, bytes@.len() as int)) == seq![bytes@.subrange(pos as int, r.0 as int)]
            + text_lines(bytes@.subrange(r.1 as int, bytes@.len() as int)),
{
    let n = bytes.len();
    let ghost rest = bytes@.subrange(pos as int, n as int);
    proof {
        crate::policy::signature::lemma_newline_from(rest, 0);
    }
    let mut end = pos;
    while end < n && bytes[end] != 0x0a
        invariant
            pos <= end <= n == bytes@.len(),
            rest == bytes@.subrange(pos as int, n as int),
            forall|j: int| pos <= j < end ==> bytes@[j] != 0x0a,
        decreases n - end,
    {
        end = end + 1;
    }
    let mut line_end = end;
    if end < n && end > pos && bytes[end - 1] == 0x0d {
        line_end = end - 1;
    }
    let ghost line = bytes@.subrange(pos as int, line_end as int);
    proof {
        if end < n {
            assert(rest[end - pos] == 0x0a);
            assert(newline_from(rest, 0) == end - pos) by {
                if newline_from(rest, 0) != end - pos {
                    if newline_from(rest, 0) != -1 && newline_from(rest, 0) < end - pos {
                        assert(rest[newline_from(rest, 0)] == bytes@[pos + newline_from(rest, 0)]);
                    }
                }
            }
            assert(strip_cr(rest.subrange(0, end - pos)) =~= line);
            assert(rest.subrange(end - pos + 1, rest.len() as int) =~= bytes@.subrange(end + 1, n as int));
        } else {
            assert(newline_from(rest, 0) == -1) by {
                if newline_from(rest, 0) != -1 {
                    assert(rest[newline_from(rest, 0)] == bytes@[pos + newline_from(rest, 0)]);
                }
            }
            assert(rest =~= line);
            assert(bytes@.subrange(n as int, n as int) =~= Seq::<u8>::empty());
        }
    }
    if end < n {
        (line_end, end + 1)
    } else {
        (line_end, n)
    }
}

} // verus!

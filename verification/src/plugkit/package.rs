//! The `about.toml` manifest of a driver package, and the registry of the
//! packages found.

use vstd::prelude::*;
use crate::plugkit::{byte_strings, opt_bytes, DeviceBus, DriverManifest, DriverModel, MatchRule};
use vstd::string::StringSliceAdditionalSpecFns;
use crate::capability::path::next_line;
use crate::policy::signature::{text_lines, valid_utf8_text};
use crate::text::{bytes_equal, copy_bytes, find_byte, first_index_of, parse_u64_radix, parse_unsigned, split_on, split_ranges, trim, trim_range};

verus! {

pub const QUOTE: u8 = 0x22;
pub const BACKSLASH: u8 = 0x5c;
pub const HASH: u8 = 0x23;

/// Where a comment starts in `s`, scanning from `i` inside a string or not
/// and just after a backslash or not: the first `#` outside a string, else
/// the end of `s`.
pub open spec fn comment_from(s: Seq<u8>, i: int, in_string: bool, escape: bool) -> int
    decreases s.len() - i,
{
    if i < 0 || i >= s.len() {
        s.len() as int
    } else if s[i] == QUOTE && !escape {
        comment_from(s, i + 1, !in_string, false)
    } else if s[i] == HASH && !in_string {
        i
    } else if s[i] == BACKSLASH && !escape {
        comment_from(s, i + 1, in_string, true)
    } else {
        comment_from(s, i + 1, in_string, false)
    }
}

/// Where the comment of line `s` starts, or its length.
pub open spec fn comment_start(s: Seq<u8>) -> int {
    comment_from(s, 0, false, false)
}

/// Length of the part of the line `s[start..end]` before its comment.
pub fn find_comment(s: &[u8], start: usize, end: usize) -> (r: usize)
    requires
        start <= end <= s@.len(),
    ensures
        r == comment_start(s@.subrange(start as int, end as int)),
        r <= end - start,
{
    let ghost line = s@.subrange(start as int, end as int);
    let mut in_string = false;
    let mut escape = false;
    let mut i: usize = start;
    while i < end
        invariant
            start <= i <= end <= s@.len(),
            line == s@.subrange(start as int, end as int),
            comment_start(line) == comment_from(line, i - start, in_string, escape),
        decreases end - i,
    {
        let b = s[i];
        assert(line[i - start] == b);
        if b == QUOTE && !escape {
            in_string = !in_string;
            escape = false;
        } else if b == HASH && !in_string {
            return i - start;
        } else if b == BACKSLASH && !escape {
            escape = true;
        } else {
            escape = false;
        }
        i = i + 1;
    }
    i - start
}

/// The byte an escape `\b` stands for.
pub open spec fn escaped(b: u8) -> u8 {
    if b == 0x6e {
        0x0a
    } else if b == 0x72 {
        0x0d
    } else if b == 0x74 {
        0x09
    } else {
        b
    }
}

/// `s` with its escapes resolved; `None` when it ends in a lone backslash.
pub open spec fn unescape(s: Seq<u8>) -> Option<Seq<u8>>
    decreases s.len(),
{
    if s.len() == 0 {
        Some(Seq::empty())
    } else if s[0] != BACKSLASH {
        match unescape(s.drop_first()) {
            Some(t) => Some(seq![s[0]] + t),
            None => None,
        }
    } else if s.len() == 1 {
        None
    } else {
        match unescape(s.subrange(2, s.len() as int)) {
            Some(t) => Some(seq![escaped(s[1])] + t),
            None => None,
        }
    }
}

/// The text of a quoted string, surrounding white space ignored.
pub open spec fn unquote_spec(s: Seq<u8>) -> Option<Seq<u8>> {
    let v = trim(s);
    if v.len() < 2 || v[0] != QUOTE || v.last() != QUOTE {
        None
    } else {
        unescape(v.subrange(1, v.len() - 1))
    }
}

/// `s` written for a quoted manifest string: a line feed as backslash-n, a
/// carriage return as backslash-r, a tab as backslash-t, a quote or a
/// backslash behind a backslash, every other byte as itself.
pub open spec fn escape_for_manifest(s: Seq<u8>) -> Seq<u8>
    decreases s.len(),
{
    if s.len() == 0 {
        Seq::empty()
    } else {
        let b = s[0];
        let head: Seq<u8> = if b == 0x0a {
            seq![0x5cu8, 0x6eu8]
        } else if b == 0x0d {
            seq![0x5cu8, 0x72u8]
        } else if b == 0x09 {
            seq![0x5cu8, 0x74u8]
        } else if b == 0x22 || b == 0x5c {
            seq![0x5cu8, b]
        } else {
            seq![b]
        };
        head + escape_for_manifest(s.drop_first())
    }
}

/// Resolving the escapes of a written string gives back the bytes written:
/// backslash-n stands for a line feed (0x0a), backslash-r for a carriage
/// return (0x0d), backslash-t for a tab (0x09).
pub proof fn lemma_unescape_inverts_escape(s: Seq<u8>)
    ensures
        unescape(escape_for_manifest(s)) == Some(s),
    decreases s.len(),
{
    if s.len() > 0 {
        lemma_unescape_inverts_escape(s.drop_first());
        let rest = escape_for_manifest(s.drop_first());
        let e = escape_for_manifest(s);
        let b = s[0];
        if b == 0x0a || b == 0x0d || b == 0x09 || b == 0x22 || b == 0x5c {
            assert(e.subrange(2, e.len() as int) =~= rest);
        } else {
            assert(e.drop_first() =~= rest);
        }
        assert(seq![b] + s.drop_first() =~= s);
    }
}

/// A quoted manifest string reads back as the bytes that were written into
/// it.
pub proof fn lemma_unquote_reads_back(s: Seq<u8>)
    ensures
        unquote_spec(seq![QUOTE] + escape_for_manifest(s) + seq![QUOTE]) == Some(s),
{
    let v = seq![QUOTE] + escape_for_manifest(s) + seq![QUOTE];
    assert(v[0] == QUOTE);
    assert(v[v.len() - 1] == QUOTE);
    assert(crate::text::leading_space(v) == 0);
    assert(crate::text::trailing_space(v) == 0);
    assert(crate::text::trim_start(v) == v);
    assert(trim(v) == v);
    assert(v.subrange(1, v.len() - 1) =~= escape_for_manifest(s));
    lemma_unescape_inverts_escape(s);
}

fn unescape_bytes(s: &[u8], start: usize, end: usize) -> (r: Option<Vec<u8>>)
    requires
        start <= end <= s@.len(),
    ensures
        match unescape(s@.subrange(start as int, end as int)) {
            None => r is None,
            Some(t) => r matches Some(v) && v@ == t,
        },
{
    let mut out: Vec<u8> = Vec::new();
    let mut i = start;
    while i < end
        invariant
            start <= i <= end <= s@.len(),
            match unescape(s@.subrange(i as int, end as int)) {
                None => unescape(s@.subrange(start as int, end as int)) is None,
                Some(t) => unescape(s@.subrange(start as int, end as int)) == Some(out@ + t),
            },
        decreases end - i,
    {
        let ghost rest = s@.subrange(i as int, end as int);
        if s[i] != BACKSLASH {
            assert(rest.drop_first() =~= s@.subrange(i + 1, end as int));
            proof {
                match unescape(rest.drop_first()) {
                    Some(t) => {
                        assert(out@.push(s[i as int]) + t =~= out@ + (seq![s[i as int]] + t));
                    },
                    None => {},
                }
            }
            out.push(s[i]);
            i = i + 1;
        } else {
            if i + 1 == end {
                return None;
            }
            assert(rest.subrange(2, rest.len() as int) =~= s@.subrange(i + 2, end as int));
            let e = s[i + 1];
            let mapped = if e == 0x6e { 0x0a } else if e == 0x72 { 0x0d } else if e == 0x74 { 0x09 } else { e };
            proof {
                match unescape(rest.subrange(2, rest.len() as int)) {
                    Some(t) => {
                        assert(out@.push(mapped) + t =~= out@ + (seq![escaped(e)] + t));
                    },
                    None => {},
                }
            }
            out.push(mapped);
            i = i + 2;
        }
    }
    assert(s@.subrange(end as int, end as int) =~= Seq::<u8>::empty());
    assert(out@ + Seq::<u8>::empty() =~= out@);
    Some(out)
}

/// The text of the quoted string `s[start..end]`.
pub fn unquote(s: &[u8], start: usize, end: usize) -> (r: Option<Vec<u8>>)
    requires
        start <= end <= s@.len(),
    ensures
        match unquote_spec(s@.subrange(start as int, end as int)) {
            None => r is None,
            Some(t) => r matches Some(v) && v@ == t,
        },
{
    let (from, to) = trim_range(s, start, end);
    let ghost v = s@.subrange(from as int, to as int);
    if to - from < 2 || s[from] != QUOTE || s[to - 1] != QUOTE {
        assert(v.len() >= 2 ==> v[0] == s@[from as int] && v.last() == s@[to - 1]);
        return None;
    }
    assert(v.subrange(1, v.len() - 1) =~= s@.subrange(from + 1, to - 1));
    unescape_bytes(s, from + 1, to - 1)
}

/// `s` without the double quotes it starts with.
pub open spec fn strip_leading_quotes(s: Seq<u8>) -> Seq<u8>
    decreases s.len(),
{
    if s.len() > 0 && s[0] == QUOTE {
        strip_leading_quotes(s.drop_first())
    } else {
        s
    }
}

/// `s` without the double quotes it ends with.
pub open spec fn strip_trailing_quotes(s: Seq<u8>) -> Seq<u8>
    decreases s.len(),
{
    if s.len() > 0 && s.last() == QUOTE {
        strip_trailing_quotes(s.drop_last())
    } else {
        s
    }
}

/// `s` without double quotes at either end, as `str::trim_matches('"')`.
pub open spec fn strip_quotes(s: Seq<u8>) -> Seq<u8> {
    strip_trailing_quotes(strip_leading_quotes(s))
}

/// Bounds of `s[start..end]` without double quotes at either end.
fn strip_quotes_range(s: &[u8], start: usize, end: usize) -> (r: (usize, usize))
    requires
        start <= end <= s@.len(),
    ensures
        start <= r.0 <= r.1 <= end,
        s@.subrange(r.0 as int, r.1 as int) == strip_quotes(s@.subrange(start as int, end as int)),
{
    let mut from = start;
    while from < end && s[from] == QUOTE
        invariant
            start <= from <= end <= s@.len(),
            strip_leading_quotes(s@.subrange(start as int, end as int)) == strip_leading_quotes(
                s@.subrange(from as int, end as int),
            ),
        decreases end - from,
    {
        assert(s@.subrange(from as int, end as int).drop_first() =~= s@.subrange(from + 1, end as int));
        from = from + 1;
    }
    assert(strip_leading_quotes(s@.subrange(from as int, end as int)) == s@.subrange(from as int, end as int));
    let mut to = end;
    while to > from && s[to - 1] == QUOTE
        invariant
            start <= from <= to <= end <= s@.len(),
            strip_leading_quotes(s@.subrange(start as int, end as int)) == s@.subrange(from as int, end as int),
            strip_trailing_quotes(s@.subrange(from as int, end as int)) == strip_trailing_quotes(
                s@.subrange(from as int, to as int),
            ),
        decreases to - from,
    {
        assert(s@.subrange(from as int, to as int).drop_last() =~= s@.subrange(from as int, to - 1));
        to = to - 1;
    }
    assert(strip_trailing_quotes(s@.subrange(from as int, to as int)) == s@.subrange(from as int, to as int));
    (from, to)
}

/// The bus a manifest names.
pub open spec fn bus_named(s: Seq<u8>) -> Option<DeviceBus> {
    if s == "platform".spec_bytes() {
        Some(DeviceBus::Platform)
    } else if s == "pci".spec_bytes() {
        Some(DeviceBus::Pci)
    } else if s == "usb".spec_bytes() {
        Some(DeviceBus::Usb)
    } else if s == "virtio".spec_bytes() {
        Some(DeviceBus::Virtio)
    } else if s == "other".spec_bytes() {
        Some(DeviceBus::Other)
    } else {
        None
    }
}

/// The bus of a `bus = ..` value, quoted or not.
pub open spec fn device_bus_value(v: Seq<u8>) -> Option<DeviceBus> {
    bus_named(strip_quotes(trim(v)))
}

fn parse_device_bus(s: &[u8], start: usize, end: usize) -> (r: Option<DeviceBus>)
    requires
        start <= end <= s@.len(),
    ensures
        r == device_bus_value(s@.subrange(start as int, end as int)),
{
    let (a, b) = trim_range(s, start, end);
    let (c, d) = strip_quotes_range(s, a, b);
    let name = copy_bytes(s, c, d);
    let name = name.as_slice();
    if bytes_equal(name, "platform".as_bytes()) {
        Some(DeviceBus::Platform)
    } else if bytes_equal(name, "pci".as_bytes()) {
        Some(DeviceBus::Pci)
    } else if bytes_equal(name, "usb".as_bytes()) {
        Some(DeviceBus::Usb)
    } else if bytes_equal(name, "virtio".as_bytes()) {
        Some(DeviceBus::Virtio)
    } else if bytes_equal(name, "other".as_bytes()) {
        Some(DeviceBus::Other)
    } else {
        None
    }
}

/// The 32-bit number `s` writes in base `radix`.
pub open spec fn u32_in(s: Seq<u8>, radix: nat) -> Option<u32> {
    match parse_unsigned(s, radix) {
        Some(n) => if n <= u32::MAX { Some(n as u32) } else { None },
        None => None,
    }
}

/// A 32-bit number written in decimal, or in hexadecimal after `0x` or `0X`.
pub open spec fn u32_literal(s: Seq<u8>) -> Option<u32> {
    if s.len() >= 2 && s[0] == 0x30 && (s[1] == 0x78 || s[1] == 0x58) {
        u32_in(s.subrange(2, s.len() as int), 16)
    } else {
        u32_in(s, 10)
    }
}

/// The number of an id value: a literal, possibly inside a quoted string.
pub open spec fn u32_like(v: Seq<u8>) -> Option<u32> {
    let t = trim(v);
    if t.len() > 0 && t[0] == QUOTE {
        match unquote_spec(t) {
            Some(u) => u32_literal(trim(u)),
            None => None,
        }
    } else {
        u32_literal(t)
    }
}

fn parse_u32_literal(s: &[u8], start: usize, end: usize) -> (r: Option<u32>)
    requires
        start <= end <= s@.len(),
    ensures
        r == u32_literal(s@.subrange(start as int, end as int)),
{
    let ghost t = s@.subrange(start as int, end as int);
    let hex = end - start >= 2 && s[start] == 0x30 && (s[start + 1] == 0x78 || s[start + 1] == 0x58);
    let (from, radix): (usize, u64) = if hex { (start + 2, 16) } else { (start, 10) };
    proof {
        if hex {
            assert(t.subrange(2, t.len() as int) =~= s@.subrange(start + 2, end as int));
        }
    }
    match parse_u64_radix(s, from, end, radix) {
        Some(n) => if n <= 0xffff_ffff {
            Some(n as u32)
        } else {
            None
        },
        None => None,
    }
}

fn parse_u32_like(s: &[u8], start: usize, end: usize) -> (r: Option<u32>)
    requires
        start <= end <= s@.len(),
    ensures
        r == u32_like(s@.subrange(start as int, end as int)),
{
    let (a, b) = trim_range(s, start, end);
    if a < b && s[a] == QUOTE {
        match unquote(s, a, b) {
            None => None,
            Some(u) => {
                let (c, d) = trim_range(u.as_slice(), 0, u.len());
                assert(u@.subrange(0, u@.len() as int) =~= u@);
                parse_u32_literal(u.as_slice(), c, d)
            },
        }
    } else {
        parse_u32_literal(s, a, b)
    }
}

/// A value that is a quoted string, or else taken as it stands, trimmed.
pub open spec fn string_or_number(v: Seq<u8>) -> Option<Seq<u8>> {
    if v.len() > 0 && v[0] == QUOTE {
        unquote_spec(v)
    } else {
        Some(trim(v))
    }
}

fn parse_string_or_number(s: &[u8], start: usize, end: usize) -> (r: Option<Vec<u8>>)
    requires
        start <= end <= s@.len(),
    ensures
        opt_bytes(r) == string_or_number(s@.subrange(start as int, end as int)),
{
    if start < end && s[start] == QUOTE {
        unquote(s, start, end)
    } else {
        let (a, b) = trim_range(s, start, end);
        Some(copy_bytes(s, a, b))
    }
}

/// A text value: the contents of a quoted string, else the value itself.
pub open spec fn text_value(v: Seq<u8>) -> Seq<u8> {
    match unquote_spec(v) {
        Some(u) => u,
        None => v,
    }
}

fn parse_text(s: &[u8], start: usize, end: usize) -> (r: Vec<u8>)
    requires
        start <= end <= s@.len(),
    ensures
        r@ == text_value(s@.subrange(start as int, end as int)),
{
    match unquote(s, start, end) {
        Some(u) => u,
        None => copy_bytes(s, start, end),
    }
}

/// An item of an array value: a quoted string's contents, else the item
/// without quotes at its ends.
pub open spec fn array_item(p: Seq<u8>) -> Seq<u8> {
    match unquote_spec(trim(p)) {
        Some(u) => u,
        None => strip_quotes(trim(p)),
    }
}

/// The items of the comma-separated `parts`; blank ones are skipped.
pub open spec fn array_items(parts: Seq<Seq<u8>>) -> Seq<Seq<u8>>
    decreases parts.len(),
{
    if parts.len() == 0 {
        Seq::empty()
    } else if trim(parts.last()).len() == 0 {
        array_items(parts.drop_last())
    } else {
        array_items(parts.drop_last()).push(array_item(parts.last()))
    }
}

/// The items of an array value `[a, "b", ..]`.
pub open spec fn array_value(v: Seq<u8>) -> Option<Seq<Seq<u8>>> {
    let t = trim(v);
    if t.len() < 2 || t[0] != 0x5b || t.last() != 0x5d {
        None
    } else {
        Some(array_items(split_on(trim(t.subrange(1, t.len() - 1)), 0x2c)))
    }
}

fn parse_array(s: &[u8], start: usize, end: usize) -> (r: Option<Vec<Vec<u8>>>)
    requires
        start <= end <= s@.len(),
    ensures
        match array_value(s@.subrange(start as int, end as int)) {
            None => r is None,
            Some(items) => r matches Some(v) && byte_strings(v@) == items,
        },
{
    let (a, b) = trim_range(s, start, end);
    let ghost t = s@.subrange(a as int, b as int);
    if b - a < 2 || s[a] != 0x5b || s[b - 1] != 0x5d {
        assert(t.len() >= 2 ==> t[0] == s@[a as int] && t.last() == s@[b - 1]);
        return None;
    }
    let (c, d) = trim_range(s, a + 1, b - 1);
    assert(t.subrange(1, t.len() - 1) =~= s@.subrange(a + 1, b - 1));
    let ghost parts = split_on(s@.subrange(c as int, d as int), 0x2c);
    let ranges = split_ranges(s, c, d, 0x2c);
    let mut out: Vec<Vec<u8>> = Vec::new();
    let mut k: usize = 0;
    while k < ranges.len()
        invariant
            k <= ranges@.len() == parts.len(),
            c <= d <= s@.len(),
            parts == split_on(s@.subrange(c as int, d as int), 0x2c),
            forall|j: int| 0 <= j < ranges@.len() ==> c <= (#[trigger] ranges@[j]).0 <= ranges@[j].1 <= d
                && s@.subrange(ranges@[j].0 as int, ranges@[j].1 as int) == parts[j],
            byte_strings(out@) == array_items(parts.take(k as int)),
        decreases ranges@.len() - k,
    {
        let (p0, p1) = ranges[k];
        let ghost part = parts[k as int];
        proof {
            assert(parts.take(k + 1).drop_last() =~= parts.take(k as int));
            assert(parts.take(k + 1).last() == part);
        }
        let (x, y) = trim_range(s, p0, p1);
        if x < y {
            let item = match unquote(s, x, y) {
                Some(u) => u,
                None => {
                    let (q0, q1) = strip_quotes_range(s, x, y);
                    copy_bytes(s, q0, q1)
                },
            };
            let ghost before = out@;
            out.push(item);
            assert(byte_strings(out@) =~= byte_strings(before).push(item@));
        }
        k = k + 1;
    }
    assert(parts.take(ranges@.len() as int) =~= parts);
    Some(out)
}

/// The table of `about.toml` that the lines being read belong to.
#[derive(Clone, Copy, Debug, PartialEq, Eq, Structural)]
pub enum Section {
    Root,
    Driver,
    PlugKit,
    Capabilities,
    Provides,
    Match,
}

/// What the lines read so far say of the package.
pub struct DraftModel {
    pub id: Option<Seq<u8>>,
    pub name: Option<Seq<u8>>,
    pub version: Option<Seq<u8>>,
    pub description: Option<Seq<u8>>,
    pub developer: Option<Seq<u8>>,
    pub entry: Option<Seq<u8>>,
    pub api_version: Option<u32>,
    pub driver_class: Option<Seq<u8>>,
    pub matches: Seq<MatchRule>,
    pub capabilities: Seq<Seq<u8>>,
    pub provides: Seq<Seq<u8>>,
}

/// The draft, the current table, and the `[[match]]` entry being filled.
pub struct ReadState {
    pub draft: DraftModel,
    pub section: Section,
    pub current: MatchRule,
}

pub open spec fn empty_rule() -> MatchRule {
    MatchRule { bus: None, vendor_id: None, device_id: None }
}

pub open spec fn initial_read() -> ReadState {
    ReadState {
        draft: DraftModel {
            id: None,
            name: None,
            version: None,
            description: None,
            developer: None,
            entry: None,
            api_version: None,
            driver_class: None,
            matches: Seq::empty(),
            capabilities: Seq::empty(),
            provides: Seq::empty(),
        },
        section: Section::Root,
        current: empty_rule(),
    }
}

/// Whether a `[[match]]` entry gives any field.
pub open spec fn rule_given(r: MatchRule) -> bool {
    r.bus is Some || r.vendor_id is Some || r.device_id is Some
}

/// The state once the `[[match]]` entry being filled is closed: kept when
/// it gives a field, then emptied.
pub open spec fn close_match(st: ReadState) -> ReadState {
    ReadState {
        draft: if rule_given(st.current) {
            DraftModel { matches: st.draft.matches.push(st.current), ..st.draft }
        } else {
            st.draft
        },
        section: st.section,
        current: empty_rule(),
    }
}

/// The table a header line opens.
pub open spec fn header_section(line: Seq<u8>) -> Option<Section> {
    if line == "[driver]".spec_bytes() {
        Some(Section::Driver)
    } else if line == "[plugkit]".spec_bytes() {
        Some(Section::PlugKit)
    } else if line == "[capabilities]".spec_bytes() {
        Some(Section::Capabilities)
    } else if line == "[provides]".spec_bytes() {
        Some(Section::Provides)
    } else if line == "[[match]]".spec_bytes() {
        Some(Section::Match)
    } else {
        None
    }
}

/// The draft after `key = v` in `[driver]`.
pub open spec fn driver_entry(d: DraftModel, key: Seq<u8>, v: Seq<u8>) -> DraftModel {
    if key == "id".spec_bytes() {
        DraftModel { id: string_or_number(v), ..d }
    } else if key == "name".spec_bytes() {
        DraftModel { name: string_or_number(v), ..d }
    } else if key == "version".spec_bytes() {
        DraftModel { version: string_or_number(v), ..d }
    } else if key == "description".spec_bytes() {
        DraftModel { description: Some(text_value(v)), ..d }
    } else if key == "developer".spec_bytes() {
        DraftModel { developer: Some(text_value(v)), ..d }
    } else if key == "entry".spec_bytes() {
        DraftModel { entry: string_or_number(v), ..d }
    } else {
        d
    }
}

/// The `[[match]]` entry after `key = v`.
pub open spec fn match_entry(r: MatchRule, key: Seq<u8>, v: Seq<u8>) -> MatchRule {
    if key == "bus".spec_bytes() {
        MatchRule { bus: device_bus_value(v), ..r }
    } else if key == "vendor_id".spec_bytes() {
        MatchRule { vendor_id: u32_like(v), ..r }
    } else if key == "device_id".spec_bytes() {
        MatchRule { device_id: u32_like(v), ..r }
    } else {
        r
    }
}

/// The state after `key = v` in the current table; `None` when a value
/// that must be read is malformed (`api`, `requires`, `interfaces`).
pub open spec fn apply_entry(st: ReadState, key: Seq<u8>, v: Seq<u8>) -> Option<ReadState> {
    let d = st.draft;
    match st.section {
        Section::Root => Some(st),
        Section::Driver => Some(ReadState { draft: driver_entry(d, key, v), ..st }),
        Section::PlugKit => if key == "api".spec_bytes() {
            match string_or_number(v) {
                None => None,
                Some(a) => Some(ReadState { draft: DraftModel { api_version: u32_in(a, 10), ..d }, ..st }),
            }
        } else if key == "driver_class".spec_bytes() {
            Some(ReadState { draft: DraftModel { driver_class: string_or_number(v), ..d }, ..st })
        } else {
            Some(st)
        },
        Section::Capabilities => if key == "requires".spec_bytes() {
            match array_value(v) {
                None => None,
                Some(items) => Some(ReadState { draft: DraftModel { capabilities: items, ..d }, ..st }),
            }
        } else {
            Some(st)
        },
        Section::Provides => if key == "interfaces".spec_bytes() {
            match array_value(v) {
                None => None,
                Some(items) => Some(ReadState { draft: DraftModel { provides: items, ..d }, ..st }),
            }
        } else {
            Some(st)
        },
        Section::Match => Some(ReadState { current: match_entry(st.current, key, v), ..st }),
    }
}

/// A line without its comment and surrounding white space.
pub open spec fn about_line(raw: Seq<u8>) -> Seq<u8> {
    trim(raw.subrange(0, comment_start(raw)))
}

/// The state after one line: blank lines and lines that are neither a
/// header nor `key = value` change nothing.
pub open spec fn read_line(st: ReadState, raw: Seq<u8>) -> Option<ReadState> {
    let line = about_line(raw);
    if line.len() == 0 {
        Some(st)
    } else {
        match header_section(line) {
            Some(sec) => Some(ReadState { section: sec, ..close_match(st) }),
            None => match first_index_of(line, 0x3d) {
                None => Some(st),
                Some(i) => apply_entry(st, trim(line.subrange(0, i)), trim(line.subrange(i + 1, line.len() as int))),
            },
        }
    }
}

/// The state after `lines`, or `None` once one of them is malformed.
pub open spec fn read_lines(lines: Seq<Seq<u8>>) -> Option<ReadState>
    decreases lines.len(),
{
    if lines.len() == 0 {
        Some(initial_read())
    } else {
        match read_lines(lines.drop_last()) {
            None => None,
            Some(st) => read_line(st, lines.last()),
        }
    }
}

struct AboutDraft {
    id: Option<Vec<u8>>,
    name: Option<Vec<u8>>,
    version: Option<Vec<u8>>,
    description: Option<Vec<u8>>,
    developer: Option<Vec<u8>>,
    entry: Option<Vec<u8>>,
    api_version: Option<u32>,
    driver_class: Option<Vec<u8>>,
    matches: Vec<MatchRule>,
    capabilities: Vec<Vec<u8>>,
    provides: Vec<Vec<u8>>,
}

struct AboutReader {
    draft: AboutDraft,
    section: Section,
    current: MatchRule,
}

impl AboutDraft {
    spec fn model(&self) -> DraftModel {
        DraftModel {
            id: opt_bytes(self.id),
            name: opt_bytes(self.name),
            version: opt_bytes(self.version),
            description: opt_bytes(self.description),
            developer: opt_bytes(self.developer),
            entry: opt_bytes(self.entry),
            api_version: self.api_version,
            driver_class: opt_bytes(self.driver_class),
            matches: self.matches@,
            capabilities: byte_strings(self.capabilities@),
            provides: byte_strings(self.provides@),
        }
    }
}

impl AboutReader {
    spec fn model(&self) -> ReadState {
        ReadState { draft: self.draft.model(), section: self.section, current: self.current }
    }

    fn new() -> (r: Self)
        ensures
            r.model() == initial_read(),
    {
        let r = AboutReader {
            draft: AboutDraft {
                id: None,
                name: None,
                version: None,
                description: None,
                developer: None,
                entry: None,
                api_version: None,
                driver_class: None,
                matches: Vec::new(),
                capabilities: Vec::new(),
                provides: Vec::new(),
            },
            section: Section::Root,
            current: MatchRule { bus: None, vendor_id: None, device_id: None },
        };
        assert(byte_strings(r.draft.capabilities@) =~= Seq::<Seq<u8>>::empty());
        assert(byte_strings(r.draft.provides@) =~= Seq::<Seq<u8>>::empty());
        r
    }

    fn close_match(&mut self)
        ensures
            final(self).model() == close_match(old(self).model()),
    {
        if self.current.bus.is_some() || self.current.vendor_id.is_some() || self.current.device_id.is_some() {
            self.draft.matches.push(self.current);
        }
        self.current = MatchRule { bus: None, vendor_id: None, device_id: None };
    }

    fn read_driver_entry(&mut self, key: &[u8], s: &[u8], v0: usize, v1: usize)
        requires
            v0 <= v1 <= s@.len(),
        ensures
            final(self).model() == (ReadState {
                draft: driver_entry(old(self).model().draft, key@, s@.subrange(v0 as int, v1 as int)),
                ..old(self).model()
            }),
    {
        if bytes_equal(key, "id".as_bytes()) {
            self.draft.id = parse_string_or_number(s, v0, v1);
        } else if bytes_equal(key, "name".as_bytes()) {
            self.draft.name = parse_string_or_number(s, v0, v1);
        } else if bytes_equal(key, "version".as_bytes()) {
            self.draft.version = parse_string_or_number(s, v0, v1);
        } else if bytes_equal(key, "description".as_bytes()) {
            self.draft.description = Some(parse_text(s, v0, v1));
        } else if bytes_equal(key, "developer".as_bytes()) {
            self.draft.developer = Some(parse_text(s, v0, v1));
        } else if bytes_equal(key, "entry".as_bytes()) {
            self.draft.entry = parse_string_or_number(s, v0, v1);
        }
    }

    fn read_match_entry(&mut self, key: &[u8], s: &[u8], v0: usize, v1: usize)
        requires
            v0 <= v1 <= s@.len(),
        ensures
            final(self).model() == (ReadState {
                current: match_entry(old(self).model().current, key@, s@.subrange(v0 as int, v1 as int)),
                ..old(self).model()
            }),
    {
        if bytes_equal(key, "bus".as_bytes()) {
            self.current.bus = parse_device_bus(s, v0, v1);
        } else if bytes_equal(key, "vendor_id".as_bytes()) {
            self.current.vendor_id = parse_u32_like(s, v0, v1);
        } else if bytes_equal(key, "device_id".as_bytes()) {
            self.current.device_id = parse_u32_like(s, v0, v1);
        }
    }

    fn read_entry(&mut self, key: &[u8], s: &[u8], v0: usize, v1: usize) -> (ok: bool)
        requires
            v0 <= v1 <= s@.len(),
        ensures
            match apply_entry(old(self).model(), key@, s@.subrange(v0 as int, v1 as int)) {
                None => !ok,
                Some(st) => ok && final(self).model() == st,
            },
    {
        match self.section {
            Section::Root => true,
            Section::Driver => {
                self.read_driver_entry(key, s, v0, v1);
                true
            },
            Section::PlugKit => {
                if bytes_equal(key, "api".as_bytes()) {
                    match parse_string_or_number(s, v0, v1) {
                        None => {
                            return false;
                        },
                        Some(a) => {
                            assert(a@.subrange(0, a@.len() as int) =~= a@);
                            self.draft.api_version = match parse_u64_radix(a.as_slice(), 0, a.len(), 10) {
                                Some(n) => if n <= 0xffff_ffff {
                                    Some(n as u32)
                                } else {
                                    None
                                },
                                None => None,
                            };
                        },
                    }
                } else if bytes_equal(key, "driver_class".as_bytes()) {
                    self.draft.driver_class = parse_string_or_number(s, v0, v1);
                }
                true
            },
            Section::Capabilities => {
                if bytes_equal(key, "requires".as_bytes()) {
                    match parse_array(s, v0, v1) {
                        None => {
                            return false;
                        },
                        Some(items) => {
                            self.draft.capabilities = items;
                        },
                    }
                }
                true
            },
            Section::Provides => {
                if bytes_equal(key, "interfaces".as_bytes()) {
                    match parse_array(s, v0, v1) {
                        None => {
                            return false;
                        },
                        Some(items) => {
                            self.draft.provides = items;
                        },
                    }
                }
                true
            },
            Section::Match => {
                self.read_match_entry(key, s, v0, v1);
                true
            },
        }
    }

    /// Reads the line `text[start..end]`; false when it is malformed.
    fn read_line(&mut self, text: &[u8], start: usize, end: usize) -> (ok: bool)
        requires
            start <= end <= text@.len(),
        ensures
            match read_line(old(self).model(), text@.subrange(start as int, end as int)) {
                None => !ok,
                Some(st) => ok && final(self).model() == st,
            },
    {
        let ghost raw = text@.subrange(start as int, end as int);
        let c = find_comment(text, start, end);
        assert(raw.subrange(0, c as int) =~= text@.subrange(start as int, start + c));
        let (a, b) = trim_range(text, start, start + c);
        let line = copy_bytes(text, a, b);
        let l = line.as_slice();
        assert(l@ == about_line(raw));
        if l.len() == 0 {
            return true;
        }
        let header = if bytes_equal(l, "[driver]".as_bytes()) {
            Some(Section::Driver)
        } else if bytes_equal(l, "[plugkit]".as_bytes()) {
            Some(Section::PlugKit)
        } else if bytes_equal(l, "[capabilities]".as_bytes()) {
            Some(Section::Capabilities)
        } else if bytes_equal(l, "[provides]".as_bytes()) {
            Some(Section::Provides)
        } else if bytes_equal(l, "[[match]]".as_bytes()) {
            Some(Section::Match)
        } else {
            None
        };
        assert(header == header_section(l@));
        if let Some(sec) = header {
            self.close_match();
            self.section = sec;
            return true;
        }
        match find_byte(l, 0x3d) {
            None => {
                assert(first_index_of(l@, 0x3d) is None);
                true
            },
            Some(i) => {
                proof {
                    let k = first_index_of(l@, 0x3d)->0;
                    assert(first_index_of(l@, 0x3d) is Some);
                    if k < i {
                        assert(l@[k] == 0x3d);
                    } else if k > i {
                        assert(l@[i as int] == 0x3d);
                    }
                }
                let (k0, k1) = trim_range(l, 0, i);
                let key = copy_bytes(l, k0, k1);
                let (v0, v1) = trim_range(l, i + 1, l.len());
                self.read_entry(key.as_slice(), l, v0, v1)
            },
        }
    }
}

/// A driver package found on disk.
pub struct PackageManifest {
    pub package_id: Vec<u8>,
    pub package_name: Vec<u8>,
    pub package_root: Vec<u8>,
    pub about_path: Vec<u8>,
    pub entry_path: Vec<u8>,
    pub driver: DriverManifest,
}

/// A package manifest as values.
pub struct PackageModel {
    pub package_id: Seq<u8>,
    pub package_name: Seq<u8>,
    pub package_root: Seq<u8>,
    pub about_path: Seq<u8>,
    pub entry_path: Seq<u8>,
    pub driver: DriverModel,
}

impl PackageManifest {
    pub open spec fn model(&self) -> PackageModel {
        PackageModel {
            package_id: self.package_id@,
            package_name: self.package_name@,
            package_root: self.package_root@,
            about_path: self.about_path@,
            entry_path: self.entry_path@,
            driver: self.driver.model(),
        }
    }
}

/// `s` without the slashes it ends with.
pub open spec fn strip_trailing_slashes(s: Seq<u8>) -> Seq<u8>
    decreases s.len(),
{
    if s.len() > 0 && s.last() == 0x2f {
        strip_trailing_slashes(s.drop_last())
    } else {
        s
    }
}

/// `base` without its trailing slashes, a slash, then `name`.
pub open spec fn join_path(base: Seq<u8>, name: Seq<u8>) -> Seq<u8> {
    strip_trailing_slashes(base) + seq![0x2f] + name
}

/// The manifest a finished draft gives: `id`, `name`, `version` and `entry`
/// are required; the api version is 1 unless given.
pub open spec fn finish_draft(d: DraftModel, root: Seq<u8>, about: Seq<u8>) -> Option<PackageModel> {
    match (d.id, d.name, d.version, d.entry) {
        (Some(id), Some(name), Some(version), Some(entry)) => Some(PackageModel {
            package_id: id,
            package_name: name,
            package_root: root,
            about_path: about,
            entry_path: join_path(root, entry),
            driver: DriverModel {
                id: id,
                name: name,
                version: version,
                description: d.description,
                developer: d.developer,
                api_version: match d.api_version {
                    Some(a) => a,
                    None => 1,
                },
                driver_class: d.driver_class,
                matches: d.matches,
                capabilities: d.capabilities,
                provides: d.provides,
            },
        }),
        _ => None,
    }
}

/// The manifest the text of an `about.toml` describes, for the package at
/// `root` whose manifest file is `about`.
pub open spec fn about_manifest(text: Seq<u8>, root: Seq<u8>, about: Seq<u8>) -> Option<PackageModel> {
    match read_lines(text_lines(text)) {
        None => None,
        Some(st) => finish_draft(close_match(st).draft, root, about),
    }
}

/// `base` joined to `name` with one slash between them.
pub fn join_path_bytes(base: &[u8], name: &[u8]) -> (r: Vec<u8>)
    ensures
        r@ == join_path(base@, name@),
{
    let mut end = base.len();
    assert(base@.subrange(0, base@.len() as int) =~= base@);
    while end > 0 && base[end - 1] == 0x2f
        invariant
            end <= base@.len(),
            strip_trailing_slashes(base@) == strip_trailing_slashes(base@.subrange(0, end as int)),
        decreases end,
    {
        assert(base@.subrange(0, end as int).drop_last() =~= base@.subrange(0, end - 1));
        end = end - 1;
    }
    let mut out = copy_bytes(base, 0, end);
    out.push(0x2f);
    let ghost head = out@;
    let mut i: usize = 0;
    while i < name.len()
        invariant
            i <= name@.len(),
            out@ == head + name@.subrange(0, i as int),
        decreases name@.len() - i,
    {
        out.push(name[i]);
        i = i + 1;
        assert(out@ =~= head + name@.subrange(0, i as int));
    }
    assert(name@.subrange(0, name@.len() as int) =~= name@);
    assert(head =~= strip_trailing_slashes(base@) + seq![0x2f]);
    out
}

fn finish(draft: AboutDraft, root: &[u8], about: &[u8]) -> (r: Option<PackageManifest>)
    ensures
        match finish_draft(draft.model(), root@, about@) {
            None => r is None,
            Some(m) => r matches Some(p) && p.model() == m,
        },
{
    let AboutDraft {
        id,
        name,
        version,
        description,
        developer,
        entry,
        api_version,
        driver_class,
        matches,
        capabilities,
        provides,
    } = draft;
    let (id, name, version, entry) = match (id, name, version, entry) {
        (Some(id), Some(name), Some(version), Some(entry)) => (id, name, version, entry),
        _ => {
            return None;
        },
    };
    let driver = DriverManifest {
        id: copy_bytes(id.as_slice(), 0, id.len()),
        name: copy_bytes(name.as_slice(), 0, name.len()),
        version,
        description,
        developer,
        api_version: match api_version {
            Some(a) => a,
            None => 1,
        },
        driver_class,
        matches,
        capabilities,
        provides,
    };
    assert(id@.subrange(0, id@.len() as int) =~= id@);
    assert(name@.subrange(0, name@.len() as int) =~= name@);
    let entry_path = join_path_bytes(root, entry.as_slice());
    assert(root@.subrange(0, root@.len() as int) =~= root@);
    assert(about@.subrange(0, about@.len() as int) =~= about@);
    Some(PackageManifest {
        package_id: id,
        package_name: name,
        package_root: copy_bytes(root, 0, root.len()),
        about_path: copy_bytes(about, 0, about.len()),
        entry_path,
        driver,
    })
}

proof fn lemma_read_lines_stop(lines: Seq<Seq<u8>>, m: int)
    requires
        0 <= m <= lines.len(),
        read_lines(lines.take(m)) is None,
    ensures
        read_lines(lines) is None,
    decreases lines.len() - m,
{
    if m < lines.len() {
        let next = lines.take(m + 1);
        assert(next.drop_last() =~= lines.take(m));
        lemma_read_lines_stop(lines, m + 1);
    } else {
        assert(lines.take(m) =~= lines);
    }
}

/// Reads the `about.toml` text of the package at `package_root`.
pub fn parse_about_toml(text: &[u8], package_root: &[u8], about_path: &[u8]) -> (r: Option<PackageManifest>)
    ensures
        match about_manifest(text@, package_root@, about_path@) {
            None => r is None,
            Some(m) => r matches Some(p) && p.model() == m,
        },
{
    let n = text.len();
    let ghost all = text_lines(text@);
    let ghost mut done: Seq<Seq<u8>> = Seq::empty();
    let mut reader = AboutReader::new();
    let mut pos: usize = 0;
    assert(text@.subrange(0, n as int) =~= text@);
    while pos < n
        invariant
            pos <= n == text@.len(),
            all == text_lines(text@),
            all == done + text_lines(text@.subrange(pos as int, n as int)),
            read_lines(done) == Some(reader.model()),
        decreases n - pos,
    {
        let (line_end, next) = next_line(text, pos);
        let ghost line = text@.subrange(pos as int, line_end as int);
        proof {
            assert(done.push(line).drop_last() =~= done);
            assert(done.push(line).last() == line);
        }
        if !reader.read_line(text, pos, line_end) {
            proof {
                assert(all =~= done.push(line) + text_lines(text@.subrange(next as int, n as int)));
                assert(all.take(done.len() + 1int) =~= done.push(line));
                lemma_read_lines_stop(all, done.len() + 1int);
            }
            return None;
        }
        proof {
            done = done.push(line);
            assert(all =~= done + text_lines(text@.subrange(next as int, n as int)));
        }
        pos = next;
    }
    proof {
        assert(text@.subrange(n as int, n as int) =~= Seq::<u8>::empty());
        assert(all =~= done);
    }
    reader.close_match();
    finish(reader.draft, package_root, about_path)
}

/// Byte strings in lexicographic order, the order of `String`s.
pub open spec fn bytes_less(a: Seq<u8>, b: Seq<u8>) -> bool
    decreases a.len(),
{
    if a.len() == 0 {
        b.len() > 0
    } else if b.len() == 0 {
        false
    } else if a[0] != b[0] {
        a[0] < b[0]
    } else {
        bytes_less(a.drop_first(), b.drop_first())
    }
}

/// No byte string comes before itself.
pub proof fn lemma_bytes_less_irreflexive(a: Seq<u8>)
    ensures
        !bytes_less(a, a),
    decreases a.len(),
{
    if a.len() > 0 {
        lemma_bytes_less_irreflexive(a.drop_first());
    }
}

/// The order of byte strings is transitive.
pub proof fn lemma_bytes_less_transitive(a: Seq<u8>, b: Seq<u8>, c: Seq<u8>)
    requires
        bytes_less(a, b),
        bytes_less(b, c),
    ensures
        bytes_less(a, c),
    decreases a.len(),
{
    if a.len() > 0 && b.len() > 0 && c.len() > 0 && a[0] == b[0] && b[0] == c[0] {
        lemma_bytes_less_transitive(a.drop_first(), b.drop_first(), c.drop_first());
    }
}

/// Of two different byte strings, one comes before the other.
pub proof fn lemma_bytes_less_total(a: Seq<u8>, b: Seq<u8>)
    requires
        a != b,
    ensures
        bytes_less(a, b) || bytes_less(b, a),
    decreases a.len(),
{
    if a.len() > 0 && b.len() > 0 && a[0] == b[0] {
        let x = a.drop_first();
        let y = b.drop_first();
        if x == y {
            assert(x.len() == a.len() - 1 && y.len() == b.len() - 1);
            assert(a.len() == b.len());
            assert forall|i: int| 0 <= i < a.len() implies a[i] == b[i] by {
                if i > 0 {
                    assert(a[i] == x[i - 1]);
                    assert(b[i] == y[i - 1]);
                }
            }
            assert(a =~= b);
        } else {
            lemma_bytes_less_total(x, y);
        }
    } else if a.len() == 0 && b.len() == 0 {
        assert(a =~= b);
    }
}

/// Whether `a` comes before `b`.
pub fn bytes_before(a: &[u8], b: &[u8]) -> (r: bool)
    ensures
        r == bytes_less(a@, b@),
{
    let mut i: usize = 0;
    assert(a@.subrange(0, a@.len() as int) =~= a@);
    assert(b@.subrange(0, b@.len() as int) =~= b@);
    while i < a.len() && i < b.len() && a[i] == b[i]
        invariant
            i <= a@.len(),
            i <= b@.len(),
            bytes_less(a@, b@) == bytes_less(
                a@.subrange(i as int, a@.len() as int),
                b@.subrange(i as int, b@.len() as int),
            ),
        decreases a@.len() - i,
    {
        assert(a@.subrange(i as int, a@.len() as int).drop_first() =~= a@.subrange(i + 1, a@.len() as int));
        assert(b@.subrange(i as int, b@.len() as int).drop_first() =~= b@.subrange(i + 1, b@.len() as int));
        i = i + 1;
    }
    if i == a.len() {
        i < b.len()
    } else if i == b.len() {
        false
    } else {
        a[i] < b[i]
    }
}

/// Package manifests listed in increasing order of their ids.
pub open spec fn ids_sorted(s: Seq<PackageModel>) -> bool {
    forall|i: int, j: int| 0 <= i < j < s.len() ==> bytes_less(s[i].package_id, s[j].package_id)
}

/// Whether a listed package has the id `id`.
pub open spec fn lists_id(s: Seq<PackageModel>, id: Seq<u8>) -> bool {
    exists|i: int| 0 <= i < s.len() && s[i].package_id == id
}

/// The packages of a listing, by id.
pub open spec fn package_map(s: Seq<PackageModel>) -> Map<Seq<u8>, PackageModel> {
    Map::new(
        |id: Seq<u8>| lists_id(s, id),
        |id: Seq<u8>| s[choose|i: int| 0 <= i < s.len() && s[i].package_id == id],
    )
}

proof fn lemma_map_at(s: Seq<PackageModel>, i: int)
    requires
        ids_sorted(s),
        0 <= i < s.len(),
    ensures
        package_map(s).contains_key(s[i].package_id),
        package_map(s)[s[i].package_id] == s[i],
{
    let id = s[i].package_id;
    assert(lists_id(s, id));
    let j = choose|j: int| 0 <= j < s.len() && s[j].package_id == id;
    if j != i {
        lemma_bytes_less_irreflexive(id);
    }
}

proof fn lemma_map_replace(s: Seq<PackageModel>, p: int, x: PackageModel)
    requires
        ids_sorted(s),
        0 <= p < s.len(),
        s[p].package_id == x.package_id,
    ensures
        ids_sorted(s.update(p, x)),
        package_map(s.update(p, x)) == package_map(s).insert(x.package_id, x),
{
    let t = s.update(p, x);
    assert(ids_sorted(t)) by {
        assert forall|i: int, j: int| 0 <= i < j < t.len() implies bytes_less(t[i].package_id, t[j].package_id) by {
            assert(t[i].package_id == s[i].package_id);
            assert(t[j].package_id == s[j].package_id);
        }
    }
    assert forall|k: Seq<u8>| lists_id(t, k) <==> (lists_id(s, k) || k == x.package_id) by {
        if lists_id(s, k) {
            let i = choose|i: int| 0 <= i < s.len() && s[i].package_id == k;
            assert(t[i].package_id == k);
        }
        if lists_id(t, k) {
            let i = choose|i: int| 0 <= i < t.len() && t[i].package_id == k;
            assert(s[i].package_id == k);
        }
        if k == x.package_id {
            assert(t[p].package_id == k);
        }
    }
    assert forall|k: Seq<u8>| #[trigger] package_map(t).contains_key(k) implies package_map(t)[k] == package_map(s).insert(
        x.package_id,
        x,
    )[k] by {
        let i = choose|i: int| 0 <= i < t.len() && t[i].package_id == k;
        lemma_map_at(t, i);
        if i != p {
            lemma_map_at(s, i);
            lemma_bytes_less_irreflexive(k);
            if i < p {
                assert(bytes_less(s[i].package_id, s[p].package_id));
            } else {
                assert(bytes_less(s[p].package_id, s[i].package_id));
            }
        }
    }
    assert(package_map(t) =~= package_map(s).insert(x.package_id, x));
}

proof fn lemma_map_insert(s: Seq<PackageModel>, p: int, x: PackageModel)
    requires
        ids_sorted(s),
        0 <= p <= s.len(),
        forall|i: int| 0 <= i < p ==> bytes_less(#[trigger] s[i].package_id, x.package_id),
        forall|i: int| p <= i < s.len() ==> bytes_less(x.package_id, #[trigger] s[i].package_id),
    ensures
        ids_sorted(s.insert(p, x)),
        package_map(s.insert(p, x)) == package_map(s).insert(x.package_id, x),
{
    let t = s.insert(p, x);
    assert(t.len() == s.len() + 1);
    assert(ids_sorted(t)) by {
        assert forall|i: int, j: int| 0 <= i < j < t.len() implies bytes_less(t[i].package_id, t[j].package_id) by {
            if j < p {
                assert(t[i] == s[i] && t[j] == s[j]);
            } else if j == p {
                assert(t[i] == s[i] && t[j] == x);
            } else if i < p {
                assert(t[i] == s[i] && t[j] == s[j - 1]);
            } else if i == p {
                assert(t[i] == x && t[j] == s[j - 1]);
            } else {
                assert(t[i] == s[i - 1] && t[j] == s[j - 1]);
            }
        }
    }
    assert forall|k: Seq<u8>| lists_id(t, k) <==> (lists_id(s, k) || k == x.package_id) by {
        if lists_id(s, k) {
            let i = choose|i: int| 0 <= i < s.len() && s[i].package_id == k;
            if i < p {
                assert(t[i].package_id == k);
            } else {
                assert(t[i + 1].package_id == k);
            }
        }
        if lists_id(t, k) {
            let i = choose|i: int| 0 <= i < t.len() && t[i].package_id == k;
            if i < p {
                assert(s[i].package_id == k);
            } else if i > p {
                assert(s[i - 1].package_id == k);
            }
        }
        if k == x.package_id {
            assert(t[p].package_id == k);
        }
    }
    assert forall|k: Seq<u8>| #[trigger] package_map(t).contains_key(k) implies package_map(t)[k] == package_map(s).insert(
        x.package_id,
        x,
    )[k] by {
        let i = choose|i: int| 0 <= i < t.len() && t[i].package_id == k;
        lemma_map_at(t, i);
        if i < p {
            lemma_map_at(s, i);
            lemma_bytes_less_irreflexive(k);
        } else if i > p {
            lemma_map_at(s, i - 1);
            assert(t[i] == s[i - 1]);
            lemma_bytes_less_irreflexive(k);
        }
    }
    assert(package_map(t) =~= package_map(s).insert(x.package_id, x));
}

fn copy_opt_bytes(o: &Option<Vec<u8>>) -> (r: Option<Vec<u8>>)
    ensures
        opt_bytes(r) == opt_bytes(*o),
{
    match o {
        Some(v) => {
            assert(v@.subrange(0, v@.len() as int) =~= v@);
            Some(copy_bytes(v.as_slice(), 0, v.len()))
        },
        None => None,
    }
}

fn copy_byte_strings(v: &Vec<Vec<u8>>) -> (r: Vec<Vec<u8>>)
    ensures
        byte_strings(r@) == byte_strings(v@),
{
    let mut out: Vec<Vec<u8>> = Vec::new();
    let mut i: usize = 0;
    while i < v.len()
        invariant
            i <= v@.len(),
            out@.len() == i,
            forall|j: int| 0 <= j < i ==> (#[trigger] out@[j])@ == v@[j]@,
        decreases v@.len() - i,
    {
        let item = &v[i];
        assert(item@.subrange(0, item@.len() as int) =~= item@);
        out.push(copy_bytes(item.as_slice(), 0, item.len()));
        i = i + 1;
    }
    assert(byte_strings(out@) =~= byte_strings(v@));
    out
}

fn copy_rules(v: &Vec<MatchRule>) -> (r: Vec<MatchRule>)
    ensures
        r@ == v@,
{
    let mut out: Vec<MatchRule> = Vec::new();
    let mut i: usize = 0;
    while i < v.len()
        invariant
            i <= v@.len(),
            out@ == v@.take(i as int),
        decreases v@.len() - i,
    {
        out.push(v[i]);
        i = i + 1;
        assert(out@ =~= v@.take(i as int));
    }
    assert(v@.take(v@.len() as int) =~= v@);
    out
}

fn copy_vec(v: &Vec<u8>) -> (r: Vec<u8>)
    ensures
        r@ == v@,
{
    assert(v@.subrange(0, v@.len() as int) =~= v@);
    copy_bytes(v.as_slice(), 0, v.len())
}

impl PackageManifest {
    /// A copy of this manifest.
    pub fn duplicate(&self) -> (r: Self)
        ensures
            r.model() == self.model(),
    {
        let d = &self.driver;
        PackageManifest {
            package_id: copy_vec(&self.package_id),
            package_name: copy_vec(&self.package_name),
            package_root: copy_vec(&self.package_root),
            about_path: copy_vec(&self.about_path),
            entry_path: copy_vec(&self.entry_path),
            driver: DriverManifest {
                id: copy_vec(&d.id),
                name: copy_vec(&d.name),
                version: copy_vec(&d.version),
                description: copy_opt_bytes(&d.description),
                developer: copy_opt_bytes(&d.developer),
                api_version: d.api_version,
                driver_class: copy_opt_bytes(&d.driver_class),
                matches: copy_rules(&d.matches),
                capabilities: copy_byte_strings(&d.capabilities),
                provides: copy_byte_strings(&d.provides),
            },
        }
    }
}

/// The driver packages known, by id.
pub struct PackageRegistry {
    packages: Vec<PackageManifest>,
}

impl PackageRegistry {
    /// The registered packages in increasing order of id.
    pub closed spec fn entries(&self) -> Seq<PackageModel> {
        self.packages@.map_values(|p: PackageManifest| p.model())
    }

    /// The registered packages by id.
    pub open spec fn packages(&self) -> Map<Seq<u8>, PackageModel> {
        package_map(self.entries())
    }

    pub open spec fn wf(&self) -> bool {
        ids_sorted(self.entries())
    }

    pub fn new() -> (r: Self)
        ensures
            r.wf(),
            r.entries() == Seq::<PackageModel>::empty(),
    {
        let r = PackageRegistry { packages: Vec::new() };
        assert(r.entries() =~= Seq::<PackageModel>::empty());
        r
    }

    /// Registers `manifest` under its id, replacing any package registered
    /// with that id; always succeeds.
    pub fn register_package(&mut self, manifest: PackageManifest) -> (r: bool)
        requires
            old(self).wf(),
        ensures
            r,
            final(self).wf(),
            final(self).packages() == old(self).packages().insert(manifest.model().package_id, manifest.model()),
    {
        let ghost s = self.entries();
        let ghost m = manifest.model();
        let mut p: usize = 0;
        while p < self.packages.len() && bytes_before(
            self.packages[p].package_id.as_slice(),
            manifest.package_id.as_slice(),
        )
            invariant
                p <= self.packages@.len(),
                s == self.entries(),
                s.len() == self.packages@.len(),
                m == manifest.model(),
                ids_sorted(s),
                forall|i: int| 0 <= i < p ==> bytes_less(#[trigger] s[i].package_id, m.package_id),
            decreases self.packages@.len() - p,
        {
            assert(s[p as int] == self.packages@[p as int].model());
            p = p + 1;
        }
        if p < self.packages.len() && bytes_equal(
            self.packages[p].package_id.as_slice(),
            manifest.package_id.as_slice(),
        ) {
            proof {
                assert(s[p as int] == self.packages@[p as int].model());
                lemma_map_replace(s, p as int, m);
            }
            self.packages.set(p, manifest);
            assert(self.entries() =~= s.update(p as int, m));
        } else {
            proof {
                if p < s.len() {
                    assert(s[p as int] == self.packages@[p as int].model());
                    assert(!bytes_less(s[p as int].package_id, m.package_id));
                    lemma_bytes_less_total(s[p as int].package_id, m.package_id);
                }
                assert forall|i: int| p <= i < s.len() implies bytes_less(m.package_id, #[trigger] s[i].package_id) by {
                    if i > p {
                        lemma_bytes_less_transitive(m.package_id, s[p as int].package_id, s[i].package_id);
                    }
                }
                lemma_map_insert(s, p as int, m);
            }
            self.packages.insert(p, manifest);
            assert(self.entries() =~= s.insert(p as int, m));
        }
        true
    }

    /// The package registered with the id `id`.
    pub fn package_manifest(&self, id: &[u8]) -> (r: Option<PackageManifest>)
        requires
            self.wf(),
        ensures
            match r {
                Some(p) => self.packages().contains_key(id@) && p.model() == self.packages()[id@],
                None => !self.packages().contains_key(id@),
            },
    {
        let ghost s = self.entries();
        let mut i: usize = 0;
        while i < self.packages.len()
            invariant
                i <= self.packages@.len() == s.len(),
                s == self.entries(),
                self.wf(),
                forall|j: int| 0 <= j < i ==> (#[trigger] s[j]).package_id != id@,
            decreases self.packages@.len() - i,
        {
            assert(s[i as int] == self.packages@[i as int].model());
            if bytes_equal(self.packages[i].package_id.as_slice(), id) {
                proof {
                    lemma_map_at(s, i as int);
                }
                return Some(self.packages[i].duplicate());
            }
            i = i + 1;
        }
        None
    }

    /// Every registered package, in increasing order of id.
    pub fn package_manifests(&self) -> (r: Vec<PackageManifest>)
        requires
            self.wf(),
        ensures
            r@.map_values(|p: PackageManifest| p.model()) == self.entries(),
    {
        let mut out: Vec<PackageManifest> = Vec::new();
        let mut i: usize = 0;
        while i < self.packages.len()
            invariant
                i <= self.packages@.len(),
                out@.len() == i,
                forall|j: int| 0 <= j < i ==> (#[trigger] out@[j]).model() == self.packages@[j].model(),
            decreases self.packages@.len() - i,
        {
            out.push(self.packages[i].duplicate());
            i = i + 1;
        }
        assert(out@.map_values(|p: PackageManifest| p.model()) =~= self.entries());
        out
    }
}

/// The path of the manifest file of the package at `package_root`.
pub fn about_file_path(package_root: &[u8]) -> (r: Vec<u8>)
    ensures
        r@ == package_root@ + "/about.toml".spec_bytes(),
{
    assert(package_root@.subrange(0, package_root@.len() as int) =~= package_root@);
    let mut out = copy_bytes(package_root, 0, package_root.len());
    let suffix = "/about.toml".as_bytes();
    let ghost head = out@;
    let mut i: usize = 0;
    while i < suffix.len()
        invariant
            i <= suffix@.len(),
            out@ == head + suffix@.subrange(0, i as int),
        decreases suffix@.len() - i,
    {
        out.push(suffix[i]);
        i = i + 1;
        assert(out@ =~= head + suffix@.subrange(0, i as int));
    }
    assert(suffix@.subrange(0, suffix@.len() as int) =~= suffix@);
    out
}

impl PackageRegistry {
    /// Reads the manifest file `about_path` of the package at
    /// `package_root`, whose contents are `bytes`, and registers the package
    /// it describes. False, with nothing registered, when the contents are
    /// not UTF-8 text or do not describe a package.
    pub fn load_package(&mut self, bytes: &[u8], package_root: &[u8], about_path: &[u8]) -> (r: bool)
        requires
            old(self).wf(),
        ensures
            final(self).wf(),
            r == (vstd::utf8::valid_utf8(bytes@) && about_manifest(bytes@, package_root@, about_path@) is Some),
            r ==> final(self).packages() == old(self).packages().insert(
                about_manifest(bytes@, package_root@, about_path@)->0.package_id,
                about_manifest(bytes@, package_root@, about_path@)->0,
            ),
            !r ==> final(self).packages() == old(self).packages(),
    {
        if !valid_utf8_text(bytes) {
            return false;
        }
        match parse_about_toml(bytes, package_root, about_path) {
            None => false,
            Some(manifest) => self.register_package(manifest),
        }
    }
}

/// The listing of the registry is its packages, each once, in increasing
/// order of id.
pub proof fn lemma_listing_is_the_registry(registry: PackageRegistry)
    requires
        registry.wf(),
    ensures
        forall|i: int, j: int| 0 <= i < j < registry.entries().len()
            ==> bytes_less(registry.entries()[i].package_id, registry.entries()[j].package_id),
        forall|i: int| 0 <= i < registry.entries().len() ==> registry.packages().contains_key(
            (#[trigger] registry.entries()[i]).package_id,
        ) && registry.packages()[registry.entries()[i].package_id] == registry.entries()[i],
        forall|k: Seq<u8>| #[trigger] registry.packages().contains_key(k) ==> exists|i: int|
            0 <= i < registry.entries().len() && registry.entries()[i].package_id == k,
{
    let s = registry.entries();
    assert forall|i: int| 0 <= i < s.len() implies registry.packages().contains_key((#[trigger] s[i]).package_id)
        && registry.packages()[s[i].package_id] == s[i] by {
        lemma_map_at(s, i);
    }
}

/// A package registered under its id is what a lookup of that id finds
/// afterwards, and every other id finds what it found before.
pub proof fn lemma_lookup_after_register(before: Map<Seq<u8>, PackageModel>, m: PackageModel, id: Seq<u8>)
    ensures
        id == m.package_id ==> before.insert(m.package_id, m).contains_key(id)
            && before.insert(m.package_id, m)[id] == m,
        id != m.package_id ==> (before.insert(m.package_id, m).contains_key(id) == before.contains_key(id))
            && (before.contains_key(id) ==> before.insert(m.package_id, m)[id] == before[id]),
{
}

} // verus!

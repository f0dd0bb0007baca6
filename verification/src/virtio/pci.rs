//! PCI configuration access: finding a function by its identity, sizing its
//! BARs and enabling it for memory decode and bus mastering.

use vstd::prelude::*;
use crate::virtio::error::{VirtioError, VirtioResult};
use crate::virtio::transport::{PciBar, PciConfig};

verus! {

pub const PCI_VENDOR_DEVICE: u16 = 0x00;
pub const PCI_COMMAND: u16 = 0x04;
pub const PCI_HEADER_TYPE: u16 = 0x0c;
pub const PCI_BAR_START: u16 = 0x10;
const PCI_COMMAND_IO: u32 = 1;
const PCI_COMMAND_MEMORY: u32 = 2;
const PCI_COMMAND_BUS_MASTER: u32 = 4;

#[derive(Clone, Copy, Debug, PartialEq, Eq, Structural)]
pub struct PciAddress {
    pub bus: u8,
    pub device: u8,
    pub function: u8,
}

impl PciAddress {
    /// The address of `function` of `device` on `bus`, when both are in range.
    pub fn new(bus: u8, device: u8, function: u8) -> (r: Option<Self>)
        ensures
            r == (if device < 32 && function < 8 {
                Some(PciAddress { bus, device, function })
            } else {
                None
            }),
    {
        if device < 32 && function < 8 {
            Some(PciAddress { bus, device, function })
        } else {
            None
        }
    }
}

/// One access to PCI configuration space, with its outcome.
pub enum ConfigAccess {
    Read { address: PciAddress, offset: u16, result: VirtioResult<u32> },
    Write { address: PciAddress, offset: u16, value: u32, result: VirtioResult<()> },
}

/// 32-bit access to PCI configuration space. Each access is recorded, with
/// what it returned, in the port's access log.
pub trait PciConfigIo {
    /// The accesses made through this port so far, oldest first.
    spec fn config_log(&self) -> Seq<ConfigAccess>;

    fn read_u32(&mut self, address: PciAddress, offset: u16) -> (r: VirtioResult<u32>)
        ensures
            final(self).config_log() == old(self).config_log().push(ConfigAccess::Read { address, offset, result: r });

    fn write_u32(&mut self, address: PciAddress, offset: u16, value: u32) -> (r: VirtioResult<()>)
        ensures
            final(self).config_log() == old(self).config_log().push(
                ConfigAccess::Write { address, offset, value, result: r },
            );
}

/// Whether `a` reads the register at `offset` of `address`.
pub open spec fn reads_at(a: ConfigAccess, address: PciAddress, offset: int) -> bool {
    a matches ConfigAccess::Read { address: at, offset: o, .. } && at == address && o == offset
}

/// What the read `a` returned.
pub open spec fn read_result(a: ConfigAccess) -> VirtioResult<u32> {
    match a {
        ConfigAccess::Read { result, .. } => result,
        ConfigAccess::Write { .. } => Err(VirtioError::AccessFailed),
    }
}

/// The word the read `a` returned, zero when it failed.
pub open spec fn read_word(a: ConfigAccess) -> u32 {
    match read_result(a) {
        Ok(w) => w,
        Err(_) => 0,
    }
}

/// The accesses appended to `before` to give `after`.
pub open spec fn log_tail(before: Seq<ConfigAccess>, after: Seq<ConfigAccess>) -> Seq<ConfigAccess> {
    after.subrange(before.len() as int, after.len() as int)
}

/// Whether `after` is `before` with accesses appended.
pub open spec fn log_extends(before: Seq<ConfigAccess>, after: Seq<ConfigAccess>) -> bool {
    before.len() <= after.len() && after.subrange(0, before.len() as int) == before
}

/// Whether `a` writes `value` to the register at `offset` of `address`.
pub open spec fn writes_at(a: ConfigAccess, address: PciAddress, offset: int, value: u32) -> bool {
    a matches ConfigAccess::Write { address: at, offset: o, value: v, .. } && at == address && o == offset && v == value
}

/// What the write `a` returned.
pub open spec fn write_result(a: ConfigAccess) -> VirtioResult<()> {
    match a {
        ConfigAccess::Write { result, .. } => result,
        ConfigAccess::Read { .. } => Err(VirtioError::AccessFailed),
    }
}

/// Sizing the register at `offset` that held `original`, from the accesses
/// `t`: all ones written, the register read back, `original` written back,
/// stopping at the first failure. The number of accesses used and the
/// outcome, the value read back on success; `None` when `t` does not start
/// so.
pub open spec fn size_register(address: PciAddress, offset: int, original: u32, t: Seq<ConfigAccess>) -> Option<
    (int, VirtioResult<u32>),
> {
    if t.len() < 1 || !writes_at(t[0], address, offset, 0xffff_ffff) {
        None
    } else {
        match write_result(t[0]) {
            Err(e) => Some((1, Err(e))),
            Ok(_) => if t.len() < 2 || !reads_at(t[1], address, offset) {
                None
            } else {
                match read_result(t[1]) {
                    Err(e) => Some((2, Err(e))),
                    Ok(mask) => if t.len() < 3 || !writes_at(t[2], address, offset, original) {
                        None
                    } else {
                        match write_result(t[2]) {
                            Err(e) => Some((3, Err(e))),
                            Ok(_) => Some((3, Ok(mask))),
                        }
                    },
                }
            },
        }
    }
}

/// A register read from `t[0]` followed by its sizing: the accesses used,
/// and the value held and the value read back.
pub open spec fn probe_register(address: PciAddress, offset: int, t: Seq<ConfigAccess>) -> Option<
    (int, VirtioResult<(u32, u32)>),
> {
    if t.len() < 1 || !reads_at(t[0], address, offset) {
        None
    } else {
        match read_result(t[0]) {
            Err(e) => Some((1, Err(e))),
            Ok(original) => match size_register(address, offset, original, t.drop_first()) {
                None => None,
                Some((n, Err(e))) => Some((n + 1, Err(e))),
                Some((n, Ok(mask))) => Some((n + 1, Ok((original, mask)))),
            },
        }
    }
}


#[derive(Clone, Copy, Debug, PartialEq, Eq, Structural)]
pub struct PciDevice {
    pub address: PciAddress,
    pub vendor_id: u16,
    pub device_id: u16,
}

/// Size of a BAR whose writable address bits are `mask`: its two's complement.
pub open spec fn bar_size(mask: u64) -> u64 {
    if mask == 0 { 0 } else { (0x1_0000_0000_0000_0000 - mask) as u64 }
}

/// Whether `bars` lists BARs of distinct, increasing indices below six, each
/// with a nonzero size.
pub open spec fn well_formed_bars(bars: Seq<PciBar>) -> bool {
    &&& forall|k: int| 0 <= k < bars.len() ==> #[trigger] bars[k].index < 6 && bars[k].size != 0
    &&& forall|a: int, b: int| 0 <= a < b < bars.len() ==> #[trigger] bars[a].index < #[trigger] bars[b].index
}

fn size_from_mask(mask: u64) -> (s: u64)
    requires
        mask != 0,
    ensures
        s == bar_size(mask),
        s != 0,
{
    assert(!mask < 0xffff_ffff_ffff_ffff && !mask == 0xffff_ffff_ffff_ffff - mask) by (bit_vector)
        requires
            mask != 0,
    ;
    !mask + 1
}

fn size_from_mask32(mask: u32) -> (s: u32)
    requires
        mask != 0,
    ensures
        s == 0x1_0000_0000 - mask,
        s != 0,
{
    assert(!mask < 0xffff_ffff && !mask == 0xffff_ffff - mask) by (bit_vector)
        requires
            mask != 0,
    ;
    !mask + 1
}

/// The four configuration bytes of `w`, lowest first.
pub open spec fn word_bytes(w: u32) -> Seq<u8> {
    seq![(w & 0xff) as u8, ((w >> 8u32) & 0xff) as u8, ((w >> 16u32) & 0xff) as u8, ((w >> 24u32) & 0xff) as u8]
}

/// The configuration bytes of consecutive 32-bit registers.
pub open spec fn config_bytes(words: Seq<u32>) -> Seq<u8>
    decreases words.len(),
{
    if words.len() == 0 {
        Seq::empty()
    } else {
        config_bytes(words.drop_last()) + word_bytes(words.last())
    }
}

/// The I/O BAR at `index` whose register held `low` and read `mask` back
/// once all ones were written.
pub open spec fn io_bar(index: u8, low: u32, mask: u32) -> PciBar {
    PciBar { index, address: (low & !3u32) as u64, size: (0x1_0000_0000 - (mask & !3u32)) as u64, is_io: true }
}

/// The 32-bit memory BAR at `index`, likewise.
pub open spec fn memory32_bar(index: u8, low: u32, mask: u32) -> PciBar {
    PciBar { index, address: (low & !0xfu32) as u64, size: (0x1_0000_0000 - (mask & !0xfu32)) as u64, is_io: false }
}

/// The 64-bit memory BAR at `index`, from its low and high registers and
/// what they read back.
pub open spec fn memory64_bar(index: u8, low: u32, high: u32, mask_low: u32, mask_high: u32) -> PciBar {
    PciBar {
        index,
        address: ((low & !0xfu32) as u64) | ((high as u64) << 32u64),
        size: bar_size(((mask_low & !0xfu32) as u64) | ((mask_high as u64) << 32u64)),
        is_io: false,
    }
}

/// Whether `b` is what sizing a BAR gives for some register contents: an
/// I/O BAR, a 32-bit memory BAR or a 64-bit memory BAR below the last slot.
pub open spec fn probed_bar(b: PciBar) -> bool {
    ||| exists|low: u32, mask: u32| low & 1 != 0 && b == #[trigger] io_bar(b.index, low, mask)
    ||| exists|low: u32, mask: u32|
        low & 1 == 0 && (low >> 1u32) & 3 == 0 && b == #[trigger] memory32_bar(b.index, low, mask)
    ||| exists|low: u32, high: u32, mask_low: u32, mask_high: u32|
        low & 1 == 0 && (low >> 1u32) & 3 == 2 && b.index < 5 && b == #[trigger] memory64_bar(
            b.index,
            low,
            high,
            mask_low,
            mask_high,
        )
}

/// Reading the configuration space of `address`: the registers at 0, 4,
/// ..., 252 read in order until one read fails; on success the bytes of the
/// 64 words read.
pub open spec fn config_read_log(
    address: PciAddress,
    before: Seq<ConfigAccess>,
    after: Seq<ConfigAccess>,
    r: VirtioResult<PciConfig>,
) -> bool {
    let t = log_tail(before, after);
    &&& log_extends(before, after)
    &&& 1 <= t.len() <= 64
    &&& forall|i: int| 0 <= i < t.len() ==> reads_at(#[trigger] t[i], address, 4 * i)
    &&& forall|i: int| 0 <= i < t.len() - 1 ==> read_result(#[trigger] t[i]) is Ok
    &&& match r {
        Ok(c) => t.len() == 64 && read_result(t[63]) is Ok && c@ == config_bytes(
            t.map_values(|a: ConfigAccess| read_word(a)),
        ),
        Err(e) => read_result(t.last()) == Err::<u32, VirtioError>(e),
    }
}

/// Enabling memory decode and bus mastering: the command register read and,
/// if that went through, written back with both bits (2 and 4) added.
pub open spec fn enable_steps(
    address: PciAddress,
    before: Seq<ConfigAccess>,
    after: Seq<ConfigAccess>,
    command: VirtioResult<u32>,
    r: VirtioResult<()>,
) -> bool {
    let a1 = before.push(ConfigAccess::Read { address, offset: PCI_COMMAND, result: command });
    match command {
        Err(e) => after == a1 && r == Err::<(), VirtioError>(e),
        Ok(c) => after == a1.push(ConfigAccess::Write { address, offset: PCI_COMMAND, value: c | 6, result: r }),
    }
}

/// The BAR probe of `address` from BAR `index` on, having found `found`,
/// given the accesses `t` it then makes; `None` when `t` is not what it
/// does. Each BAR register is read; one that holds zero is skipped;
/// otherwise it is sized. An I/O BAR and a 32-bit memory BAR are listed
/// when their size mask is not zero; a 64-bit BAR also reads and sizes the
/// next register and takes both slots, and is refused in the last slot.
pub open spec fn bar_probe(address: PciAddress, index: int, t: Seq<ConfigAccess>, found: Seq<PciBar>) -> Option<
    VirtioResult<Seq<PciBar>>,
>
    decreases 7 - index,
{
    if index >= 6 || index < 0 {
        if t.len() == 0 { Some(Ok(found)) } else { None }
    } else {
        let offset = PCI_BAR_START + 4 * index;
        if t.len() < 1 || !reads_at(t[0], address, offset) {
            None
        } else {
            match read_result(t[0]) {
                Err(e) => if t.len() == 1 { Some(Err(e)) } else { None },
                Ok(low) => if low == 0 {
                    bar_probe(address, index + 1, t.drop_first(), found)
                } else {
                    match size_register(address, offset, low, t.drop_first()) {
                        None => None,
                        Some((n, Err(e))) => if t.len() == n + 1 { Some(Err(e)) } else { None },
                        Some((n, Ok(mask_low))) => {
                            let rest = t.skip(n + 1);
                            if low & 1 != 0 {
                                bar_probe(
                                    address,
                                    index + 1,
                                    rest,
                                    if mask_low & !3u32 != 0 { found.push(io_bar(index as u8, low, mask_low)) } else { found },
                                )
                            } else if (low >> 1u32) & 3 == 2 {
                                if index == 5 {
                                    if rest.len() == 0 { Some(Err(VirtioError::InvalidBar)) } else { None }
                                } else {
                                    match probe_register(address, offset + 4, rest) {
                                        None => None,
                                        Some((m, Err(e))) => if rest.len() == m { Some(Err(e)) } else { None },
                                        Some((m, Ok((high, mask_high)))) => {
                                            let mask = ((mask_low & !0xfu32) as u64) | ((mask_high as u64) << 32u64);
                                            bar_probe(
                                                address,
                                                index + 2,
                                                rest.skip(m),
                                                if mask != 0 {
                                                    found.push(memory64_bar(index as u8, low, high, mask_low, mask_high))
                                                } else {
                                                    found
                                                },
                                            )
                                        },
                                    }
                                }
                            } else if (low >> 1u32) & 3 == 0 {
                                bar_probe(
                                    address,
                                    index + 1,
                                    rest,
                                    if mask_low & !0xfu32 != 0 { found.push(memory32_bar(index as u8, low, mask_low)) } else { found },
                                )
                            } else {
                                bar_probe(address, index + 1, rest, found)
                            }
                        },
                    }
                },
            }
        }
    }
}

/// The probe standing at BAR `index` with `found` after the accesses
/// `done`: whatever it does next, it returns what the whole probe returns.
pub open spec fn probe_at(address: PciAddress, done: Seq<ConfigAccess>, index: int, found: Seq<PciBar>) -> bool {
    forall|u: Seq<ConfigAccess>| #[trigger] bar_probe(address, 0, done + u, Seq::empty()) == bar_probe(address, index, u, found)
}

/// Probing the BARs of `address` from the accesses `t`: the command
/// register read, written back with I/O and memory decode cleared, the BARs
/// probed, and the command register written back as read, also when the
/// probe failed; `None` when `t` is not what it does.
pub open spec fn command_guarded_probe(address: PciAddress, t: Seq<ConfigAccess>) -> Option<VirtioResult<Seq<PciBar>>> {
    if t.len() < 1 || !reads_at(t[0], address, PCI_COMMAND as int) {
        None
    } else {
        match read_result(t[0]) {
            Err(e) => if t.len() == 1 { Some(Err(e)) } else { None },
            Ok(command) => if t.len() < 2 || !writes_at(t[1], address, PCI_COMMAND as int, command & !3u32) {
                None
            } else {
                match write_result(t[1]) {
                    Err(e) => if t.len() == 2 { Some(Err(e)) } else { None },
                    Ok(_) => if t.len() < 3 || !writes_at(t.last(), address, PCI_COMMAND as int, command) {
                        None
                    } else {
                        match bar_probe(address, 0, t.subrange(2, t.len() - 1), Seq::empty()) {
                            None => None,
                            Some(Err(e)) => Some(Err(e)),
                            Some(Ok(bars)) => match write_result(t.last()) {
                                Err(e) => Some(Err(e)),
                                Ok(_) => Some(Ok(bars)),
                            },
                        }
                    },
                }
            },
        }
    }
}

/// A probe result by the BARs it lists.
pub open spec fn bars_result(r: VirtioResult<Vec<PciBar>>) -> VirtioResult<Seq<PciBar>> {
    match r {
        Ok(bars) => Ok(bars@),
        Err(e) => Err(e),
    }
}

proof fn lemma_probe_step(
    address: PciAddress,
    done: Seq<ConfigAccess>,
    index: int,
    found: Seq<PciBar>,
    step: Seq<ConfigAccess>,
    next_index: int,
    next_found: Seq<PciBar>,
)
    requires
        probe_at(address, done, index, found),
        forall|u: Seq<ConfigAccess>| #[trigger] bar_probe(address, index, step + u, found) == bar_probe(
            address,
            next_index,
            u,
            next_found,
        ),
    ensures
        probe_at(address, done + step, next_index, next_found),
{
    assert forall|u: Seq<ConfigAccess>| #[trigger] bar_probe(address, 0, (done + step) + u, Seq::empty())
        == bar_probe(address, next_index, u, next_found) by {
        assert((done + step) + u =~= done + (step + u));
        assert(bar_probe(address, 0, done + (step + u), Seq::empty()) == bar_probe(address, index, step + u, found));
    }
}

proof fn lemma_probe_end(address: PciAddress, done: Seq<ConfigAccess>, index: int, found: Seq<PciBar>, last: Seq<ConfigAccess>)
    requires
        probe_at(address, done, index, found),
    ensures
        forall|u: Seq<ConfigAccess>| #[trigger] bar_probe(address, 0, (done + last) + u, Seq::empty()) == bar_probe(
            address,
            index,
            last + u,
            found,
        ),
{
    assert forall|u: Seq<ConfigAccess>| #[trigger] bar_probe(address, 0, (done + last) + u, Seq::empty())
        == bar_probe(address, index, last + u, found) by {
        assert((done + last) + u =~= done + (last + u));
    }
}

impl PciDevice {
    /// Reads the whole 256-byte configuration space, 32 bits at a time.
    pub fn read_config(self, io: &mut impl PciConfigIo) -> (r: VirtioResult<PciConfig>)
        ensures
            r matches Ok(c) ==> c@.len() == 256,
            r matches Ok(c) ==> exists|words: Seq<u32>| words.len() == 64 && c@ == #[trigger] config_bytes(words),
            config_read_log(self.address, old(io).config_log(), final(io).config_log(), r),
    {
        let ghost before = io.config_log();
        let mut bytes: Vec<u8> = Vec::new();
        let mut offset: u16 = 0;
        let ghost mut words: Seq<u32> = Seq::empty();
        assert(log_tail(before, io.config_log()) =~= Seq::<ConfigAccess>::empty());
        assert(io.config_log().subrange(0, before.len() as int) =~= before);
        while offset < 256
            invariant
                offset <= 256,
                offset % 4 == 0,
                bytes@.len() == offset,
                words.len() * 4 == offset,
                bytes@ == config_bytes(words),
                before == old(io).config_log(),
                log_extends(before, io.config_log()),
                log_tail(before, io.config_log()).len() == words.len(),
                forall|i: int| 0 <= i < words.len() ==> reads_at(#[trigger] log_tail(before, io.config_log())[i], self.address, 4 * i),
                forall|i: int| 0 <= i < words.len() ==> read_result(#[trigger] log_tail(before, io.config_log())[i]) == Ok::<u32, VirtioError>(words[i]),
            decreases 256 - offset,
        {
            let ghost log0 = io.config_log();
            let result = io.read_u32(self.address, offset);
            let ghost t = log_tail(before, io.config_log());
            proof {
                assert(t =~= log_tail(before, log0).push(ConfigAccess::Read { address: self.address, offset, result }));
                assert(io.config_log().subrange(0, before.len() as int) =~= before);
            }
            let word = match result {
                Ok(w) => w,
                Err(e) => {
                    proof {
                        assert forall|i: int| 0 <= i < t.len() - 1 implies read_result(#[trigger] t[i]) is Ok by {
                            assert(t[i] == log_tail(before, log0)[i]);
                        }
                        assert forall|i: int| 0 <= i < t.len() implies reads_at(#[trigger] t[i], self.address, 4 * i) by {
                            if i < t.len() - 1 {
                                assert(t[i] == log_tail(before, log0)[i]);
                            }
                        }
                        assert(log_extends(before, io.config_log()));
                        assert(1 <= t.len() <= 64);
                        assert(read_result(t.last()) == Err::<u32, VirtioError>(e));
                        assert(config_read_log(self.address, before, io.config_log(), Err(e)));
                    }
                    return Err(e);
                },
            };
            let ghost prev = bytes@;
            bytes.push((word & 0xff) as u8);
            bytes.push(((word >> 8u32) & 0xff) as u8);
            bytes.push(((word >> 16u32) & 0xff) as u8);
            bytes.push(((word >> 24u32) & 0xff) as u8);
            proof {
                assert(words.push(word).drop_last() =~= words);
                assert(bytes@ =~= prev + word_bytes(word));
                assert forall|i: int| 0 <= i < words.len() + 1 implies reads_at(#[trigger] t[i], self.address, 4 * i)
                    && read_result(t[i]) == Ok::<u32, VirtioError>(words.push(word)[i]) by {
                    if i < words.len() {
                        assert(t[i] == log_tail(before, log0)[i]);
                    }
                }
                words = words.push(word);
            }
            offset = offset + 4;
        }
        let c = PciConfig::new(bytes);
        proof {
            let t = log_tail(before, io.config_log());
            assert(t.map_values(|a: ConfigAccess| read_word(a)) =~= words);
            assert(c@ == config_bytes(words));
            assert forall|i: int| 0 <= i < t.len() - 1 implies read_result(#[trigger] t[i]) is Ok by {
                assert(read_result(t[i]) == Ok::<u32, VirtioError>(words[i]));
            }
            assert(read_result(t[63]) == Ok::<u32, VirtioError>(words[63]));
        }
        Ok(c)
    }

    /// Sizes the BARs with I/O and memory decode disabled, then restores the
    /// command register, whatever the probe found.
    pub fn probe_bars(self, io: &mut impl PciConfigIo) -> (r: VirtioResult<Vec<PciBar>>)
        ensures
            r matches Ok(bars) ==> well_formed_bars(bars@),
            r matches Ok(bars) ==> forall|k: int| 0 <= k < bars@.len() ==> probed_bar(#[trigger] bars@[k]),
            log_extends(old(io).config_log(), final(io).config_log()),
            command_guarded_probe(self.address, log_tail(old(io).config_log(), final(io).config_log()))
                == Some(bars_result(r)),
    {
        let ghost before = io.config_log();
        let read = io.read_u32(self.address, PCI_COMMAND);
        let ghost a0 = ConfigAccess::Read { address: self.address, offset: PCI_COMMAND, result: read };
        proof {
            assert(log_tail(before, io.config_log()) =~= seq![a0]);
            assert(io.config_log().subrange(0, before.len() as int) =~= before);
        }
        let command_word = match read {
            Ok(c) => c,
            Err(e) => return Err(e),
        };
        let disabled = command_word & !(PCI_COMMAND_IO | PCI_COMMAND_MEMORY);
        assert(disabled == command_word & !3u32) by (bit_vector)
            requires
                disabled == command_word & !(1u32 | 2u32),
        ;
        let w = io.write_u32(self.address, PCI_COMMAND, disabled);
        let ghost a1 = ConfigAccess::Write { address: self.address, offset: PCI_COMMAND, value: disabled, result: w };
        proof {
            assert(log_tail(before, io.config_log()) =~= seq![a0, a1]);
            assert(io.config_log().subrange(0, before.len() as int) =~= before);
        }
        if let Err(e) = w {
            return Err(e);
        }
        let ghost mid = io.config_log();
        let result = self.probe_bars_while_disabled(io);
        let ghost tp = log_tail(mid, io.config_log());
        let ghost mid2 = io.config_log();
        let restore = io.write_u32(self.address, PCI_COMMAND, command_word);
        let ghost a2 = ConfigAccess::Write { address: self.address, offset: PCI_COMMAND, value: command_word, result: restore };
        proof {
            let t = log_tail(before, io.config_log());
            assert(mid2 =~= mid + tp);
            assert(t =~= seq![a0, a1] + tp + seq![a2]);
            assert(t.subrange(2, t.len() - 1) =~= tp);
            assert(io.config_log().subrange(0, before.len() as int) =~= before);
            assert(bar_probe(self.address, 0, tp + Seq::<ConfigAccess>::empty(), Seq::empty()) == Some(bars_result(result)));
            assert(tp + Seq::<ConfigAccess>::empty() =~= tp);
        }
        match (result, restore) {
            (Ok(bars), Ok(())) => Ok(bars),
            (Err(error), _) => Err(error),
            (_, Err(error)) => Err(error),
        }
    }

    /// Sizes the register at `offset` that held `original`: writes all
    /// ones, reads the size mask back and writes `original` back.
    fn size_register_io(self, io: &mut impl PciConfigIo, offset: u16, original: u32) -> (r: VirtioResult<u32>)
        ensures
            log_extends(old(io).config_log(), final(io).config_log()),
            forall|u: Seq<ConfigAccess>| #[trigger] size_register(
                self.address,
                offset as int,
                original,
                log_tail(old(io).config_log(), final(io).config_log()) + u,
            ) == Some((log_tail(old(io).config_log(), final(io).config_log()).len() as int, r)),
    {
        let ghost before = io.config_log();
        let w = io.write_u32(self.address, offset, 0xffff_ffff);
        let ghost a0 = ConfigAccess::Write { address: self.address, offset, value: 0xffff_ffff, result: w };
        if let Err(e) = w {
            proof {
                let t = log_tail(before, io.config_log());
                assert(t =~= seq![a0]);
                assert(io.config_log().subrange(0, before.len() as int) =~= before);
                assert forall|u: Seq<ConfigAccess>| #[trigger] size_register(self.address, offset as int, original, t + u)
                    == Some((1int, Err::<u32, VirtioError>(e))) by {
                    assert((t + u)[0] == a0);
                }
            }
            return Err(e);
        }
        let m = io.read_u32(self.address, offset);
        let ghost a1 = ConfigAccess::Read { address: self.address, offset, result: m };
        let mask = match m {
            Ok(v) => v,
            Err(e) => {
                proof {
                    let t = log_tail(before, io.config_log());
                    assert(t =~= seq![a0, a1]);
                    assert(io.config_log().subrange(0, before.len() as int) =~= before);
                    assert forall|u: Seq<ConfigAccess>| #[trigger] size_register(self.address, offset as int, original, t + u)
                        == Some((2int, Err::<u32, VirtioError>(e))) by {
                        assert((t + u)[0] == a0 && (t + u)[1] == a1);
                    }
                }
                return Err(e);
            },
        };
        let w2 = io.write_u32(self.address, offset, original);
        let ghost a2 = ConfigAccess::Write { address: self.address, offset, value: original, result: w2 };
        let r = match w2 {
            Ok(()) => Ok(mask),
            Err(e) => Err(e),
        };
        proof {
            let t = log_tail(before, io.config_log());
            assert(t =~= seq![a0, a1, a2]);
            assert(io.config_log().subrange(0, before.len() as int) =~= before);
            assert forall|u: Seq<ConfigAccess>| #[trigger] size_register(self.address, offset as int, original, t + u)
                == Some((3int, r)) by {
                assert((t + u)[0] == a0 && (t + u)[1] == a1 && (t + u)[2] == a2);
            }
        }
        r
    }

    /// Reads the register at `offset` and sizes it.
    fn probe_register_io(self, io: &mut impl PciConfigIo, offset: u16) -> (r: VirtioResult<(u32, u32)>)
        ensures
            log_extends(old(io).config_log(), final(io).config_log()),
            forall|u: Seq<ConfigAccess>| #[trigger] probe_register(
                self.address,
                offset as int,
                log_tail(old(io).config_log(), final(io).config_log()) + u,
            ) == Some((log_tail(old(io).config_log(), final(io).config_log()).len() as int, r)),
    {
        let ghost before = io.config_log();
        let read = io.read_u32(self.address, offset);
        let ghost a = ConfigAccess::Read { address: self.address, offset, result: read };
        proof {
            assert(log_tail(before, io.config_log()) =~= seq![a]);
            assert(io.config_log().subrange(0, before.len() as int) =~= before);
        }
        let original = match read {
            Ok(v) => v,
            Err(e) => {
                proof {
                    let t = log_tail(before, io.config_log());
                    assert forall|u: Seq<ConfigAccess>| #[trigger] probe_register(self.address, offset as int, t + u)
                        == Some((1int, Err::<(u32, u32), VirtioError>(e))) by {
                        assert((t + u)[0] == a);
                    }
                }
                return Err(e);
            },
        };
        let ghost mid = io.config_log();
        let sized = self.size_register_io(io, offset, original);
        let ghost t2 = log_tail(mid, io.config_log());
        let r = match sized {
            Ok(mask) => Ok((original, mask)),
            Err(e) => Err(e),
        };
        proof {
            let t = log_tail(before, io.config_log());
            assert(io.config_log() =~= mid + t2);
            assert(t =~= seq![a] + t2);
            assert(io.config_log().subrange(0, before.len() as int) =~= before);
            assert forall|u: Seq<ConfigAccess>| #[trigger] probe_register(self.address, offset as int, t + u)
                == Some((t.len() as int, r)) by {
                assert((t + u)[0] == a);
                assert((t + u).drop_first() =~= t2 + u);
                assert(size_register(self.address, offset as int, original, t2 + u) == Some((t2.len() as int, sized)));
            }
        }
        r
    }

    #[verifier::rlimit(100)]
    fn probe_bars_while_disabled(self, io: &mut impl PciConfigIo) -> (r: VirtioResult<Vec<PciBar>>)
        ensures
            r matches Ok(bars) ==> well_formed_bars(bars@),
            r matches Ok(bars) ==> forall|k: int| 0 <= k < bars@.len() ==> probed_bar(#[trigger] bars@[k]),
            log_extends(old(io).config_log(), final(io).config_log()),
            forall|u: Seq<ConfigAccess>| #[trigger] bar_probe(
                self.address,
                0,
                log_tail(old(io).config_log(), final(io).config_log()) + u,
                Seq::empty(),
            ) == (if u.len() == 0 { Some(bars_result(r)) } else { None }),
    {
        let ghost before = io.config_log();
        let mut bars: Vec<PciBar> = Vec::new();
        let mut index: u8 = 0;
        proof {
            assert(log_tail(before, io.config_log()) =~= Seq::<ConfigAccess>::empty());
            assert(io.config_log().subrange(0, before.len() as int) =~= before);
            assert forall|u: Seq<ConfigAccess>| #[trigger] bar_probe(self.address, 0, Seq::<ConfigAccess>::empty() + u, Seq::empty())
                == bar_probe(self.address, 0, u, Seq::empty()) by {
                assert(Seq::<ConfigAccess>::empty() + u =~= u);
            }
        }
        while index < 6
            invariant
                index <= 7,
                well_formed_bars(bars@),
                forall|k: int| 0 <= k < bars@.len() ==> #[trigger] bars@[k].index < index,
                forall|k: int| 0 <= k < bars@.len() ==> probed_bar(#[trigger] bars@[k]),
                before == old(io).config_log(),
                log_extends(before, io.config_log()),
                probe_at(self.address, log_tail(before, io.config_log()), index as int, bars@),
            decreases 7 - index,
        {
            let offset = PCI_BAR_START + (index as u16) * 4;
            let ghost done = log_tail(before, io.config_log());
            let ghost found = bars@;
            let read = io.read_u32(self.address, offset);
            let ghost a = ConfigAccess::Read { address: self.address, offset, result: read };
            let ghost sa = seq![a];
            proof {
                assert(log_tail(before, io.config_log()) =~= done + sa);
                assert(io.config_log().subrange(0, before.len() as int) =~= before);
            }
            let original_low = match read {
                Ok(v) => v,
                Err(e) => {
                    proof {
                        lemma_probe_end(self.address, done, index as int, found, sa);
                        assert(sa[0] == a);
                    }
                    return Err(e);
                },
            };
            if original_low == 0 {
                proof {
                    assert forall|u: Seq<ConfigAccess>| #[trigger] bar_probe(self.address, index as int, sa + u, found)
                        == bar_probe(self.address, index + 1, u, found) by {
                        assert((sa + u)[0] == a);
                        assert((sa + u).drop_first() =~= u);
                    }
                    lemma_probe_step(self.address, done, index as int, found, sa, index + 1, found);
                }
                index = index + 1;
                continue;
            }
            let ghost mid = io.config_log();
            let sized = self.size_register_io(io, offset, original_low);
            let ghost t2 = log_tail(mid, io.config_log());
            let ghost step = sa + t2;
            let ghost n = t2.len() as int;
            proof {
                assert(io.config_log() =~= mid + t2);
                assert(log_tail(before, io.config_log()) =~= done + step);
                assert(io.config_log().subrange(0, before.len() as int) =~= before);
                assert forall|u: Seq<ConfigAccess>| #[trigger] (step + u).drop_first() == t2 + u by {
                    assert((step + u).drop_first() =~= t2 + u);
                }
                assert forall|u: Seq<ConfigAccess>| #[trigger] (step + u).skip(n + 1) == u by {
                    assert((step + u).skip(n + 1) =~= u);
                }
                assert forall|u: Seq<ConfigAccess>| #[trigger] (step + u)[0] == a by {
                    assert((step + u)[0] == step[0]);
                }
                assert(size_register(self.address, offset as int, original_low, t2 + Seq::<ConfigAccess>::empty()) == Some((n, sized)));
                assert(t2 + Seq::<ConfigAccess>::empty() =~= t2);
                assert(step + Seq::<ConfigAccess>::empty() =~= step);
            }
            let mask_low = match sized {
                Ok(m) => m,
                Err(e) => {
                    proof {
                        lemma_probe_end(self.address, done, index as int, found, step);
                    }
                    return Err(e);
                },
            };
            if original_low & 1 != 0 {
                let mask = mask_low & !3u32;
                if mask != 0 {
                    let bar = PciBar {
                        index,
                        address: (original_low & !3u32) as u64,
                        size: size_from_mask32(mask) as u64,
                        is_io: true,
                    };
                    assert(original_low & 1 != 0);
                    assert(bar == io_bar(bar.index, original_low, mask_low));
                    assert(probed_bar(bar));
                    let ghost prev = bars@;
                    bars.push(bar);
                    assert(forall|k: int| 0 <= k < prev.len() ==> bars@[k] == prev[k]);
                }
                proof {
                    assert forall|u: Seq<ConfigAccess>| #[trigger] bar_probe(self.address, index as int, step + u, found)
                        == bar_probe(self.address, index + 1, u, bars@) by {
                        assert(size_register(self.address, offset as int, original_low, t2 + u) == Some((n, sized)));
                    }
                    lemma_probe_step(self.address, done, index as int, found, step, index + 1, bars@);
                }
                index = index + 1;
                continue;
            }

            let memory_type = (original_low >> 1u32) & 3;
            if memory_type == 2 {
                if index == 5 {
                    proof {
                        assert(size_register(self.address, offset as int, original_low, t2 + Seq::<ConfigAccess>::empty()) == Some((n, sized)));
                        lemma_probe_end(self.address, done, index as int, found, step);
                    }
                    return Err(VirtioError::InvalidBar);
                }
                let high_offset = offset + 4;
                let ghost mid2 = io.config_log();
                let high = self.probe_register_io(io, high_offset);
                let ghost t3 = log_tail(mid2, io.config_log());
                let ghost step2 = step + t3;
                let ghost m = t3.len() as int;
                proof {
                    assert(io.config_log() =~= mid2 + t3);
                    assert(log_tail(before, io.config_log()) =~= done + step2);
                    assert(io.config_log().subrange(0, before.len() as int) =~= before);
                    assert forall|u: Seq<ConfigAccess>| #[trigger] (step2 + u) == step + (t3 + u) by {
                        assert(step2 + u =~= step + (t3 + u));
                    }
                    assert forall|u: Seq<ConfigAccess>| #[trigger] (t3 + u).skip(m) == u by {
                        assert((t3 + u).skip(m) =~= u);
                    }
                    assert(t3 + Seq::<ConfigAccess>::empty() =~= t3);
                    assert(step2 + Seq::<ConfigAccess>::empty() =~= step2);
                }
                let (original_high, mask_high) = match high {
                    Ok(v) => v,
                    Err(e) => {
                        proof {
                            assert(bar_probe(self.address, index as int, step + (t3 + Seq::<ConfigAccess>::empty()), found)
                                == Some(Err::<Seq<PciBar>, VirtioError>(e))) by {
                                assert(size_register(self.address, offset as int, original_low, t2 + t3) == Some((n, sized)));
                                assert(probe_register(self.address, high_offset as int, t3 + Seq::<ConfigAccess>::empty()) == Some((m, high)));
                            }
                            lemma_probe_end(self.address, done, index as int, found, step2);
                        }
                        return Err(e);
                    },
                };
                let address = ((original_low & !0xfu32) as u64) | ((original_high as u64) << 32u64);
                let mask = ((mask_low & !0xfu32) as u64) | ((mask_high as u64) << 32u64);
                if mask != 0 {
                    let bar = PciBar { index, address, size: size_from_mask(mask), is_io: false };
                    assert(original_low & 1 == 0 && (original_low >> 1u32) & 3 == 2 && bar.index < 5);
                    assert(bar == memory64_bar(bar.index, original_low, original_high, mask_low, mask_high));
                    assert(probed_bar(bar));
                    let ghost prev = bars@;
                    bars.push(bar);
                    assert(forall|k: int| 0 <= k < prev.len() ==> bars@[k] == prev[k]);
                }
                proof {
                    assert forall|u: Seq<ConfigAccess>| #[trigger] bar_probe(self.address, index as int, step2 + u, found)
                        == bar_probe(self.address, index + 2, u, bars@) by {
                        assert(step2 + u == step + (t3 + u));
                        assert(size_register(self.address, offset as int, original_low, t2 + (t3 + u)) == Some((n, sized)));
                        assert(probe_register(self.address, high_offset as int, t3 + u) == Some((m, high)));
                        assert((t3 + u).skip(m) == u);
                    }
                    lemma_probe_step(self.address, done, index as int, found, step2, index + 2, bars@);
                }
                index = index + 2;
                continue;
            }

            if memory_type == 0 {
                let mask = mask_low & !0xfu32;
                if mask != 0 {
                    let bar = PciBar {
                        index,
                        address: (original_low & !0xfu32) as u64,
                        size: size_from_mask32(mask) as u64,
                        is_io: false,
                    };
                    assert(original_low & 1 == 0 && (original_low >> 1u32) & 3 == 0);
                    assert(bar == memory32_bar(bar.index, original_low, mask_low));
                    assert(probed_bar(bar));
                    let ghost prev = bars@;
                    bars.push(bar);
                    assert(forall|k: int| 0 <= k < prev.len() ==> bars@[k] == prev[k]);
                }
            }
            proof {
                assert forall|u: Seq<ConfigAccess>| #[trigger] bar_probe(self.address, index as int, step + u, found)
                    == bar_probe(self.address, index + 1, u, bars@) by {
                    assert(size_register(self.address, offset as int, original_low, t2 + u) == Some((n, sized)));
                }
                lemma_probe_step(self.address, done, index as int, found, step, index + 1, bars@);
            }
            index = index + 1;
        }
        proof {
            let d = log_tail(before, io.config_log());
            assert forall|u: Seq<ConfigAccess>| #[trigger] bar_probe(self.address, 0, d + u, Seq::empty())
                == (if u.len() == 0 { Some(bars_result(Ok::<Vec<PciBar>, VirtioError>(bars))) } else { None }) by {
                assert(bar_probe(self.address, 0, d + u, Seq::empty()) == bar_probe(self.address, index as int, u, bars@));
            }
        }
        Ok(bars)
    }

    /// Sets memory decode and bus mastering in the command register and
    /// leaves its other bits as they were.
    pub fn enable_memory_and_bus_master(self, io: &mut impl PciConfigIo) -> (r: VirtioResult<()>)
        ensures
            exists|command: VirtioResult<u32>| #[trigger] enable_steps(
                self.address,
                old(io).config_log(),
                final(io).config_log(),
                command,
                r,
            ),
    {
        let ghost before = io.config_log();
        let read = io.read_u32(self.address, PCI_COMMAND);
        let command = match read {
            Ok(c) => c,
            Err(e) => {
                assert(enable_steps(self.address, before, io.config_log(), read, Err(e)));
                return Err(e);
            },
        };
        let value = command | (PCI_COMMAND_MEMORY | PCI_COMMAND_BUS_MASTER);
        assert(value == command | 6) by (bit_vector)
            requires
                value == command | (2u32 | 4u32),
        ;
        let ghost mid = io.config_log();
        let r = io.write_u32(self.address, PCI_COMMAND, value);
        assert(enable_steps(self.address, before, io.config_log(), read, r));
        r
    }
}

/// Whether `identity`, the vendor/device register of a function, names an
/// absent function.
pub open spec fn identity_absent(identity: u32) -> bool {
    identity == u32::MAX || identity & 0xffff == 0xffff
}

/// The device at `address` when `identity` carries `vendor_id` and `device_id`.
pub open spec fn identity_match(address: PciAddress, identity: u32, vendor_id: u16, device_id: u16) -> Option<PciDevice> {
    if (identity & 0xffff) == vendor_id && (identity >> 16u32) == device_id {
        Some(PciDevice { address, vendor_id, device_id })
    } else {
        None
    }
}

fn matches_identity(address: PciAddress, identity: u32, vendor_id: u16, device_id: u16) -> (r: Option<PciDevice>)
    ensures
        r == identity_match(address, identity, vendor_id, device_id),
{
    assert((identity & 0xffff) <= 0xffff && (identity >> 16u32) <= 0xffff) by (bit_vector);
    let actual_vendor = (identity & 0xffff) as u16;
    let actual_device = (identity >> 16u32) as u16;
    if actual_vendor == vendor_id && actual_device == device_id {
        Some(PciDevice { address, vendor_id: actual_vendor, device_id: actual_device })
    } else {
        None
    }
}

/// The address of function `function` of device slot `slot`, slots
/// numbering `bus * 32 + device`.
pub open spec fn slot_address(slot: int, function: int) -> PciAddress {
    PciAddress { bus: (slot / 32) as u8, device: (slot % 32) as u8, function: function as u8 }
}

/// What the scan for `vendor_id`/`device_id` returns when it stands at
/// function `function` of slot `slot` and then makes the accesses `t`;
/// `None` when `t` is not what the scan does. The scan goes through the
/// slots in bus and device order. At function zero it reads the identity
/// register: a failed read ends the scan with its error, an absent function
/// moves to the next slot, a matching one is the result; else it reads the
/// header register and, for a multifunction device, goes on with functions
/// one to seven, each identity read in turn. After the last slot, nothing
/// was found.
pub open spec fn scan_outcome(slot: int, function: int, t: Seq<ConfigAccess>, vendor_id: u16, device_id: u16) -> Option<
    VirtioResult<Option<PciDevice>>,
>
    decreases 8192 - slot, 8 - function,
{
    if slot < 0 || slot >= 8192 || function < 0 {
        if t.len() == 0 { Some(Ok(None)) } else { None }
    } else if function >= 8 {
        scan_outcome(slot + 1, 0, t, vendor_id, device_id)
    } else {
        let address = slot_address(slot, function);
        if t.len() == 0 || !reads_at(t[0], address, PCI_VENDOR_DEVICE as int) {
            None
        } else {
            match read_result(t[0]) {
                Err(e) => if t.len() == 1 { Some(Err(e)) } else { None },
                Ok(identity) => if identity_absent(identity) {
                    if function == 0 {
                        scan_outcome(slot + 1, 0, t.drop_first(), vendor_id, device_id)
                    } else {
                        scan_outcome(slot, function + 1, t.drop_first(), vendor_id, device_id)
                    }
                } else {
                    match identity_match(address, identity, vendor_id, device_id) {
                        Some(found) => if t.len() == 1 { Some(Ok(Some(found))) } else { None },
                        None => if function == 0 {
                            let u = t.drop_first();
                            if u.len() == 0 || !reads_at(u[0], address, PCI_HEADER_TYPE as int) {
                                None
                            } else {
                                match read_result(u[0]) {
                                    Err(e) => if u.len() == 1 { Some(Err(e)) } else { None },
                                    Ok(header) => if (header >> 16u32) & 0x80 != 0 {
                                        scan_outcome(slot, 1, u.drop_first(), vendor_id, device_id)
                                    } else {
                                        scan_outcome(slot + 1, 0, u.drop_first(), vendor_id, device_id)
                                    },
                                }
                            }
                        } else {
                            scan_outcome(slot, function + 1, t.drop_first(), vendor_id, device_id)
                        },
                    }
                },
            }
        }
    }
}

/// The scan standing at (`slot`, `function`) after making the accesses
/// `done`: whatever it does next, it returns what the whole scan returns.
pub open spec fn scan_at(done: Seq<ConfigAccess>, slot: int, function: int, vendor_id: u16, device_id: u16) -> bool {
    forall|u: Seq<ConfigAccess>| #[trigger] scan_outcome(0, 0, done + u, vendor_id, device_id) == scan_outcome(
        slot,
        function,
        u,
        vendor_id,
        device_id,
    )
}

proof fn lemma_scan_step(
    done: Seq<ConfigAccess>,
    slot: int,
    function: int,
    step: Seq<ConfigAccess>,
    next_slot: int,
    next_function: int,
    vendor_id: u16,
    device_id: u16,
)
    requires
        scan_at(done, slot, function, vendor_id, device_id),
        forall|u: Seq<ConfigAccess>| #[trigger] scan_outcome(slot, function, step + u, vendor_id, device_id)
            == scan_outcome(next_slot, next_function, u, vendor_id, device_id),
    ensures
        scan_at(done + step, next_slot, next_function, vendor_id, device_id),
{
    assert forall|u: Seq<ConfigAccess>| #[trigger] scan_outcome(0, 0, (done + step) + u, vendor_id, device_id)
        == scan_outcome(next_slot, next_function, u, vendor_id, device_id) by {
        assert((done + step) + u =~= done + (step + u));
        assert(scan_outcome(0, 0, done + (step + u), vendor_id, device_id) == scan_outcome(
            slot,
            function,
            step + u,
            vendor_id,
            device_id,
        ));
    }
}

proof fn lemma_scan_end(done: Seq<ConfigAccess>, slot: int, function: int, last: Seq<ConfigAccess>, vendor_id: u16, device_id: u16)
    requires
        scan_at(done, slot, function, vendor_id, device_id),
    ensures
        scan_outcome(0, 0, done + last, vendor_id, device_id) == scan_outcome(slot, function, last, vendor_id, device_id),
{
}

/// Scans every bus, device and function for the first function with the
/// given identity. Functions other than zero are examined only on devices
/// whose header marks them multifunction.
pub fn find_pci_device(io: &mut impl PciConfigIo, vendor_id: u16, device_id: u16) -> (r: VirtioResult<Option<PciDevice>>)
    ensures
        r matches Ok(Some(d)) ==> d.vendor_id == vendor_id && d.device_id == device_id && d.address.device < 32
            && d.address.function < 8,
        log_extends(old(io).config_log(), final(io).config_log()),
        scan_outcome(0, 0, log_tail(old(io).config_log(), final(io).config_log()), vendor_id, device_id) == Some(r),
{
    let ghost before = io.config_log();
    assert(io.config_log().subrange(0, before.len() as int) =~= before);
    assert(scan_at(Seq::empty(), 0, 0, vendor_id, device_id)) by {
        assert forall|u: Seq<ConfigAccess>| #[trigger] scan_outcome(0, 0, Seq::<ConfigAccess>::empty() + u, vendor_id, device_id)
            == scan_outcome(0, 0, u, vendor_id, device_id) by {
            assert(Seq::<ConfigAccess>::empty() + u =~= u);
        }
    }
    assert(log_tail(before, io.config_log()) =~= Seq::<ConfigAccess>::empty());
    let mut bus: u16 = 0;
    while bus <= 255
        invariant
            bus <= 256,
            before == old(io).config_log(),
            log_extends(before, io.config_log()),
            scan_at(log_tail(before, io.config_log()), bus * 32, 0, vendor_id, device_id),
        decreases 256 - bus,
    {
        let mut device: u8 = 0;
        while device < 32
            invariant
                device <= 32,
                bus <= 255,
                before == old(io).config_log(),
                log_extends(before, io.config_log()),
                scan_at(log_tail(before, io.config_log()), bus * 32 + device, 0, vendor_id, device_id),
            decreases 32 - device,
        {
            let ghost slot = bus * 32 + device;
            let function_zero = PciAddress { bus: bus as u8, device, function: 0 };
            assert(slot / 32 == bus && slot % 32 == device) by (nonlinear_arith)
                requires
                    slot == bus * 32 + device,
                    device < 32,
                    bus >= 0,
            ;
            assert(function_zero == slot_address(slot, 0));
            let ghost done = log_tail(before, io.config_log());
            let read = io.read_u32(function_zero, PCI_VENDOR_DEVICE);
            let ghost a = ConfigAccess::Read { address: function_zero, offset: PCI_VENDOR_DEVICE, result: read };
            let ghost sa = seq![a];
            proof {
                assert(log_tail(before, io.config_log()) =~= done + sa);
                assert(io.config_log().subrange(0, before.len() as int) =~= before);
                assert forall|u: Seq<ConfigAccess>| #[trigger] (sa + u).drop_first() == u by {
                    assert((sa + u).drop_first() =~= u);
                }
            }
            let identity = match read {
                Ok(v) => v,
                Err(e) => {
                    proof {
                        lemma_scan_end(done, slot, 0, sa, vendor_id, device_id);
                    }
                    return Err(e);
                },
            };
            if !(identity == 0xffff_ffff || identity & 0xffff == 0xffff) {
                if let Some(found) = matches_identity(function_zero, identity, vendor_id, device_id) {
                    proof {
                        lemma_scan_end(done, slot, 0, sa, vendor_id, device_id);
                        assert(identity_match(function_zero, identity, vendor_id, device_id) == Some(found));
                        assert((identity & 0xffff) <= 0xffff && (identity >> 16u32) <= 0xffff) by (bit_vector);
                    }
                    return Ok(Some(found));
                }
                let ghost done1 = log_tail(before, io.config_log());
                let header_read = io.read_u32(function_zero, PCI_HEADER_TYPE);
                let ghost b = ConfigAccess::Read { address: function_zero, offset: PCI_HEADER_TYPE, result: header_read };
                let ghost sab = seq![a, b];
                let ghost sb = seq![b];
                proof {
                    assert(log_tail(before, io.config_log()) =~= done + sab);
                    assert(io.config_log().subrange(0, before.len() as int) =~= before);
                    assert(sab =~= sa + sb);
                    assert forall|u: Seq<ConfigAccess>| #[trigger] (sab + u).drop_first() == sb + u by {
                        assert((sab + u).drop_first() =~= sb + u);
                    }
                    assert forall|u: Seq<ConfigAccess>| #[trigger] (sb + u).drop_first() == u by {
                        assert((sb + u).drop_first() =~= u);
                    }
                }
                let header = match header_read {
                    Ok(v) => v,
                    Err(e) => {
                        proof {
                            lemma_scan_end(done, slot, 0, sab, vendor_id, device_id);
                        }
                        return Err(e);
                    },
                };
                if ((header >> 16u32) & 0x80) != 0 {
                    proof {
                        lemma_scan_step(done, slot, 0, sab, slot, 1, vendor_id, device_id);
                        assert(done + sab =~= log_tail(before, io.config_log()));
                    }
                    let mut function: u8 = 1;
                    while function < 8
                        invariant
                            1 <= function <= 8,
                            device < 32,
                            bus <= 255,
                            slot == bus * 32 + device,
                            slot / 32 == bus && slot % 32 == device,
                            before == old(io).config_log(),
                            log_extends(before, io.config_log()),
                            scan_at(log_tail(before, io.config_log()), slot, function as int, vendor_id, device_id),
                        decreases 8 - function,
                    {
                        let address = PciAddress { bus: bus as u8, device, function };
                        assert(address == slot_address(slot, function as int));
                        let ghost donef = log_tail(before, io.config_log());
                        let fread = io.read_u32(address, PCI_VENDOR_DEVICE);
                        let ghost c = ConfigAccess::Read { address, offset: PCI_VENDOR_DEVICE, result: fread };
                        let ghost sc = seq![c];
                        proof {
                            assert(log_tail(before, io.config_log()) =~= donef + sc);
                            assert(io.config_log().subrange(0, before.len() as int) =~= before);
                            assert forall|u: Seq<ConfigAccess>| #[trigger] (sc + u).drop_first() == u by {
                                assert((sc + u).drop_first() =~= u);
                            }
                        }
                        let identity = match fread {
                            Ok(v) => v,
                            Err(e) => {
                                proof {
                                    lemma_scan_end(donef, slot, function as int, sc, vendor_id, device_id);
                                }
                                return Err(e);
                            },
                        };
                        if !(identity == 0xffff_ffff || identity & 0xffff == 0xffff) {
                            if let Some(found) = matches_identity(address, identity, vendor_id, device_id) {
                                proof {
                                    lemma_scan_end(donef, slot, function as int, sc, vendor_id, device_id);
                                    assert((identity & 0xffff) <= 0xffff && (identity >> 16u32) <= 0xffff) by (bit_vector);
                                }
                                return Ok(Some(found));
                            }
                        }
                        proof {
                            lemma_scan_step(donef, slot, function as int, sc, slot, function + 1, vendor_id, device_id);
                        }
                        function = function + 1;
                    }
                    proof {
                        let d = log_tail(before, io.config_log());
                        assert forall|u: Seq<ConfigAccess>| #[trigger] scan_outcome(slot, 8, Seq::<ConfigAccess>::empty() + u, vendor_id, device_id)
                            == scan_outcome(slot + 1, 0, u, vendor_id, device_id) by {
                            assert(Seq::<ConfigAccess>::empty() + u =~= u);
                        }
                        lemma_scan_step(d, slot, 8, Seq::empty(), slot + 1, 0, vendor_id, device_id);
                        assert(d + Seq::<ConfigAccess>::empty() =~= d);
                    }
                } else {
                    proof {
                        lemma_scan_step(done, slot, 0, sab, slot + 1, 0, vendor_id, device_id);
                        assert(done + sab =~= log_tail(before, io.config_log()));
                    }
                }
            } else {
                proof {
                    lemma_scan_step(done, slot, 0, sa, slot + 1, 0, vendor_id, device_id);
                }
            }
            device = device + 1;
        }
        bus = bus + 1;
    }
    proof {
        let d = log_tail(before, io.config_log());
        lemma_scan_end(d, 8192, 0, Seq::empty(), vendor_id, device_id);
        assert(d + Seq::<ConfigAccess>::empty() =~= d);
    }
    Ok(None)
}

} // verus!

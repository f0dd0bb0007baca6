//! Virtio PCI transport: the vendor capabilities that locate the configuration
//! structures, and register access to the common configuration.

use vstd::prelude::*;
use crate::le::{le_decode, get_le, put_le, le_encode, lemma_byte_scales, lemma_le_decode_bound};
use crate::virtio::device::DeviceStatus;
use crate::virtio::error::{VirtioError, VirtioResult};
use crate::virtio::feature::FeatureSet;

verus! {

const PCI_CAPABILITY_POINTER: usize = 0x34;
const PCI_CAPABILITY_VENDOR_SPECIFIC: u8 = 0x09;
const VIRTIO_PCI_CAP_MIN_LENGTH: u8 = 16;
const VIRTIO_PCI_NOTIFY_CAP_LENGTH: u8 = 20;
const VIRTIO_PCI_CAP_COMMON_CFG: u8 = 1;
const VIRTIO_PCI_CAP_NOTIFY_CFG: u8 = 2;
const VIRTIO_PCI_CAP_ISR_CFG: u8 = 3;
const VIRTIO_PCI_CAP_DEVICE_CFG: u8 = 4;

pub const COMMON_DEVICE_FEATURE_SELECT: u32 = 0;
pub const COMMON_DEVICE_FEATURE: u32 = 4;
pub const COMMON_DRIVER_FEATURE_SELECT: u32 = 8;
pub const COMMON_DRIVER_FEATURE: u32 = 12;
pub const COMMON_DEVICE_STATUS: u32 = 20;

/// Failure of a configuration-space access.
#[derive(Clone, Copy, Debug, PartialEq, Eq, Structural)]
pub enum PciConfigError {
    OutOfBounds,
}

/// A copy of a function's PCI configuration space.
pub struct PciConfig {
    bytes: Vec<u8>,
}

impl View for PciConfig {
    type V = Seq<u8>;

    closed spec fn view(&self) -> Seq<u8> {
        self.bytes@
    }
}

/// The byte at `offset` of `cfg`, if there is one.
pub open spec fn config_u8(cfg: Seq<u8>, offset: int) -> Option<u8> {
    if 0 <= offset < cfg.len() { Some(cfg[offset]) } else { None }
}

/// The little-endian 32-bit value at `offset` of `cfg`, if all four bytes exist.
pub open spec fn config_u32(cfg: Seq<u8>, offset: int) -> Option<u32> {
    if 0 <= offset && offset + 4 <= cfg.len() {
        Some(le_decode(cfg.subrange(offset, offset + 4)) as u32)
    } else {
        None
    }
}

impl PciConfig {
    pub fn new(bytes: Vec<u8>) -> (c: Self)
        ensures
            c@ == bytes@,
    {
        PciConfig { bytes }
    }

    pub fn len(&self) -> (n: usize)
        ensures
            n == self@.len(),
    {
        self.bytes.len()
    }

    pub fn read_u8(&self, offset: usize) -> (r: Result<u8, PciConfigError>)
        ensures
            r == (match config_u8(self@, offset as int) {
                Some(v) => Ok::<u8, PciConfigError>(v),
                None => Err(PciConfigError::OutOfBounds),
            }),
    {
        if offset < self.bytes.len() {
            Ok(self.bytes[offset])
        } else {
            Err(PciConfigError::OutOfBounds)
        }
    }

    pub fn read_u32(&self, offset: usize) -> (r: Result<u32, PciConfigError>)
        ensures
            r == (match config_u32(self@, offset as int) {
                Some(v) => Ok::<u32, PciConfigError>(v),
                None => Err(PciConfigError::OutOfBounds),
            }),
    {
        if offset > self.bytes.len() || self.bytes.len() - offset < 4 {
            return Err(PciConfigError::OutOfBounds);
        }
        proof {
            lemma_byte_scales();
            lemma_le_decode_bound(self.bytes@.subrange(offset as int, offset + 4));
        }
        Ok(get_le(self.bytes.as_slice(), offset, 4) as u32)
    }

    pub fn write_u8(&mut self, offset: usize, value: u8) -> (r: Result<(), PciConfigError>)
        ensures
            offset < old(self)@.len() ==> r is Ok && final(self)@ == old(self)@.update(offset as int, value),
            offset >= old(self)@.len() ==> r == Err::<(), PciConfigError>(PciConfigError::OutOfBounds)
                && final(self)@ == old(self)@,
    {
        if offset < self.bytes.len() {
            self.bytes.set(offset, value);
            Ok(())
        } else {
            Err(PciConfigError::OutOfBounds)
        }
    }

    pub fn write_u32(&mut self, offset: usize, value: u32) -> (r: Result<(), PciConfigError>)
        ensures
            offset + 4 <= old(self)@.len() ==> r is Ok && final(self)@ == old(self)@.subrange(0, offset as int)
                + le_encode(value as nat, 4) + old(self)@.subrange(offset + 4, old(self)@.len() as int),
            offset + 4 > old(self)@.len() ==> r == Err::<(), PciConfigError>(PciConfigError::OutOfBounds)
                && final(self)@ == old(self)@,
    {
        if offset > self.bytes.len() || self.bytes.len() - offset < 4 {
            return Err(PciConfigError::OutOfBounds);
        }
        let slice = self.bytes.as_mut_slice();
        put_le(slice, offset, value as u64, 4);
        Ok(())
    }
}

#[derive(Clone, Copy, Debug, PartialEq, Eq, Structural)]
pub struct PciBar {
    pub index: u8,
    pub address: u64,
    pub size: u64,
    pub is_io: bool,
}

#[derive(Clone, Copy, Debug, PartialEq, Eq, Structural)]
pub struct CapabilityRegion {
    pub bar: u8,
    pub offset: u32,
    pub length: u32,
}

/// First BAR of `bars` with index `index`.
pub open spec fn find_bar(bars: Seq<PciBar>, index: u8) -> Option<PciBar>
    decreases bars.len(),
{
    if bars.len() == 0 {
        None
    } else if bars[0].index == index {
        Some(bars[0])
    } else {
        find_bar(bars.drop_first(), index)
    }
}

/// Whether `region` names a memory BAR of `bars` and lies, nonempty, inside it.
pub open spec fn region_check(region: CapabilityRegion, bars: Seq<PciBar>) -> VirtioResult<CapabilityRegion> {
    match find_bar(bars, region.bar) {
        None => Err(VirtioError::InvalidBar),
        Some(bar) => {
            let end = region.offset + region.length;
            if bar.is_io {
                Err(VirtioError::BarIsIo)
            } else if region.length == 0 || end > bar.size || bar.address + end > u64::MAX {
                Err(VirtioError::RegionOverflow)
            } else {
                Ok(region)
            }
        },
    }
}

impl CapabilityRegion {
    pub fn validate(self, bars: &[PciBar]) -> (r: VirtioResult<Self>)
        ensures
            r == region_check(self, bars@),
    {
        let mut i: usize = 0;
        assert(bars@.subrange(0, bars@.len() as int) =~= bars@);
        while i < bars.len()
            invariant
                i <= bars@.len(),
                find_bar(bars@, self.bar) == find_bar(bars@.subrange(i as int, bars@.len() as int), self.bar),
            decreases bars@.len() - i,
        {
            let ghost rest = bars@.subrange(i as int, bars@.len() as int);
            assert(rest.drop_first() =~= bars@.subrange(i + 1, bars@.len() as int));
            if bars[i].index == self.bar {
                let bar = bars[i];
                if bar.is_io {
                    return Err(VirtioError::BarIsIo);
                }
                let end = self.offset as u64 + self.length as u64;
                if self.length == 0 || end > bar.size || bar.address.checked_add(end).is_none() {
                    return Err(VirtioError::RegionOverflow);
                }
                return Ok(self);
            }
            i = i + 1;
        }
        assert(bars@.subrange(i as int, bars@.len() as int).len() == 0);
        Err(VirtioError::InvalidBar)
    }

    /// Whether `size` bytes at `offset` lie inside the region.
    pub fn contains(self, offset: u32, size: u32) -> (r: bool)
        ensures
            r == (offset + size <= u32::MAX && offset + size <= self.length),
    {
        match offset.checked_add(size) {
            Some(end) => end <= self.length,
            None => false,
        }
    }
}

#[derive(Clone, Copy, Debug, PartialEq, Eq, Structural)]
pub struct VirtioPciCapabilities {
    pub common: CapabilityRegion,
    pub notify: CapabilityRegion,
    pub notify_off_multiplier: u32,
    pub isr: CapabilityRegion,
    pub device: Option<CapabilityRegion>,
}

/// Configuration structures found so far while walking the capability list.
#[derive(Clone, Copy, Debug, PartialEq, Eq, Structural)]
pub struct CapabilityScan {
    pub common: Option<CapabilityRegion>,
    pub notify: Option<CapabilityRegion>,
    pub notify_off_multiplier: u32,
    pub isr: Option<CapabilityRegion>,
    pub device: Option<CapabilityRegion>,
}

/// Reads the vendor capability at `offset` into `scan`.
pub open spec fn scan_capability(cfg: Seq<u8>, bars: Seq<PciBar>, offset: int, scan: CapabilityScan) -> VirtioResult<CapabilityScan> {
    match (config_u8(cfg, offset + 2), config_u8(cfg, offset + 3)) {
        (Some(cap_len), Some(cfg_type)) => {
            if cap_len < 16 {
                Err(VirtioError::InvalidCapabilityLength)
            } else {
                match (config_u8(cfg, offset + 4), config_u32(cfg, offset + 8), config_u32(cfg, offset + 12)) {
                    (Some(bar), Some(region_offset), Some(length)) => {
                        let region = CapabilityRegion { bar, offset: region_offset, length };
                        match region_check(region, bars) {
                            Err(e) => Err(e),
                            Ok(region) => {
                                if cfg_type == 1 {
                                    Ok(CapabilityScan { common: Some(region), ..scan })
                                } else if cfg_type == 2 {
                                    if cap_len < 20 {
                                        Err(VirtioError::InvalidCapabilityLength)
                                    } else {
                                        match config_u32(cfg, offset + 16) {
                                            Some(m) => Ok(CapabilityScan { notify: Some(region), notify_off_multiplier: m, ..scan }),
                                            None => Err(VirtioError::InvalidCapabilityLength),
                                        }
                                    }
                                } else if cfg_type == 3 {
                                    Ok(CapabilityScan { isr: Some(region), ..scan })
                                } else if cfg_type == 4 {
                                    Ok(CapabilityScan { device: Some(region), ..scan })
                                } else {
                                    Ok(scan)
                                }
                            },
                        }
                    },
                    _ => Err(VirtioError::InvalidCapabilityLength),
                }
            }
        },
        (None, _) => Err(VirtioError::InvalidCapabilityLength),
        (Some(cap_len), None) => if cap_len < 16 {
            Err(VirtioError::InvalidCapabilityLength)
        } else {
            Err(VirtioError::InvalidCapabilityLength)
        },
    }
}

/// Walks the capability list from `pointer`; `visited` marks the offsets
/// already seen, and `fuel` bounds the number of steps.
pub open spec fn scan_list(
    cfg: Seq<u8>,
    bars: Seq<PciBar>,
    pointer: u8,
    visited: Seq<bool>,
    scan: CapabilityScan,
    fuel: nat,
) -> VirtioResult<CapabilityScan>
    decreases fuel,
{
    if pointer == 0 {
        Ok(scan)
    } else if pointer < 0x40 || pointer % 4 != 0 {
        Err(VirtioError::InvalidPciCapabilityList)
    } else if visited[pointer as int] || fuel == 0 {
        Err(VirtioError::CapabilityLoop)
    } else {
        match (config_u8(cfg, pointer as int), config_u8(cfg, pointer + 1)) {
            (Some(id), Some(next)) => {
                let step = if id == 9 { scan_capability(cfg, bars, pointer as int, scan) } else { Ok(scan) };
                match step {
                    Ok(s) => scan_list(cfg, bars, next, visited.update(pointer as int, true), s, (fuel - 1) as nat),
                    Err(e) => Err(e),
                }
            },
            _ => Err(VirtioError::InvalidPciCapabilityList),
        }
    }
}

/// Number of marked entries of `v`.
pub open spec fn count_marked(v: Seq<bool>) -> nat
    decreases v.len(),
{
    if v.len() == 0 {
        0
    } else {
        count_marked(v.drop_last()) + if v.last() { 1nat } else { 0nat }
    }
}

proof fn lemma_count_marked(v: Seq<bool>, i: int)
    requires
        0 <= i < v.len(),
        !v[i],
    ensures
        count_marked(v) < v.len(),
        count_marked(v.update(i, true)) == count_marked(v) + 1,
    decreases v.len(),
{
    let w = v.update(i, true);
    if i == v.len() - 1 {
        assert(w.drop_last() =~= v.drop_last());
        lemma_count_marked_bound(v.drop_last());
    } else {
        assert(w.drop_last() =~= v.drop_last().update(i, true));
        lemma_count_marked(v.drop_last(), i);
    }
}

proof fn lemma_count_marked_bound(v: Seq<bool>)
    ensures
        count_marked(v) <= v.len(),
    decreases v.len(),
{
    if v.len() > 0 {
        lemma_count_marked_bound(v.drop_last());
    }
}

/// What a list walk found, as capabilities, or the structure that is missing.
pub open spec fn finish_scan(scan: CapabilityScan) -> VirtioResult<VirtioPciCapabilities> {
    match (scan.common, scan.notify, scan.isr) {
        (None, _, _) => Err(VirtioError::MissingCommonConfiguration),
        (Some(_), None, _) => Err(VirtioError::MissingNotifyConfiguration),
        (Some(_), Some(_), None) => Err(VirtioError::MissingIsrConfiguration),
        (Some(common), Some(notify), Some(isr)) => Ok(VirtioPciCapabilities {
            common,
            notify,
            notify_off_multiplier: scan.notify_off_multiplier,
            isr,
            device: scan.device,
        }),
    }
}

/// The capabilities that configuration space `cfg` describes.
pub open spec fn parse_capabilities(cfg: Seq<u8>, bars: Seq<PciBar>) -> VirtioResult<VirtioPciCapabilities> {
    match config_u8(cfg, 0x34) {
        None => Err(VirtioError::InvalidPciCapabilityList),
        Some(pointer) => {
            let empty = CapabilityScan { common: None, notify: None, notify_off_multiplier: 0, isr: None, device: None };
            match scan_list(cfg, bars, pointer, Seq::new(256, |i: int| false), empty, 256) {
                Ok(scan) => finish_scan(scan),
                Err(e) => Err(e),
            }
        },
    }
}

fn read_config_u8(config: &PciConfig, offset: usize, error: VirtioError) -> (r: VirtioResult<u8>)
    ensures
        r == (match config_u8(config@, offset as int) {
            Some(v) => Ok::<u8, VirtioError>(v),
            None => Err(error),
        }),
{
    match config.read_u8(offset) {
        Ok(v) => Ok(v),
        Err(_) => Err(error),
    }
}

fn read_config_u32(config: &PciConfig, offset: usize, error: VirtioError) -> (r: VirtioResult<u32>)
    ensures
        r == (match config_u32(config@, offset as int) {
            Some(v) => Ok::<u32, VirtioError>(v),
            None => Err(error),
        }),
{
    match config.read_u32(offset) {
        Ok(v) => Ok(v),
        Err(_) => Err(error),
    }
}

fn read_capability(config: &PciConfig, bars: &[PciBar], offset: usize, scan: CapabilityScan) -> (r: VirtioResult<CapabilityScan>)
    requires
        offset < 256,
    ensures
        r == scan_capability(config@, bars@, offset as int, scan),
{
    let cap_len = read_config_u8(config, offset + 2, VirtioError::InvalidCapabilityLength)?;
    if cap_len < VIRTIO_PCI_CAP_MIN_LENGTH {
        return Err(VirtioError::InvalidCapabilityLength);
    }
    let cfg_type = read_config_u8(config, offset + 3, VirtioError::InvalidCapabilityLength)?;
    let bar = read_config_u8(config, offset + 4, VirtioError::InvalidCapabilityLength)?;
    let region_offset = read_config_u32(config, offset + 8, VirtioError::InvalidCapabilityLength)?;
    let length = read_config_u32(config, offset + 12, VirtioError::InvalidCapabilityLength)?;
    let region = CapabilityRegion { bar, offset: region_offset, length }.validate(bars)?;
    let mut next = scan;
    if cfg_type == VIRTIO_PCI_CAP_COMMON_CFG {
        next.common = Some(region);
    } else if cfg_type == VIRTIO_PCI_CAP_NOTIFY_CFG {
        if cap_len < VIRTIO_PCI_NOTIFY_CAP_LENGTH {
            return Err(VirtioError::InvalidCapabilityLength);
        }
        next.notify_off_multiplier = read_config_u32(config, offset + 16, VirtioError::InvalidCapabilityLength)?;
        next.notify = Some(region);
    } else if cfg_type == VIRTIO_PCI_CAP_ISR_CFG {
        next.isr = Some(region);
    } else if cfg_type == VIRTIO_PCI_CAP_DEVICE_CFG {
        next.device = Some(region);
    }
    Ok(next)
}

impl VirtioPciCapabilities {
    /// Walks the PCI capability list of `config` and collects the virtio
    /// configuration structures, each checked against `bars`.
    pub fn parse(config: &PciConfig, bars: &[PciBar]) -> (r: VirtioResult<Self>)
        ensures
            r == parse_capabilities(config@, bars@),
    {
        let mut pointer = read_config_u8(config, PCI_CAPABILITY_POINTER, VirtioError::InvalidPciCapabilityList)?;
        let mut visited: Vec<bool> = vec![false; 256];
        let mut scan = CapabilityScan { common: None, notify: None, notify_off_multiplier: 0, isr: None, device: None };
        let ghost start = pointer;
        proof {
            assert(visited@ =~= Seq::new(256, |i: int| false));
            lemma_count_unmarked(256);
        }
        while pointer != 0
            invariant
                visited@.len() == 256,
                count_marked(visited@) <= 256,
                config_u8(config@, 0x34) == Some(start),
                scan_list(config@, bars@, start, Seq::new(256, |i: int| false),
                    CapabilityScan { common: None, notify: None, notify_off_multiplier: 0, isr: None, device: None }, 256)
                    == scan_list(config@, bars@, pointer, visited@, scan, (256 - count_marked(visited@)) as nat),
            decreases 256 - count_marked(visited@),
        {
            let offset = pointer as usize;
            if offset < 0x40 || offset % 4 != 0 {
                return Err(VirtioError::InvalidPciCapabilityList);
            }
            if visited[offset] {
                return Err(VirtioError::CapabilityLoop);
            }
            proof {
                lemma_count_marked(visited@, offset as int);
            }
            visited.set(offset, true);
            let id = read_config_u8(config, offset, VirtioError::InvalidPciCapabilityList)?;
            let next = read_config_u8(config, offset + 1, VirtioError::InvalidPciCapabilityList)?;
            if id == PCI_CAPABILITY_VENDOR_SPECIFIC {
                scan = read_capability(config, bars, offset, scan)?;
            }
            pointer = next;
        }
        match (scan.common, scan.notify, scan.isr) {
            (None, _, _) => Err(VirtioError::MissingCommonConfiguration),
            (Some(_), None, _) => Err(VirtioError::MissingNotifyConfiguration),
            (Some(_), Some(_), None) => Err(VirtioError::MissingIsrConfiguration),
            (Some(common), Some(notify), Some(isr)) => Ok(VirtioPciCapabilities {
                common,
                notify,
                notify_off_multiplier: scan.notify_off_multiplier,
                isr,
                device: scan.device,
            }),
        }
    }
}

proof fn lemma_count_unmarked(n: nat)
    ensures
        count_marked(Seq::new(n, |i: int| false)) == 0,
    decreases n,
{
    if n > 0 {
        assert(Seq::new(n, |i: int| false).drop_last() =~= Seq::new((n - 1) as nat, |i: int| false));
        lemma_count_unmarked((n - 1) as nat);
    }
}

/// Register access to the BARs of a virtio PCI function.
pub trait PciTransportAccess {
    fn read_u8(&mut self, bar: u8, offset: u32) -> VirtioResult<u8>;

    fn read_u32(&mut self, bar: u8, offset: u32) -> VirtioResult<u32>;

    fn write_u8(&mut self, bar: u8, offset: u32, value: u8) -> VirtioResult<()>;

    fn write_u32(&mut self, bar: u8, offset: u32, value: u32) -> VirtioResult<()>;
}

/// BAR and absolute offset of `size` bytes at `offset` of the common
/// configuration described by `caps`.
pub open spec fn common_register(caps: VirtioPciCapabilities, offset: u32, size: u32) -> VirtioResult<(u8, u32)> {
    if !(offset + size <= u32::MAX && offset + size <= caps.common.length) {
        Err(VirtioError::RegisterOutOfBounds)
    } else if caps.common.offset + offset > u32::MAX {
        Err(VirtioError::RegionOverflow)
    } else {
        Ok((caps.common.bar, (caps.common.offset + offset) as u32))
    }
}

/// Feature bits from their low and high 32-bit halves.
pub open spec fn feature_words(low: u32, high: u32) -> u64 {
    (low as u64) | ((high as u64) << 32u64)
}

/// One access the transport made to a device register, with its outcome.
pub enum RegisterAccess {
    Read8 { bar: u8, offset: u32, result: VirtioResult<u8> },
    Read32 { bar: u8, offset: u32, result: VirtioResult<u32> },
    Write8 { bar: u8, offset: u32, value: u8, result: VirtioResult<()> },
    Write32 { bar: u8, offset: u32, value: u32, result: VirtioResult<()> },
}

/// The status register read from `before` to `after`, with outcome `r`:
/// refused without an access when the register lies outside the common
/// configuration, else one read of it.
pub open spec fn status_read_log(
    caps: VirtioPciCapabilities,
    before: Seq<RegisterAccess>,
    after: Seq<RegisterAccess>,
    r: VirtioResult<u8>,
) -> bool {
    match common_register(caps, COMMON_DEVICE_STATUS, 1) {
        Err(e) => after == before && r == Err::<u8, VirtioError>(e),
        Ok((bar, offset)) => after == before.push(RegisterAccess::Read8 { bar, offset, result: r }),
    }
}

/// `value` written to the status register from `before` to `after`, with
/// outcome `r`.
pub open spec fn status_write_log(
    caps: VirtioPciCapabilities,
    before: Seq<RegisterAccess>,
    after: Seq<RegisterAccess>,
    value: u8,
    r: VirtioResult<()>,
) -> bool {
    match common_register(caps, COMMON_DEVICE_STATUS, 1) {
        Err(e) => after == before && r == Err::<(), VirtioError>(e),
        Ok((bar, offset)) => after == before.push(RegisterAccess::Write8 { bar, offset, value, result: r }),
    }
}

/// The accesses of a feature read through the select register at
/// (`sb`, `so`) and the feature register at (`fb`, `fo`), given the outcome
/// of each: select the low half, read it, select the high half, read it,
/// stopping at the first failure.
pub open spec fn feature_read_steps(
    before: Seq<RegisterAccess>,
    after: Seq<RegisterAccess>,
    sb: u8,
    so: u32,
    fb: u8,
    fo: u32,
    w0: VirtioResult<()>,
    lo: VirtioResult<u32>,
    w1: VirtioResult<()>,
    hi: VirtioResult<u32>,
    r: VirtioResult<FeatureSet>,
) -> bool {
    let a0 = before.push(RegisterAccess::Write32 { bar: sb, offset: so, value: 0, result: w0 });
    let a1 = a0.push(RegisterAccess::Read32 { bar: fb, offset: fo, result: lo });
    let a2 = a1.push(RegisterAccess::Write32 { bar: sb, offset: so, value: 1, result: w1 });
    let a3 = a2.push(RegisterAccess::Read32 { bar: fb, offset: fo, result: hi });
    match w0 {
        Err(e) => after == a0 && r == Err::<FeatureSet, VirtioError>(e),
        Ok(_) => match lo {
            Err(e) => after == a1 && r == Err::<FeatureSet, VirtioError>(e),
            Ok(low) => match w1 {
                Err(e) => after == a2 && r == Err::<FeatureSet, VirtioError>(e),
                Ok(_) => after == a3 && r == match hi {
                    Err(e) => Err::<FeatureSet, VirtioError>(e),
                    Ok(high) => Ok(FeatureSet(feature_words(low, high))),
                },
            },
        },
    }
}

/// The device features read from `before` to `after`, with outcome `r`.
pub open spec fn features_read_log(
    caps: VirtioPciCapabilities,
    before: Seq<RegisterAccess>,
    after: Seq<RegisterAccess>,
    r: VirtioResult<FeatureSet>,
) -> bool {
    match common_register(caps, COMMON_DEVICE_FEATURE_SELECT, 4) {
        Err(e) => after == before && r == Err::<FeatureSet, VirtioError>(e),
        Ok((sb, so)) => match common_register(caps, COMMON_DEVICE_FEATURE, 4) {
            Err(e) => after == before && r == Err::<FeatureSet, VirtioError>(e),
            Ok((fb, fo)) => exists|w0: VirtioResult<()>, lo: VirtioResult<u32>, w1: VirtioResult<()>, hi: VirtioResult<u32>|
                #[trigger] feature_read_steps(before, after, sb, so, fb, fo, w0, lo, w1, hi, r),
        },
    }
}

/// The accesses of writing `bits` through the driver feature select
/// register at (`sb`, `so`) and feature register at (`fb`, `fo`), given the
/// outcome of each: the low half, then the high half, stopping at the first
/// failure.
pub open spec fn feature_write_steps(
    before: Seq<RegisterAccess>,
    after: Seq<RegisterAccess>,
    sb: u8,
    so: u32,
    fb: u8,
    fo: u32,
    bits: u64,
    w0: VirtioResult<()>,
    w1: VirtioResult<()>,
    w2: VirtioResult<()>,
    r: VirtioResult<()>,
) -> bool {
    let a0 = before.push(RegisterAccess::Write32 { bar: sb, offset: so, value: 0, result: w0 });
    let a1 = a0.push(RegisterAccess::Write32 { bar: fb, offset: fo, value: bits as u32, result: w1 });
    let a2 = a1.push(RegisterAccess::Write32 { bar: sb, offset: so, value: 1, result: w2 });
    let a3 = a2.push(RegisterAccess::Write32 { bar: fb, offset: fo, value: (bits >> 32u64) as u32, result: r });
    match w0 {
        Err(e) => after == a0 && r == Err::<(), VirtioError>(e),
        Ok(_) => match w1 {
            Err(e) => after == a1 && r == Err::<(), VirtioError>(e),
            Ok(_) => match w2 {
                Err(e) => after == a2 && r == Err::<(), VirtioError>(e),
                Ok(_) => after == a3,
            },
        },
    }
}

/// The driver features `bits` written from `before` to `after`, with
/// outcome `r`.
pub open spec fn features_write_log(
    caps: VirtioPciCapabilities,
    before: Seq<RegisterAccess>,
    after: Seq<RegisterAccess>,
    bits: u64,
    r: VirtioResult<()>,
) -> bool {
    match common_register(caps, COMMON_DRIVER_FEATURE_SELECT, 4) {
        Err(e) => after == before && r == Err::<(), VirtioError>(e),
        Ok((sb, so)) => match common_register(caps, COMMON_DRIVER_FEATURE, 4) {
            Err(e) => after == before && r == Err::<(), VirtioError>(e),
            Ok((fb, fo)) => exists|w0: VirtioResult<()>, w1: VirtioResult<()>, w2: VirtioResult<()>|
                #[trigger] feature_write_steps(before, after, sb, so, fb, fo, bits, w0, w1, w2, r),
        },
    }
}

/// The outcome of a status read, by the status bits.
pub open spec fn status_bits(r: VirtioResult<DeviceStatus>) -> VirtioResult<u8> {
    match r {
        Ok(s) => Ok(s.0),
        Err(e) => Err(e),
    }
}

pub struct VirtioPciTransport<A> {
    capabilities: VirtioPciCapabilities,
    access: A,
    log: Ghost<Seq<RegisterAccess>>,
}

impl<A: PciTransportAccess> VirtioPciTransport<A> {
    pub closed spec fn caps(&self) -> VirtioPciCapabilities {
        self.capabilities
    }

    pub closed spec fn access_view(&self) -> A {
        self.access
    }

    /// The register accesses made through this transport so far.
    pub closed spec fn accesses(&self) -> Seq<RegisterAccess> {
        self.log@
    }

    pub fn new(capabilities: VirtioPciCapabilities, access: A) -> (t: Self)
        ensures
            t.caps() == capabilities,
            t.access_view() == access,
            t.accesses() == Seq::<RegisterAccess>::empty(),
    {
        VirtioPciTransport { capabilities, access, log: Ghost(Seq::empty()) }
    }

    pub fn capabilities(&self) -> (r: &VirtioPciCapabilities)
        ensures
            *r == self.caps(),
    {
        &self.capabilities
    }

    pub fn access(&self) -> (r: &A)
        ensures
            *r == self.access_view(),
    {
        &self.access
    }

    pub fn access_mut(&mut self) -> (r: &mut A)
        ensures
            *r == old(self).access_view(),
            final(self).access_view() == *final(r),
            final(self).caps() == old(self).caps(),
            final(self).accesses() == old(self).accesses(),
    {
        &mut self.access
    }

    fn common_offset(&self, offset: u32, size: u32) -> (r: VirtioResult<(u8, u32)>)
        ensures
            r == common_register(self.capabilities, offset, size),
    {
        if !self.capabilities.common.contains(offset, size) {
            return Err(VirtioError::RegisterOutOfBounds);
        }
        match self.capabilities.common.offset.checked_add(offset) {
            Some(absolute) => Ok((self.capabilities.common.bar, absolute)),
            None => Err(VirtioError::RegionOverflow),
        }
    }

    /// Reads the device status register.
    pub fn read_status(&mut self) -> (r: VirtioResult<DeviceStatus>)
        ensures
            final(self).caps() == old(self).caps(),
            common_register(old(self).caps(), 20, 1) matches Err(e) ==> r == Err::<DeviceStatus, VirtioError>(e)
                && final(self).access_view() == old(self).access_view(),
            status_read_log(old(self).caps(), old(self).accesses(), final(self).accesses(), status_bits(r)),
    {
        let (bar, offset) = self.common_offset(COMMON_DEVICE_STATUS, 1)?;
        let result = self.access.read_u8(bar, offset);
        self.log = Ghost(self.log@.push(RegisterAccess::Read8 { bar, offset, result }));
        match result {
            Ok(bits) => Ok(DeviceStatus::from_bits(bits)),
            Err(e) => Err(e),
        }
    }

    /// Writes `status` to the device status register.
    pub fn write_status(&mut self, status: DeviceStatus) -> (r: VirtioResult<()>)
        ensures
            final(self).caps() == old(self).caps(),
            common_register(old(self).caps(), 20, 1) matches Err(e) ==> r == Err::<(), VirtioError>(e)
                && final(self).access_view() == old(self).access_view(),
            status_write_log(old(self).caps(), old(self).accesses(), final(self).accesses(), status.0, r),
    {
        let (bar, offset) = self.common_offset(COMMON_DEVICE_STATUS, 1)?;
        let result = self.access.write_u8(bar, offset, status.bits());
        self.log = Ghost(self.log@.push(RegisterAccess::Write8 { bar, offset, value: status.0, result }));
        result
    }

    /// Reads the 64 feature bits the device offers, low half first.
    pub fn read_device_features(&mut self) -> (r: VirtioResult<FeatureSet>)
        ensures
            final(self).caps() == old(self).caps(),
            common_register(old(self).caps(), 0, 4) matches Err(e) ==> r == Err::<FeatureSet, VirtioError>(e),
            common_register(old(self).caps(), 0, 4) is Ok && common_register(old(self).caps(), 4, 4) is Err
                ==> r == Err::<FeatureSet, VirtioError>(common_register(old(self).caps(), 4, 4)->Err_0),
            r matches Ok(f) ==> exists|low: u32, high: u32| f.0 == feature_words(low, high),
            features_read_log(old(self).caps(), old(self).accesses(), final(self).accesses(), r),
    {
        let ghost before = self.log@;
        let (select_bar, select_offset) = self.common_offset(COMMON_DEVICE_FEATURE_SELECT, 4)?;
        let (feature_bar, feature_offset) = self.common_offset(COMMON_DEVICE_FEATURE, 4)?;
        let w0 = self.access.write_u32(select_bar, select_offset, 0);
        self.log = Ghost(self.log@.push(RegisterAccess::Write32 { bar: select_bar, offset: select_offset, value: 0, result: w0 }));
        if let Err(e) = w0 {
            assert(feature_read_steps(before, self.log@, select_bar, select_offset, feature_bar, feature_offset,
                w0, Err(e), w0, Err(e), Err(e)));
            return Err(e);
        }
        let lo = self.access.read_u32(feature_bar, feature_offset);
        self.log = Ghost(self.log@.push(RegisterAccess::Read32 { bar: feature_bar, offset: feature_offset, result: lo }));
        let low = match lo {
            Ok(v) => v,
            Err(e) => {
                assert(feature_read_steps(before, self.log@, select_bar, select_offset, feature_bar, feature_offset,
                    w0, lo, w0, lo, Err(e)));
                return Err(e);
            },
        };
        let w1 = self.access.write_u32(select_bar, select_offset, 1);
        self.log = Ghost(self.log@.push(RegisterAccess::Write32 { bar: select_bar, offset: select_offset, value: 1, result: w1 }));
        if let Err(e) = w1 {
            assert(feature_read_steps(before, self.log@, select_bar, select_offset, feature_bar, feature_offset,
                w0, lo, w1, lo, Err(e)));
            return Err(e);
        }
        let hi = self.access.read_u32(feature_bar, feature_offset);
        self.log = Ghost(self.log@.push(RegisterAccess::Read32 { bar: feature_bar, offset: feature_offset, result: hi }));
        let high = match hi {
            Ok(v) => v,
            Err(e) => {
                assert(feature_read_steps(before, self.log@, select_bar, select_offset, feature_bar, feature_offset,
                    w0, lo, w1, hi, Err(e)));
                return Err(e);
            },
        };
        let bits = (low as u64) | ((high as u64) << 32u64);
        assert(bits == feature_words(low, high));
        assert(feature_read_steps(before, self.log@, select_bar, select_offset, feature_bar, feature_offset,
            w0, lo, w1, hi, Ok(FeatureSet(bits))));
        Ok(FeatureSet::new(bits))
    }

    /// Writes the 64 feature bits the driver accepts, low half first.
    pub fn write_driver_features(&mut self, features: FeatureSet) -> (r: VirtioResult<()>)
        ensures
            final(self).caps() == old(self).caps(),
            common_register(old(self).caps(), 8, 4) matches Err(e) ==> r == Err::<(), VirtioError>(e),
            common_register(old(self).caps(), 8, 4) is Ok && common_register(old(self).caps(), 12, 4) is Err
                ==> r == Err::<(), VirtioError>(common_register(old(self).caps(), 12, 4)->Err_0),
            features_write_log(old(self).caps(), old(self).accesses(), final(self).accesses(), features.0, r),
    {
        let ghost before = self.log@;
        let (select_bar, select_offset) = self.common_offset(COMMON_DRIVER_FEATURE_SELECT, 4)?;
        let (feature_bar, feature_offset) = self.common_offset(COMMON_DRIVER_FEATURE, 4)?;
        let low = features.bits() as u32;
        let high = (features.bits() >> 32u64) as u32;
        let w0 = self.access.write_u32(select_bar, select_offset, 0);
        self.log = Ghost(self.log@.push(RegisterAccess::Write32 { bar: select_bar, offset: select_offset, value: 0, result: w0 }));
        if let Err(e) = w0 {
            assert(feature_write_steps(before, self.log@, select_bar, select_offset, feature_bar, feature_offset,
                features.0, w0, w0, w0, Err(e)));
            return Err(e);
        }
        let w1 = self.access.write_u32(feature_bar, feature_offset, low);
        self.log = Ghost(self.log@.push(RegisterAccess::Write32 { bar: feature_bar, offset: feature_offset, value: low, result: w1 }));
        if let Err(e) = w1 {
            assert(feature_write_steps(before, self.log@, select_bar, select_offset, feature_bar, feature_offset,
                features.0, w0, w1, w1, Err(e)));
            return Err(e);
        }
        let w2 = self.access.write_u32(select_bar, select_offset, 1);
        self.log = Ghost(self.log@.push(RegisterAccess::Write32 { bar: select_bar, offset: select_offset, value: 1, result: w2 }));
        if let Err(e) = w2 {
            assert(feature_write_steps(before, self.log@, select_bar, select_offset, feature_bar, feature_offset,
                features.0, w0, w1, w2, Err(e)));
            return Err(e);
        }
        let w3 = self.access.write_u32(feature_bar, feature_offset, high);
        self.log = Ghost(self.log@.push(RegisterAccess::Write32 { bar: feature_bar, offset: feature_offset, value: high, result: w3 }));
        assert(feature_write_steps(before, self.log@, select_bar, select_offset, feature_bar, feature_offset,
            features.0, w0, w1, w2, w3));
        w3
    }
}

} // verus!

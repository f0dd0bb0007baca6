//! Device status bits and the virtio initialization sequence.

use vstd::prelude::*;
use crate::virtio::error::{VirtioError, VirtioResult};
use crate::virtio::feature::FeatureSet;
use crate::virtio::transport::{
    features_read_log, features_write_log, status_read_log, status_write_log, PciTransportAccess, RegisterAccess,
    VirtioPciCapabilities, VirtioPciTransport,
};

verus! {

/// The device status register.
#[derive(Clone, Copy, Debug, Default, PartialEq, Eq, Structural)]
pub struct DeviceStatus(pub u8);

impl DeviceStatus {
    pub fn acknowledge() -> (s: Self)
        ensures
            s.0 == 1,
    {
        DeviceStatus(1)
    }

    pub fn driver() -> (s: Self)
        ensures
            s.0 == 2,
    {
        DeviceStatus(2)
    }

    pub fn driver_ok() -> (s: Self)
        ensures
            s.0 == 4,
    {
        DeviceStatus(4)
    }

    pub fn features_ok() -> (s: Self)
        ensures
            s.0 == 8,
    {
        DeviceStatus(8)
    }

    pub fn device_needs_reset() -> (s: Self)
        ensures
            s.0 == 64,
    {
        DeviceStatus(64)
    }

    pub fn failed() -> (s: Self)
        ensures
            s.0 == 128,
    {
        DeviceStatus(128)
    }

    pub fn from_bits(bits: u8) -> (s: Self)
        ensures
            s.0 == bits,
    {
        DeviceStatus(bits)
    }

    pub fn bits(self) -> (b: u8)
        ensures
            b == self.0,
    {
        self.0
    }

    /// Whether every bit of `other` is set.
    pub fn contains(self, other: Self) -> (r: bool)
        ensures
            r == (self.0 & other.0 == other.0),
    {
        self.0 & other.0 == other.0
    }

    pub fn union(self, other: Self) -> (s: Self)
        ensures
            s.0 == self.0 | other.0,
    {
        DeviceStatus(self.0 | other.0)
    }
}

/// Features the driver accepts: those it requested that the device offers,
/// plus every required one; refused when the device lacks a required feature.
pub open spec fn feature_selection(supported: FeatureSet, requested: FeatureSet, required: FeatureSet) -> VirtioResult<FeatureSet> {
    if supported.0 & required.0 != required.0 {
        Err(VirtioError::RequiredFeatureMissing)
    } else {
        Ok(FeatureSet((supported.0 & requested.0) | required.0))
    }
}

/// Decides which features to accept from what the device offers.
pub fn select_features(supported: FeatureSet, requested: FeatureSet, required: FeatureSet) -> (r: VirtioResult<FeatureSet>)
    ensures
        r == feature_selection(supported, requested, required),
{
    if !supported.contains_all(required) {
        return Err(VirtioError::RequiredFeatureMissing);
    }
    Ok(supported.intersection(requested).union(required))
}

/// A reset from `before` to `after` with outcome `r`: zero is written to the
/// status register and, if that went through, the status is read back and
/// must be zero.
pub open spec fn reset_log(
    caps: VirtioPciCapabilities,
    before: Seq<RegisterAccess>,
    after: Seq<RegisterAccess>,
    r: VirtioResult<()>,
) -> bool {
    exists|mid: Seq<RegisterAccess>, w: VirtioResult<()>| #[trigger] status_write_log(caps, before, mid, 0, w) && match w {
        Err(e) => after == mid && r == Err::<(), VirtioError>(e),
        Ok(_) => exists|s: VirtioResult<u8>| #[trigger] status_read_log(caps, mid, after, s) && r == match s {
            Err(e) => Err::<(), VirtioError>(e),
            Ok(v) => if v == 0 {
                Ok(())
            } else {
                Err(VirtioError::DeviceResetFailed)
            },
        },
    }
}

/// A reset, then, if it succeeded, `ACKNOWLEDGE | DRIVER` written to the
/// status register.
pub open spec fn begin_log(
    caps: VirtioPciCapabilities,
    before: Seq<RegisterAccess>,
    after: Seq<RegisterAccess>,
    r: VirtioResult<()>,
) -> bool {
    exists|mid: Seq<RegisterAccess>, rr: VirtioResult<()>| #[trigger] reset_log(caps, before, mid, rr) && match rr {
        Err(e) => after == mid && r == Err::<(), VirtioError>(e),
        Ok(_) => status_write_log(caps, mid, after, 3, r),
    }
}

/// The status read and, if that went through, written back with `bits`
/// added; `r` is the outcome of the first access that failed, or of the
/// write.
pub open spec fn status_raise_log(
    caps: VirtioPciCapabilities,
    before: Seq<RegisterAccess>,
    after: Seq<RegisterAccess>,
    bits: u8,
    r: VirtioResult<()>,
) -> bool {
    exists|mid: Seq<RegisterAccess>, s: VirtioResult<u8>| #[trigger] status_read_log(caps, before, mid, s) && match s {
        Err(e) => after == mid && r == Err::<(), VirtioError>(e),
        Ok(v) => status_write_log(caps, mid, after, v | bits, r),
    }
}

/// Marking the device failed: the status read and, if that went through,
/// written back with `FAILED` added, whatever the write gives.
pub open spec fn fail_log(caps: VirtioPciCapabilities, before: Seq<RegisterAccess>, after: Seq<RegisterAccess>) -> bool {
    exists|r: VirtioResult<()>| #[trigger] status_raise_log(caps, before, after, 128, r)
}

/// After the selection `sel` was made: the driver features written, the
/// status read and written back with `FEATURES_OK`, and read again; the
/// device must keep `FEATURES_OK`, else it is marked failed.
pub open spec fn selection_log(
    caps: VirtioPciCapabilities,
    sel: FeatureSet,
    before: Seq<RegisterAccess>,
    after: Seq<RegisterAccess>,
    r: VirtioResult<FeatureSet>,
) -> bool {
    exists|m2: Seq<RegisterAccess>, w: VirtioResult<()>| #[trigger] features_write_log(caps, before, m2, sel.0, w) && match w {
        Err(e) => after == m2 && r == Err::<FeatureSet, VirtioError>(e),
        Ok(_) => exists|m4: Seq<RegisterAccess>, w2: VirtioResult<()>| #[trigger] status_raise_log(caps, m2, m4, 8, w2) && match w2 {
            Err(e) => after == m4 && r == Err::<FeatureSet, VirtioError>(e),
            Ok(_) => exists|m5: Seq<RegisterAccess>, c: VirtioResult<u8>| #[trigger] status_read_log(caps, m4, m5, c) && match c {
                Err(e) => after == m5 && r == Err::<FeatureSet, VirtioError>(e),
                Ok(v) => if v & 8 == 8 {
                    after == m5 && r == Ok::<FeatureSet, VirtioError>(sel)
                } else {
                    fail_log(caps, m5, after) && r == Err::<FeatureSet, VirtioError>(VirtioError::FeaturesRejected)
                },
            },
        },
    }
}

/// A feature negotiation: the device features read, the selection made
/// from them, the device marked failed when it lacks a required feature,
/// else the selection written and confirmed.
pub open spec fn negotiation_log(
    caps: VirtioPciCapabilities,
    requested: FeatureSet,
    required: FeatureSet,
    before: Seq<RegisterAccess>,
    after: Seq<RegisterAccess>,
    r: VirtioResult<FeatureSet>,
) -> bool {
    exists|m1: Seq<RegisterAccess>, f: VirtioResult<FeatureSet>| #[trigger] features_read_log(caps, before, m1, f) && match f {
        Err(e) => after == m1 && r == Err::<FeatureSet, VirtioError>(e),
        Ok(supported) => match feature_selection(supported, requested, required) {
            Err(e) => fail_log(caps, m1, after) && r == Err::<FeatureSet, VirtioError>(e),
            Ok(sel) => selection_log(caps, sel, m1, after, r),
        },
    }
}

pub struct VirtioDevice<A> {
    transport: VirtioPciTransport<A>,
    negotiated_features: FeatureSet,
}

impl<A: PciTransportAccess> VirtioDevice<A> {
    pub closed spec fn negotiated(&self) -> FeatureSet {
        self.negotiated_features
    }

    pub closed spec fn transport_view(&self) -> VirtioPciTransport<A> {
        self.transport
    }

    pub fn new(transport: VirtioPciTransport<A>) -> (d: Self)
        ensures
            d.transport_view() == transport,
            d.negotiated() == FeatureSet(0),
    {
        VirtioDevice { transport, negotiated_features: FeatureSet::new(0) }
    }

    pub fn transport(&self) -> (r: &VirtioPciTransport<A>)
        ensures
            *r == self.transport_view(),
    {
        &self.transport
    }

    pub fn transport_mut(&mut self) -> (r: &mut VirtioPciTransport<A>)
        ensures
            *r == old(self).transport_view(),
            final(self).transport_view() == *final(r),
            final(self).negotiated() == old(self).negotiated(),
    {
        &mut self.transport
    }

    pub fn negotiated_features(&self) -> (f: FeatureSet)
        ensures
            f == self.negotiated(),
    {
        self.negotiated_features
    }

    /// Writes zero to the status register and checks that the device reads
    /// back zero; forgets the negotiated features.
    pub fn reset(&mut self) -> (r: VirtioResult<()>)
        ensures
            final(self).transport_view().caps() == old(self).transport_view().caps(),
            r is Ok ==> final(self).negotiated() == FeatureSet(0),
            r is Err ==> final(self).negotiated() == old(self).negotiated(),
            reset_log(
                old(self).transport_view().caps(),
                old(self).transport_view().accesses(),
                final(self).transport_view().accesses(),
                r,
            ),
    {
        let ghost caps = self.transport.caps();
        let ghost before = self.transport.accesses();
        let w = self.transport.write_status(DeviceStatus::from_bits(0));
        let ghost mid = self.transport.accesses();
        if let Err(e) = w {
            assert(status_write_log(caps, before, mid, 0, w));
            return Err(e);
        }
        let read = self.transport.read_status();
        let ghost s = crate::virtio::transport::status_bits(read);
        assert(status_write_log(caps, before, mid, 0, w));
        assert(status_read_log(caps, mid, self.transport.accesses(), s));
        let status = match read {
            Ok(status) => status,
            Err(e) => return Err(e),
        };
        if status.bits() != 0 {
            return Err(VirtioError::DeviceResetFailed);
        }
        self.negotiated_features = FeatureSet::new(0);
        Ok(())
    }

    /// Resets the device and announces a driver.
    pub fn begin_initialization(&mut self) -> (r: VirtioResult<()>)
        ensures
            final(self).transport_view().caps() == old(self).transport_view().caps(),
            r is Ok ==> final(self).negotiated() == FeatureSet(0),
            final(self).negotiated() == old(self).negotiated() || final(self).negotiated() == FeatureSet(0),
            begin_log(
                old(self).transport_view().caps(),
                old(self).transport_view().accesses(),
                final(self).transport_view().accesses(),
                r,
            ),
    {
        let ghost caps = self.transport.caps();
        let ghost before = self.transport.accesses();
        let rr = self.reset();
        let ghost mid = self.transport.accesses();
        assert(reset_log(caps, before, mid, rr));
        if let Err(e) = rr {
            return Err(e);
        }
        let status = DeviceStatus::acknowledge().union(DeviceStatus::driver());
        assert(1u8 | 2u8 == 3u8) by (bit_vector);
        self.transport.write_status(status)
    }

    /// Accepts the features that `select_features` picks from what the device
    /// offers, and checks that the device keeps `FEATURES_OK` set. A device
    /// that lacks a required feature or refuses the selection is marked failed.
    pub fn negotiate_features(&mut self, requested: FeatureSet, required: FeatureSet) -> (r: VirtioResult<FeatureSet>)
        ensures
            final(self).transport_view().caps() == old(self).transport_view().caps(),
            r matches Ok(s) ==> final(self).negotiated() == s && exists|supported: FeatureSet|
                feature_selection(supported, requested, required) == Ok::<FeatureSet, VirtioError>(s),
            r matches Ok(s) ==> s.0 & required.0 == required.0,
            r is Err ==> final(self).negotiated() == old(self).negotiated(),
            negotiation_log(
                old(self).transport_view().caps(),
                requested,
                required,
                old(self).transport_view().accesses(),
                final(self).transport_view().accesses(),
                r,
            ),
    {
        let ghost caps = self.transport.caps();
        let ghost before = self.transport.accesses();
        let f = self.transport.read_device_features();
        let ghost m1 = self.transport.accesses();
        assert(features_read_log(caps, before, m1, f));
        let supported = match f {
            Ok(v) => v,
            Err(e) => return Err(e),
        };
        let selected = match select_features(supported, requested, required) {
            Ok(s) => s,
            Err(e) => {
                self.fail();
                return Err(e);
            },
        };
        let ghost (s, a, b, c) = (selected.0, supported.0, requested.0, required.0);
        assert(s & c == c) by (bit_vector)
            requires
                s == (a & b) | c,
        ;
        let w = self.transport.write_driver_features(selected);
        let ghost m2 = self.transport.accesses();
        assert(features_write_log(caps, m1, m2, selected.0, w));
        if let Err(e) = w {
            return Err(e);
        }
        let raised = self.raise_status(DeviceStatus::features_ok());
        let ghost m4 = self.transport.accesses();
        assert(status_raise_log(caps, m2, m4, 8, raised));
        if let Err(e) = raised {
            return Err(e);
        }
        let read = self.transport.read_status();
        let ghost m5 = self.transport.accesses();
        assert(status_read_log(caps, m4, m5, crate::virtio::transport::status_bits(read)));
        let confirmed = match read {
            Ok(v) => v,
            Err(e) => return Err(e),
        };
        if !confirmed.contains(DeviceStatus::features_ok()) {
            self.fail();
            return Err(VirtioError::FeaturesRejected);
        }
        self.negotiated_features = selected;
        Ok(selected)
    }

    /// Sets `DRIVER_OK` on top of the current status.
    pub fn finish_initialization(&mut self) -> (r: VirtioResult<()>)
        ensures
            final(self).transport_view().caps() == old(self).transport_view().caps(),
            final(self).negotiated() == old(self).negotiated(),
            status_raise_log(
                old(self).transport_view().caps(),
                old(self).transport_view().accesses(),
                final(self).transport_view().accesses(),
                4,
                r,
            ),
    {
        self.raise_status(DeviceStatus::driver_ok())
    }

    /// Sets `FAILED` on top of the current status, if the status can be read.
    pub fn fail(&mut self)
        ensures
            final(self).transport_view().caps() == old(self).transport_view().caps(),
            final(self).negotiated() == old(self).negotiated(),
            fail_log(
                old(self).transport_view().caps(),
                old(self).transport_view().accesses(),
                final(self).transport_view().accesses(),
            ),
    {
        let r = self.raise_status(DeviceStatus::failed());
        assert(status_raise_log(
            old(self).transport_view().caps(),
            old(self).transport_view().accesses(),
            self.transport_view().accesses(),
            128,
            r,
        ));
    }

    /// Reads the status and writes it back with the bits of `bits` added.
    fn raise_status(&mut self, bits: DeviceStatus) -> (r: VirtioResult<()>)
        ensures
            final(self).transport_view().caps() == old(self).transport_view().caps(),
            final(self).negotiated() == old(self).negotiated(),
            status_raise_log(
                old(self).transport_view().caps(),
                old(self).transport_view().accesses(),
                final(self).transport_view().accesses(),
                bits.0,
                r,
            ),
    {
        let ghost caps = self.transport.caps();
        let ghost before = self.transport.accesses();
        let read = self.transport.read_status();
        let ghost mid = self.transport.accesses();
        assert(status_read_log(caps, before, mid, crate::virtio::transport::status_bits(read)));
        let status = match read {
            Ok(v) => v,
            Err(e) => return Err(e),
        };
        self.transport.write_status(status.union(bits))
    }
}

} // verus!

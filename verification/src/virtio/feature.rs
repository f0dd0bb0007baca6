//! Virtio feature bit sets.

use vstd::prelude::*;

verus! {

#[derive(Clone, Copy, Debug, Default, PartialEq, Eq, Structural)]
pub struct FeatureSet(pub u64);

pub const VIRTIO_F_VERSION_1: u64 = 1u64 << 32;

impl FeatureSet {
    pub fn new(bits: u64) -> (f: Self)
        ensures
            f.0 == bits,
    {
        FeatureSet(bits)
    }

    pub fn bits(self) -> (b: u64)
        ensures
            b == self.0,
    {
        self.0
    }

    /// Whether every bit of `required` is set in `self`.
    pub fn contains_all(self, required: Self) -> (r: bool)
        ensures
            r == (self.0 & required.0 == required.0),
    {
        self.0 & required.0 == required.0
    }

    pub fn intersection(self, other: Self) -> (f: Self)
        ensures
            f.0 == self.0 & other.0,
    {
        FeatureSet(self.0 & other.0)
    }

    pub fn union(self, other: Self) -> (f: Self)
        ensures
            f.0 == self.0 | other.0,
    {
        FeatureSet(self.0 | other.0)
    }
}

impl From<u64> for FeatureSet {
    fn from(value: u64) -> (f: Self) {
        FeatureSet::new(value)
    }
}

impl vstd::std_specs::convert::FromSpecImpl<u64> for FeatureSet {
    open spec fn obeys_from_spec() -> bool {
        true
    }

    open spec fn from_spec(value: u64) -> Self {
        FeatureSet(value)
    }
}

} // verus!

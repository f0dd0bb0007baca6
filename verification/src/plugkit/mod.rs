//! Driver packages: the manifests drivers ship with and the devices they
//! claim.

pub mod package;

use vstd::prelude::*;

verus! {

/// The bus a device sits on.
#[derive(Clone, Copy, Debug, PartialEq, Eq, Structural)]
pub enum DeviceBus {
    Platform,
    Pci,
    Usb,
    Virtio,
    Other,
}

/// Devices a driver claims: every given field must match.
#[derive(Clone, Copy, Debug, PartialEq, Eq, Structural)]
pub struct MatchRule {
    pub bus: Option<DeviceBus>,
    pub vendor_id: Option<u32>,
    pub device_id: Option<u32>,
}

/// What a driver's manifest declares.
pub struct DriverManifest {
    pub id: Vec<u8>,
    pub name: Vec<u8>,
    pub version: Vec<u8>,
    pub description: Option<Vec<u8>>,
    pub developer: Option<Vec<u8>>,
    pub api_version: u32,
    pub driver_class: Option<Vec<u8>>,
    pub matches: Vec<MatchRule>,
    pub capabilities: Vec<Vec<u8>>,
    pub provides: Vec<Vec<u8>>,
}

/// A driver manifest as values.
pub struct DriverModel {
    pub id: Seq<u8>,
    pub name: Seq<u8>,
    pub version: Seq<u8>,
    pub description: Option<Seq<u8>>,
    pub developer: Option<Seq<u8>>,
    pub api_version: u32,
    pub driver_class: Option<Seq<u8>>,
    pub matches: Seq<MatchRule>,
    pub capabilities: Seq<Seq<u8>>,
    pub provides: Seq<Seq<u8>>,
}

/// An optional byte string by its view.
pub open spec fn opt_bytes(o: Option<Vec<u8>>) -> Option<Seq<u8>> {
    match o {
        Some(v) => Some(v@),
        None => None,
    }
}

/// The views of a list of byte strings.
pub open spec fn byte_strings(v: Seq<Vec<u8>>) -> Seq<Seq<u8>> {
    v.map_values(|x: Vec<u8>| x@)
}

impl DriverManifest {
    pub open spec fn model(&self) -> DriverModel {
        DriverModel {
            id: self.id@,
            name: self.name@,
            version: self.version@,
            description: opt_bytes(self.description),
            developer: opt_bytes(self.developer),
            api_version: self.api_version,
            driver_class: opt_bytes(self.driver_class),
            matches: self.matches@,
            capabilities: byte_strings(self.capabilities@),
            provides: byte_strings(self.provides@),
        }
    }
}

} // verus!

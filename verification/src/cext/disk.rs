//! The disk extension: sector access through the operations a loaded disk
//! bundle supplies.

use vstd::prelude::*;

verus! {

/// Error number when no disk bundle is loaded.
pub const ENOSYS: i32 = -38;

/// Operations a disk bundle supplies.
pub trait DiskOperations {
    fn probe(&self) -> i32;

    fn read_sector(&self, disk_id: u32, lba: u64, buf: &mut [u8]) -> i32;

    fn write_sector(&self, disk_id: u32, lba: u64, buf: &[u8]) -> i32;

    fn flush(&self, disk_id: u32) -> i32;
}

/// The loaded disk bundle, if any, and its interface version.
pub struct DiskExtension<O> {
    loaded: bool,
    version: u16,
    ops: Option<O>,
}

impl<O: DiskOperations> DiskExtension<O> {
    pub closed spec fn has_ops(&self) -> bool {
        self.ops is Some
    }

    pub closed spec fn loaded_flag(&self) -> bool {
        self.loaded
    }

    pub closed spec fn interface_version(&self) -> u16 {
        self.version
    }

    pub fn new() -> (d: Self)
        ensures
            !d.has_ops() && !d.loaded_flag() && d.interface_version() == 0,
    {
        DiskExtension { loaded: false, version: 0, ops: None }
    }

    /// Activates the bundle `ops` of interface `version`; without operations
    /// nothing changes.
    pub fn activate_bundle(&mut self, version: u16, ops: Option<O>) -> (r: bool)
        ensures
            r == ops is Some,
            r ==> final(self).has_ops() && final(self).loaded_flag() && final(self).interface_version() == version,
            !r ==> final(self).has_ops() == old(self).has_ops() && final(self).loaded_flag() == old(self).loaded_flag()
                && final(self).interface_version() == old(self).interface_version(),
    {
        match ops {
            None => false,
            Some(o) => {
                self.version = version;
                self.ops = Some(o);
                self.loaded = true;
                true
            },
        }
    }

    /// The operations of the loaded bundle.
    pub fn ops_ptr(&self) -> (r: Option<&O>)
        ensures
            r is Some == self.has_ops(),
    {
        match &self.ops {
            Some(o) => Some(o),
            None => None,
        }
    }

    pub fn is_loaded(&self) -> (r: bool)
        ensures
            r == (self.loaded_flag() && self.has_ops()),
    {
        self.loaded && self.ops.is_some()
    }

    pub fn version(&self) -> (r: u16)
        ensures
            r == self.interface_version(),
    {
        self.version
    }

    pub fn probe(&self) -> (r: i32)
        ensures
            !self.has_ops() ==> r == ENOSYS,
    {
        match &self.ops {
            Some(o) => o.probe(),
            None => ENOSYS,
        }
    }

    pub fn read_sector(&self, disk_id: u32, lba: u64, buf: &mut [u8]) -> (r: i32)
        ensures
            !self.has_ops() ==> r == ENOSYS && final(buf)@ == old(buf)@,
    {
        match &self.ops {
            Some(o) => o.read_sector(disk_id, lba, buf),
            None => ENOSYS,
        }
    }

    pub fn write_sector(&self, disk_id: u32, lba: u64, buf: &[u8]) -> (r: i32)
        ensures
            !self.has_ops() ==> r == ENOSYS,
    {
        match &self.ops {
            Some(o) => o.write_sector(disk_id, lba, buf),
            None => ENOSYS,
        }
    }

    pub fn flush(&self, disk_id: u32) -> (r: i32)
        ensures
            !self.has_ops() ==> r == ENOSYS,
    {
        match &self.ops {
            Some(o) => o.flush(disk_id),
            None => ENOSYS,
        }
    }
}

} // verus!

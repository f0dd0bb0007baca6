//! Optional platform integration supplied by the system using the kernel:
//! display and device control behind operations installed once.

use vstd::prelude::*;

verus! {

#[derive(Clone, Copy, Debug, Eq, PartialEq, Structural)]
pub enum PlatformError {
    Unsupported,
    Unavailable,
    InvalidRequest,
    Transport,
}

#[derive(Clone, Copy, Debug, Eq, PartialEq, Structural)]
pub struct DisplayInfo {
    pub width: u32,
    pub height: u32,
    pub stride: u32,
    pub red_offset: u8,
    pub green_offset: u8,
    pub blue_offset: u8,
    pub surface_address: u64,
    pub surface_size: u64,
    pub shared_surface: bool,
}

#[derive(Clone, Copy, Debug, Eq, PartialEq)]
pub struct DeviceControlResponse {
    pub status: u32,
    pub device_id: u32,
    pub values: [u64; 4],
}

/// Operations the platform supplies.
pub trait PlatformOps {
    fn display_info(&self) -> Result<DisplayInfo, PlatformError>;

    fn display_transfer_limit(&self) -> Result<usize, PlatformError>;

    fn present_display(&self, x: u32, y: u32, width: u32, height: u32, pixels: &[u8]) -> Result<(), PlatformError>;

    fn commit_display(&self, x: u32, y: u32, width: u32, height: u32) -> Result<(), PlatformError>;

    fn device_control(&self, operation: u16, device_id: u32, arguments: [u64; 4]) -> Result<DeviceControlResponse, PlatformError>;
}

/// The installed platform operations, if any.
pub struct Platform<O> {
    ops: Option<O>,
}

impl<O: PlatformOps> Platform<O> {
    pub closed spec fn installed(&self) -> bool {
        self.ops is Some
    }

    pub fn new() -> (p: Self)
        ensures
            !p.installed(),
    {
        Platform { ops: None }
    }

    /// Installs `ops`; refused once operations are installed.
    pub fn install(&mut self, ops: O) -> (r: Result<(), PlatformError>)
        ensures
            old(self).installed() ==> r == Err::<(), PlatformError>(PlatformError::InvalidRequest)
                && final(self).installed(),
            !old(self).installed() ==> r is Ok && final(self).installed(),
    {
        if self.ops.is_some() {
            return Err(PlatformError::InvalidRequest);
        }
        self.ops = Some(ops);
        Ok(())
    }

    pub fn display_info(&self) -> (r: Result<DisplayInfo, PlatformError>)
        ensures
            !self.installed() ==> r == Err::<DisplayInfo, PlatformError>(PlatformError::Unsupported),
    {
        match &self.ops {
            Some(ops) => ops.display_info(),
            None => Err(PlatformError::Unsupported),
        }
    }

    pub fn display_transfer_limit(&self) -> (r: Result<usize, PlatformError>)
        ensures
            !self.installed() ==> r == Err::<usize, PlatformError>(PlatformError::Unsupported),
    {
        match &self.ops {
            Some(ops) => ops.display_transfer_limit(),
            None => Err(PlatformError::Unsupported),
        }
    }

    pub fn present_display(&self, x: u32, y: u32, width: u32, height: u32, pixels: &[u8]) -> (r: Result<(), PlatformError>)
        ensures
            !self.installed() ==> r == Err::<(), PlatformError>(PlatformError::Unsupported),
    {
        match &self.ops {
            Some(ops) => ops.present_display(x, y, width, height, pixels),
            None => Err(PlatformError::Unsupported),
        }
    }

    pub fn commit_display(&self, x: u32, y: u32, width: u32, height: u32) -> (r: Result<(), PlatformError>)
        ensures
            !self.installed() ==> r == Err::<(), PlatformError>(PlatformError::Unsupported),
    {
        match &self.ops {
            Some(ops) => ops.commit_display(x, y, width, height),
            None => Err(PlatformError::Unsupported),
        }
    }

    pub fn device_control(&self, operation: u16, device_id: u32, arguments: [u64; 4]) -> (r: Result<DeviceControlResponse, PlatformError>)
        ensures
            !self.installed() ==> r == Err::<DeviceControlResponse, PlatformError>(PlatformError::Unsupported),
    {
        match &self.ops {
            Some(ops) => ops.device_control(operation, device_id, arguments),
            None => Err(PlatformError::Unsupported),
        }
    }
}

} // verus!

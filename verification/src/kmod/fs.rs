//! The built-in file system module interface: no file system module can be
//! loaded into this kernel, so every operation reports it as absent.

use vstd::prelude::*;

verus! {

/// Error number of an operation the kernel does not provide.
pub const ENOSYS: i32 = -38;

/// Registering a file system module table at `ops_address` is refused.
pub fn register(ops_address: usize, version: u16) -> (r: bool)
    ensures
        !r,
{
    false
}

pub fn is_loaded() -> (r: bool)
    ensures
        !r,
{
    false
}

pub fn is_mounted() -> (r: bool)
    ensures
        !r,
{
    false
}

pub fn mount(device_id: u32) -> (r: i32)
    ensures
        r == ENOSYS,
{
    ENOSYS
}

pub fn set_disk_ops(disk_ops_address: usize) -> (r: i32)
    ensures
        r == ENOSYS,
{
    ENOSYS
}

pub fn create(path: &str, mode: u32) -> (r: i32)
    ensures
        r == ENOSYS,
{
    ENOSYS
}

pub fn remove(path: &str, is_dir: bool) -> (r: i32)
    ensures
        r == ENOSYS,
{
    ENOSYS
}

pub fn rename(src: &str, dst: &str) -> (r: i32)
    ensures
        r == ENOSYS,
{
    ENOSYS
}

pub fn write_all(path: &str, offset: u64, data: &[u8]) -> (r: Option<usize>)
    ensures
        r is None,
{
    None
}

pub fn truncate(path: &str, len: u64) -> (r: i32)
    ensures
        r == ENOSYS,
{
    ENOSYS
}

pub fn register_builtin_bench_fs() -> (r: bool)
    ensures
        !r,
{
    false
}

} // verus!

//! Public system call numbers and the error codes system calls return.

use vstd::prelude::*;

verus! {

/// Numbers of the public system calls, in ABI order starting at 0.
#[derive(Debug, Clone, Copy, PartialEq, Eq, Structural)]
pub enum SyscallNumber {
    ProcessExit,
    ProcessSpawn,
    ProcessWait,
    ThreadCreate,
    ThreadExit,
    ThreadYield,
    MemoryAlloc,
    MemoryFree,
    MemoryMap,
    MemoryUnmap,
    MemoryProtect,
    MemoryShare,
    MemorySync,
    IpcCreate,
    IpcSend,
    IpcRecv,
    IpcCall,
    IpcReply,
    IpcWait,
    CapClone,
    CapDrop,
    CapTransfer,
    CapQuery,
    CapRestrict,
    EventCreate,
    EventWait,
    EventSignal,
    EventPoll,
    TimeNow,
    Sleep,
    CheckGravityExist,
    Write,
    FileOpen,
    FileClose,
    FileRead,
    FileSeek,
    FileStat,
    FileTruncate,
}

pub const SUCCESS: u64 = 0;
/// Operation not permitted (-1).
pub const EPERM: u64 = 0xffff_ffff_ffff_ffff;
/// No such file (-2).
pub const ENOENT: u64 = 0xffff_ffff_ffff_fffe;
/// No such process (-3).
pub const ESRCH: u64 = 0xffff_ffff_ffff_fffd;
/// I/O error (-5).
pub const EIO: u64 = 0xffff_ffff_ffff_fffb;
/// No such device (-6).
pub const ENXIO: u64 = 0xffff_ffff_ffff_fffa;
/// Bad descriptor (-9).
pub const EBADF: u64 = 0xffff_ffff_ffff_fff7;
/// Queue empty or full (-11).
pub const EAGAIN: u64 = 0xffff_ffff_ffff_fff5;
/// Out of memory (-12).
pub const ENOMEM: u64 = 0xffff_ffff_ffff_fff4;
/// Access denied (-13).
pub const EACCES: u64 = 0xffff_ffff_ffff_fff3;
/// Bad address (-14).
pub const EFAULT: u64 = 0xffff_ffff_ffff_fff2;
/// Already exists (-17).
pub const EEXIST: u64 = 0xffff_ffff_ffff_ffef;
/// Not a directory (-20).
pub const ENOTDIR: u64 = 0xffff_ffff_ffff_ffec;
/// Invalid argument (-22).
pub const EINVAL: u64 = 0xffff_ffff_ffff_ffea;
/// Too many descriptors (-24).
pub const EMFILE: u64 = 0xffff_ffff_ffff_ffe8;
/// Not a device (-25).
pub const ENOTTY: u64 = 0xffff_ffff_ffff_ffe7;
/// Broken pipe (-32).
pub const EPIPE: u64 = 0xffff_ffff_ffff_ffe0;
/// Argument out of range (-34).
pub const ERANGE: u64 = 0xffff_ffff_ffff_ffde;
/// Not implemented (-38).
pub const ENOSYS: u64 = 0xffff_ffff_ffff_ffda;
/// No data (-61).
pub const ENODATA: u64 = 0xffff_ffff_ffff_ffc3;
/// Not supported (-95).
pub const ENOTSUP: u64 = 0xffff_ffff_ffff_ffa1;

} // verus!

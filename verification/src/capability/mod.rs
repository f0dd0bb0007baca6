//! Capabilities: the rights processes hold, by name and as sets, with the
//! implication order in which broader rights cover narrower ones; and kernel
//! authorities, rights bound to a kernel object.


pub mod names;
pub mod path;

use vstd::prelude::*;
use vstd::string::StringSliceAdditionalSpecFns;
use crate::text::{bytes_equal, find_byte, first_index_of, has_prefix, parse_u64_radix, parse_unsigned, starts_with, trim, trim_range};

verus! {

/// Low-level rights the kernel enforces directly.
#[derive(Clone, Copy, Debug, PartialEq, Eq, Structural, Hash, PartialOrd, Ord)]
pub enum KernelCapability {
    ProcessKill,
    ProcessSpawn,
    IpcEndpointCreate,
    IpcEndpointSend,
    IpcEndpointRecv,
    VmMap,
    VmUnmap,
    MmioMap,
    DmaAllocate,
    PhysMap,
    PhysTranslate,
    IrqBind,
    CextLoad,
    CextStop,
    DeviceClaim,
    KernelDebug,
    SignatureWrite,
    SignatureRead,
}

/// Name of a kernel capability, as UTF-8 bytes.
pub open spec fn kernel_capability_name(c: KernelCapability) -> Seq<u8> {
    match c {
        KernelCapability::ProcessKill => "process.kill".spec_bytes(),
        KernelCapability::ProcessSpawn => "process.spawn".spec_bytes(),
        KernelCapability::IpcEndpointCreate => "ipc.endpoint.create".spec_bytes(),
        KernelCapability::IpcEndpointSend => "ipc.endpoint.send".spec_bytes(),
        KernelCapability::IpcEndpointRecv => "ipc.endpoint.recv".spec_bytes(),
        KernelCapability::VmMap => "vm.map".spec_bytes(),
        KernelCapability::VmUnmap => "vm.unmap".spec_bytes(),
        KernelCapability::MmioMap => "mmio.map".spec_bytes(),
        KernelCapability::DmaAllocate => "dma.allocate".spec_bytes(),
        KernelCapability::PhysMap => "memory.phys.map".spec_bytes(),
        KernelCapability::PhysTranslate => "memory.phys.translate".spec_bytes(),
        KernelCapability::IrqBind => "irq.bind".spec_bytes(),
        KernelCapability::CextLoad => "cext.load".spec_bytes(),
        KernelCapability::CextStop => "cext.stop".spec_bytes(),
        KernelCapability::DeviceClaim => "device.claim".spec_bytes(),
        KernelCapability::KernelDebug => "kernel.debug".spec_bytes(),
        KernelCapability::SignatureWrite => "signature.db.write".spec_bytes(),
        KernelCapability::SignatureRead => "signature.db.read".spec_bytes(),
    }
}

/// Kernel capability a name denotes; the signature database rights have no
/// textual form here.
pub open spec fn kernel_capability_named(name: Seq<u8>) -> Option<KernelCapability> {
    if name == "process.kill".spec_bytes() {
        Some(KernelCapability::ProcessKill)
    } else if name == "process.spawn".spec_bytes() {
        Some(KernelCapability::ProcessSpawn)
    } else if name == "ipc.endpoint.create".spec_bytes() {
        Some(KernelCapability::IpcEndpointCreate)
    } else if name == "ipc.endpoint.send".spec_bytes() {
        Some(KernelCapability::IpcEndpointSend)
    } else if name == "ipc.endpoint.recv".spec_bytes() {
        Some(KernelCapability::IpcEndpointRecv)
    } else if name == "vm.map".spec_bytes() {
        Some(KernelCapability::VmMap)
    } else if name == "vm.unmap".spec_bytes() {
        Some(KernelCapability::VmUnmap)
    } else if name == "mmio.map".spec_bytes() {
        Some(KernelCapability::MmioMap)
    } else if name == "dma.allocate".spec_bytes() {
        Some(KernelCapability::DmaAllocate)
    } else if name == "memory.phys.map".spec_bytes() {
        Some(KernelCapability::PhysMap)
    } else if name == "memory.phys.translate".spec_bytes() {
        Some(KernelCapability::PhysTranslate)
    } else if name == "irq.bind".spec_bytes() {
        Some(KernelCapability::IrqBind)
    } else if name == "cext.load".spec_bytes() {
        Some(KernelCapability::CextLoad)
    } else if name == "cext.stop".spec_bytes() {
        Some(KernelCapability::CextStop)
    } else if name == "device.claim".spec_bytes() {
        Some(KernelCapability::DeviceClaim)
    } else if name == "kernel.debug".spec_bytes() {
        Some(KernelCapability::KernelDebug)
    } else {
        None
    }
}

impl KernelCapability {
    pub fn as_str(&self) -> (r: &'static str)
        ensures
            r.spec_bytes() == kernel_capability_name(*self),
    {
        match self {
            KernelCapability::ProcessKill => "process.kill",
            KernelCapability::ProcessSpawn => "process.spawn",
            KernelCapability::IpcEndpointCreate => "ipc.endpoint.create",
            KernelCapability::IpcEndpointSend => "ipc.endpoint.send",
            KernelCapability::IpcEndpointRecv => "ipc.endpoint.recv",
            KernelCapability::VmMap => "vm.map",
            KernelCapability::VmUnmap => "vm.unmap",
            KernelCapability::MmioMap => "mmio.map",
            KernelCapability::DmaAllocate => "dma.allocate",
            KernelCapability::PhysMap => "memory.phys.map",
            KernelCapability::PhysTranslate => "memory.phys.translate",
            KernelCapability::IrqBind => "irq.bind",
            KernelCapability::CextLoad => "cext.load",
            KernelCapability::CextStop => "cext.stop",
            KernelCapability::DeviceClaim => "device.claim",
            KernelCapability::KernelDebug => "kernel.debug",
            KernelCapability::SignatureWrite => "signature.db.write",
            KernelCapability::SignatureRead => "signature.db.read",
        }
    }

    pub fn from_str(s: &str) -> (r: Option<Self>)
        ensures
            r == kernel_capability_named(s.spec_bytes()),
    {
        let bytes = s.as_bytes();
        if bytes_equal(bytes, "process.kill".as_bytes()) {
            return Some(KernelCapability::ProcessKill);
        }
        if bytes_equal(bytes, "process.spawn".as_bytes()) {
            return Some(KernelCapability::ProcessSpawn);
        }
        if bytes_equal(bytes, "ipc.endpoint.create".as_bytes()) {
            return Some(KernelCapability::IpcEndpointCreate);
        }
        if bytes_equal(bytes, "ipc.endpoint.send".as_bytes()) {
            return Some(KernelCapability::IpcEndpointSend);
        }
        if bytes_equal(bytes, "ipc.endpoint.recv".as_bytes()) {
            return Some(KernelCapability::IpcEndpointRecv);
        }
        if bytes_equal(bytes, "vm.map".as_bytes()) {
            return Some(KernelCapability::VmMap);
        }
        if bytes_equal(bytes, "vm.unmap".as_bytes()) {
            return Some(KernelCapability::VmUnmap);
        }
        if bytes_equal(bytes, "mmio.map".as_bytes()) {
            return Some(KernelCapability::MmioMap);
        }
        if bytes_equal(bytes, "dma.allocate".as_bytes()) {
            return Some(KernelCapability::DmaAllocate);
        }
        if bytes_equal(bytes, "memory.phys.map".as_bytes()) {
            return Some(KernelCapability::PhysMap);
        }
        if bytes_equal(bytes, "memory.phys.translate".as_bytes()) {
            return Some(KernelCapability::PhysTranslate);
        }
        if bytes_equal(bytes, "irq.bind".as_bytes()) {
            return Some(KernelCapability::IrqBind);
        }
        if bytes_equal(bytes, "cext.load".as_bytes()) {
            return Some(KernelCapability::CextLoad);
        }
        if bytes_equal(bytes, "cext.stop".as_bytes()) {
            return Some(KernelCapability::CextStop);
        }
        if bytes_equal(bytes, "device.claim".as_bytes()) {
            return Some(KernelCapability::DeviceClaim);
        }
        if bytes_equal(bytes, "kernel.debug".as_bytes()) {
            return Some(KernelCapability::KernelDebug);
        }
        None
    }
}

/// Rights granted to processes: those the kernel knows by name, and opaque
/// ones that higher layers define, numbered while the system runs.
#[derive(Clone, Copy, Debug, PartialEq, Eq, Structural, Hash, PartialOrd, Ord)]
pub enum Capability {
    FsReadUserDocuments,
    FsWriteUserDocuments,
    FsReadUserDownloads,
    FsWriteUserDownloads,
    FsReadUserDesktop,
    FsWriteUserDesktop,
    FsReadUserPictures,
    FsWriteUserPictures,
    FsReadUserMusic,
    FsWriteUserMusic,
    FsReadUserVideos,
    FsWriteUserVideos,
    FsReadUser,
    FsWriteUser,
    FsReadTmp,
    FsWriteTmp,
    FsReadRemovable,
    FsWriteRemovable,
    FsReadAll,
    FsWriteAll,
    IpcClient,
    IpcServer,
    ProcessSpawn,
    ProcessInspect,
    ProcessKill,
    DisplayRead,
    UsbAccess,
    SerialAccess,
    SystemTimeRead,
    SystemRandomRead,
    ServiceRegister,
    DmaAllocate,
    MemoryPhysMap,
    MemoryPhysTranslate,
    KernelDebug,
    DeviceGpu,
    DeviceInput,
    DeviceStorage,
    DeviceNet,
    SettingsRead,
    SettingsWrite,
    CapabilitiesManage,
    Unsandboxed,
    DeveloperProfile,
    SignatureRead,
    SignatureWrite,
    Dynamic(u32),
}

/// Name of a built-in capability, as UTF-8 bytes; dynamic ones have none.
pub open spec fn builtin_name(c: Capability) -> Option<Seq<u8>> {
    match c {
        Capability::FsReadUserDocuments => Some("fs.read.user.documents".spec_bytes()),
        Capability::FsWriteUserDocuments => Some("fs.write.user.documents".spec_bytes()),
        Capability::FsReadUserDownloads => Some("fs.read.user.downloads".spec_bytes()),
        Capability::FsWriteUserDownloads => Some("fs.write.user.downloads".spec_bytes()),
        Capability::FsReadUserDesktop => Some("fs.read.user.desktop".spec_bytes()),
        Capability::FsWriteUserDesktop => Some("fs.write.user.desktop".spec_bytes()),
        Capability::FsReadUserPictures => Some("fs.read.user.pictures".spec_bytes()),
        Capability::FsWriteUserPictures => Some("fs.write.user.pictures".spec_bytes()),
        Capability::FsReadUserMusic => Some("fs.read.user.music".spec_bytes()),
        Capability::FsWriteUserMusic => Some("fs.write.user.music".spec_bytes()),
        Capability::FsReadUserVideos => Some("fs.read.user.videos".spec_bytes()),
        Capability::FsWriteUserVideos => Some("fs.write.user.videos".spec_bytes()),
        Capability::FsReadUser => Some("fs.read.user".spec_bytes()),
        Capability::FsWriteUser => Some("fs.write.user".spec_bytes()),
        Capability::FsReadTmp => Some("fs.read.tmp".spec_bytes()),
        Capability::FsWriteTmp => Some("fs.write.tmp".spec_bytes()),
        Capability::FsReadRemovable => Some("fs.read.removable".spec_bytes()),
        Capability::FsWriteRemovable => Some("fs.write.removable".spec_bytes()),
        Capability::FsReadAll => Some("fs.read.all".spec_bytes()),
        Capability::FsWriteAll => Some("fs.write.all".spec_bytes()),
        Capability::IpcClient => Some("ipc.client".spec_bytes()),
        Capability::IpcServer => Some("ipc.server".spec_bytes()),
        Capability::ProcessSpawn => Some("process.spawn".spec_bytes()),
        Capability::ProcessInspect => Some("process.inspect".spec_bytes()),
        Capability::ProcessKill => Some("process.kill".spec_bytes()),
        Capability::DisplayRead => Some("display.read".spec_bytes()),
        Capability::UsbAccess => Some("usb.access".spec_bytes()),
        Capability::SerialAccess => Some("serial.access".spec_bytes()),
        Capability::SystemTimeRead => Some("system.time.read".spec_bytes()),
        Capability::SystemRandomRead => Some("system.random.read".spec_bytes()),
        Capability::ServiceRegister => Some("service.register".spec_bytes()),
        Capability::DmaAllocate => Some("dma.allocate".spec_bytes()),
        Capability::MemoryPhysMap => Some("memory.phys.map".spec_bytes()),
        Capability::MemoryPhysTranslate => Some("memory.phys.translate".spec_bytes()),
        Capability::KernelDebug => Some("kernel.debug".spec_bytes()),
        Capability::DeviceGpu => Some("device.gpu".spec_bytes()),
        Capability::DeviceInput => Some("device.input".spec_bytes()),
        Capability::DeviceStorage => Some("device.storage".spec_bytes()),
        Capability::DeviceNet => Some("device.net".spec_bytes()),
        Capability::SettingsRead => Some("settings.read".spec_bytes()),
        Capability::SettingsWrite => Some("settings.write".spec_bytes()),
        Capability::CapabilitiesManage => Some("capabilities.manage".spec_bytes()),
        Capability::Unsandboxed => Some("unsandboxed".spec_bytes()),
        Capability::DeveloperProfile => Some("developer.profile".spec_bytes()),
        Capability::SignatureRead => Some("signature.db.read".spec_bytes()),
        Capability::SignatureWrite => Some("signature.db.write".spec_bytes()),
        Capability::Dynamic(_) => None,
    }
}

/// Built-in capability a name denotes.
#[verifier::opaque]
pub open spec fn builtin_named(name: Seq<u8>) -> Option<Capability> {
    if name == "fs.read.user.documents".spec_bytes() {
        Some(Capability::FsReadUserDocuments)
    } else if name == "fs.write.user.documents".spec_bytes() {
        Some(Capability::FsWriteUserDocuments)
    } else if name == "fs.read.user.downloads".spec_bytes() {
        Some(Capability::FsReadUserDownloads)
    } else if name == "fs.write.user.downloads".spec_bytes() {
        Some(Capability::FsWriteUserDownloads)
    } else if name == "fs.read.user.desktop".spec_bytes() {
        Some(Capability::FsReadUserDesktop)
    } else if name == "fs.write.user.desktop".spec_bytes() {
        Some(Capability::FsWriteUserDesktop)
    } else if name == "fs.read.user.pictures".spec_bytes() {
        Some(Capability::FsReadUserPictures)
    } else if name == "fs.write.user.pictures".spec_bytes() {
        Some(Capability::FsWriteUserPictures)
    } else if name == "fs.read.user.music".spec_bytes() {
        Some(Capability::FsReadUserMusic)
    } else if name == "fs.write.user.music".spec_bytes() {
        Some(Capability::FsWriteUserMusic)
    } else if name == "fs.read.user.videos".spec_bytes() {
        Some(Capability::FsReadUserVideos)
    } else if name == "fs.write.user.videos".spec_bytes() {
        Some(Capability::FsWriteUserVideos)
    } else if name == "fs.read.user".spec_bytes() {
        Some(Capability::FsReadUser)
    } else if name == "fs.write.user".spec_bytes() {
        Some(Capability::FsWriteUser)
    } else if name == "fs.read.tmp".spec_bytes() {
        Some(Capability::FsReadTmp)
    } else if name == "fs.write.tmp".spec_bytes() {
        Some(Capability::FsWriteTmp)
    } else if name == "fs.read.removable".spec_bytes() {
        Some(Capability::FsReadRemovable)
    } else if name == "fs.write.removable".spec_bytes() {
        Some(Capability::FsWriteRemovable)
    } else if name == "fs.read.all".spec_bytes() {
        Some(Capability::FsReadAll)
    } else if name == "fs.write.all".spec_bytes() {
        Some(Capability::FsWriteAll)
    } else if name == "ipc.client".spec_bytes() {
        Some(Capability::IpcClient)
    } else if name == "ipc.server".spec_bytes() {
        Some(Capability::IpcServer)
    } else if name == "process.spawn".spec_bytes() {
        Some(Capability::ProcessSpawn)
    } else if name == "process.inspect".spec_bytes() {
        Some(Capability::ProcessInspect)
    } else if name == "process.kill".spec_bytes() {
        Some(Capability::ProcessKill)
    } else if name == "display.read".spec_bytes() {
        Some(Capability::DisplayRead)
    } else if name == "usb.access".spec_bytes() {
        Some(Capability::UsbAccess)
    } else if name == "serial.access".spec_bytes() {
        Some(Capability::SerialAccess)
    } else if name == "system.time.read".spec_bytes() {
        Some(Capability::SystemTimeRead)
    } else if name == "system.random.read".spec_bytes() {
        Some(Capability::SystemRandomRead)
    } else if name == "service.register".spec_bytes() {
        Some(Capability::ServiceRegister)
    } else if name == "dma.allocate".spec_bytes() {
        Some(Capability::DmaAllocate)
    } else if name == "memory.phys.map".spec_bytes() {
        Some(Capability::MemoryPhysMap)
    } else if name == "memory.phys.translate".spec_bytes() {
        Some(Capability::MemoryPhysTranslate)
    } else if name == "kernel.debug".spec_bytes() {
        Some(Capability::KernelDebug)
    } else if name == "device.gpu".spec_bytes() {
        Some(Capability::DeviceGpu)
    } else if name == "device.input".spec_bytes() {
        Some(Capability::DeviceInput)
    } else if name == "device.storage".spec_bytes() {
        Some(Capability::DeviceStorage)
    } else if name == "device.net".spec_bytes() {
        Some(Capability::DeviceNet)
    } else if name == "settings.read".spec_bytes() {
        Some(Capability::SettingsRead)
    } else if name == "settings.write".spec_bytes() {
        Some(Capability::SettingsWrite)
    } else if name == "capabilities.manage".spec_bytes() {
        Some(Capability::CapabilitiesManage)
    } else if name == "unsandboxed".spec_bytes() {
        Some(Capability::Unsandboxed)
    } else if name == "developer.profile".spec_bytes() {
        Some(Capability::DeveloperProfile)
    } else if name == "signature.db.read".spec_bytes() {
        Some(Capability::SignatureRead)
    } else if name == "signature.db.write".spec_bytes() {
        Some(Capability::SignatureWrite)
    } else {
        None
    }
}

/// Position of a capability in the order capability sets list them:
/// built-in ones in declaration order, then dynamic ones by number.
pub open spec fn capability_rank(c: Capability) -> nat {
    match c {
        Capability::FsReadUserDocuments => 0,
        Capability::FsWriteUserDocuments => 1,
        Capability::FsReadUserDownloads => 2,
        Capability::FsWriteUserDownloads => 3,
        Capability::FsReadUserDesktop => 4,
        Capability::FsWriteUserDesktop => 5,
        Capability::FsReadUserPictures => 6,
        Capability::FsWriteUserPictures => 7,
        Capability::FsReadUserMusic => 8,
        Capability::FsWriteUserMusic => 9,
        Capability::FsReadUserVideos => 10,
        Capability::FsWriteUserVideos => 11,
        Capability::FsReadUser => 12,
        Capability::FsWriteUser => 13,
        Capability::FsReadTmp => 14,
        Capability::FsWriteTmp => 15,
        Capability::FsReadRemovable => 16,
        Capability::FsWriteRemovable => 17,
        Capability::FsReadAll => 18,
        Capability::FsWriteAll => 19,
        Capability::IpcClient => 20,
        Capability::IpcServer => 21,
        Capability::ProcessSpawn => 22,
        Capability::ProcessInspect => 23,
        Capability::ProcessKill => 24,
        Capability::DisplayRead => 25,
        Capability::UsbAccess => 26,
        Capability::SerialAccess => 27,
        Capability::SystemTimeRead => 28,
        Capability::SystemRandomRead => 29,
        Capability::ServiceRegister => 30,
        Capability::DmaAllocate => 31,
        Capability::MemoryPhysMap => 32,
        Capability::MemoryPhysTranslate => 33,
        Capability::KernelDebug => 34,
        Capability::DeviceGpu => 35,
        Capability::DeviceInput => 36,
        Capability::DeviceStorage => 37,
        Capability::DeviceNet => 38,
        Capability::SettingsRead => 39,
        Capability::SettingsWrite => 40,
        Capability::CapabilitiesManage => 41,
        Capability::Unsandboxed => 42,
        Capability::DeveloperProfile => 43,
        Capability::SignatureRead => 44,
        Capability::SignatureWrite => 45,
        Capability::Dynamic(id) => (46 + id) as nat,
    }
}

/// The built-in capabilities, in declaration order.
pub open spec fn bootstrap_sequence() -> Seq<Capability> {
    seq![
        Capability::FsReadUserDocuments,
        Capability::FsWriteUserDocuments,
        Capability::FsReadUserDownloads,
        Capability::FsWriteUserDownloads,
        Capability::FsReadUserDesktop,
        Capability::FsWriteUserDesktop,
        Capability::FsReadUserPictures,
        Capability::FsWriteUserPictures,
        Capability::FsReadUserMusic,
        Capability::FsWriteUserMusic,
        Capability::FsReadUserVideos,
        Capability::FsWriteUserVideos,
        Capability::FsReadUser,
        Capability::FsWriteUser,
        Capability::FsReadTmp,
        Capability::FsWriteTmp,
        Capability::FsReadRemovable,
        Capability::FsWriteRemovable,
        Capability::FsReadAll,
        Capability::FsWriteAll,
        Capability::IpcClient,
        Capability::IpcServer,
        Capability::ProcessSpawn,
        Capability::ProcessInspect,
        Capability::ProcessKill,
        Capability::DisplayRead,
        Capability::UsbAccess,
        Capability::SerialAccess,
        Capability::SystemTimeRead,
        Capability::SystemRandomRead,
        Capability::ServiceRegister,
        Capability::DmaAllocate,
        Capability::MemoryPhysMap,
        Capability::MemoryPhysTranslate,
        Capability::KernelDebug,
        Capability::DeviceGpu,
        Capability::DeviceInput,
        Capability::DeviceStorage,
        Capability::DeviceNet,
        Capability::SettingsRead,
        Capability::SettingsWrite,
        Capability::CapabilitiesManage,
        Capability::Unsandboxed,
        Capability::DeveloperProfile,
        Capability::SignatureRead,
        Capability::SignatureWrite,
    ]
}

fn builtin_capability(bytes: &[u8]) -> (r: Option<Capability>)
    ensures
        r == builtin_named(bytes@),
{
    reveal(builtin_named);
    if bytes_equal(bytes, "fs.read.user.documents".as_bytes()) {
        return Some(Capability::FsReadUserDocuments);
    }
    if bytes_equal(bytes, "fs.write.user.documents".as_bytes()) {
        return Some(Capability::FsWriteUserDocuments);
    }
    if bytes_equal(bytes, "fs.read.user.downloads".as_bytes()) {
        return Some(Capability::FsReadUserDownloads);
    }
    if bytes_equal(bytes, "fs.write.user.downloads".as_bytes()) {
        return Some(Capability::FsWriteUserDownloads);
    }
    if bytes_equal(bytes, "fs.read.user.desktop".as_bytes()) {
        return Some(Capability::FsReadUserDesktop);
    }
    if bytes_equal(bytes, "fs.write.user.desktop".as_bytes()) {
        return Some(Capability::FsWriteUserDesktop);
    }
    if bytes_equal(bytes, "fs.read.user.pictures".as_bytes()) {
        return Some(Capability::FsReadUserPictures);
    }
    if bytes_equal(bytes, "fs.write.user.pictures".as_bytes()) {
        return Some(Capability::FsWriteUserPictures);
    }
    if bytes_equal(bytes, "fs.read.user.music".as_bytes()) {
        return Some(Capability::FsReadUserMusic);
    }
    if bytes_equal(bytes, "fs.write.user.music".as_bytes()) {
        return Some(Capability::FsWriteUserMusic);
    }
    if bytes_equal(bytes, "fs.read.user.videos".as_bytes()) {
        return Some(Capability::FsReadUserVideos);
    }
    if bytes_equal(bytes, "fs.write.user.videos".as_bytes()) {
        return Some(Capability::FsWriteUserVideos);
    }
    if bytes_equal(bytes, "fs.read.user".as_bytes()) {
        return Some(Capability::FsReadUser);
    }
    if bytes_equal(bytes, "fs.write.user".as_bytes()) {
        return Some(Capability::FsWriteUser);
    }
    if bytes_equal(bytes, "fs.read.tmp".as_bytes()) {
        return Some(Capability::FsReadTmp);
    }
    if bytes_equal(bytes, "fs.write.tmp".as_bytes()) {
        return Some(Capability::FsWriteTmp);
    }
    if bytes_equal(bytes, "fs.read.removable".as_bytes()) {
        return Some(Capability::FsReadRemovable);
    }
    if bytes_equal(bytes, "fs.write.removable".as_bytes()) {
        return Some(Capability::FsWriteRemovable);
    }
    if bytes_equal(bytes, "fs.read.all".as_bytes()) {
        return Some(Capability::FsReadAll);
    }
    if bytes_equal(bytes, "fs.write.all".as_bytes()) {
        return Some(Capability::FsWriteAll);
    }
    if bytes_equal(bytes, "ipc.client".as_bytes()) {
        return Some(Capability::IpcClient);
    }
    if bytes_equal(bytes, "ipc.server".as_bytes()) {
        return Some(Capability::IpcServer);
    }
    if bytes_equal(bytes, "process.spawn".as_bytes()) {
        return Some(Capability::ProcessSpawn);
    }
    if bytes_equal(bytes, "process.inspect".as_bytes()) {
        return Some(Capability::ProcessInspect);
    }
    if bytes_equal(bytes, "process.kill".as_bytes()) {
        return Some(Capability::ProcessKill);
    }
    if bytes_equal(bytes, "display.read".as_bytes()) {
        return Some(Capability::DisplayRead);
    }
    if bytes_equal(bytes, "usb.access".as_bytes()) {
        return Some(Capability::UsbAccess);
    }
    if bytes_equal(bytes, "serial.access".as_bytes()) {
        return Some(Capability::SerialAccess);
    }
    if bytes_equal(bytes, "system.time.read".as_bytes()) {
        return Some(Capability::SystemTimeRead);
    }
    if bytes_equal(bytes, "system.random.read".as_bytes()) {
        return Some(Capability::SystemRandomRead);
    }
    if bytes_equal(bytes, "service.register".as_bytes()) {
        return Some(Capability::ServiceRegister);
    }
    if bytes_equal(bytes, "dma.allocate".as_bytes()) {
        return Some(Capability::DmaAllocate);
    }
    if bytes_equal(bytes, "memory.phys.map".as_bytes()) {
        return Some(Capability::MemoryPhysMap);
    }
    if bytes_equal(bytes, "memory.phys.translate".as_bytes()) {
        return Some(Capability::MemoryPhysTranslate);
    }
    if bytes_equal(bytes, "kernel.debug".as_bytes()) {
        return Some(Capability::KernelDebug);
    }
    if bytes_equal(bytes, "device.gpu".as_bytes()) {
        return Some(Capability::DeviceGpu);
    }
    if bytes_equal(bytes, "device.input".as_bytes()) {
        return Some(Capability::DeviceInput);
    }
    if bytes_equal(bytes, "device.storage".as_bytes()) {
        return Some(Capability::DeviceStorage);
    }
    if bytes_equal(bytes, "device.net".as_bytes()) {
        return Some(Capability::DeviceNet);
    }
    if bytes_equal(bytes, "settings.read".as_bytes()) {
        return Some(Capability::SettingsRead);
    }
    if bytes_equal(bytes, "settings.write".as_bytes()) {
        return Some(Capability::SettingsWrite);
    }
    if bytes_equal(bytes, "capabilities.manage".as_bytes()) {
        return Some(Capability::CapabilitiesManage);
    }
    if bytes_equal(bytes, "unsandboxed".as_bytes()) {
        return Some(Capability::Unsandboxed);
    }
    if bytes_equal(bytes, "developer.profile".as_bytes()) {
        return Some(Capability::DeveloperProfile);
    }
    if bytes_equal(bytes, "signature.db.read".as_bytes()) {
        return Some(Capability::SignatureRead);
    }
    if bytes_equal(bytes, "signature.db.write".as_bytes()) {
        return Some(Capability::SignatureWrite);
    }
    None
}

fn builtin_name_of(c: Capability) -> (r: Option<&'static str>)
    ensures
        r matches Some(s) ==> builtin_name(c) == Some(s.spec_bytes()),
        r is None ==> builtin_name(c) is None,
{
    match c {
        Capability::FsReadUserDocuments => Some("fs.read.user.documents"),
        Capability::FsWriteUserDocuments => Some("fs.write.user.documents"),
        Capability::FsReadUserDownloads => Some("fs.read.user.downloads"),
        Capability::FsWriteUserDownloads => Some("fs.write.user.downloads"),
        Capability::FsReadUserDesktop => Some("fs.read.user.desktop"),
        Capability::FsWriteUserDesktop => Some("fs.write.user.desktop"),
        Capability::FsReadUserPictures => Some("fs.read.user.pictures"),
        Capability::FsWriteUserPictures => Some("fs.write.user.pictures"),
        Capability::FsReadUserMusic => Some("fs.read.user.music"),
        Capability::FsWriteUserMusic => Some("fs.write.user.music"),
        Capability::FsReadUserVideos => Some("fs.read.user.videos"),
        Capability::FsWriteUserVideos => Some("fs.write.user.videos"),
        Capability::FsReadUser => Some("fs.read.user"),
        Capability::FsWriteUser => Some("fs.write.user"),
        Capability::FsReadTmp => Some("fs.read.tmp"),
        Capability::FsWriteTmp => Some("fs.write.tmp"),
        Capability::FsReadRemovable => Some("fs.read.removable"),
        Capability::FsWriteRemovable => Some("fs.write.removable"),
        Capability::FsReadAll => Some("fs.read.all"),
        Capability::FsWriteAll => Some("fs.write.all"),
        Capability::IpcClient => Some("ipc.client"),
        Capability::IpcServer => Some("ipc.server"),
        Capability::ProcessSpawn => Some("process.spawn"),
        Capability::ProcessInspect => Some("process.inspect"),
        Capability::ProcessKill => Some("process.kill"),
        Capability::DisplayRead => Some("display.read"),
        Capability::UsbAccess => Some("usb.access"),
        Capability::SerialAccess => Some("serial.access"),
        Capability::SystemTimeRead => Some("system.time.read"),
        Capability::SystemRandomRead => Some("system.random.read"),
        Capability::ServiceRegister => Some("service.register"),
        Capability::DmaAllocate => Some("dma.allocate"),
        Capability::MemoryPhysMap => Some("memory.phys.map"),
        Capability::MemoryPhysTranslate => Some("memory.phys.translate"),
        Capability::KernelDebug => Some("kernel.debug"),
        Capability::DeviceGpu => Some("device.gpu"),
        Capability::DeviceInput => Some("device.input"),
        Capability::DeviceStorage => Some("device.storage"),
        Capability::DeviceNet => Some("device.net"),
        Capability::SettingsRead => Some("settings.read"),
        Capability::SettingsWrite => Some("settings.write"),
        Capability::CapabilitiesManage => Some("capabilities.manage"),
        Capability::Unsandboxed => Some("unsandboxed"),
        Capability::DeveloperProfile => Some("developer.profile"),
        Capability::SignatureRead => Some("signature.db.read"),
        Capability::SignatureWrite => Some("signature.db.write"),
        Capability::Dynamic(_) => None,
    }
}

fn rank(c: Capability) -> (r: u64)
    ensures
        r == capability_rank(c),
{
    match c {
        Capability::FsReadUserDocuments => 0,
        Capability::FsWriteUserDocuments => 1,
        Capability::FsReadUserDownloads => 2,
        Capability::FsWriteUserDownloads => 3,
        Capability::FsReadUserDesktop => 4,
        Capability::FsWriteUserDesktop => 5,
        Capability::FsReadUserPictures => 6,
        Capability::FsWriteUserPictures => 7,
        Capability::FsReadUserMusic => 8,
        Capability::FsWriteUserMusic => 9,
        Capability::FsReadUserVideos => 10,
        Capability::FsWriteUserVideos => 11,
        Capability::FsReadUser => 12,
        Capability::FsWriteUser => 13,
        Capability::FsReadTmp => 14,
        Capability::FsWriteTmp => 15,
        Capability::FsReadRemovable => 16,
        Capability::FsWriteRemovable => 17,
        Capability::FsReadAll => 18,
        Capability::FsWriteAll => 19,
        Capability::IpcClient => 20,
        Capability::IpcServer => 21,
        Capability::ProcessSpawn => 22,
        Capability::ProcessInspect => 23,
        Capability::ProcessKill => 24,
        Capability::DisplayRead => 25,
        Capability::UsbAccess => 26,
        Capability::SerialAccess => 27,
        Capability::SystemTimeRead => 28,
        Capability::SystemRandomRead => 29,
        Capability::ServiceRegister => 30,
        Capability::DmaAllocate => 31,
        Capability::MemoryPhysMap => 32,
        Capability::MemoryPhysTranslate => 33,
        Capability::KernelDebug => 34,
        Capability::DeviceGpu => 35,
        Capability::DeviceInput => 36,
        Capability::DeviceStorage => 37,
        Capability::DeviceNet => 38,
        Capability::SettingsRead => 39,
        Capability::SettingsWrite => 40,
        Capability::CapabilitiesManage => 41,
        Capability::Unsandboxed => 42,
        Capability::DeveloperProfile => 43,
        Capability::SignatureRead => 44,
        Capability::SignatureWrite => 45,
        Capability::Dynamic(id) => 46 + id as u64,
    }
}

/// Built-in capabilities are named exactly by the names `builtin_named` reads.
pub proof fn lemma_builtin_named_inverse(name: Seq<u8>)
    ensures
        builtin_named(name) matches Some(c) ==> builtin_name(c) == Some(name),
{
    reveal(builtin_named);
}

/// Kernel object a right is bound to.
#[derive(Clone, Copy, Debug, PartialEq, Eq, Structural, Hash, PartialOrd, Ord)]
pub enum KernelObjectRef {
    Process(u64),
    Thread(u64),
    IpcEndpoint(u64),
    VmObject(u64),
    MmioRegion { base: u64, size: u64 },
    IrqLine(u32),
    CextInstance(u64),
    DeviceHandle(u64),
}

/// A kernel capability bound to the object it applies to.
#[derive(Clone, Copy, Debug, PartialEq, Eq, Structural, Hash, PartialOrd, Ord)]
pub struct KernelAuthority {
    pub capability: KernelCapability,
    pub object: KernelObjectRef,
}

impl KernelAuthority {
    pub fn new(capability: KernelCapability, object: KernelObjectRef) -> (a: Self)
        ensures
            a == (KernelAuthority { capability, object }),
    {
        KernelAuthority { capability, object }
    }
}

/// The unsigned number `raw` writes, ignoring surrounding white space:
/// hexadecimal after a `0x` or `0X` prefix, else decimal.
pub open spec fn parse_number(raw: Seq<u8>) -> Option<u64> {
    let t = trim(raw);
    if t.len() >= 2 && t[0] == 0x30 && (t[1] == 0x78 || t[1] == 0x58) {
        parse_unsigned(t.subrange(2, t.len() as int), 16)
    } else {
        parse_unsigned(t, 10)
    }
}

fn parse_u64_component(s: &[u8], start: usize, end: usize) -> (r: Option<u64>)
    requires
        start <= end <= s@.len(),
    ensures
        r == parse_number(s@.subrange(start as int, end as int)),
{
    let (from, to) = trim_range(s, start, end);
    let ghost t = s@.subrange(from as int, to as int);
    if to - from >= 2 && s[from] == 0x30 && (s[from + 1] == 0x78 || s[from + 1] == 0x58) {
        assert(t.subrange(2, t.len() as int) =~= s@.subrange(from + 2, to as int));
        parse_u64_radix(s, from + 2, to, 16)
    } else {
        parse_u64_radix(s, from, to, 10)
    }
}

/// Authority a textual specification `memory.phys.map@BASE:SIZE` grants: the
/// physical-map right over `SIZE` bytes at `BASE`, with a nonzero size.
pub open spec fn authority_from_spec(s: Seq<u8>) -> Option<KernelAuthority> {
    let prefix = "memory.phys.map@".spec_bytes();
    if !has_prefix(s, prefix) {
        None
    } else {
        let rest = s.subrange(prefix.len() as int, s.len() as int);
        match first_index_of(rest, 0x3a) {
            None => None,
            Some(i) => match (parse_number(rest.subrange(0, i)), parse_number(rest.subrange(i + 1, rest.len() as int))) {
                (Some(base), Some(size)) => if size == 0 {
                    None
                } else {
                    Some(KernelAuthority {
                        capability: KernelCapability::PhysMap,
                        object: KernelObjectRef::MmioRegion { base, size },
                    })
                },
                _ => None,
            },
        }
    }
}

pub fn parse_kernel_authority_spec(spec: &str) -> (r: Option<KernelAuthority>)
    ensures
        r == authority_from_spec(spec.spec_bytes()),
{
    let bytes = spec.as_bytes();
    let _length = bytes.len();
    let prefix = "memory.phys.map@".as_bytes();
    if !starts_with(bytes, prefix) {
        return None;
    }
    let start = prefix.len();
    let ghost rest = bytes@.subrange(start as int, bytes@.len() as int);
    let mut i: usize = start;
    let mut found = false;
    while !found && i < bytes.len()
        invariant
            start <= i <= bytes@.len(),
            rest == bytes@.subrange(start as int, bytes@.len() as int),
            forall|j: int| start <= j < i ==> bytes@[j] != 0x3a,
            found ==> i < bytes@.len() && bytes@[i as int] == 0x3a,
        decreases bytes@.len() - i, (if found { 0int } else { 1int }),
    {
        if bytes[i] == 0x3a {
            found = true;
        } else {
            i = i + 1;
        }
    }
    if !found {
        assert forall|j: int| 0 <= j < rest.len() implies rest[j] != 0x3a by {
            assert(rest[j] == bytes@[start + j]);
        }
        return None;
    }
    proof {
        assert(rest[i - start] == 0x3a);
        assert forall|j: int| 0 <= j < i - start implies rest[j] != 0x3a by {
            assert(rest[j] == bytes@[start + j]);
        }
        let k = first_index_of(rest, 0x3a)->0;
        assert(first_index_of(rest, 0x3a) is Some);
        if k < i - start {
            assert(rest[k] == 0x3a);
        } else if k > i - start {
            assert(rest[i - start] != 0x3a);
        }
        assert(rest.subrange(0, i - start) =~= bytes@.subrange(start as int, i as int));
        assert(rest.subrange(i - start + 1, rest.len() as int) =~= bytes@.subrange(i + 1, bytes@.len() as int));
    }
    assert(i < bytes@.len());
    let base = parse_u64_component(bytes, start, i)?;
    let size = parse_u64_component(bytes, i + 1, bytes.len())?;
    if size == 0 {
        return None;
    }
    Some(KernelAuthority::new(KernelCapability::PhysMap, KernelObjectRef::MmioRegion { base, size }))
}

/// Whether `parent` covers `child`: the same capability, and for memory
/// regions a child region inside the parent's, else the same object.
pub open spec fn authority_implies(parent: KernelAuthority, child: KernelAuthority) -> bool {
    parent.capability == child.capability && match (parent.object, child.object) {
        (KernelObjectRef::MmioRegion { base: pb, size: ps }, KernelObjectRef::MmioRegion { base: cb, size: cs }) =>
            pb + ps <= u64::MAX && cb + cs <= u64::MAX && cb >= pb && cb + cs <= pb + ps,
        _ => parent.object == child.object,
    }
}

pub fn kernel_authority_implies(parent: &KernelAuthority, child: &KernelAuthority) -> (r: bool)
    ensures
        r == authority_implies(*parent, *child),
{
    if parent.capability != child.capability {
        return false;
    }
    match (parent.object, child.object) {
        (KernelObjectRef::MmioRegion { base: parent_base, size: parent_size },
         KernelObjectRef::MmioRegion { base: child_base, size: child_size }) => {
            let parent_end = match parent_base.checked_add(parent_size) {
                Some(e) => e,
                None => return false,
            };
            let child_end = match child_base.checked_add(child_size) {
                Some(e) => e,
                None => return false,
            };
            child_base >= parent_base && child_end <= parent_end
        },
        _ => parent.object == child.object,
    }
}

/// Whether address `a` lies in the region of `size` bytes from `base`.
pub open spec fn in_region(base: u64, size: u64, a: int) -> bool {
    base <= a < base + size
}

/// A memory-region authority covers exactly the regions inside it: when
/// both regions end inside the address space, the parent implies the child
/// (with the same capability) just when every address of the child lies in
/// the parent. So a region covers itself and every sub-region, one starting
/// at its own base included. Authorities over other objects cover only
/// themselves.
pub proof fn lemma_mmio_authority_covers(capability: KernelCapability, pb: u64, ps: u64, cb: u64, cs: u64)
    requires
        pb + ps <= u64::MAX,
        cb + cs <= u64::MAX,
        cs > 0,
    ensures
        authority_implies(
            KernelAuthority { capability, object: KernelObjectRef::MmioRegion { base: pb, size: ps } },
            KernelAuthority { capability, object: KernelObjectRef::MmioRegion { base: cb, size: cs } },
        ) <==> (forall|a: int| #[trigger] in_region(cb, cs, a) ==> in_region(pb, ps, a)),
{
    if forall|a: int| #[trigger] in_region(cb, cs, a) ==> in_region(pb, ps, a) {
        assert(in_region(cb, cs, cb as int));
        assert(in_region(cb, cs, cb + cs - 1));
    }
}

/// Every authority covers itself when its region, if any, ends inside the
/// address space.
pub proof fn lemma_authority_reflexive(a: KernelAuthority)
    requires
        a.object matches KernelObjectRef::MmioRegion { base, size } ==> base + size <= u64::MAX,
    ensures
        authority_implies(a, a),
{
}

/// Whether `name` may name a capability: 1 to 512 bytes of lowercase
/// letters, digits, `.`, `_` and `-`, starting and ending with a letter or
/// digit, without two dots in a row.
pub open spec fn valid_name(name: Seq<u8>) -> bool {
    &&& 0 < name.len() <= 512
    &&& name_end_byte(name[0])
    &&& name_end_byte(name.last())
    &&& forall|i: int| 0 <= i < name.len() - 1 ==> !(name[i] == 0x2e && #[trigger] name[i + 1] == 0x2e)
    &&& forall|i: int| 0 <= i < name.len() ==> #[trigger] name_byte(name[i])
}

pub open spec fn name_end_byte(b: u8) -> bool {
    (0x61 <= b && b <= 0x7a) || (0x30 <= b && b <= 0x39)
}

pub open spec fn name_byte(b: u8) -> bool {
    name_end_byte(b) || b == 0x2e || b == 0x5f || b == 0x2d
}

fn valid_capability_name(name: &[u8]) -> (r: bool)
    ensures
        r == valid_name(name@),
{
    let n = name.len();
    if n == 0 || n > 512 {
        return false;
    }
    let first = name[0];
    let last = name[n - 1];
    if !(((0x61 <= first && first <= 0x7a) || (0x30 <= first && first <= 0x39))
        && ((0x61 <= last && last <= 0x7a) || (0x30 <= last && last <= 0x39))) {
        return false;
    }
    let mut i: usize = 0;
    while i < n
        invariant
            i <= n,
            n == name@.len(),
            forall|j: int| 0 <= j < i ==> #[trigger] name_byte(name@[j]),
            forall|j: int| 0 <= j < i - 1 ==> !(name@[j] == 0x2e && #[trigger] name@[j + 1] == 0x2e),
        decreases n - i,
    {
        let b = name[i];
        if !(((0x61 <= b && b <= 0x7a) || (0x30 <= b && b <= 0x39)) || b == 0x2e || b == 0x5f || b == 0x2d) {
            assert(!name_byte(name@[i as int]));
            return false;
        }
        if i > 0 && b == 0x2e && name[i - 1] == 0x2e {
            assert(name@[(i - 1) + 1] == 0x2e);
            return false;
        }
        i = i + 1;
    }
    true
}

/// Names of the dynamic capabilities, numbered by position.
pub struct DynamicCapabilityRegistry {
    names: Vec<Vec<u8>>,
}

pub const MAX_DYNAMIC_CAPABILITIES: usize = 4096;

/// Position of `name` in `names`, if it is there.
pub open spec fn position_of(names: Seq<Seq<u8>>, name: Seq<u8>) -> Option<nat> {
    if exists|i: int| 0 <= i < names.len() && names[i] == name {
        Some((choose|i: int| 0 <= i < names.len() && names[i] == name) as nat)
    } else {
        None
    }
}

/// Capability `name` denotes among built-in and registered dynamic ones.
pub open spec fn lookup_spec(names: Seq<Seq<u8>>, name: Seq<u8>) -> Option<Capability> {
    match builtin_named(name) {
        Some(c) => Some(c),
        None => if !valid_name(name) {
            None
        } else {
            match position_of(names, name) {
                Some(i) => Some(Capability::Dynamic(i as u32)),
                None => None,
            }
        },
    }
}

/// Capability `name` denotes once interned, and the registry afterwards: a
/// valid name that is neither built in nor registered is registered under
/// the next number while fewer than the maximum are.
#[verifier::opaque]
pub open spec fn intern_spec(names: Seq<Seq<u8>>, name: Seq<u8>) -> (Option<Capability>, Seq<Seq<u8>>) {
    if !valid_name(name) {
        (None, names)
    } else if builtin_named(name) is Some {
        (builtin_named(name), names)
    } else if position_of(names, name) is Some {
        (Some(Capability::Dynamic(position_of(names, name)->0 as u32)), names)
    } else if names.len() >= 4096 {
        (None, names)
    } else {
        (Some(Capability::Dynamic(names.len() as u32)), names.push(name))
    }
}

/// Interning settles a name: interning it again gives the same answer and
/// leaves the registry as it is, and once interned the name is found again
/// under what interning gave.
pub proof fn lemma_intern_settles(names: Seq<Seq<u8>>, name: Seq<u8>)
    requires
        names.no_duplicates(),
        names.len() <= 4096,
    ensures
        intern_spec(intern_spec(names, name).1, name) == intern_spec(names, name),
        intern_spec(names, name).0 is Some ==> lookup_spec(intern_spec(names, name).1, name) == intern_spec(names, name).0,
{
    reveal(intern_spec);
    if valid_name(name) && builtin_named(name) is None && position_of(names, name) is None && names.len() < 4096 {
        let grown = names.push(name);
        assert(grown[names.len() as int] == name);
        let i = choose|i: int| 0 <= i < grown.len() && grown[i] == name;
        if i < names.len() {
            assert(names[i] == name);
        }
        assert(position_of(grown, name) == Some(names.len()));
    }
}

impl DynamicCapabilityRegistry {
    pub closed spec fn names(&self) -> Seq<Seq<u8>> {
        self.names@.map_values(|n: Vec<u8>| n@)
    }

    /// No name is registered twice, and no more than the maximum are.
    pub closed spec fn wf(&self) -> bool {
        &&& self.names().no_duplicates()
        &&& self.names().len() <= 4096
    }

    pub fn new() -> (r: Self)
        ensures
            r.wf(),
            r.names() == Seq::<Seq<u8>>::empty(),
    {
        let r = DynamicCapabilityRegistry { names: Vec::new() };
        assert(r.names() =~= Seq::<Seq<u8>>::empty());
        r
    }

    fn position(&self, name: &[u8]) -> (r: Option<usize>)
        requires
            self.wf(),
        ensures
            r == (match position_of(self.names(), name@) {
                Some(i) => Some(i as usize),
                None => None::<usize>,
            }),
            r matches Some(i) ==> i < 4096,
    {
        let mut i: usize = 0;
        while i < self.names.len()
            invariant
                i <= self.names@.len(),
                self.wf(),
                forall|j: int| 0 <= j < i ==> self.names()[j] != name@,
            decreases self.names@.len() - i,
        {
            if bytes_equal(self.names[i].as_slice(), name) {
                proof {
                    assert(self.names()[i as int] == name@);
                    let k = choose|k: int| 0 <= k < self.names().len() && self.names()[k] == name@;
                    if k != i {
                        assert(self.names()[k] == self.names()[i as int]);
                    }
                }
                return Some(i);
            }
            i = i + 1;
        }
        None
    }
}

impl Capability {
    /// The capability `s` names, among built-in ones and those registered.
    pub fn from_str(s: &str, registry: &DynamicCapabilityRegistry) -> (r: Option<Self>)
        requires
            registry.wf(),
        ensures
            r == lookup_spec(registry.names(), s.spec_bytes()),
    {
        let bytes = s.as_bytes();
        if let Some(c) = builtin_capability(bytes) {
            return Some(c);
        }
        if !valid_capability_name(bytes) {
            return None;
        }
        match registry.position(bytes) {
            Some(i) => Some(Capability::Dynamic(i as u32)),
            None => None,
        }
    }

    /// The capability `s` names, registering it as a new dynamic one when it
    /// is a valid name not yet known.
    pub fn intern(s: &str, registry: &mut DynamicCapabilityRegistry) -> (r: Option<Self>)
        requires
            old(registry).wf(),
        ensures
            final(registry).wf(),
            (r, final(registry).names()) == intern_spec(old(registry).names(), s.spec_bytes()),
    {
        Self::intern_bytes(s.as_bytes(), registry)
    }

    /// `intern` on the UTF-8 bytes of a name.
    pub fn intern_bytes(bytes: &[u8], registry: &mut DynamicCapabilityRegistry) -> (r: Option<Self>)
        requires
            old(registry).wf(),
        ensures
            final(registry).wf(),
            (r, final(registry).names()) == intern_spec(old(registry).names(), bytes@),
    {
        reveal(intern_spec);
        if !valid_capability_name(bytes) {
            return None;
        }
        if let Some(c) = builtin_capability(bytes) {
            return Some(c);
        }
        if let Some(i) = registry.position(bytes) {
            return Some(Capability::Dynamic(i as u32));
        }
        if registry.names.len() >= MAX_DYNAMIC_CAPABILITIES {
            return None;
        }
        let id = registry.names.len() as u32;
        let owned = slice_to_vec(bytes);
        let ghost before = registry.names();
        registry.names.push(owned);
        proof {
            assert(registry.names() =~= before.push(bytes@));
            assert(!before.contains(bytes@)) by {
                if before.contains(bytes@) {
                    let k = choose|k: int| 0 <= k < before.len() && before[k] == bytes@;
                    assert(position_of(before, bytes@) is Some);
                }
            }
            assert(registry.names().no_duplicates()) by {
                assert forall|a: int, b: int| 0 <= a < b < registry.names().len() implies registry.names()[a] != registry.names()[b] by {
                    if b == before.len() {
                        assert(before[a] != bytes@);
                    }
                }
            }
        }
        Some(Capability::Dynamic(id))
    }

    /// Whether a holder may hand this capability on to another process.
    pub fn is_delegable(&self) -> (r: bool)
        ensures
            r == delegable(*self),
    {
        matches!(
            self,
            Capability::FsReadUserDocuments
                | Capability::FsWriteUserDocuments
                | Capability::FsReadUserDownloads
                | Capability::FsWriteUserDownloads
                | Capability::FsReadUserDesktop
                | Capability::FsWriteUserDesktop
                | Capability::FsReadUserPictures
                | Capability::FsWriteUserPictures
                | Capability::FsReadUserMusic
                | Capability::FsWriteUserMusic
                | Capability::FsReadUserVideos
                | Capability::FsWriteUserVideos
                | Capability::FsReadUser
                | Capability::FsWriteUser
                | Capability::FsReadTmp
                | Capability::FsWriteTmp
                | Capability::FsReadRemovable
                | Capability::FsWriteRemovable
                | Capability::DisplayRead
                | Capability::SystemTimeRead
                | Capability::SettingsRead
                | Capability::Dynamic(_)
        )
    }

    /// Every built-in capability, in declaration order.
    pub fn bootstrap_capabilities() -> (r: Vec<Capability>)
        ensures
            r@ == bootstrap_sequence(),
    {
        let mut v: Vec<Capability> = Vec::new();
        let mut i: u64 = 0;
        while i < 46
            invariant
                i <= 46,
                v@ == bootstrap_sequence().take(i as int),
            decreases 46 - i,
        {
            let c = capability_at_rank(i);
            v.push(c);
            i = i + 1;
            assert(v@ =~= bootstrap_sequence().take(i as int));
        }
        assert(bootstrap_sequence().take(46) =~= bootstrap_sequence());
        v
    }
}

fn slice_to_vec(bytes: &[u8]) -> (v: Vec<u8>)
    ensures
        v@ == bytes@,
{
    let mut v: Vec<u8> = Vec::new();
    let mut i: usize = 0;
    while i < bytes.len()
        invariant
            i <= bytes@.len(),
            v@ == bytes@.take(i as int),
        decreases bytes@.len() - i,
    {
        v.push(bytes[i]);
        i = i + 1;
        assert(v@ =~= bytes@.take(i as int));
    }
    assert(bytes@.take(bytes@.len() as int) =~= bytes@);
    v
}

/// Capabilities a holder may hand on.
pub open spec fn delegable(c: Capability) -> bool {
    match c {
        Capability::FsReadUserDocuments | Capability::FsWriteUserDocuments | Capability::FsReadUserDownloads
        | Capability::FsWriteUserDownloads | Capability::FsReadUserDesktop | Capability::FsWriteUserDesktop
        | Capability::FsReadUserPictures | Capability::FsWriteUserPictures | Capability::FsReadUserMusic
        | Capability::FsWriteUserMusic | Capability::FsReadUserVideos | Capability::FsWriteUserVideos
        | Capability::FsReadUser | Capability::FsWriteUser | Capability::FsReadTmp | Capability::FsWriteTmp
        | Capability::FsReadRemovable | Capability::FsWriteRemovable | Capability::DisplayRead
        | Capability::SystemTimeRead | Capability::SettingsRead | Capability::Dynamic(_) => true,
        _ => false,
    }
}

/// The user-folder read rights `fs.read.user` covers.
pub open spec fn user_read(c: Capability) -> bool {
    c == Capability::FsReadUserDocuments || c == Capability::FsReadUserDownloads || c == Capability::FsReadUserDesktop
        || c == Capability::FsReadUserPictures || c == Capability::FsReadUserMusic || c == Capability::FsReadUserVideos
}

/// The user-folder write rights `fs.write.user` covers.
pub open spec fn user_write(c: Capability) -> bool {
    c == Capability::FsWriteUserDocuments || c == Capability::FsWriteUserDownloads || c == Capability::FsWriteUserDesktop
        || c == Capability::FsWriteUserPictures || c == Capability::FsWriteUserMusic || c == Capability::FsWriteUserVideos
}

/// Whether holding `parent` grants `child`: every right covers itself,
/// `unsandboxed` covers everything, `fs.read.all` covers every narrower read
/// right, `fs.read.user` the user-folder reads, and likewise for writes.
pub open spec fn implies_spec(parent: Capability, child: Capability) -> bool {
    if parent == child {
        true
    } else {
        match parent {
            Capability::Unsandboxed => true,
            Capability::FsReadAll => child == Capability::FsReadUser || user_read(child) || child == Capability::FsReadTmp
                || child == Capability::FsReadRemovable,
            Capability::FsWriteAll => child == Capability::FsWriteUser || user_write(child) || child == Capability::FsWriteTmp
                || child == Capability::FsWriteRemovable,
            Capability::FsReadUser => user_read(child),
            Capability::FsWriteUser => user_write(child),
            _ => false,
        }
    }
}

pub fn capability_implies(parent: Capability, child: Capability) -> (r: bool)
    ensures
        r == implies_spec(parent, child),
{
    if parent == child {
        return true;
    }
    match parent {
        Capability::Unsandboxed => true,
        Capability::FsReadAll => matches!(
            child,
            Capability::FsReadUser | Capability::FsReadUserDocuments | Capability::FsReadUserDownloads
                | Capability::FsReadUserDesktop | Capability::FsReadUserPictures | Capability::FsReadUserMusic
                | Capability::FsReadUserVideos | Capability::FsReadTmp | Capability::FsReadRemovable
        ),
        Capability::FsWriteAll => matches!(
            child,
            Capability::FsWriteUser | Capability::FsWriteUserDocuments | Capability::FsWriteUserDownloads
                | Capability::FsWriteUserDesktop | Capability::FsWriteUserPictures | Capability::FsWriteUserMusic
                | Capability::FsWriteUserVideos | Capability::FsWriteTmp | Capability::FsWriteRemovable
        ),
        Capability::FsReadUser => matches!(
            child,
            Capability::FsReadUserDocuments | Capability::FsReadUserDownloads | Capability::FsReadUserDesktop
                | Capability::FsReadUserPictures | Capability::FsReadUserMusic | Capability::FsReadUserVideos
        ),
        Capability::FsWriteUser => matches!(
            child,
            Capability::FsWriteUserDocuments | Capability::FsWriteUserDownloads | Capability::FsWriteUserDesktop
                | Capability::FsWriteUserPictures | Capability::FsWriteUserMusic | Capability::FsWriteUserVideos
        ),
        _ => false,
    }
}

/// Implication between capabilities is reflexive and transitive.
pub proof fn lemma_implies_preorder(a: Capability, b: Capability, c: Capability)
    ensures
        implies_spec(a, a),
        implies_spec(a, b) && implies_spec(b, c) ==> implies_spec(a, c),
{
}

/// What each broad right grants, besides itself: `unsandboxed` every right;
/// `fs.read.all` the user, user-folder, temporary and removable read rights;
/// `fs.write.all` the same write rights; `fs.read.user` and `fs.write.user`
/// the six user-folder rights of their kind; any other right nothing else.
pub proof fn lemma_implication_table(p: Capability, c: Capability)
    ensures
        implies_spec(p, p),
        implies_spec(Capability::Unsandboxed, c),
        implies_spec(Capability::FsReadAll, c) <==> (c == Capability::FsReadAll || c == Capability::FsReadUser
            || c == Capability::FsReadUserDocuments || c == Capability::FsReadUserDownloads || c == Capability::FsReadUserDesktop || c == Capability::FsReadUserPictures || c == Capability::FsReadUserMusic || c == Capability::FsReadUserVideos || c == Capability::FsReadTmp || c == Capability::FsReadRemovable),
        implies_spec(Capability::FsWriteAll, c) <==> (c == Capability::FsWriteAll || c == Capability::FsWriteUser
            || c == Capability::FsWriteUserDocuments || c == Capability::FsWriteUserDownloads || c == Capability::FsWriteUserDesktop || c == Capability::FsWriteUserPictures || c == Capability::FsWriteUserMusic || c == Capability::FsWriteUserVideos || c == Capability::FsWriteTmp || c == Capability::FsWriteRemovable),
        implies_spec(Capability::FsReadUser, c) <==> (c == Capability::FsReadUser || c == Capability::FsReadUserDocuments || c == Capability::FsReadUserDownloads || c == Capability::FsReadUserDesktop || c == Capability::FsReadUserPictures || c == Capability::FsReadUserMusic || c == Capability::FsReadUserVideos),
        implies_spec(Capability::FsWriteUser, c) <==> (c == Capability::FsWriteUser || c == Capability::FsWriteUserDocuments || c == Capability::FsWriteUserDownloads || c == Capability::FsWriteUserDesktop || c == Capability::FsWriteUserPictures || c == Capability::FsWriteUserMusic || c == Capability::FsWriteUserVideos),
        p != Capability::Unsandboxed && p != Capability::FsReadAll && p != Capability::FsWriteAll
            && p != Capability::FsReadUser && p != Capability::FsWriteUser ==> (implies_spec(p, c) <==> p == c),
{
}

/// Capability at position `rank` among the built-in ones.
fn capability_at_rank(rank: u64) -> (c: Capability)
    requires
        rank < 46,
    ensures
        c == bootstrap_sequence()[rank as int],
        capability_rank(c) == rank,
{
    if rank == 0 {
        Capability::FsReadUserDocuments
    } else if rank == 1 {
        Capability::FsWriteUserDocuments
    } else if rank == 2 {
        Capability::FsReadUserDownloads
    } else if rank == 3 {
        Capability::FsWriteUserDownloads
    } else if rank == 4 {
        Capability::FsReadUserDesktop
    } else if rank == 5 {
        Capability::FsWriteUserDesktop
    } else if rank == 6 {
        Capability::FsReadUserPictures
    } else if rank == 7 {
        Capability::FsWriteUserPictures
    } else if rank == 8 {
        Capability::FsReadUserMusic
    } else if rank == 9 {
        Capability::FsWriteUserMusic
    } else if rank == 10 {
        Capability::FsReadUserVideos
    } else if rank == 11 {
        Capability::FsWriteUserVideos
    } else if rank == 12 {
        Capability::FsReadUser
    } else if rank == 13 {
        Capability::FsWriteUser
    } else if rank == 14 {
        Capability::FsReadTmp
    } else if rank == 15 {
        Capability::FsWriteTmp
    } else if rank == 16 {
        Capability::FsReadRemovable
    } else if rank == 17 {
        Capability::FsWriteRemovable
    } else if rank == 18 {
        Capability::FsReadAll
    } else if rank == 19 {
        Capability::FsWriteAll
    } else if rank == 20 {
        Capability::IpcClient
    } else if rank == 21 {
        Capability::IpcServer
    } else if rank == 22 {
        Capability::ProcessSpawn
    } else if rank == 23 {
        Capability::ProcessInspect
    } else if rank == 24 {
        Capability::ProcessKill
    } else if rank == 25 {
        Capability::DisplayRead
    } else if rank == 26 {
        Capability::UsbAccess
    } else if rank == 27 {
        Capability::SerialAccess
    } else if rank == 28 {
        Capability::SystemTimeRead
    } else if rank == 29 {
        Capability::SystemRandomRead
    } else if rank == 30 {
        Capability::ServiceRegister
    } else if rank == 31 {
        Capability::DmaAllocate
    } else if rank == 32 {
        Capability::MemoryPhysMap
    } else if rank == 33 {
        Capability::MemoryPhysTranslate
    } else if rank == 34 {
        Capability::KernelDebug
    } else if rank == 35 {
        Capability::DeviceGpu
    } else if rank == 36 {
        Capability::DeviceInput
    } else if rank == 37 {
        Capability::DeviceStorage
    } else if rank == 38 {
        Capability::DeviceNet
    } else if rank == 39 {
        Capability::SettingsRead
    } else if rank == 40 {
        Capability::SettingsWrite
    } else if rank == 41 {
        Capability::CapabilitiesManage
    } else if rank == 42 {
        Capability::Unsandboxed
    } else if rank == 43 {
        Capability::DeveloperProfile
    } else if rank == 44 {
        Capability::SignatureRead
    } else {
        Capability::SignatureWrite
    }
}

/// A set of capabilities, kept in rank order without repeats.
pub struct CapabilitySet {
    caps: Vec<Capability>,
}

/// Failure to read a list of capability names.
#[derive(Clone, Debug, PartialEq, Eq)]
pub enum CapabilityParseError {
    InvalidCapability { name: String },
}

/// Whether `s` is in strictly increasing rank order.
pub open spec fn rank_sorted(s: Seq<Capability>) -> bool {
    forall|i: int, j: int| 0 <= i < j < s.len() ==> capability_rank(#[trigger] s[i]) < capability_rank(#[trigger] s[j])
}

proof fn lemma_rank_injective(a: Capability, b: Capability)
    ensures
        capability_rank(a) == capability_rank(b) ==> a == b,
{
}

proof fn lemma_sorted_unique(s: Seq<Capability>)
    requires
        rank_sorted(s),
    ensures
        s.no_duplicates(),
        s.to_set().len() == s.len(),
{
    assert(s.no_duplicates()) by {
        assert forall|i: int, j: int| 0 <= i < s.len() && 0 <= j < s.len() && i != j implies s[i] != s[j] by {
            if i < j {
                assert(capability_rank(s[i]) < capability_rank(s[j]));
            } else {
                assert(capability_rank(s[j]) < capability_rank(s[i]));
            }
        }
    }
    s.unique_seq_to_set();
}

/// Sets of names read as capabilities in turn, from `names` onwards: the set
/// read so far, or the position of the first name that is refused; and the
/// registry afterwards.
pub open spec fn intern_all(names: Seq<Seq<u8>>, list: Seq<Seq<u8>>) -> (Result<Set<Capability>, int>, Seq<Seq<u8>>)
    decreases list.len(),
{
    if list.len() == 0 {
        (Ok(Set::empty()), names)
    } else {
        let (before, registry) = intern_all(names, list.drop_last());
        match before {
            Err(k) => (Err(k), registry),
            Ok(set) => {
                let (c, after) = intern_spec(registry, list.last());
                match c {
                    None => (Err(list.len() - 1), after),
                    Some(c) => (Ok(set.insert(c)), after),
                }
            },
        }
    }
}

impl CapabilitySet {
    /// The members, in rank order.
    pub closed spec fn members(&self) -> Seq<Capability> {
        self.caps@
    }

    pub open spec fn view_set(&self) -> Set<Capability> {
        self.members().to_set()
    }

    #[verifier::type_invariant]
    spec fn sorted(self) -> bool {
        rank_sorted(self.caps@)
    }

    /// Whether some member implies `cap`.
    pub open spec fn implies_spec(&self, cap: Capability) -> bool {
        exists|p: Capability| self.view_set().contains(p) && implies_spec(p, cap)
    }

    pub fn empty() -> (s: Self)
        ensures
            s.view_set() == Set::<Capability>::empty(),
    {
        let s = CapabilitySet { caps: Vec::new() };
        assert(s.members().to_set() =~= Set::<Capability>::empty());
        s
    }

    /// Position at which `cap` is or would be kept.
    fn slot(&self, cap: Capability) -> (r: usize)
        ensures
            r <= self.members().len(),
            forall|i: int| 0 <= i < r ==> capability_rank(#[trigger] self.members()[i]) < capability_rank(cap),
            forall|i: int| r <= i < self.members().len() ==> capability_rank(#[trigger] self.members()[i]) >= capability_rank(cap),
    {
        proof {
            use_type_invariant(self);
        }
        let key = rank(cap);
        let mut i: usize = 0;
        while i < self.caps.len()
            invariant
                i <= self.caps@.len(),
                rank_sorted(self.caps@),
                key == capability_rank(cap),
                forall|j: int| 0 <= j < i ==> capability_rank(#[trigger] self.caps@[j]) < capability_rank(cap),
            decreases self.caps@.len() - i,
        {
            if rank(self.caps[i]) >= key {
                assert forall|j: int| i <= j < self.caps@.len() implies capability_rank(#[trigger] self.caps@[j]) >= capability_rank(cap) by {
                    if j > i {
                        assert(capability_rank(self.caps@[i as int]) < capability_rank(self.caps@[j]));
                    }
                }
                return i;
            }
            i = i + 1;
        }
        i
    }

    pub fn insert(&mut self, cap: Capability)
        ensures
            final(self).view_set() == old(self).view_set().insert(cap),
    {
        proof {
            use_type_invariant(&*self);
        }
        let at = self.slot(cap);
        if at < self.caps.len() && self.caps[at] == cap {
            assert(old(self).view_set().insert(cap) =~= old(self).view_set()) by {
                assert(self.caps@[at as int] == cap);
            }
            return;
        }
        let ghost before = self.caps@;
        proof {
            if at < before.len() {
                assert(capability_rank(before[at as int]) != capability_rank(cap)) by {
                    if capability_rank(before[at as int]) == capability_rank(cap) {
                        lemma_rank_injective(before[at as int], cap);
                    }
                }
            }
        }
        let mut caps = Vec::new();
        std::mem::swap(&mut caps, &mut self.caps);
        caps.insert(at, cap);
        proof {
            assert(caps@ == before.insert(at as int, cap));
            assert(rank_sorted(caps@)) by {
                assert forall|i: int, j: int| 0 <= i < j < caps@.len() implies capability_rank(#[trigger] caps@[i]) < capability_rank(#[trigger] caps@[j]) by {
                    if j < at {
                    } else if j == at {
                    } else if i < at {
                        assert(caps@[j] == before[j - 1]);
                    } else if i == at {
                        assert(caps@[j] == before[j - 1]);
                    } else {
                        assert(caps@[i] == before[i - 1] && caps@[j] == before[j - 1]);
                    }
                }
            }
            assert(caps@.to_set() =~= before.to_set().insert(cap)) by {
                assert forall|x: Capability| caps@.to_set().contains(x) <==> before.to_set().insert(cap).contains(x) by {
                    if caps@.contains(x) {
                        let k = choose|k: int| 0 <= k < caps@.len() && caps@[k] == x;
                        if k < at {
                            assert(before[k] == x);
                        } else if k > at {
                            assert(before[k - 1] == x);
                        }
                    }
                    if before.contains(x) {
                        let k = choose|k: int| 0 <= k < before.len() && before[k] == x;
                        if k < at {
                            assert(caps@[k] == x);
                        } else {
                            assert(caps@[k + 1] == x);
                        }
                    }
                    if x == cap {
                        assert(caps@[at as int] == cap);
                    }
                }
            }
        }
        self.caps = caps;
    }

    /// Removes `cap`; whether it was a member.
    pub fn remove(&mut self, cap: Capability) -> (r: bool)
        ensures
            r == old(self).view_set().contains(cap),
            final(self).view_set() == old(self).view_set().remove(cap),
    {
        proof {
            use_type_invariant(&*self);
        }
        let at = self.slot(cap);
        let ghost before = self.caps@;
        if !(at < self.caps.len() && self.caps[at] == cap) {
            proof {
                assert(!before.contains(cap)) by {
                    if before.contains(cap) {
                        let k = choose|k: int| 0 <= k < before.len() && before[k] == cap;
                        if k > at {
                            assert(capability_rank(before[at as int]) < capability_rank(before[k]));
                        } else if k == at {
                        }
                    }
                }
                assert(before.to_set().remove(cap) =~= before.to_set());
            }
            return false;
        }
        let mut caps = Vec::new();
        std::mem::swap(&mut caps, &mut self.caps);
        let _ = caps.remove(at);
        proof {
            lemma_sorted_unique(before);
            assert(caps@ == before.remove(at as int));
            assert(rank_sorted(caps@)) by {
                assert forall|i: int, j: int| 0 <= i < j < caps@.len() implies capability_rank(#[trigger] caps@[i]) < capability_rank(#[trigger] caps@[j]) by {
                    if i < at && j >= at {
                        assert(caps@[j] == before[j + 1]);
                    } else if i >= at {
                        assert(caps@[i] == before[i + 1] && caps@[j] == before[j + 1]);
                    }
                }
            }
            assert(caps@.to_set() =~= before.to_set().remove(cap)) by {
                assert forall|x: Capability| caps@.to_set().contains(x) <==> before.to_set().remove(cap).contains(x) by {
                    if caps@.contains(x) {
                        let k = choose|k: int| 0 <= k < caps@.len() && caps@[k] == x;
                        if k < at {
                            assert(before[k] == x);
                            assert(k != at);
                        } else {
                            assert(before[k + 1] == x);
                        }
                    }
                    if before.contains(x) && x != cap {
                        let k = choose|k: int| 0 <= k < before.len() && before[k] == x;
                        if k < at {
                            assert(caps@[k] == x);
                        } else if k > at {
                            assert(caps@[k - 1] == x);
                        }
                    }
                }
            }
        }
        self.caps = caps;
        true
    }

    pub fn len(&self) -> (n: usize)
        ensures
            n == self.view_set().len(),
    {
        proof {
            use_type_invariant(self);
            lemma_sorted_unique(self.caps@);
        }
        self.caps.len()
    }

    pub fn is_empty(&self) -> (r: bool)
        ensures
            r == (self.view_set().len() == 0),
    {
        proof {
            use_type_invariant(self);
            lemma_sorted_unique(self.caps@);
        }
        self.caps.len() == 0
    }

    /// The members in rank order.
    pub fn iter(&self) -> (v: Vec<Capability>)
        ensures
            v@ == self.members(),
            v@.to_set() == self.view_set(),
            rank_sorted(v@),
    {
        proof {
            use_type_invariant(self);
        }
        let mut v: Vec<Capability> = Vec::new();
        let mut i: usize = 0;
        while i < self.caps.len()
            invariant
                i <= self.caps@.len(),
                v@ == self.caps@.take(i as int),
            decreases self.caps@.len() - i,
        {
            v.push(self.caps[i]);
            i = i + 1;
            assert(v@ =~= self.caps@.take(i as int));
        }
        assert(self.caps@.take(self.caps@.len() as int) =~= self.caps@);
        v
    }

    pub fn contains_exact(&self, cap: Capability) -> (r: bool)
        ensures
            r == self.view_set().contains(cap),
    {
        let mut i: usize = 0;
        while i < self.caps.len()
            invariant
                i <= self.caps@.len(),
                forall|j: int| 0 <= j < i ==> self.caps@[j] != cap,
            decreases self.caps@.len() - i,
        {
            if self.caps[i] == cap {
                assert(self.caps@.contains(cap));
                return true;
            }
            i = i + 1;
        }
        false
    }

    /// Whether `cap` is granted by some member, through implication.
    pub fn contains(&self, cap: Capability) -> (r: bool)
        ensures
            r == self.implies_spec(cap),
    {
        self.implies(cap)
    }

    /// Whether `cap` is granted by some member, through implication.
    pub fn implies(&self, cap: Capability) -> (r: bool)
        ensures
            r == self.implies_spec(cap),
    {
        let mut i: usize = 0;
        while i < self.caps.len()
            invariant
                i <= self.caps@.len(),
                forall|j: int| 0 <= j < i ==> !implies_spec(#[trigger] self.caps@[j], cap),
            decreases self.caps@.len() - i,
        {
            if capability_implies(self.caps[i], cap) {
                assert(self.view_set().contains(self.caps@[i as int]));
                return true;
            }
            i = i + 1;
        }
        assert forall|p: Capability| self.view_set().contains(p) implies !implies_spec(p, cap) by {
            let k = choose|k: int| 0 <= k < self.caps@.len() && self.caps@[k] == p;
            assert(!implies_spec(self.caps@[k], cap));
        }
        false
    }

    /// Reads a set from capability names, interning unknown valid names;
    /// refuses the first name that is not a capability.
    #[verifier::rlimit(60)]
    pub fn from_strings(list: &[String], registry: &mut DynamicCapabilityRegistry) -> (r: Result<Self, CapabilityParseError>)
        requires
            old(registry).wf(),
        ensures
            final(registry).wf(),
            final(registry).names() == intern_all(old(registry).names(), string_bytes(list@)).1,
            match intern_all(old(registry).names(), string_bytes(list@)).0 {
                Ok(set) => r matches Ok(s) && s.view_set() == set,
                Err(k) => r matches Err(CapabilityParseError::InvalidCapability { name }) && 0 <= k < list@.len()
                    && name@ == list@[k]@,
            },
    {
        let ghost start = registry.names();
        let ghost all = string_bytes(list@);
        let mut set = Self::empty();
        let mut i: usize = 0;
        assert(all.take(0) =~= Seq::<Seq<u8>>::empty());
        assert(forall|k: int| 0 <= k < all.len() ==> #[trigger] all[k] == vstd::utf8::encode_utf8(list@[k]@));
        while i < list.len()
            invariant
                registry.wf(),
                i <= list@.len(),
                start == old(registry).names(),
                all == string_bytes(list@),
                all.len() == list@.len(),
                forall|k: int| 0 <= k < all.len() ==> #[trigger] all[k] == vstd::utf8::encode_utf8(list@[k]@),
                intern_all(start, all.take(i as int)) == (Ok::<Set<Capability>, int>(set.view_set()), registry.names()),
            decreases list@.len() - i,
        {
            let name = list[i].as_str();
            let ghost before = registry.names();
            let ghost prefix = all.take(i + 1);
            proof {
                assert(prefix.drop_last() =~= all.take(i as int));
                assert(prefix.last() == all[i as int]);
                assert(all[i as int] == name.spec_bytes());
            }
            let ghost set_before = set.view_set();
            let found = Capability::intern(name, registry);
            proof {
                lemma_intern_all_step(start, all, i as int, set_before, before, found, registry.names());
            }
            match found {
                None => {
                    proof {
                        assert(intern_all(start, all.take(i + 1)) == (Err::<Set<Capability>, int>(i as int), registry.names()));
                        lemma_intern_all_stops(start, all, i + 1);
                        assert(intern_all(start, all) == (Err::<Set<Capability>, int>(i as int), registry.names()));
                        assert(start == old(registry).names());
                    }
                    let failed = list[i].clone();
                    assert(failed@ == list@[i as int]@);
                    return Err(CapabilityParseError::InvalidCapability { name: failed });
                },
                Some(c) => {
                    set.insert(c);
                },
            }
            i = i + 1;
        }
        assert(all.take(all.len() as int) =~= all);
        Ok(set)
    }

    /// Whether every member is granted by `other`, through implication.
    pub fn is_subset_of(&self, other: &CapabilitySet) -> (r: bool)
        ensures
            r == (forall|c: Capability| self.view_set().contains(c) ==> other.implies_spec(c)),
            r == covered(self.view_set(), other.view_set()),
    {
        let mut i: usize = 0;
        while i < self.caps.len()
            invariant
                i <= self.caps@.len(),
                forall|j: int| 0 <= j < i ==> other.implies_spec(#[trigger] self.caps@[j]),
            decreases self.caps@.len() - i,
        {
            if !other.implies(self.caps[i]) {
                assert(self.view_set().contains(self.caps@[i as int]));
                assert(!set_implies(other.view_set(), self.caps@[i as int]));
                return false;
            }
            i = i + 1;
        }
        assert forall|c: Capability| self.view_set().contains(c) implies other.implies_spec(c) by {
            let k = choose|k: int| 0 <= k < self.caps@.len() && self.caps@[k] == c;
            assert(other.implies_spec(self.caps@[k]));
        }
        true
    }
}

/// Whether some capability of `s` implies `c`.
pub open spec fn set_implies(s: Set<Capability>, c: Capability) -> bool {
    exists|p: Capability| s.contains(p) && #[trigger] implies_spec(p, c)
}

/// Whether every capability of `sub` is implied by one of `sup`: what
/// `is_subset_of` decides.
pub open spec fn covered(sub: Set<Capability>, sup: Set<Capability>) -> bool {
    forall|c: Capability| sub.contains(c) ==> #[trigger] set_implies(sup, c)
}

/// Subset by implication is a preorder: every set is a subset of itself,
/// subsets of subsets are subsets; the empty set is a subset of every set,
/// and every set is a subset of one holding `Unsandboxed`.
pub proof fn lemma_subset_order(a: Set<Capability>, b: Set<Capability>, c: Set<Capability>)
    ensures
        covered(a, a),
        covered(Set::<Capability>::empty(), a),
        b.contains(Capability::Unsandboxed) ==> covered(a, b),
        covered(a, b) && covered(b, c) ==> covered(a, c),
{
    assert forall|x: Capability| a.contains(x) implies #[trigger] set_implies(a, x) by {
        assert(implies_spec(x, x));
    }
    if b.contains(Capability::Unsandboxed) {
        assert forall|x: Capability| a.contains(x) implies #[trigger] set_implies(b, x) by {
            assert(implies_spec(Capability::Unsandboxed, x));
        }
    }
    if covered(a, b) && covered(b, c) {
        assert forall|x: Capability| a.contains(x) implies #[trigger] set_implies(c, x) by {
            assert(set_implies(b, x));
            let p = choose|p: Capability| b.contains(p) && #[trigger] implies_spec(p, x);
            assert(set_implies(c, p));
            let q = choose|q: Capability| c.contains(q) && #[trigger] implies_spec(q, p);
            lemma_implies_preorder(q, p, x);
        }
    }
}

/// UTF-8 bytes of each string of `list`.
pub open spec fn string_bytes(list: Seq<String>) -> Seq<Seq<u8>> {
    list.map_values(|s: String| vstd::utf8::encode_utf8(s@))
}

proof fn lemma_intern_all_step(
    start: Seq<Seq<u8>>,
    all: Seq<Seq<u8>>,
    i: int,
    set: Set<Capability>,
    names: Seq<Seq<u8>>,
    found: Option<Capability>,
    after: Seq<Seq<u8>>,
)
    requires
        0 <= i < all.len(),
        intern_all(start, all.take(i)) == (Ok::<Set<Capability>, int>(set), names),
        (found, after) == intern_spec(names, all[i]),
    ensures
        intern_all(start, all.take(i + 1)) == (match found {
            None => (Err::<Set<Capability>, int>(i), after),
            Some(c) => (Ok::<Set<Capability>, int>(set.insert(c)), after),
        }),
{
    assert(all.take(i + 1).drop_last() =~= all.take(i));
    assert(all.take(i + 1).last() == all[i]);
}

proof fn lemma_intern_all_stops(names: Seq<Seq<u8>>, list: Seq<Seq<u8>>, m: int)
    requires
        0 < m <= list.len(),
        intern_all(names, list.take(m)).0 is Err,
    ensures
        intern_all(names, list) == intern_all(names, list.take(m)),
    decreases list.len() - m,
{
    if m < list.len() {
        assert(list.take(m + 1).drop_last() =~= list.take(m));
        lemma_intern_all_stops(names, list, m + 1);
    } else {
        assert(list.take(m) =~= list);
    }
}

/// Kernel authorities held, in the order they were granted, without repeats.
pub struct KernelAuthoritySet {
    authorities: Vec<KernelAuthority>,
}

impl KernelAuthoritySet {
    pub closed spec fn members(&self) -> Seq<KernelAuthority> {
        self.authorities@
    }

    #[verifier::type_invariant]
    spec fn unique(self) -> bool {
        self.authorities@.no_duplicates()
    }

    /// Whether some member covers `authority`.
    pub open spec fn implies_spec(&self, authority: KernelAuthority) -> bool {
        exists|i: int| 0 <= i < self.members().len() && authority_implies(#[trigger] self.members()[i], authority)
    }

    pub fn empty() -> (s: Self)
        ensures
            s.members() == Seq::<KernelAuthority>::empty(),
    {
        KernelAuthoritySet { authorities: Vec::new() }
    }

    fn position(&self, authority: &KernelAuthority) -> (r: Option<usize>)
        ensures
            r matches Some(i) ==> i < self.members().len() && self.members()[i as int] == *authority,
            r is None ==> !self.members().contains(*authority),
    {
        let mut i: usize = 0;
        while i < self.authorities.len()
            invariant
                i <= self.authorities@.len(),
                forall|j: int| 0 <= j < i ==> self.authorities@[j] != *authority,
            decreases self.authorities@.len() - i,
        {
            if self.authorities[i] == *authority {
                return Some(i);
            }
            i = i + 1;
        }
        None
    }

    /// Adds `authority` at the end unless it is already held.
    pub fn insert(&mut self, authority: KernelAuthority)
        ensures
            old(self).members().contains(authority) ==> final(self).members() == old(self).members(),
            !old(self).members().contains(authority) ==> final(self).members() == old(self).members().push(authority),
    {
        proof {
            use_type_invariant(&*self);
        }
        if self.position(&authority).is_some() {
            return;
        }
        let mut authorities = Vec::new();
        std::mem::swap(&mut authorities, &mut self.authorities);
        let ghost before = authorities@;
        authorities.push(authority);
        proof {
            assert(authorities@.no_duplicates()) by {
                assert forall|a: int, b: int| 0 <= a < b < authorities@.len() implies authorities@[a] != authorities@[b] by {
                    if b == before.len() {
                        assert(before.contains(before[a]));
                    }
                }
            }
        }
        self.authorities = authorities;
    }

    /// Removes `authority`; whether it was held.
    pub fn remove_exact(&mut self, authority: &KernelAuthority) -> (r: bool)
        ensures
            r == old(self).members().contains(*authority),
            r ==> exists|i: int| 0 <= i < old(self).members().len() && old(self).members()[i] == *authority
                && final(self).members() == old(self).members().remove(i),
            !r ==> final(self).members() == old(self).members(),
    {
        proof {
            use_type_invariant(&*self);
        }
        let index = match self.position(authority) {
            Some(i) => i,
            None => return false,
        };
        let mut authorities = Vec::new();
        std::mem::swap(&mut authorities, &mut self.authorities);
        let ghost before = authorities@;
        let _ = authorities.remove(index);
        proof {
            assert(authorities@ == before.remove(index as int));
            assert(authorities@.no_duplicates()) by {
                assert forall|a: int, b: int| 0 <= a < b < authorities@.len() implies authorities@[a] != authorities@[b] by {
                    let a0 = if a < index { a } else { a + 1 };
                    let b0 = if b < index { b } else { b + 1 };
                    assert(authorities@[a] == before[a0] && authorities@[b] == before[b0]);
                }
            }
            assert(before.contains(*authority));
        }
        self.authorities = authorities;
        true
    }

    pub fn len(&self) -> (n: usize)
        ensures
            n == self.members().len(),
    {
        self.authorities.len()
    }

    pub fn is_empty(&self) -> (r: bool)
        ensures
            r == (self.members().len() == 0),
    {
        self.authorities.len() == 0
    }

    /// The members in the order they were granted.
    pub fn iter(&self) -> (v: Vec<KernelAuthority>)
        ensures
            v@ == self.members(),
    {
        let mut v: Vec<KernelAuthority> = Vec::new();
        let mut i: usize = 0;
        while i < self.authorities.len()
            invariant
                i <= self.authorities@.len(),
                v@ == self.authorities@.take(i as int),
            decreases self.authorities@.len() - i,
        {
            v.push(self.authorities[i]);
            i = i + 1;
            assert(v@ =~= self.authorities@.take(i as int));
        }
        assert(self.authorities@.take(self.authorities@.len() as int) =~= self.authorities@);
        v
    }

    pub fn contains_exact(&self, authority: &KernelAuthority) -> (r: bool)
        ensures
            r == self.members().contains(*authority),
    {
        self.position(authority).is_some()
    }

    /// Whether some member covers `authority`.
    pub fn implies(&self, authority: &KernelAuthority) -> (r: bool)
        ensures
            r == self.implies_spec(*authority),
    {
        let mut i: usize = 0;
        while i < self.authorities.len()
            invariant
                i <= self.authorities@.len(),
                forall|j: int| 0 <= j < i ==> !authority_implies(#[trigger] self.authorities@[j], *authority),
            decreases self.authorities@.len() - i,
        {
            if kernel_authority_implies(&self.authorities[i], authority) {
                assert(authority_implies(self.members()[i as int], *authority));
                return true;
            }
            i = i + 1;
        }
        false
    }

    /// Whether some member carries `capability`, on any object.
    pub fn contains_capability(&self, capability: KernelCapability) -> (r: bool)
        ensures
            r == exists|i: int| 0 <= i < self.members().len() && #[trigger] self.members()[i].capability == capability,
    {
        let mut i: usize = 0;
        while i < self.authorities.len()
            invariant
                i <= self.authorities@.len(),
                forall|j: int| 0 <= j < i ==> #[trigger] self.authorities@[j].capability != capability,
            decreases self.authorities@.len() - i,
        {
            if self.authorities[i].capability == capability {
                return true;
            }
            i = i + 1;
        }
        false
    }

    /// Whether every member is covered by `other`.
    pub fn is_subset_of(&self, other: &KernelAuthoritySet) -> (r: bool)
        ensures
            r == forall|i: int| 0 <= i < self.members().len() ==> other.implies_spec(#[trigger] self.members()[i]),
    {
        let mut i: usize = 0;
        while i < self.authorities.len()
            invariant
                i <= self.authorities@.len(),
                forall|j: int| 0 <= j < i ==> other.implies_spec(#[trigger] self.authorities@[j]),
            decreases self.authorities@.len() - i,
        {
            if !other.implies(&self.authorities[i]) {
                assert(!other.implies_spec(self.members()[i as int]));
                return false;
            }
            i = i + 1;
        }
        true
    }
}

} // verus!

//! Canonical metadata of the named capabilities: how each may be granted.

use vstd::prelude::*;
use vstd::string::StringSliceAdditionalSpecFns;
use crate::text::bytes_equal;

verus! {

#[derive(Clone, Copy, Debug, PartialEq, Eq, Structural)]
pub enum CapabilityClassification {
    UserGrantable,
    Privileged,
    SystemOnly,
}

#[derive(Clone, Copy, Debug, PartialEq, Eq)]
pub struct CapabilityMetadata {
    pub name: &'static str,
    pub classification: CapabilityClassification,
    pub delegable: bool,
    pub user_grantable: bool,
}

/// Number of named capabilities.
pub const CAPABILITY_COUNT: usize = 92;

/// How the capability named `name` may be granted: user-grantable ones are
/// delegable and grantable by users, the others neither.
pub open spec fn classification_of(name: Seq<u8>) -> Option<CapabilityClassification> {
    if name == "fs.read.user.documents".spec_bytes() {
        Some(CapabilityClassification::UserGrantable)
    } else if name == "fs.write.user.documents".spec_bytes() {
        Some(CapabilityClassification::UserGrantable)
    } else if name == "fs.read.user.downloads".spec_bytes() {
        Some(CapabilityClassification::UserGrantable)
    } else if name == "fs.write.user.downloads".spec_bytes() {
        Some(CapabilityClassification::UserGrantable)
    } else if name == "fs.read.user.desktop".spec_bytes() {
        Some(CapabilityClassification::UserGrantable)
    } else if name == "fs.write.user.desktop".spec_bytes() {
        Some(CapabilityClassification::UserGrantable)
    } else if name == "fs.read.user.pictures".spec_bytes() {
        Some(CapabilityClassification::UserGrantable)
    } else if name == "fs.write.user.pictures".spec_bytes() {
        Some(CapabilityClassification::UserGrantable)
    } else if name == "fs.read.user.music".spec_bytes() {
        Some(CapabilityClassification::UserGrantable)
    } else if name == "fs.write.user.music".spec_bytes() {
        Some(CapabilityClassification::UserGrantable)
    } else if name == "fs.read.user.videos".spec_bytes() {
        Some(CapabilityClassification::UserGrantable)
    } else if name == "fs.write.user.videos".spec_bytes() {
        Some(CapabilityClassification::UserGrantable)
    } else if name == "fs.read.user".spec_bytes() {
        Some(CapabilityClassification::UserGrantable)
    } else if name == "fs.write.user".spec_bytes() {
        Some(CapabilityClassification::UserGrantable)
    } else if name == "fs.read.tmp".spec_bytes() {
        Some(CapabilityClassification::UserGrantable)
    } else if name == "fs.write.tmp".spec_bytes() {
        Some(CapabilityClassification::UserGrantable)
    } else if name == "fs.read.removable".spec_bytes() {
        Some(CapabilityClassification::UserGrantable)
    } else if name == "fs.write.removable".spec_bytes() {
        Some(CapabilityClassification::UserGrantable)
    } else if name == "fs.read.all".spec_bytes() {
        Some(CapabilityClassification::Privileged)
    } else if name == "fs.write.all".spec_bytes() {
        Some(CapabilityClassification::Privileged)
    } else if name == "net.connect".spec_bytes() {
        Some(CapabilityClassification::UserGrantable)
    } else if name == "net.listen".spec_bytes() {
        Some(CapabilityClassification::UserGrantable)
    } else if name == "net.raw".spec_bytes() {
        Some(CapabilityClassification::Privileged)
    } else if name == "net.tls.connect".spec_bytes() {
        Some(CapabilityClassification::UserGrantable)
    } else if name == "net.http.request".spec_bytes() {
        Some(CapabilityClassification::UserGrantable)
    } else if name == "ipc.client".spec_bytes() {
        Some(CapabilityClassification::SystemOnly)
    } else if name == "ipc.server".spec_bytes() {
        Some(CapabilityClassification::SystemOnly)
    } else if name == "process.spawn".spec_bytes() {
        Some(CapabilityClassification::SystemOnly)
    } else if name == "process.inspect".spec_bytes() {
        Some(CapabilityClassification::SystemOnly)
    } else if name == "process.kill".spec_bytes() {
        Some(CapabilityClassification::SystemOnly)
    } else if name == "window.create".spec_bytes() {
        Some(CapabilityClassification::UserGrantable)
    } else if name == "window.overlay".spec_bytes() {
        Some(CapabilityClassification::UserGrantable)
    } else if name == "window.secure-overlay".spec_bytes() {
        Some(CapabilityClassification::SystemOnly)
    } else if name == "window.decorate".spec_bytes() {
        Some(CapabilityClassification::Privileged)
    } else if name == "window.capture".spec_bytes() {
        Some(CapabilityClassification::Privileged)
    } else if name == "display.read".spec_bytes() {
        Some(CapabilityClassification::UserGrantable)
    } else if name == "display.capture".spec_bytes() {
        Some(CapabilityClassification::Privileged)
    } else if name == "input.keyboard".spec_bytes() {
        Some(CapabilityClassification::UserGrantable)
    } else if name == "input.keyboard.global".spec_bytes() {
        Some(CapabilityClassification::Privileged)
    } else if name == "input.pointer".spec_bytes() {
        Some(CapabilityClassification::UserGrantable)
    } else if name == "input.pointer.global".spec_bytes() {
        Some(CapabilityClassification::Privileged)
    } else if name == "input.gamepad".spec_bytes() {
        Some(CapabilityClassification::Privileged)
    } else if name == "audio.playback".spec_bytes() {
        Some(CapabilityClassification::UserGrantable)
    } else if name == "audio.record".spec_bytes() {
        Some(CapabilityClassification::UserGrantable)
    } else if name == "clipboard.read".spec_bytes() {
        Some(CapabilityClassification::UserGrantable)
    } else if name == "clipboard.write".spec_bytes() {
        Some(CapabilityClassification::UserGrantable)
    } else if name == "notification.send".spec_bytes() {
        Some(CapabilityClassification::UserGrantable)
    } else if name == "camera.access".spec_bytes() {
        Some(CapabilityClassification::Privileged)
    } else if name == "microphone.access".spec_bytes() {
        Some(CapabilityClassification::Privileged)
    } else if name == "location.access".spec_bytes() {
        Some(CapabilityClassification::Privileged)
    } else if name == "bluetooth.access".spec_bytes() {
        Some(CapabilityClassification::Privileged)
    } else if name == "usb.access".spec_bytes() {
        Some(CapabilityClassification::Privileged)
    } else if name == "serial.access".spec_bytes() {
        Some(CapabilityClassification::Privileged)
    } else if name == "power.shutdown".spec_bytes() {
        Some(CapabilityClassification::Privileged)
    } else if name == "power.reboot".spec_bytes() {
        Some(CapabilityClassification::Privileged)
    } else if name == "power.suspend".spec_bytes() {
        Some(CapabilityClassification::Privileged)
    } else if name == "system.time.read".spec_bytes() {
        Some(CapabilityClassification::UserGrantable)
    } else if name == "system.random.read".spec_bytes() {
        Some(CapabilityClassification::SystemOnly)
    } else if name == "system.time.set".spec_bytes() {
        Some(CapabilityClassification::Privileged)
    } else if name == "system.info.read".spec_bytes() {
        Some(CapabilityClassification::UserGrantable)
    } else if name == "system.logs.read".spec_bytes() {
        Some(CapabilityClassification::UserGrantable)
    } else if name == "package.install".spec_bytes() {
        Some(CapabilityClassification::Privileged)
    } else if name == "package.remove".spec_bytes() {
        Some(CapabilityClassification::Privileged)
    } else if name == "package.update".spec_bytes() {
        Some(CapabilityClassification::Privileged)
    } else if name == "service.register".spec_bytes() {
        Some(CapabilityClassification::Privileged)
    } else if name == "service.control".spec_bytes() {
        Some(CapabilityClassification::Privileged)
    } else if name == "vm.create".spec_bytes() {
        Some(CapabilityClassification::Privileged)
    } else if name == "vm.control".spec_bytes() {
        Some(CapabilityClassification::Privileged)
    } else if name == "dma.allocate".spec_bytes() {
        Some(CapabilityClassification::SystemOnly)
    } else if name == "memory.phys.map".spec_bytes() {
        Some(CapabilityClassification::SystemOnly)
    } else if name == "memory.phys.translate".spec_bytes() {
        Some(CapabilityClassification::SystemOnly)
    } else if name == "kernel.module.load".spec_bytes() {
        Some(CapabilityClassification::SystemOnly)
    } else if name == "kernel.debug".spec_bytes() {
        Some(CapabilityClassification::SystemOnly)
    } else if name == "device.gpu".spec_bytes() {
        Some(CapabilityClassification::Privileged)
    } else if name == "device.audio".spec_bytes() {
        Some(CapabilityClassification::Privileged)
    } else if name == "device.input".spec_bytes() {
        Some(CapabilityClassification::Privileged)
    } else if name == "device.storage".spec_bytes() {
        Some(CapabilityClassification::Privileged)
    } else if name == "device.net".spec_bytes() {
        Some(CapabilityClassification::Privileged)
    } else if name == "account.self.read".spec_bytes() {
        Some(CapabilityClassification::UserGrantable)
    } else if name == "account.self.modify".spec_bytes() {
        Some(CapabilityClassification::UserGrantable)
    } else if name == "account.authenticate".spec_bytes() {
        Some(CapabilityClassification::Privileged)
    } else if name == "account.other.read".spec_bytes() {
        Some(CapabilityClassification::Privileged)
    } else if name == "account.other.modify".spec_bytes() {
        Some(CapabilityClassification::Privileged)
    } else if name == "settings.read".spec_bytes() {
        Some(CapabilityClassification::UserGrantable)
    } else if name == "settings.write".spec_bytes() {
        Some(CapabilityClassification::Privileged)
    } else if name == "capabilities.manage".spec_bytes() {
        Some(CapabilityClassification::SystemOnly)
    } else if name == "unsandboxed".spec_bytes() {
        Some(CapabilityClassification::SystemOnly)
    } else if name == "developer.debug".spec_bytes() {
        Some(CapabilityClassification::SystemOnly)
    } else if name == "developer.profile".spec_bytes() {
        Some(CapabilityClassification::SystemOnly)
    } else if name == "developer.tracing".spec_bytes() {
        Some(CapabilityClassification::SystemOnly)
    } else if name == "signature.db.read".spec_bytes() {
        Some(CapabilityClassification::SystemOnly)
    } else if name == "signature.db.write".spec_bytes() {
        Some(CapabilityClassification::SystemOnly)
    } else {
        None
    }
}

fn entry(name: &'static str, classification: CapabilityClassification) -> (m: CapabilityMetadata)
    ensures
        m.name == name,
        m.classification == classification,
        m.delegable == (classification == CapabilityClassification::UserGrantable),
        m.user_grantable == (classification == CapabilityClassification::UserGrantable),
{
    let user = match classification {
        CapabilityClassification::UserGrantable => true,
        _ => false,
    };
    CapabilityMetadata { name, classification, delegable: user, user_grantable: user }
}

/// Metadata of the capability named `name`, if it is one.
pub fn metadata(name: &str) -> (r: Option<CapabilityMetadata>)
    ensures
        match classification_of(name.spec_bytes()) {
            None => r is None,
            Some(c) => r matches Some(m) && m.name.spec_bytes() == name.spec_bytes() && m.classification == c
                && m.delegable == (c == CapabilityClassification::UserGrantable)
                && m.user_grantable == (c == CapabilityClassification::UserGrantable),
        },
{
    let bytes = name.as_bytes();
    if bytes_equal(bytes, "fs.read.user.documents".as_bytes()) {
        return Some(entry("fs.read.user.documents", CapabilityClassification::UserGrantable));
    }
    if bytes_equal(bytes, "fs.write.user.documents".as_bytes()) {
        return Some(entry("fs.write.user.documents", CapabilityClassification::UserGrantable));
    }
    if bytes_equal(bytes, "fs.read.user.downloads".as_bytes()) {
        return Some(entry("fs.read.user.downloads", CapabilityClassification::UserGrantable));
    }
    if bytes_equal(bytes, "fs.write.user.downloads".as_bytes()) {
        return Some(entry("fs.write.user.downloads", CapabilityClassification::UserGrantable));
    }
    if bytes_equal(bytes, "fs.read.user.desktop".as_bytes()) {
        return Some(entry("fs.read.user.desktop", CapabilityClassification::UserGrantable));
    }
    if bytes_equal(bytes, "fs.write.user.desktop".as_bytes()) {
        return Some(entry("fs.write.user.desktop", CapabilityClassification::UserGrantable));
    }
    if bytes_equal(bytes, "fs.read.user.pictures".as_bytes()) {
        return Some(entry("fs.read.user.pictures", CapabilityClassification::UserGrantable));
    }
    if bytes_equal(bytes, "fs.write.user.pictures".as_bytes()) {
        return Some(entry("fs.write.user.pictures", CapabilityClassification::UserGrantable));
    }
    if bytes_equal(bytes, "fs.read.user.music".as_bytes()) {
        return Some(entry("fs.read.user.music", CapabilityClassification::UserGrantable));
    }
    if bytes_equal(bytes, "fs.write.user.music".as_bytes()) {
        return Some(entry("fs.write.user.music", CapabilityClassification::UserGrantable));
    }
    if bytes_equal(bytes, "fs.read.user.videos".as_bytes()) {
        return Some(entry("fs.read.user.videos", CapabilityClassification::UserGrantable));
    }
    if bytes_equal(bytes, "fs.write.user.videos".as_bytes()) {
        return Some(entry("fs.write.user.videos", CapabilityClassification::UserGrantable));
    }
    if bytes_equal(bytes, "fs.read.user".as_bytes()) {
        return Some(entry("fs.read.user", CapabilityClassification::UserGrantable));
    }
    if bytes_equal(bytes, "fs.write.user".as_bytes()) {
        return Some(entry("fs.write.user", CapabilityClassification::UserGrantable));
    }
    if bytes_equal(bytes, "fs.read.tmp".as_bytes()) {
        return Some(entry("fs.read.tmp", CapabilityClassification::UserGrantable));
    }
    if bytes_equal(bytes, "fs.write.tmp".as_bytes()) {
        return Some(entry("fs.write.tmp", CapabilityClassification::UserGrantable));
    }
    if bytes_equal(bytes, "fs.read.removable".as_bytes()) {
        return Some(entry("fs.read.removable", CapabilityClassification::UserGrantable));
    }
    if bytes_equal(bytes, "fs.write.removable".as_bytes()) {
        return Some(entry("fs.write.removable", CapabilityClassification::UserGrantable));
    }
    if bytes_equal(bytes, "fs.read.all".as_bytes()) {
        return Some(entry("fs.read.all", CapabilityClassification::Privileged));
    }
    if bytes_equal(bytes, "fs.write.all".as_bytes()) {
        return Some(entry("fs.write.all", CapabilityClassification::Privileged));
    }
    if bytes_equal(bytes, "net.connect".as_bytes()) {
        return Some(entry("net.connect", CapabilityClassification::UserGrantable));
    }
    if bytes_equal(bytes, "net.listen".as_bytes()) {
        return Some(entry("net.listen", CapabilityClassification::UserGrantable));
    }
    if bytes_equal(bytes, "net.raw".as_bytes()) {
        return Some(entry("net.raw", CapabilityClassification::Privileged));
    }
    if bytes_equal(bytes, "net.tls.connect".as_bytes()) {
        return Some(entry("net.tls.connect", CapabilityClassification::UserGrantable));
    }
    if bytes_equal(bytes, "net.http.request".as_bytes()) {
        return Some(entry("net.http.request", CapabilityClassification::UserGrantable));
    }
    if bytes_equal(bytes, "ipc.client".as_bytes()) {
        return Some(entry("ipc.client", CapabilityClassification::SystemOnly));
    }
    if bytes_equal(bytes, "ipc.server".as_bytes()) {
        return Some(entry("ipc.server", CapabilityClassification::SystemOnly));
    }
    if bytes_equal(bytes, "process.spawn".as_bytes()) {
        return Some(entry("process.spawn", CapabilityClassification::SystemOnly));
    }
    if bytes_equal(bytes, "process.inspect".as_bytes()) {
        return Some(entry("process.inspect", CapabilityClassification::SystemOnly));
    }
    if bytes_equal(bytes, "process.kill".as_bytes()) {
        return Some(entry("process.kill", CapabilityClassification::SystemOnly));
    }
    if bytes_equal(bytes, "window.create".as_bytes()) {
        return Some(entry("window.create", CapabilityClassification::UserGrantable));
    }
    if bytes_equal(bytes, "window.overlay".as_bytes()) {
        return Some(entry("window.overlay", CapabilityClassification::UserGrantable));
    }
    if bytes_equal(bytes, "window.secure-overlay".as_bytes()) {
        return Some(entry("window.secure-overlay", CapabilityClassification::SystemOnly));
    }
    if bytes_equal(bytes, "window.decorate".as_bytes()) {
        return Some(entry("window.decorate", CapabilityClassification::Privileged));
    }
    if bytes_equal(bytes, "window.capture".as_bytes()) {
        return Some(entry("window.capture", CapabilityClassification::Privileged));
    }
    if bytes_equal(bytes, "display.read".as_bytes()) {
        return Some(entry("display.read", CapabilityClassification::UserGrantable));
    }
    if bytes_equal(bytes, "display.capture".as_bytes()) {
        return Some(entry("display.capture", CapabilityClassification::Privileged));
    }
    if bytes_equal(bytes, "input.keyboard".as_bytes()) {
        return Some(entry("input.keyboard", CapabilityClassification::UserGrantable));
    }
    if bytes_equal(bytes, "input.keyboard.global".as_bytes()) {
        return Some(entry("input.keyboard.global", CapabilityClassification::Privileged));
    }
    if bytes_equal(bytes, "input.pointer".as_bytes()) {
        return Some(entry("input.pointer", CapabilityClassification::UserGrantable));
    }
    if bytes_equal(bytes, "input.pointer.global".as_bytes()) {
        return Some(entry("input.pointer.global", CapabilityClassification::Privileged));
    }
    if bytes_equal(bytes, "input.gamepad".as_bytes()) {
        return Some(entry("input.gamepad", CapabilityClassification::Privileged));
    }
    if bytes_equal(bytes, "audio.playback".as_bytes()) {
        return Some(entry("audio.playback", CapabilityClassification::UserGrantable));
    }
    if bytes_equal(bytes, "audio.record".as_bytes()) {
        return Some(entry("audio.record", CapabilityClassification::UserGrantable));
    }
    if bytes_equal(bytes, "clipboard.read".as_bytes()) {
        return Some(entry("clipboard.read", CapabilityClassification::UserGrantable));
    }
    if bytes_equal(bytes, "clipboard.write".as_bytes()) {
        return Some(entry("clipboard.write", CapabilityClassification::UserGrantable));
    }
    if bytes_equal(bytes, "notification.send".as_bytes()) {
        return Some(entry("notification.send", CapabilityClassification::UserGrantable));
    }
    if bytes_equal(bytes, "camera.access".as_bytes()) {
        return Some(entry("camera.access", CapabilityClassification::Privileged));
    }
    if bytes_equal(bytes, "microphone.access".as_bytes()) {
        return Some(entry("microphone.access", CapabilityClassification::Privileged));
    }
    if bytes_equal(bytes, "location.access".as_bytes()) {
        return Some(entry("location.access", CapabilityClassification::Privileged));
    }
    if bytes_equal(bytes, "bluetooth.access".as_bytes()) {
        return Some(entry("bluetooth.access", CapabilityClassification::Privileged));
    }
    if bytes_equal(bytes, "usb.access".as_bytes()) {
        return Some(entry("usb.access", CapabilityClassification::Privileged));
    }
    if bytes_equal(bytes, "serial.access".as_bytes()) {
        return Some(entry("serial.access", CapabilityClassification::Privileged));
    }
    if bytes_equal(bytes, "power.shutdown".as_bytes()) {
        return Some(entry("power.shutdown", CapabilityClassification::Privileged));
    }
    if bytes_equal(bytes, "power.reboot".as_bytes()) {
        return Some(entry("power.reboot", CapabilityClassification::Privileged));
    }
    if bytes_equal(bytes, "power.suspend".as_bytes()) {
        return Some(entry("power.suspend", CapabilityClassification::Privileged));
    }
    if bytes_equal(bytes, "system.time.read".as_bytes()) {
        return Some(entry("system.time.read", CapabilityClassification::UserGrantable));
    }
    if bytes_equal(bytes, "system.random.read".as_bytes()) {
        return Some(entry("system.random.read", CapabilityClassification::SystemOnly));
    }
    if bytes_equal(bytes, "system.time.set".as_bytes()) {
        return Some(entry("system.time.set", CapabilityClassification::Privileged));
    }
    if bytes_equal(bytes, "system.info.read".as_bytes()) {
        return Some(entry("system.info.read", CapabilityClassification::UserGrantable));
    }
    if bytes_equal(bytes, "system.logs.read".as_bytes()) {
        return Some(entry("system.logs.read", CapabilityClassification::UserGrantable));
    }
    if bytes_equal(bytes, "package.install".as_bytes()) {
        return Some(entry("package.install", CapabilityClassification::Privileged));
    }
    if bytes_equal(bytes, "package.remove".as_bytes()) {
        return Some(entry("package.remove", CapabilityClassification::Privileged));
    }
    if bytes_equal(bytes, "package.update".as_bytes()) {
        return Some(entry("package.update", CapabilityClassification::Privileged));
    }
    if bytes_equal(bytes, "service.register".as_bytes()) {
        return Some(entry("service.register", CapabilityClassification::Privileged));
    }
    if bytes_equal(bytes, "service.control".as_bytes()) {
        return Some(entry("service.control", CapabilityClassification::Privileged));
    }
    if bytes_equal(bytes, "vm.create".as_bytes()) {
        return Some(entry("vm.create", CapabilityClassification::Privileged));
    }
    if bytes_equal(bytes, "vm.control".as_bytes()) {
        return Some(entry("vm.control", CapabilityClassification::Privileged));
    }
    if bytes_equal(bytes, "dma.allocate".as_bytes()) {
        return Some(entry("dma.allocate", CapabilityClassification::SystemOnly));
    }
    if bytes_equal(bytes, "memory.phys.map".as_bytes()) {
        return Some(entry("memory.phys.map", CapabilityClassification::SystemOnly));
    }
    if bytes_equal(bytes, "memory.phys.translate".as_bytes()) {
        return Some(entry("memory.phys.translate", CapabilityClassification::SystemOnly));
    }
    if bytes_equal(bytes, "kernel.module.load".as_bytes()) {
        return Some(entry("kernel.module.load", CapabilityClassification::SystemOnly));
    }
    if bytes_equal(bytes, "kernel.debug".as_bytes()) {
        return Some(entry("kernel.debug", CapabilityClassification::SystemOnly));
    }
    if bytes_equal(bytes, "device.gpu".as_bytes()) {
        return Some(entry("device.gpu", CapabilityClassification::Privileged));
    }
    if bytes_equal(bytes, "device.audio".as_bytes()) {
        return Some(entry("device.audio", CapabilityClassification::Privileged));
    }
    if bytes_equal(bytes, "device.input".as_bytes()) {
        return Some(entry("device.input", CapabilityClassification::Privileged));
    }
    if bytes_equal(bytes, "device.storage".as_bytes()) {
        return Some(entry("device.storage", CapabilityClassification::Privileged));
    }
    if bytes_equal(bytes, "device.net".as_bytes()) {
        return Some(entry("device.net", CapabilityClassification::Privileged));
    }
    if bytes_equal(bytes, "account.self.read".as_bytes()) {
        return Some(entry("account.self.read", CapabilityClassification::UserGrantable));
    }
    if bytes_equal(bytes, "account.self.modify".as_bytes()) {
        return Some(entry("account.self.modify", CapabilityClassification::UserGrantable));
    }
    if bytes_equal(bytes, "account.authenticate".as_bytes()) {
        return Some(entry("account.authenticate", CapabilityClassification::Privileged));
    }
    if bytes_equal(bytes, "account.other.read".as_bytes()) {
        return Some(entry("account.other.read", CapabilityClassification::Privileged));
    }
    if bytes_equal(bytes, "account.other.modify".as_bytes()) {
        return Some(entry("account.other.modify", CapabilityClassification::Privileged));
    }
    if bytes_equal(bytes, "settings.read".as_bytes()) {
        return Some(entry("settings.read", CapabilityClassification::UserGrantable));
    }
    if bytes_equal(bytes, "settings.write".as_bytes()) {
        return Some(entry("settings.write", CapabilityClassification::Privileged));
    }
    if bytes_equal(bytes, "capabilities.manage".as_bytes()) {
        return Some(entry("capabilities.manage", CapabilityClassification::SystemOnly));
    }
    if bytes_equal(bytes, "unsandboxed".as_bytes()) {
        return Some(entry("unsandboxed", CapabilityClassification::SystemOnly));
    }
    if bytes_equal(bytes, "developer.debug".as_bytes()) {
        return Some(entry("developer.debug", CapabilityClassification::SystemOnly));
    }
    if bytes_equal(bytes, "developer.profile".as_bytes()) {
        return Some(entry("developer.profile", CapabilityClassification::SystemOnly));
    }
    if bytes_equal(bytes, "developer.tracing".as_bytes()) {
        return Some(entry("developer.tracing", CapabilityClassification::SystemOnly));
    }
    if bytes_equal(bytes, "signature.db.read".as_bytes()) {
        return Some(entry("signature.db.read", CapabilityClassification::SystemOnly));
    }
    if bytes_equal(bytes, "signature.db.write".as_bytes()) {
        return Some(entry("signature.db.write", CapabilityClassification::SystemOnly));
    }
    None
}

} // verus!

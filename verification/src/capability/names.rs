//! Names of capabilities are told apart: each name that `from_str` reads
//! denotes exactly the capability it names.

use vstd::prelude::*;
use vstd::string::StringSliceAdditionalSpecFns;
use crate::capability::{builtin_name, builtin_named, kernel_capability_name, kernel_capability_named, Capability, KernelCapability};

verus! {

proof fn lemma_kernel_name_0()
    ensures
        kernel_capability_named("process.kill".spec_bytes()) == Some(KernelCapability::ProcessKill),
{
}

proof fn lemma_kernel_name_1()
    ensures
        kernel_capability_named("process.spawn".spec_bytes()) == Some(KernelCapability::ProcessSpawn),
{
    broadcast use vstd::string::is_ascii_spec_bytes;
    reveal_strlit("process.spawn");
    reveal_strlit("process.kill");
    assert(vstd::string::is_ascii("process.spawn"));
    assert(vstd::string::is_ascii("process.kill"));
    assert("process.spawn".spec_bytes().len() != "process.kill".spec_bytes().len());
}

proof fn lemma_kernel_name_2()
    ensures
        kernel_capability_named("ipc.endpoint.create".spec_bytes()) == Some(KernelCapability::IpcEndpointCreate),
{
    broadcast use vstd::string::is_ascii_spec_bytes;
    reveal_strlit("ipc.endpoint.create");
    reveal_strlit("process.kill");
    reveal_strlit("process.spawn");
    assert(vstd::string::is_ascii("ipc.endpoint.create"));
    assert(vstd::string::is_ascii("process.kill"));
    assert(vstd::string::is_ascii("process.spawn"));
    assert("ipc.endpoint.create".spec_bytes().len() != "process.kill".spec_bytes().len());
    assert("ipc.endpoint.create".spec_bytes().len() != "process.spawn".spec_bytes().len());
}

proof fn lemma_kernel_name_3()
    ensures
        kernel_capability_named("ipc.endpoint.send".spec_bytes()) == Some(KernelCapability::IpcEndpointSend),
{
    broadcast use vstd::string::is_ascii_spec_bytes;
    reveal_strlit("ipc.endpoint.send");
    reveal_strlit("process.kill");
    reveal_strlit("process.spawn");
    reveal_strlit("ipc.endpoint.create");
    assert(vstd::string::is_ascii("ipc.endpoint.send"));
    assert(vstd::string::is_ascii("process.kill"));
    assert(vstd::string::is_ascii("process.spawn"));
    assert(vstd::string::is_ascii("ipc.endpoint.create"));
    assert("ipc.endpoint.send".spec_bytes().len() != "process.kill".spec_bytes().len());
    assert("ipc.endpoint.send".spec_bytes().len() != "process.spawn".spec_bytes().len());
    assert("ipc.endpoint.send".spec_bytes().len() != "ipc.endpoint.create".spec_bytes().len());
}

proof fn lemma_kernel_name_4()
    ensures
        kernel_capability_named("ipc.endpoint.recv".spec_bytes()) == Some(KernelCapability::IpcEndpointRecv),
{
    broadcast use vstd::string::is_ascii_spec_bytes;
    reveal_strlit("ipc.endpoint.recv");
    reveal_strlit("process.kill");
    reveal_strlit("process.spawn");
    reveal_strlit("ipc.endpoint.create");
    reveal_strlit("ipc.endpoint.send");
    assert(vstd::string::is_ascii("ipc.endpoint.recv"));
    assert(vstd::string::is_ascii("process.kill"));
    assert(vstd::string::is_ascii("process.spawn"));
    assert(vstd::string::is_ascii("ipc.endpoint.create"));
    assert(vstd::string::is_ascii("ipc.endpoint.send"));
    assert("ipc.endpoint.recv".spec_bytes().len() != "process.kill".spec_bytes().len());
    assert("ipc.endpoint.recv".spec_bytes().len() != "process.spawn".spec_bytes().len());
    assert("ipc.endpoint.recv".spec_bytes().len() != "ipc.endpoint.create".spec_bytes().len());
    assert("ipc.endpoint.recv".spec_bytes()[13] != "ipc.endpoint.send".spec_bytes()[13]);
}

proof fn lemma_kernel_name_5()
    ensures
        kernel_capability_named("vm.map".spec_bytes()) == Some(KernelCapability::VmMap),
{
    broadcast use vstd::string::is_ascii_spec_bytes;
    reveal_strlit("vm.map");
    reveal_strlit("process.kill");
    reveal_strlit("process.spawn");
    reveal_strlit("ipc.endpoint.create");
    reveal_strlit("ipc.endpoint.send");
    reveal_strlit("ipc.endpoint.recv");
    assert(vstd::string::is_ascii("vm.map"));
    assert(vstd::string::is_ascii("process.kill"));
    assert(vstd::string::is_ascii("process.spawn"));
    assert(vstd::string::is_ascii("ipc.endpoint.create"));
    assert(vstd::string::is_ascii("ipc.endpoint.send"));
    assert(vstd::string::is_ascii("ipc.endpoint.recv"));
    assert("vm.map".spec_bytes().len() != "process.kill".spec_bytes().len());
    assert("vm.map".spec_bytes().len() != "process.spawn".spec_bytes().len());
    assert("vm.map".spec_bytes().len() != "ipc.endpoint.create".spec_bytes().len());
    assert("vm.map".spec_bytes().len() != "ipc.endpoint.send".spec_bytes().len());
    assert("vm.map".spec_bytes().len() != "ipc.endpoint.recv".spec_bytes().len());
}

proof fn lemma_kernel_name_6()
    ensures
        kernel_capability_named("vm.unmap".spec_bytes()) == Some(KernelCapability::VmUnmap),
{
    broadcast use vstd::string::is_ascii_spec_bytes;
    reveal_strlit("vm.unmap");
    reveal_strlit("process.kill");
    reveal_strlit("process.spawn");
    reveal_strlit("ipc.endpoint.create");
    reveal_strlit("ipc.endpoint.send");
    reveal_strlit("ipc.endpoint.recv");
    reveal_strlit("vm.map");
    assert(vstd::string::is_ascii("vm.unmap"));
    assert(vstd::string::is_ascii("process.kill"));
    assert(vstd::string::is_ascii("process.spawn"));
    assert(vstd::string::is_ascii("ipc.endpoint.create"));
    assert(vstd::string::is_ascii("ipc.endpoint.send"));
    assert(vstd::string::is_ascii("ipc.endpoint.recv"));
    assert(vstd::string::is_ascii("vm.map"));
    assert("vm.unmap".spec_bytes().len() != "process.kill".spec_bytes().len());
    assert("vm.unmap".spec_bytes().len() != "process.spawn".spec_bytes().len());
    assert("vm.unmap".spec_bytes().len() != "ipc.endpoint.create".spec_bytes().len());
    assert("vm.unmap".spec_bytes().len() != "ipc.endpoint.send".spec_bytes().len());
    assert("vm.unmap".spec_bytes().len() != "ipc.endpoint.recv".spec_bytes().len());
    assert("vm.unmap".spec_bytes().len() != "vm.map".spec_bytes().len());
}

proof fn lemma_kernel_name_7()
    ensures
        kernel_capability_named("mmio.map".spec_bytes()) == Some(KernelCapability::MmioMap),
{
    broadcast use vstd::string::is_ascii_spec_bytes;
    reveal_strlit("mmio.map");
    reveal_strlit("process.kill");
    reveal_strlit("process.spawn");
    reveal_strlit("ipc.endpoint.create");
    reveal_strlit("ipc.endpoint.send");
    reveal_strlit("ipc.endpoint.recv");
    reveal_strlit("vm.map");
    reveal_strlit("vm.unmap");
    assert(vstd::string::is_ascii("mmio.map"));
    assert(vstd::string::is_ascii("process.kill"));
    assert(vstd::string::is_ascii("process.spawn"));
    assert(vstd::string::is_ascii("ipc.endpoint.create"));
    assert(vstd::string::is_ascii("ipc.endpoint.send"));
    assert(vstd::string::is_ascii("ipc.endpoint.recv"));
    assert(vstd::string::is_ascii("vm.map"));
    assert(vstd::string::is_ascii("vm.unmap"));
    assert("mmio.map".spec_bytes().len() != "process.kill".spec_bytes().len());
    assert("mmio.map".spec_bytes().len() != "process.spawn".spec_bytes().len());
    assert("mmio.map".spec_bytes().len() != "ipc.endpoint.create".spec_bytes().len());
    assert("mmio.map".spec_bytes().len() != "ipc.endpoint.send".spec_bytes().len());
    assert("mmio.map".spec_bytes().len() != "ipc.endpoint.recv".spec_bytes().len());
    assert("mmio.map".spec_bytes().len() != "vm.map".spec_bytes().len());
    assert("mmio.map".spec_bytes()[0] != "vm.unmap".spec_bytes()[0]);
}

proof fn lemma_kernel_name_8()
    ensures
        kernel_capability_named("dma.allocate".spec_bytes()) == Some(KernelCapability::DmaAllocate),
{
    broadcast use vstd::string::is_ascii_spec_bytes;
    reveal_strlit("dma.allocate");
    reveal_strlit("process.kill");
    reveal_strlit("process.spawn");
    reveal_strlit("ipc.endpoint.create");
    reveal_strlit("ipc.endpoint.send");
    reveal_strlit("ipc.endpoint.recv");
    reveal_strlit("vm.map");
    reveal_strlit("vm.unmap");
    reveal_strlit("mmio.map");
    assert(vstd::string::is_ascii("dma.allocate"));
    assert(vstd::string::is_ascii("process.kill"));
    assert(vstd::string::is_ascii("process.spawn"));
    assert(vstd::string::is_ascii("ipc.endpoint.create"));
    assert(vstd::string::is_ascii("ipc.endpoint.send"));
    assert(vstd::string::is_ascii("ipc.endpoint.recv"));
    assert(vstd::string::is_ascii("vm.map"));
    assert(vstd::string::is_ascii("vm.unmap"));
    assert(vstd::string::is_ascii("mmio.map"));
    assert("dma.allocate".spec_bytes()[0] != "process.kill".spec_bytes()[0]);
    assert("dma.allocate".spec_bytes().len() != "process.spawn".spec_bytes().len());
    assert("dma.allocate".spec_bytes().len() != "ipc.endpoint.create".spec_bytes().len());
    assert("dma.allocate".spec_bytes().len() != "ipc.endpoint.send".spec_bytes().len());
    assert("dma.allocate".spec_bytes().len() != "ipc.endpoint.recv".spec_bytes().len());
    assert("dma.allocate".spec_bytes().len() != "vm.map".spec_bytes().len());
    assert("dma.allocate".spec_bytes().len() != "vm.unmap".spec_bytes().len());
    assert("dma.allocate".spec_bytes().len() != "mmio.map".spec_bytes().len());
}

proof fn lemma_kernel_name_9()
    ensures
        kernel_capability_named("memory.phys.map".spec_bytes()) == Some(KernelCapability::PhysMap),
{
    broadcast use vstd::string::is_ascii_spec_bytes;
    reveal_strlit("memory.phys.map");
    reveal_strlit("process.kill");
    reveal_strlit("process.spawn");
    reveal_strlit("ipc.endpoint.create");
    reveal_strlit("ipc.endpoint.send");
    reveal_strlit("ipc.endpoint.recv");
    reveal_strlit("vm.map");
    reveal_strlit("vm.unmap");
    reveal_strlit("mmio.map");
    reveal_strlit("dma.allocate");
    assert(vstd::string::is_ascii("memory.phys.map"));
    assert(vstd::string::is_ascii("process.kill"));
    assert(vstd::string::is_ascii("process.spawn"));
    assert(vstd::string::is_ascii("ipc.endpoint.create"));
    assert(vstd::string::is_ascii("ipc.endpoint.send"));
    assert(vstd::string::is_ascii("ipc.endpoint.recv"));
    assert(vstd::string::is_ascii("vm.map"));
    assert(vstd::string::is_ascii("vm.unmap"));
    assert(vstd::string::is_ascii("mmio.map"));
    assert(vstd::string::is_ascii("dma.allocate"));
    assert("memory.phys.map".spec_bytes().len() != "process.kill".spec_bytes().len());
    assert("memory.phys.map".spec_bytes().len() != "process.spawn".spec_bytes().len());
    assert("memory.phys.map".spec_bytes().len() != "ipc.endpoint.create".spec_bytes().len());
    assert("memory.phys.map".spec_bytes().len() != "ipc.endpoint.send".spec_bytes().len());
    assert("memory.phys.map".spec_bytes().len() != "ipc.endpoint.recv".spec_bytes().len());
    assert("memory.phys.map".spec_bytes().len() != "vm.map".spec_bytes().len());
    assert("memory.phys.map".spec_bytes().len() != "vm.unmap".spec_bytes().len());
    assert("memory.phys.map".spec_bytes().len() != "mmio.map".spec_bytes().len());
    assert("memory.phys.map".spec_bytes().len() != "dma.allocate".spec_bytes().len());
}

proof fn lemma_kernel_name_10()
    ensures
        kernel_capability_named("memory.phys.translate".spec_bytes()) == Some(KernelCapability::PhysTranslate),
{
    broadcast use vstd::string::is_ascii_spec_bytes;
    reveal_strlit("memory.phys.translate");
    reveal_strlit("process.kill");
    reveal_strlit("process.spawn");
    reveal_strlit("ipc.endpoint.create");
    reveal_strlit("ipc.endpoint.send");
    reveal_strlit("ipc.endpoint.recv");
    reveal_strlit("vm.map");
    reveal_strlit("vm.unmap");
    reveal_strlit("mmio.map");
    reveal_strlit("dma.allocate");
    reveal_strlit("memory.phys.map");
    assert(vstd::string::is_ascii("memory.phys.translate"));
    assert(vstd::string::is_ascii("process.kill"));
    assert(vstd::string::is_ascii("process.spawn"));
    assert(vstd::string::is_ascii("ipc.endpoint.create"));
    assert(vstd::string::is_ascii("ipc.endpoint.send"));
    assert(vstd::string::is_ascii("ipc.endpoint.recv"));
    assert(vstd::string::is_ascii("vm.map"));
    assert(vstd::string::is_ascii("vm.unmap"));
    assert(vstd::string::is_ascii("mmio.map"));
    assert(vstd::string::is_ascii("dma.allocate"));
    assert(vstd::string::is_ascii("memory.phys.map"));
    assert("memory.phys.translate".spec_bytes().len() != "process.kill".spec_bytes().len());
    assert("memory.phys.translate".spec_bytes().len() != "process.spawn".spec_bytes().len());
    assert("memory.phys.translate".spec_bytes().len() != "ipc.endpoint.create".spec_bytes().len());
    assert("memory.phys.translate".spec_bytes().len() != "ipc.endpoint.send".spec_bytes().len());
    assert("memory.phys.translate".spec_bytes().len() != "ipc.endpoint.recv".spec_bytes().len());
    assert("memory.phys.translate".spec_bytes().len() != "vm.map".spec_bytes().len());
    assert("memory.phys.translate".spec_bytes().len() != "vm.unmap".spec_bytes().len());
    assert("memory.phys.translate".spec_bytes().len() != "mmio.map".spec_bytes().len());
    assert("memory.phys.translate".spec_bytes().len() != "dma.allocate".spec_bytes().len());
    assert("memory.phys.translate".spec_bytes().len() != "memory.phys.map".spec_bytes().len());
}

proof fn lemma_kernel_name_11()
    ensures
        kernel_capability_named("irq.bind".spec_bytes()) == Some(KernelCapability::IrqBind),
{
    broadcast use vstd::string::is_ascii_spec_bytes;
    reveal_strlit("irq.bind");
    reveal_strlit("process.kill");
    reveal_strlit("process.spawn");
    reveal_strlit("ipc.endpoint.create");
    reveal_strlit("ipc.endpoint.send");
    reveal_strlit("ipc.endpoint.recv");
    reveal_strlit("vm.map");
    reveal_strlit("vm.unmap");
    reveal_strlit("mmio.map");
    reveal_strlit("dma.allocate");
    reveal_strlit("memory.phys.map");
    reveal_strlit("memory.phys.translate");
    assert(vstd::string::is_ascii("irq.bind"));
    assert(vstd::string::is_ascii("process.kill"));
    assert(vstd::string::is_ascii("process.spawn"));
    assert(vstd::string::is_ascii("ipc.endpoint.create"));
    assert(vstd::string::is_ascii("ipc.endpoint.send"));
    assert(vstd::string::is_ascii("ipc.endpoint.recv"));
    assert(vstd::string::is_ascii("vm.map"));
    assert(vstd::string::is_ascii("vm.unmap"));
    assert(vstd::string::is_ascii("mmio.map"));
    assert(vstd::string::is_ascii("dma.allocate"));
    assert(vstd::string::is_ascii("memory.phys.map"));
    assert(vstd::string::is_ascii("memory.phys.translate"));
    assert("irq.bind".spec_bytes().len() != "process.kill".spec_bytes().len());
    assert("irq.bind".spec_bytes().len() != "process.spawn".spec_bytes().len());
    assert("irq.bind".spec_bytes().len() != "ipc.endpoint.create".spec_bytes().len());
    assert("irq.bind".spec_bytes().len() != "ipc.endpoint.send".spec_bytes().len());
    assert("irq.bind".spec_bytes().len() != "ipc.endpoint.recv".spec_bytes().len());
    assert("irq.bind".spec_bytes().len() != "vm.map".spec_bytes().len());
    assert("irq.bind".spec_bytes()[0] != "vm.unmap".spec_bytes()[0]);
    assert("irq.bind".spec_bytes()[0] != "mmio.map".spec_bytes()[0]);
    assert("irq.bind".spec_bytes().len() != "dma.allocate".spec_bytes().len());
    assert("irq.bind".spec_bytes().len() != "memory.phys.map".spec_bytes().len());
    assert("irq.bind".spec_bytes().len() != "memory.phys.translate".spec_bytes().len());
}

proof fn lemma_kernel_name_12()
    ensures
        kernel_capability_named("cext.load".spec_bytes()) == Some(KernelCapability::CextLoad),
{
    broadcast use vstd::string::is_ascii_spec_bytes;
    reveal_strlit("cext.load");
    reveal_strlit("process.kill");
    reveal_strlit("process.spawn");
    reveal_strlit("ipc.endpoint.create");
    reveal_strlit("ipc.endpoint.send");
    reveal_strlit("ipc.endpoint.recv");
    reveal_strlit("vm.map");
    reveal_strlit("vm.unmap");
    reveal_strlit("mmio.map");
    reveal_strlit("dma.allocate");
    reveal_strlit("memory.phys.map");
    reveal_strlit("memory.phys.translate");
    reveal_strlit("irq.bind");
    assert(vstd::string::is_ascii("cext.load"));
    assert(vstd::string::is_ascii("process.kill"));
    assert(vstd::string::is_ascii("process.spawn"));
    assert(vstd::string::is_ascii("ipc.endpoint.create"));
    assert(vstd::string::is_ascii("ipc.endpoint.send"));
    assert(vstd::string::is_ascii("ipc.endpoint.recv"));
    assert(vstd::string::is_ascii("vm.map"));
    assert(vstd::string::is_ascii("vm.unmap"));
    assert(vstd::string::is_ascii("mmio.map"));
    assert(vstd::string::is_ascii("dma.allocate"));
    assert(vstd::string::is_ascii("memory.phys.map"));
    assert(vstd::string::is_ascii("memory.phys.translate"));
    assert(vstd::string::is_ascii("irq.bind"));
    assert("cext.load".spec_bytes().len() != "process.kill".spec_bytes().len());
    assert("cext.load".spec_bytes().len() != "process.spawn".spec_bytes().len());
    assert("cext.load".spec_bytes().len() != "ipc.endpoint.create".spec_bytes().len());
    assert("cext.load".spec_bytes().len() != "ipc.endpoint.send".spec_bytes().len());
    assert("cext.load".spec_bytes().len() != "ipc.endpoint.recv".spec_bytes().len());
    assert("cext.load".spec_bytes().len() != "vm.map".spec_bytes().len());
    assert("cext.load".spec_bytes().len() != "vm.unmap".spec_bytes().len());
    assert("cext.load".spec_bytes().len() != "mmio.map".spec_bytes().len());
    assert("cext.load".spec_bytes().len() != "dma.allocate".spec_bytes().len());
    assert("cext.load".spec_bytes().len() != "memory.phys.map".spec_bytes().len());
    assert("cext.load".spec_bytes().len() != "memory.phys.translate".spec_bytes().len());
    assert("cext.load".spec_bytes().len() != "irq.bind".spec_bytes().len());
}

proof fn lemma_kernel_name_13()
    ensures
        kernel_capability_named("cext.stop".spec_bytes()) == Some(KernelCapability::CextStop),
{
    broadcast use vstd::string::is_ascii_spec_bytes;
    reveal_strlit("cext.stop");
    reveal_strlit("process.kill");
    reveal_strlit("process.spawn");
    reveal_strlit("ipc.endpoint.create");
    reveal_strlit("ipc.endpoint.send");
    reveal_strlit("ipc.endpoint.recv");
    reveal_strlit("vm.map");
    reveal_strlit("vm.unmap");
    reveal_strlit("mmio.map");
    reveal_strlit("dma.allocate");
    reveal_strlit("memory.phys.map");
    reveal_strlit("memory.phys.translate");
    reveal_strlit("irq.bind");
    reveal_strlit("cext.load");
    assert(vstd::string::is_ascii("cext.stop"));
    assert(vstd::string::is_ascii("process.kill"));
    assert(vstd::string::is_ascii("process.spawn"));
    assert(vstd::string::is_ascii("ipc.endpoint.create"));
    assert(vstd::string::is_ascii("ipc.endpoint.send"));
    assert(vstd::string::is_ascii("ipc.endpoint.recv"));
    assert(vstd::string::is_ascii("vm.map"));
    assert(vstd::string::is_ascii("vm.unmap"));
    assert(vstd::string::is_ascii("mmio.map"));
    assert(vstd::string::is_ascii("dma.allocate"));
    assert(vstd::string::is_ascii("memory.phys.map"));
    assert(vstd::string::is_ascii("memory.phys.translate"));
    assert(vstd::string::is_ascii("irq.bind"));
    assert(vstd::string::is_ascii("cext.load"));
    assert("cext.stop".spec_bytes().len() != "process.kill".spec_bytes().len());
    assert("cext.stop".spec_bytes().len() != "process.spawn".spec_bytes().len());
    assert("cext.stop".spec_bytes().len() != "ipc.endpoint.create".spec_bytes().len());
    assert("cext.stop".spec_bytes().len() != "ipc.endpoint.send".spec_bytes().len());
    assert("cext.stop".spec_bytes().len() != "ipc.endpoint.recv".spec_bytes().len());
    assert("cext.stop".spec_bytes().len() != "vm.map".spec_bytes().len());
    assert("cext.stop".spec_bytes().len() != "vm.unmap".spec_bytes().len());
    assert("cext.stop".spec_bytes().len() != "mmio.map".spec_bytes().len());
    assert("cext.stop".spec_bytes().len() != "dma.allocate".spec_bytes().len());
    assert("cext.stop".spec_bytes().len() != "memory.phys.map".spec_bytes().len());
    assert("cext.stop".spec_bytes().len() != "memory.phys.translate".spec_bytes().len());
    assert("cext.stop".spec_bytes().len() != "irq.bind".spec_bytes().len());
    assert("cext.stop".spec_bytes()[5] != "cext.load".spec_bytes()[5]);
}

proof fn lemma_kernel_name_14()
    ensures
        kernel_capability_named("device.claim".spec_bytes()) == Some(KernelCapability::DeviceClaim),
{
    broadcast use vstd::string::is_ascii_spec_bytes;
    reveal_strlit("device.claim");
    reveal_strlit("process.kill");
    reveal_strlit("process.spawn");
    reveal_strlit("ipc.endpoint.create");
    reveal_strlit("ipc.endpoint.send");
    reveal_strlit("ipc.endpoint.recv");
    reveal_strlit("vm.map");
    reveal_strlit("vm.unmap");
    reveal_strlit("mmio.map");
    reveal_strlit("dma.allocate");
    reveal_strlit("memory.phys.map");
    reveal_strlit("memory.phys.translate");
    reveal_strlit("irq.bind");
    reveal_strlit("cext.load");
    reveal_strlit("cext.stop");
    assert(vstd::string::is_ascii("device.claim"));
    assert(vstd::string::is_ascii("process.kill"));
    assert(vstd::string::is_ascii("process.spawn"));
    assert(vstd::string::is_ascii("ipc.endpoint.create"));
    assert(vstd::string::is_ascii("ipc.endpoint.send"));
    assert(vstd::string::is_ascii("ipc.endpoint.recv"));
    assert(vstd::string::is_ascii("vm.map"));
    assert(vstd::string::is_ascii("vm.unmap"));
    assert(vstd::string::is_ascii("mmio.map"));
    assert(vstd::string::is_ascii("dma.allocate"));
    assert(vstd::string::is_ascii("memory.phys.map"));
    assert(vstd::string::is_ascii("memory.phys.translate"));
    assert(vstd::string::is_ascii("irq.bind"));
    assert(vstd::string::is_ascii("cext.load"));
    assert(vstd::string::is_ascii("cext.stop"));
    assert("device.claim".spec_bytes()[0] != "process.kill".spec_bytes()[0]);
    assert("device.claim".spec_bytes().len() != "process.spawn".spec_bytes().len());
    assert("device.claim".spec_bytes().len() != "ipc.endpoint.create".spec_bytes().len());
    assert("device.claim".spec_bytes().len() != "ipc.endpoint.send".spec_bytes().len());
    assert("device.claim".spec_bytes().len() != "ipc.endpoint.recv".spec_bytes().len());
    assert("device.claim".spec_bytes().len() != "vm.map".spec_bytes().len());
    assert("device.claim".spec_bytes().len() != "vm.unmap".spec_bytes().len());
    assert("device.claim".spec_bytes().len() != "mmio.map".spec_bytes().len());
    assert("device.claim".spec_bytes()[1] != "dma.allocate".spec_bytes()[1]);
    assert("device.claim".spec_bytes().len() != "memory.phys.map".spec_bytes().len());
    assert("device.claim".spec_bytes().len() != "memory.phys.translate".spec_bytes().len());
    assert("device.claim".spec_bytes().len() != "irq.bind".spec_bytes().len());
    assert("device.claim".spec_bytes().len() != "cext.load".spec_bytes().len());
    assert("device.claim".spec_bytes().len() != "cext.stop".spec_bytes().len());
}

proof fn lemma_kernel_name_15()
    ensures
        kernel_capability_named("kernel.debug".spec_bytes()) == Some(KernelCapability::KernelDebug),
{
    broadcast use vstd::string::is_ascii_spec_bytes;
    reveal_strlit("kernel.debug");
    reveal_strlit("process.kill");
    reveal_strlit("process.spawn");
    reveal_strlit("ipc.endpoint.create");
    reveal_strlit("ipc.endpoint.send");
    reveal_strlit("ipc.endpoint.recv");
    reveal_strlit("vm.map");
    reveal_strlit("vm.unmap");
    reveal_strlit("mmio.map");
    reveal_strlit("dma.allocate");
    reveal_strlit("memory.phys.map");
    reveal_strlit("memory.phys.translate");
    reveal_strlit("irq.bind");
    reveal_strlit("cext.load");
    reveal_strlit("cext.stop");
    reveal_strlit("device.claim");
    assert(vstd::string::is_ascii("kernel.debug"));
    assert(vstd::string::is_ascii("process.kill"));
    assert(vstd::string::is_ascii("process.spawn"));
    assert(vstd::string::is_ascii("ipc.endpoint.create"));
    assert(vstd::string::is_ascii("ipc.endpoint.send"));
    assert(vstd::string::is_ascii("ipc.endpoint.recv"));
    assert(vstd::string::is_ascii("vm.map"));
    assert(vstd::string::is_ascii("vm.unmap"));
    assert(vstd::string::is_ascii("mmio.map"));
    assert(vstd::string::is_ascii("dma.allocate"));
    assert(vstd::string::is_ascii("memory.phys.map"));
    assert(vstd::string::is_ascii("memory.phys.translate"));
    assert(vstd::string::is_ascii("irq.bind"));
    assert(vstd::string::is_ascii("cext.load"));
    assert(vstd::string::is_ascii("cext.stop"));
    assert(vstd::string::is_ascii("device.claim"));
    assert("kernel.debug".spec_bytes()[0] != "process.kill".spec_bytes()[0]);
    assert("kernel.debug".spec_bytes().len() != "process.spawn".spec_bytes().len());
    assert("kernel.debug".spec_bytes().len() != "ipc.endpoint.create".spec_bytes().len());
    assert("kernel.debug".spec_bytes().len() != "ipc.endpoint.send".spec_bytes().len());
    assert("kernel.debug".spec_bytes().len() != "ipc.endpoint.recv".spec_bytes().len());
    assert("kernel.debug".spec_bytes().len() != "vm.map".spec_bytes().len());
    assert("kernel.debug".spec_bytes().len() != "vm.unmap".spec_bytes().len());
    assert("kernel.debug".spec_bytes().len() != "mmio.map".spec_bytes().len());
    assert("kernel.debug".spec_bytes()[0] != "dma.allocate".spec_bytes()[0]);
    assert("kernel.debug".spec_bytes().len() != "memory.phys.map".spec_bytes().len());
    assert("kernel.debug".spec_bytes().len() != "memory.phys.translate".spec_bytes().len());
    assert("kernel.debug".spec_bytes().len() != "irq.bind".spec_bytes().len());
    assert("kernel.debug".spec_bytes().len() != "cext.load".spec_bytes().len());
    assert("kernel.debug".spec_bytes().len() != "cext.stop".spec_bytes().len());
    assert("kernel.debug".spec_bytes()[0] != "device.claim".spec_bytes()[0]);
}

proof fn lemma_signature_write_unnamed()
    ensures
        kernel_capability_named("signature.db.write".spec_bytes()) is None,
{
    broadcast use vstd::string::is_ascii_spec_bytes;
    reveal_strlit("process.kill");
    reveal_strlit("process.spawn");
    reveal_strlit("ipc.endpoint.create");
    reveal_strlit("ipc.endpoint.send");
    reveal_strlit("ipc.endpoint.recv");
    reveal_strlit("vm.map");
    reveal_strlit("vm.unmap");
    reveal_strlit("mmio.map");
    reveal_strlit("dma.allocate");
    reveal_strlit("memory.phys.map");
    reveal_strlit("memory.phys.translate");
    reveal_strlit("irq.bind");
    reveal_strlit("cext.load");
    reveal_strlit("cext.stop");
    reveal_strlit("device.claim");
    reveal_strlit("kernel.debug");
    reveal_strlit("signature.db.write");
    assert(vstd::string::is_ascii("process.kill"));
    assert(vstd::string::is_ascii("process.spawn"));
    assert(vstd::string::is_ascii("ipc.endpoint.create"));
    assert(vstd::string::is_ascii("ipc.endpoint.send"));
    assert(vstd::string::is_ascii("ipc.endpoint.recv"));
    assert(vstd::string::is_ascii("vm.map"));
    assert(vstd::string::is_ascii("vm.unmap"));
    assert(vstd::string::is_ascii("mmio.map"));
    assert(vstd::string::is_ascii("dma.allocate"));
    assert(vstd::string::is_ascii("memory.phys.map"));
    assert(vstd::string::is_ascii("memory.phys.translate"));
    assert(vstd::string::is_ascii("irq.bind"));
    assert(vstd::string::is_ascii("cext.load"));
    assert(vstd::string::is_ascii("cext.stop"));
    assert(vstd::string::is_ascii("device.claim"));
    assert(vstd::string::is_ascii("kernel.debug"));
    assert(vstd::string::is_ascii("signature.db.write"));
    assert("signature.db.write".spec_bytes()[0] != "process.kill".spec_bytes()[0]);
    assert("signature.db.write".spec_bytes()[0] != "process.spawn".spec_bytes()[0]);
    assert("signature.db.write".spec_bytes()[0] != "ipc.endpoint.create".spec_bytes()[0]);
    assert("signature.db.write".spec_bytes()[0] != "ipc.endpoint.send".spec_bytes()[0]);
    assert("signature.db.write".spec_bytes()[0] != "ipc.endpoint.recv".spec_bytes()[0]);
    assert("signature.db.write".spec_bytes()[0] != "vm.map".spec_bytes()[0]);
    assert("signature.db.write".spec_bytes()[0] != "vm.unmap".spec_bytes()[0]);
    assert("signature.db.write".spec_bytes()[0] != "mmio.map".spec_bytes()[0]);
    assert("signature.db.write".spec_bytes()[0] != "dma.allocate".spec_bytes()[0]);
    assert("signature.db.write".spec_bytes()[0] != "memory.phys.map".spec_bytes()[0]);
    assert("signature.db.write".spec_bytes()[0] != "memory.phys.translate".spec_bytes()[0]);
    assert("signature.db.write".spec_bytes()[0] != "irq.bind".spec_bytes()[0]);
    assert("signature.db.write".spec_bytes()[0] != "cext.load".spec_bytes()[0]);
    assert("signature.db.write".spec_bytes()[0] != "cext.stop".spec_bytes()[0]);
    assert("signature.db.write".spec_bytes()[0] != "device.claim".spec_bytes()[0]);
    assert("signature.db.write".spec_bytes()[0] != "kernel.debug".spec_bytes()[0]);
}

proof fn lemma_signature_read_unnamed()
    ensures
        kernel_capability_named("signature.db.read".spec_bytes()) is None,
{
    broadcast use vstd::string::is_ascii_spec_bytes;
    reveal_strlit("process.kill");
    reveal_strlit("process.spawn");
    reveal_strlit("ipc.endpoint.create");
    reveal_strlit("ipc.endpoint.send");
    reveal_strlit("ipc.endpoint.recv");
    reveal_strlit("vm.map");
    reveal_strlit("vm.unmap");
    reveal_strlit("mmio.map");
    reveal_strlit("dma.allocate");
    reveal_strlit("memory.phys.map");
    reveal_strlit("memory.phys.translate");
    reveal_strlit("irq.bind");
    reveal_strlit("cext.load");
    reveal_strlit("cext.stop");
    reveal_strlit("device.claim");
    reveal_strlit("kernel.debug");
    reveal_strlit("signature.db.read");
    assert(vstd::string::is_ascii("process.kill"));
    assert(vstd::string::is_ascii("process.spawn"));
    assert(vstd::string::is_ascii("ipc.endpoint.create"));
    assert(vstd::string::is_ascii("ipc.endpoint.send"));
    assert(vstd::string::is_ascii("ipc.endpoint.recv"));
    assert(vstd::string::is_ascii("vm.map"));
    assert(vstd::string::is_ascii("vm.unmap"));
    assert(vstd::string::is_ascii("mmio.map"));
    assert(vstd::string::is_ascii("dma.allocate"));
    assert(vstd::string::is_ascii("memory.phys.map"));
    assert(vstd::string::is_ascii("memory.phys.translate"));
    assert(vstd::string::is_ascii("irq.bind"));
    assert(vstd::string::is_ascii("cext.load"));
    assert(vstd::string::is_ascii("cext.stop"));
    assert(vstd::string::is_ascii("device.claim"));
    assert(vstd::string::is_ascii("kernel.debug"));
    assert(vstd::string::is_ascii("signature.db.read"));
    assert("signature.db.read".spec_bytes()[0] != "process.kill".spec_bytes()[0]);
    assert("signature.db.read".spec_bytes()[0] != "process.spawn".spec_bytes()[0]);
    assert("signature.db.read".spec_bytes()[0] != "ipc.endpoint.create".spec_bytes()[0]);
    assert("signature.db.read".spec_bytes()[0] != "ipc.endpoint.send".spec_bytes()[0]);
    assert("signature.db.read".spec_bytes()[0] != "ipc.endpoint.recv".spec_bytes()[0]);
    assert("signature.db.read".spec_bytes()[0] != "vm.map".spec_bytes()[0]);
    assert("signature.db.read".spec_bytes()[0] != "vm.unmap".spec_bytes()[0]);
    assert("signature.db.read".spec_bytes()[0] != "mmio.map".spec_bytes()[0]);
    assert("signature.db.read".spec_bytes()[0] != "dma.allocate".spec_bytes()[0]);
    assert("signature.db.read".spec_bytes()[0] != "memory.phys.map".spec_bytes()[0]);
    assert("signature.db.read".spec_bytes()[0] != "memory.phys.translate".spec_bytes()[0]);
    assert("signature.db.read".spec_bytes()[0] != "irq.bind".spec_bytes()[0]);
    assert("signature.db.read".spec_bytes()[0] != "cext.load".spec_bytes()[0]);
    assert("signature.db.read".spec_bytes()[0] != "cext.stop".spec_bytes()[0]);
    assert("signature.db.read".spec_bytes()[0] != "device.claim".spec_bytes()[0]);
    assert("signature.db.read".spec_bytes()[0] != "kernel.debug".spec_bytes()[0]);
}

/// A name that `from_str` reads is the name of what it gives back.
pub proof fn lemma_kernel_capability_named_sound(name: Seq<u8>)
    ensures
        kernel_capability_named(name) matches Some(c) ==> kernel_capability_name(c) == name,
{
}

/// No two kernel capabilities share a name.
pub proof fn lemma_kernel_capability_name_injective(a: KernelCapability, b: KernelCapability)
    requires
        kernel_capability_name(a) == kernel_capability_name(b),
    ensures
        a == b,
{
    let sig_a = a == KernelCapability::SignatureWrite || a == KernelCapability::SignatureRead;
    let sig_b = b == KernelCapability::SignatureWrite || b == KernelCapability::SignatureRead;
    if !sig_a && !sig_b {
        lemma_kernel_capability_name_round_trip(a);
        lemma_kernel_capability_name_round_trip(b);
    } else if sig_a && sig_b {
        broadcast use vstd::string::is_ascii_spec_bytes;
        reveal_strlit("signature.db.write");
        reveal_strlit("signature.db.read");
        assert(vstd::string::is_ascii("signature.db.write"));
        assert(vstd::string::is_ascii("signature.db.read"));
        assert("signature.db.write".spec_bytes().len() != "signature.db.read".spec_bytes().len());
    } else {
        lemma_signature_write_unnamed();
        lemma_signature_read_unnamed();
        if sig_a {
            lemma_kernel_capability_name_round_trip(b);
        } else {
            lemma_kernel_capability_name_round_trip(a);
        }
    }
}

/// Every kernel capability but the two signature database rights is found
/// again from its name.
pub proof fn lemma_kernel_capability_name_round_trip(c: KernelCapability)
    requires
        c != KernelCapability::SignatureWrite,
        c != KernelCapability::SignatureRead,
    ensures
        kernel_capability_named(kernel_capability_name(c)) == Some(c),
{
    match c {
        KernelCapability::ProcessKill => lemma_kernel_name_0(),
        KernelCapability::ProcessSpawn => lemma_kernel_name_1(),
        KernelCapability::IpcEndpointCreate => lemma_kernel_name_2(),
        KernelCapability::IpcEndpointSend => lemma_kernel_name_3(),
        KernelCapability::IpcEndpointRecv => lemma_kernel_name_4(),
        KernelCapability::VmMap => lemma_kernel_name_5(),
        KernelCapability::VmUnmap => lemma_kernel_name_6(),
        KernelCapability::MmioMap => lemma_kernel_name_7(),
        KernelCapability::DmaAllocate => lemma_kernel_name_8(),
        KernelCapability::PhysMap => lemma_kernel_name_9(),
        KernelCapability::PhysTranslate => lemma_kernel_name_10(),
        KernelCapability::IrqBind => lemma_kernel_name_11(),
        KernelCapability::CextLoad => lemma_kernel_name_12(),
        KernelCapability::CextStop => lemma_kernel_name_13(),
        KernelCapability::DeviceClaim => lemma_kernel_name_14(),
        KernelCapability::KernelDebug => lemma_kernel_name_15(),
        _ => {},
    }
}

proof fn lemma_builtin_name_0()
    ensures
        builtin_named("fs.read.user.documents".spec_bytes()) == Some(Capability::FsReadUserDocuments),
{
    reveal(builtin_named);
}

proof fn lemma_builtin_name_1()
    ensures
        builtin_named("fs.write.user.documents".spec_bytes()) == Some(Capability::FsWriteUserDocuments),
{
    reveal(builtin_named);
    broadcast use vstd::string::is_ascii_spec_bytes;
    reveal_strlit("fs.write.user.documents");
    reveal_strlit("fs.read.user.documents");
    assert(vstd::string::is_ascii("fs.write.user.documents"));
    assert(vstd::string::is_ascii("fs.read.user.documents"));
    assert("fs.write.user.documents".spec_bytes().len() != "fs.read.user.documents".spec_bytes().len());
}

proof fn lemma_builtin_name_2()
    ensures
        builtin_named("fs.read.user.downloads".spec_bytes()) == Some(Capability::FsReadUserDownloads),
{
    reveal(builtin_named);
    broadcast use vstd::string::is_ascii_spec_bytes;
    reveal_strlit("fs.read.user.downloads");
    reveal_strlit("fs.read.user.documents");
    reveal_strlit("fs.write.user.documents");
    assert(vstd::string::is_ascii("fs.read.user.downloads"));
    assert(vstd::string::is_ascii("fs.read.user.documents"));
    assert(vstd::string::is_ascii("fs.write.user.documents"));
    assert("fs.read.user.downloads".spec_bytes()[15] != "fs.read.user.documents".spec_bytes()[15]);
    assert("fs.read.user.downloads".spec_bytes().len() != "fs.write.user.documents".spec_bytes().len());
}

proof fn lemma_builtin_name_3()
    ensures
        builtin_named("fs.write.user.downloads".spec_bytes()) == Some(Capability::FsWriteUserDownloads),
{
    reveal(builtin_named);
    broadcast use vstd::string::is_ascii_spec_bytes;
    reveal_strlit("fs.write.user.downloads");
    reveal_strlit("fs.read.user.documents");
    reveal_strlit("fs.write.user.documents");
    reveal_strlit("fs.read.user.downloads");
    assert(vstd::string::is_ascii("fs.write.user.downloads"));
    assert(vstd::string::is_ascii("fs.read.user.documents"));
    assert(vstd::string::is_ascii("fs.write.user.documents"));
    assert(vstd::string::is_ascii("fs.read.user.downloads"));
    assert("fs.write.user.downloads".spec_bytes().len() != "fs.read.user.documents".spec_bytes().len());
    assert("fs.write.user.downloads".spec_bytes()[16] != "fs.write.user.documents".spec_bytes()[16]);
    assert("fs.write.user.downloads".spec_bytes().len() != "fs.read.user.downloads".spec_bytes().len());
}

proof fn lemma_builtin_name_4()
    ensures
        builtin_named("fs.read.user.desktop".spec_bytes()) == Some(Capability::FsReadUserDesktop),
{
    reveal(builtin_named);
    broadcast use vstd::string::is_ascii_spec_bytes;
    reveal_strlit("fs.read.user.desktop");
    reveal_strlit("fs.read.user.documents");
    reveal_strlit("fs.write.user.documents");
    reveal_strlit("fs.read.user.downloads");
    reveal_strlit("fs.write.user.downloads");
    assert(vstd::string::is_ascii("fs.read.user.desktop"));
    assert(vstd::string::is_ascii("fs.read.user.documents"));
    assert(vstd::string::is_ascii("fs.write.user.documents"));
    assert(vstd::string::is_ascii("fs.read.user.downloads"));
    assert(vstd::string::is_ascii("fs.write.user.downloads"));
    assert("fs.read.user.desktop".spec_bytes().len() != "fs.read.user.documents".spec_bytes().len());
    assert("fs.read.user.desktop".spec_bytes().len() != "fs.write.user.documents".spec_bytes().len());
    assert("fs.read.user.desktop".spec_bytes().len() != "fs.read.user.downloads".spec_bytes().len());
    assert("fs.read.user.desktop".spec_bytes().len() != "fs.write.user.downloads".spec_bytes().len());
}

proof fn lemma_builtin_name_5()
    ensures
        builtin_named("fs.write.user.desktop".spec_bytes()) == Some(Capability::FsWriteUserDesktop),
{
    reveal(builtin_named);
    broadcast use vstd::string::is_ascii_spec_bytes;
    reveal_strlit("fs.write.user.desktop");
    reveal_strlit("fs.read.user.documents");
    reveal_strlit("fs.write.user.documents");
    reveal_strlit("fs.read.user.downloads");
    reveal_strlit("fs.write.user.downloads");
    reveal_strlit("fs.read.user.desktop");
    assert(vstd::string::is_ascii("fs.write.user.desktop"));
    assert(vstd::string::is_ascii("fs.read.user.documents"));
    assert(vstd::string::is_ascii("fs.write.user.documents"));
    assert(vstd::string::is_ascii("fs.read.user.downloads"));
    assert(vstd::string::is_ascii("fs.write.user.downloads"));
    assert(vstd::string::is_ascii("fs.read.user.desktop"));
    assert("fs.write.user.desktop".spec_bytes().len() != "fs.read.user.documents".spec_bytes().len());
    assert("fs.write.user.desktop".spec_bytes().len() != "fs.write.user.documents".spec_bytes().len());
    assert("fs.write.user.desktop".spec_bytes().len() != "fs.read.user.downloads".spec_bytes().len());
    assert("fs.write.user.desktop".spec_bytes().len() != "fs.write.user.downloads".spec_bytes().len());
    assert("fs.write.user.desktop".spec_bytes().len() != "fs.read.user.desktop".spec_bytes().len());
}

proof fn lemma_builtin_name_6()
    ensures
        builtin_named("fs.read.user.pictures".spec_bytes()) == Some(Capability::FsReadUserPictures),
{
    reveal(builtin_named);
    broadcast use vstd::string::is_ascii_spec_bytes;
    reveal_strlit("fs.read.user.pictures");
    reveal_strlit("fs.read.user.documents");
    reveal_strlit("fs.write.user.documents");
    reveal_strlit("fs.read.user.downloads");
    reveal_strlit("fs.write.user.downloads");
    reveal_strlit("fs.read.user.desktop");
    reveal_strlit("fs.write.user.desktop");
    assert(vstd::string::is_ascii("fs.read.user.pictures"));
    assert(vstd::string::is_ascii("fs.read.user.documents"));
    assert(vstd::string::is_ascii("fs.write.user.documents"));
    assert(vstd::string::is_ascii("fs.read.user.downloads"));
    assert(vstd::string::is_ascii("fs.write.user.downloads"));
    assert(vstd::string::is_ascii("fs.read.user.desktop"));
    assert(vstd::string::is_ascii("fs.write.user.desktop"));
    assert("fs.read.user.pictures".spec_bytes().len() != "fs.read.user.documents".spec_bytes().len());
    assert("fs.read.user.pictures".spec_bytes().len() != "fs.write.user.documents".spec_bytes().len());
    assert("fs.read.user.pictures".spec_bytes().len() != "fs.read.user.downloads".spec_bytes().len());
    assert("fs.read.user.pictures".spec_bytes().len() != "fs.write.user.downloads".spec_bytes().len());
    assert("fs.read.user.pictures".spec_bytes().len() != "fs.read.user.desktop".spec_bytes().len());
    assert("fs.read.user.pictures".spec_bytes()[3] != "fs.write.user.desktop".spec_bytes()[3]);
}

proof fn lemma_builtin_name_7()
    ensures
        builtin_named("fs.write.user.pictures".spec_bytes()) == Some(Capability::FsWriteUserPictures),
{
    reveal(builtin_named);
    broadcast use vstd::string::is_ascii_spec_bytes;
    reveal_strlit("fs.write.user.pictures");
    reveal_strlit("fs.read.user.documents");
    reveal_strlit("fs.write.user.documents");
    reveal_strlit("fs.read.user.downloads");
    reveal_strlit("fs.write.user.downloads");
    reveal_strlit("fs.read.user.desktop");
    reveal_strlit("fs.write.user.desktop");
    reveal_strlit("fs.read.user.pictures");
    assert(vstd::string::is_ascii("fs.write.user.pictures"));
    assert(vstd::string::is_ascii("fs.read.user.documents"));
    assert(vstd::string::is_ascii("fs.write.user.documents"));
    assert(vstd::string::is_ascii("fs.read.user.downloads"));
    assert(vstd::string::is_ascii("fs.write.user.downloads"));
    assert(vstd::string::is_ascii("fs.read.user.desktop"));
    assert(vstd::string::is_ascii("fs.write.user.desktop"));
    assert(vstd::string::is_ascii("fs.read.user.pictures"));
    assert("fs.write.user.pictures".spec_bytes()[3] != "fs.read.user.documents".spec_bytes()[3]);
    assert("fs.write.user.pictures".spec_bytes().len() != "fs.write.user.documents".spec_bytes().len());
    assert("fs.write.user.pictures".spec_bytes()[3] != "fs.read.user.downloads".spec_bytes()[3]);
    assert("fs.write.user.pictures".spec_bytes().len() != "fs.write.user.downloads".spec_bytes().len());
    assert("fs.write.user.pictures".spec_bytes().len() != "fs.read.user.desktop".spec_bytes().len());
    assert("fs.write.user.pictures".spec_bytes().len() != "fs.write.user.desktop".spec_bytes().len());
    assert("fs.write.user.pictures".spec_bytes().len() != "fs.read.user.pictures".spec_bytes().len());
}

proof fn lemma_builtin_name_8()
    ensures
        builtin_named("fs.read.user.music".spec_bytes()) == Some(Capability::FsReadUserMusic),
{
    reveal(builtin_named);
    broadcast use vstd::string::is_ascii_spec_bytes;
    reveal_strlit("fs.read.user.music");
    reveal_strlit("fs.read.user.documents");
    reveal_strlit("fs.write.user.documents");
    reveal_strlit("fs.read.user.downloads");
    reveal_strlit("fs.write.user.downloads");
    reveal_strlit("fs.read.user.desktop");
    reveal_strlit("fs.write.user.desktop");
    reveal_strlit("fs.read.user.pictures");
    reveal_strlit("fs.write.user.pictures");
    assert(vstd::string::is_ascii("fs.read.user.music"));
    assert(vstd::string::is_ascii("fs.read.user.documents"));
    assert(vstd::string::is_ascii("fs.write.user.documents"));
    assert(vstd::string::is_ascii("fs.read.user.downloads"));
    assert(vstd::string::is_ascii("fs.write.user.downloads"));
    assert(vstd::string::is_ascii("fs.read.user.desktop"));
    assert(vstd::string::is_ascii("fs.write.user.desktop"));
    assert(vstd::string::is_ascii("fs.read.user.pictures"));
    assert(vstd::string::is_ascii("fs.write.user.pictures"));
    assert("fs.read.user.music".spec_bytes().len() != "fs.read.user.documents".spec_bytes().len());
    assert("fs.read.user.music".spec_bytes().len() != "fs.write.user.documents".spec_bytes().len());
    assert("fs.read.user.music".spec_bytes().len() != "fs.read.user.downloads".spec_bytes().len());
    assert("fs.read.user.music".spec_bytes().len() != "fs.write.user.downloads".spec_bytes().len());
    assert("fs.read.user.music".spec_bytes().len() != "fs.read.user.desktop".spec_bytes().len());
    assert("fs.read.user.music".spec_bytes().len() != "fs.write.user.desktop".spec_bytes().len());
    assert("fs.read.user.music".spec_bytes().len() != "fs.read.user.pictures".spec_bytes().len());
    assert("fs.read.user.music".spec_bytes().len() != "fs.write.user.pictures".spec_bytes().len());
}

proof fn lemma_builtin_name_9()
    ensures
        builtin_named("fs.write.user.music".spec_bytes()) == Some(Capability::FsWriteUserMusic),
{
    reveal(builtin_named);
    broadcast use vstd::string::is_ascii_spec_bytes;
    reveal_strlit("fs.write.user.music");
    reveal_strlit("fs.read.user.documents");
    reveal_strlit("fs.write.user.documents");
    reveal_strlit("fs.read.user.downloads");
    reveal_strlit("fs.write.user.downloads");
    reveal_strlit("fs.read.user.desktop");
    reveal_strlit("fs.write.user.desktop");
    reveal_strlit("fs.read.user.pictures");
    reveal_strlit("fs.write.user.pictures");
    reveal_strlit("fs.read.user.music");
    assert(vstd::string::is_ascii("fs.write.user.music"));
    assert(vstd::string::is_ascii("fs.read.user.documents"));
    assert(vstd::string::is_ascii("fs.write.user.documents"));
    assert(vstd::string::is_ascii("fs.read.user.downloads"));
    assert(vstd::string::is_ascii("fs.write.user.downloads"));
    assert(vstd::string::is_ascii("fs.read.user.desktop"));
    assert(vstd::string::is_ascii("fs.write.user.desktop"));
    assert(vstd::string::is_ascii("fs.read.user.pictures"));
    assert(vstd::string::is_ascii("fs.write.user.pictures"));
    assert(vstd::string::is_ascii("fs.read.user.music"));
    assert("fs.write.user.music".spec_bytes().len() != "fs.read.user.documents".spec_bytes().len());
    assert("fs.write.user.music".spec_bytes().len() != "fs.write.user.documents".spec_bytes().len());
    assert("fs.write.user.music".spec_bytes().len() != "fs.read.user.downloads".spec_bytes().len());
    assert("fs.write.user.music".spec_bytes().len() != "fs.write.user.downloads".spec_bytes().len());
    assert("fs.write.user.music".spec_bytes().len() != "fs.read.user.desktop".spec_bytes().len());
    assert("fs.write.user.music".spec_bytes().len() != "fs.write.user.desktop".spec_bytes().len());
    assert("fs.write.user.music".spec_bytes().len() != "fs.read.user.pictures".spec_bytes().len());
    assert("fs.write.user.music".spec_bytes().len() != "fs.write.user.pictures".spec_bytes().len());
    assert("fs.write.user.music".spec_bytes().len() != "fs.read.user.music".spec_bytes().len());
}

proof fn lemma_builtin_name_10()
    ensures
        builtin_named("fs.read.user.videos".spec_bytes()) == Some(Capability::FsReadUserVideos),
{
    reveal(builtin_named);
    broadcast use vstd::string::is_ascii_spec_bytes;
    reveal_strlit("fs.read.user.videos");
    reveal_strlit("fs.read.user.documents");
    reveal_strlit("fs.write.user.documents");
    reveal_strlit("fs.read.user.downloads");
    reveal_strlit("fs.write.user.downloads");
    reveal_strlit("fs.read.user.desktop");
    reveal_strlit("fs.write.user.desktop");
    reveal_strlit("fs.read.user.pictures");
    reveal_strlit("fs.write.user.pictures");
    reveal_strlit("fs.read.user.music");
    reveal_strlit("fs.write.user.music");
    assert(vstd::string::is_ascii("fs.read.user.videos"));
    assert(vstd::string::is_ascii("fs.read.user.documents"));
    assert(vstd::string::is_ascii("fs.write.user.documents"));
    assert(vstd::string::is_ascii("fs.read.user.downloads"));
    assert(vstd::string::is_ascii("fs.write.user.downloads"));
    assert(vstd::string::is_ascii("fs.read.user.desktop"));
    assert(vstd::string::is_ascii("fs.write.user.desktop"));
    assert(vstd::string::is_ascii("fs.read.user.pictures"));
    assert(vstd::string::is_ascii("fs.write.user.pictures"));
    assert(vstd::string::is_ascii("fs.read.user.music"));
    assert(vstd::string::is_ascii("fs.write.user.music"));
    assert("fs.read.user.videos".spec_bytes().len() != "fs.read.user.documents".spec_bytes().len());
    assert("fs.read.user.videos".spec_bytes().len() != "fs.write.user.documents".spec_bytes().len());
    assert("fs.read.user.videos".spec_bytes().len() != "fs.read.user.downloads".spec_bytes().len());
    assert("fs.read.user.videos".spec_bytes().len() != "fs.write.user.downloads".spec_bytes().len());
    assert("fs.read.user.videos".spec_bytes().len() != "fs.read.user.desktop".spec_bytes().len());
    assert("fs.read.user.videos".spec_bytes().len() != "fs.write.user.desktop".spec_bytes().len());
    assert("fs.read.user.videos".spec_bytes().len() != "fs.read.user.pictures".spec_bytes().len());
    assert("fs.read.user.videos".spec_bytes().len() != "fs.write.user.pictures".spec_bytes().len());
    assert("fs.read.user.videos".spec_bytes().len() != "fs.read.user.music".spec_bytes().len());
    assert("fs.read.user.videos".spec_bytes()[3] != "fs.write.user.music".spec_bytes()[3]);
}

proof fn lemma_builtin_name_11()
    ensures
        builtin_named("fs.write.user.videos".spec_bytes()) == Some(Capability::FsWriteUserVideos),
{
    reveal(builtin_named);
    broadcast use vstd::string::is_ascii_spec_bytes;
    reveal_strlit("fs.write.user.videos");
    reveal_strlit("fs.read.user.documents");
    reveal_strlit("fs.write.user.documents");
    reveal_strlit("fs.read.user.downloads");
    reveal_strlit("fs.write.user.downloads");
    reveal_strlit("fs.read.user.desktop");
    reveal_strlit("fs.write.user.desktop");
    reveal_strlit("fs.read.user.pictures");
    reveal_strlit("fs.write.user.pictures");
    reveal_strlit("fs.read.user.music");
    reveal_strlit("fs.write.user.music");
    reveal_strlit("fs.read.user.videos");
    assert(vstd::string::is_ascii("fs.write.user.videos"));
    assert(vstd::string::is_ascii("fs.read.user.documents"));
    assert(vstd::string::is_ascii("fs.write.user.documents"));
    assert(vstd::string::is_ascii("fs.read.user.downloads"));
    assert(vstd::string::is_ascii("fs.write.user.downloads"));
    assert(vstd::string::is_ascii("fs.read.user.desktop"));
    assert(vstd::string::is_ascii("fs.write.user.desktop"));
    assert(vstd::string::is_ascii("fs.read.user.pictures"));
    assert(vstd::string::is_ascii("fs.write.user.pictures"));
    assert(vstd::string::is_ascii("fs.read.user.music"));
    assert(vstd::string::is_ascii("fs.write.user.music"));
    assert(vstd::string::is_ascii("fs.read.user.videos"));
    assert("fs.write.user.videos".spec_bytes().len() != "fs.read.user.documents".spec_bytes().len());
    assert("fs.write.user.videos".spec_bytes().len() != "fs.write.user.documents".spec_bytes().len());
    assert("fs.write.user.videos".spec_bytes().len() != "fs.read.user.downloads".spec_bytes().len());
    assert("fs.write.user.videos".spec_bytes().len() != "fs.write.user.downloads".spec_bytes().len());
    assert("fs.write.user.videos".spec_bytes()[3] != "fs.read.user.desktop".spec_bytes()[3]);
    assert("fs.write.user.videos".spec_bytes().len() != "fs.write.user.desktop".spec_bytes().len());
    assert("fs.write.user.videos".spec_bytes().len() != "fs.read.user.pictures".spec_bytes().len());
    assert("fs.write.user.videos".spec_bytes().len() != "fs.write.user.pictures".spec_bytes().len());
    assert("fs.write.user.videos".spec_bytes().len() != "fs.read.user.music".spec_bytes().len());
    assert("fs.write.user.videos".spec_bytes().len() != "fs.write.user.music".spec_bytes().len());
    assert("fs.write.user.videos".spec_bytes().len() != "fs.read.user.videos".spec_bytes().len());
}

proof fn lemma_builtin_name_12()
    ensures
        builtin_named("fs.read.user".spec_bytes()) == Some(Capability::FsReadUser),
{
    reveal(builtin_named);
    broadcast use vstd::string::is_ascii_spec_bytes;
    reveal_strlit("fs.read.user");
    reveal_strlit("fs.read.user.documents");
    reveal_strlit("fs.write.user.documents");
    reveal_strlit("fs.read.user.downloads");
    reveal_strlit("fs.write.user.downloads");
    reveal_strlit("fs.read.user.desktop");
    reveal_strlit("fs.write.user.desktop");
    reveal_strlit("fs.read.user.pictures");
    reveal_strlit("fs.write.user.pictures");
    reveal_strlit("fs.read.user.music");
    reveal_strlit("fs.write.user.music");
    reveal_strlit("fs.read.user.videos");
    reveal_strlit("fs.write.user.videos");
    assert(vstd::string::is_ascii("fs.read.user"));
    assert(vstd::string::is_ascii("fs.read.user.documents"));
    assert(vstd::string::is_ascii("fs.write.user.documents"));
    assert(vstd::string::is_ascii("fs.read.user.downloads"));
    assert(vstd::string::is_ascii("fs.write.user.downloads"));
    assert(vstd::string::is_ascii("fs.read.user.desktop"));
    assert(vstd::string::is_ascii("fs.write.user.desktop"));
    assert(vstd::string::is_ascii("fs.read.user.pictures"));
    assert(vstd::string::is_ascii("fs.write.user.pictures"));
    assert(vstd::string::is_ascii("fs.read.user.music"));
    assert(vstd::string::is_ascii("fs.write.user.music"));
    assert(vstd::string::is_ascii("fs.read.user.videos"));
    assert(vstd::string::is_ascii("fs.write.user.videos"));
    assert("fs.read.user".spec_bytes().len() != "fs.read.user.documents".spec_bytes().len());
    assert("fs.read.user".spec_bytes().len() != "fs.write.user.documents".spec_bytes().len());
    assert("fs.read.user".spec_bytes().len() != "fs.read.user.downloads".spec_bytes().len());
    assert("fs.read.user".spec_bytes().len() != "fs.write.user.downloads".spec_bytes().len());
    assert("fs.read.user".spec_bytes().len() != "fs.read.user.desktop".spec_bytes().len());
    assert("fs.read.user".spec_bytes().len() != "fs.write.user.desktop".spec_bytes().len());
    assert("fs.read.user".spec_bytes().len() != "fs.read.user.pictures".spec_bytes().len());
    assert("fs.read.user".spec_bytes().len() != "fs.write.user.pictures".spec_bytes().len());
    assert("fs.read.user".spec_bytes().len() != "fs.read.user.music".spec_bytes().len());
    assert("fs.read.user".spec_bytes().len() != "fs.write.user.music".spec_bytes().len());
    assert("fs.read.user".spec_bytes().len() != "fs.read.user.videos".spec_bytes().len());
    assert("fs.read.user".spec_bytes().len() != "fs.write.user.videos".spec_bytes().len());
}

proof fn lemma_builtin_name_13()
    ensures
        builtin_named("fs.write.user".spec_bytes()) == Some(Capability::FsWriteUser),
{
    reveal(builtin_named);
    broadcast use vstd::string::is_ascii_spec_bytes;
    reveal_strlit("fs.write.user");
    reveal_strlit("fs.read.user.documents");
    reveal_strlit("fs.write.user.documents");
    reveal_strlit("fs.read.user.downloads");
    reveal_strlit("fs.write.user.downloads");
    reveal_strlit("fs.read.user.desktop");
    reveal_strlit("fs.write.user.desktop");
    reveal_strlit("fs.read.user.pictures");
    reveal_strlit("fs.write.user.pictures");
    reveal_strlit("fs.read.user.music");
    reveal_strlit("fs.write.user.music");
    reveal_strlit("fs.read.user.videos");
    reveal_strlit("fs.write.user.videos");
    reveal_strlit("fs.read.user");
    assert(vstd::string::is_ascii("fs.write.user"));
    assert(vstd::string::is_ascii("fs.read.user.documents"));
    assert(vstd::string::is_ascii("fs.write.user.documents"));
    assert(vstd::string::is_ascii("fs.read.user.downloads"));
    assert(vstd::string::is_ascii("fs.write.user.downloads"));
    assert(vstd::string::is_ascii("fs.read.user.desktop"));
    assert(vstd::string::is_ascii("fs.write.user.desktop"));
    assert(vstd::string::is_ascii("fs.read.user.pictures"));
    assert(vstd::string::is_ascii("fs.write.user.pictures"));
    assert(vstd::string::is_ascii("fs.read.user.music"));
    assert(vstd::string::is_ascii("fs.write.user.music"));
    assert(vstd::string::is_ascii("fs.read.user.videos"));
    assert(vstd::string::is_ascii("fs.write.user.videos"));
    assert(vstd::string::is_ascii("fs.read.user"));
    assert("fs.write.user".spec_bytes().len() != "fs.read.user.documents".spec_bytes().len());
    assert("fs.write.user".spec_bytes().len() != "fs.write.user.documents".spec_bytes().len());
    assert("fs.write.user".spec_bytes().len() != "fs.read.user.downloads".spec_bytes().len());
    assert("fs.write.user".spec_bytes().len() != "fs.write.user.downloads".spec_bytes().len());
    assert("fs.write.user".spec_bytes().len() != "fs.read.user.desktop".spec_bytes().len());
    assert("fs.write.user".spec_bytes().len() != "fs.write.user.desktop".spec_bytes().len());
    assert("fs.write.user".spec_bytes().len() != "fs.read.user.pictures".spec_bytes().len());
    assert("fs.write.user".spec_bytes().len() != "fs.write.user.pictures".spec_bytes().len());
    assert("fs.write.user".spec_bytes().len() != "fs.read.user.music".spec_bytes().len());
    assert("fs.write.user".spec_bytes().len() != "fs.write.user.music".spec_bytes().len());
    assert("fs.write.user".spec_bytes().len() != "fs.read.user.videos".spec_bytes().len());
    assert("fs.write.user".spec_bytes().len() != "fs.write.user.videos".spec_bytes().len());
    assert("fs.write.user".spec_bytes().len() != "fs.read.user".spec_bytes().len());
}

proof fn lemma_builtin_name_14()
    ensures
        builtin_named("fs.read.tmp".spec_bytes()) == Some(Capability::FsReadTmp),
{
    reveal(builtin_named);
    broadcast use vstd::string::is_ascii_spec_bytes;
    reveal_strlit("fs.read.tmp");
    reveal_strlit("fs.read.user.documents");
    reveal_strlit("fs.write.user.documents");
    reveal_strlit("fs.read.user.downloads");
    reveal_strlit("fs.write.user.downloads");
    reveal_strlit("fs.read.user.desktop");
    reveal_strlit("fs.write.user.desktop");
    reveal_strlit("fs.read.user.pictures");
    reveal_strlit("fs.write.user.pictures");
    reveal_strlit("fs.read.user.music");
    reveal_strlit("fs.write.user.music");
    reveal_strlit("fs.read.user.videos");
    reveal_strlit("fs.write.user.videos");
    reveal_strlit("fs.read.user");
    reveal_strlit("fs.write.user");
    assert(vstd::string::is_ascii("fs.read.tmp"));
    assert(vstd::string::is_ascii("fs.read.user.documents"));
    assert(vstd::string::is_ascii("fs.write.user.documents"));
    assert(vstd::string::is_ascii("fs.read.user.downloads"));
    assert(vstd::string::is_ascii("fs.write.user.downloads"));
    assert(vstd::string::is_ascii("fs.read.user.desktop"));
    assert(vstd::string::is_ascii("fs.write.user.desktop"));
    assert(vstd::string::is_ascii("fs.read.user.pictures"));
    assert(vstd::string::is_ascii("fs.write.user.pictures"));
    assert(vstd::string::is_ascii("fs.read.user.music"));
    assert(vstd::string::is_ascii("fs.write.user.music"));
    assert(vstd::string::is_ascii("fs.read.user.videos"));
    assert(vstd::string::is_ascii("fs.write.user.videos"));
    assert(vstd::string::is_ascii("fs.read.user"));
    assert(vstd::string::is_ascii("fs.write.user"));
    assert("fs.read.tmp".spec_bytes().len() != "fs.read.user.documents".spec_bytes().len());
    assert("fs.read.tmp".spec_bytes().len() != "fs.write.user.documents".spec_bytes().len());
    assert("fs.read.tmp".spec_bytes().len() != "fs.read.user.downloads".spec_bytes().len());
    assert("fs.read.tmp".spec_bytes().len() != "fs.write.user.downloads".spec_bytes().len());
    assert("fs.read.tmp".spec_bytes().len() != "fs.read.user.desktop".spec_bytes().len());
    assert("fs.read.tmp".spec_bytes().len() != "fs.write.user.desktop".spec_bytes().len());
    assert("fs.read.tmp".spec_bytes().len() != "fs.read.user.pictures".spec_bytes().len());
    assert("fs.read.tmp".spec_bytes().len() != "fs.write.user.pictures".spec_bytes().len());
    assert("fs.read.tmp".spec_bytes().len() != "fs.read.user.music".spec_bytes().len());
    assert("fs.read.tmp".spec_bytes().len() != "fs.write.user.music".spec_bytes().len());
    assert("fs.read.tmp".spec_bytes().len() != "fs.read.user.videos".spec_bytes().len());
    assert("fs.read.tmp".spec_bytes().len() != "fs.write.user.videos".spec_bytes().len());
    assert("fs.read.tmp".spec_bytes().len() != "fs.read.user".spec_bytes().len());
    assert("fs.read.tmp".spec_bytes().len() != "fs.write.user".spec_bytes().len());
}

proof fn lemma_builtin_name_15()
    ensures
        builtin_named("fs.write.tmp".spec_bytes()) == Some(Capability::FsWriteTmp),
{
    reveal(builtin_named);
    broadcast use vstd::string::is_ascii_spec_bytes;
    reveal_strlit("fs.write.tmp");
    reveal_strlit("fs.read.user.documents");
    reveal_strlit("fs.write.user.documents");
    reveal_strlit("fs.read.user.downloads");
    reveal_strlit("fs.write.user.downloads");
    reveal_strlit("fs.read.user.desktop");
    reveal_strlit("fs.write.user.desktop");
    reveal_strlit("fs.read.user.pictures");
    reveal_strlit("fs.write.user.pictures");
    reveal_strlit("fs.read.user.music");
    reveal_strlit("fs.write.user.music");
    reveal_strlit("fs.read.user.videos");
    reveal_strlit("fs.write.user.videos");
    reveal_strlit("fs.read.user");
    reveal_strlit("fs.write.user");
    reveal_strlit("fs.read.tmp");
    assert(vstd::string::is_ascii("fs.write.tmp"));
    assert(vstd::string::is_ascii("fs.read.user.documents"));
    assert(vstd::string::is_ascii("fs.write.user.documents"));
    assert(vstd::string::is_ascii("fs.read.user.downloads"));
    assert(vstd::string::is_ascii("fs.write.user.downloads"));
    assert(vstd::string::is_ascii("fs.read.user.desktop"));
    assert(vstd::string::is_ascii("fs.write.user.desktop"));
    assert(vstd::string::is_ascii("fs.read.user.pictures"));
    assert(vstd::string::is_ascii("fs.write.user.pictures"));
    assert(vstd::string::is_ascii("fs.read.user.music"));
    assert(vstd::string::is_ascii("fs.write.user.music"));
    assert(vstd::string::is_ascii("fs.read.user.videos"));
    assert(vstd::string::is_ascii("fs.write.user.videos"));
    assert(vstd::string::is_ascii("fs.read.user"));
    assert(vstd::string::is_ascii("fs.write.user"));
    assert(vstd::string::is_ascii("fs.read.tmp"));
    assert("fs.write.tmp".spec_bytes().len() != "fs.read.user.documents".spec_bytes().len());
    assert("fs.write.tmp".spec_bytes().len() != "fs.write.user.documents".spec_bytes().len());
    assert("fs.write.tmp".spec_bytes().len() != "fs.read.user.downloads".spec_bytes().len());
    assert("fs.write.tmp".spec_bytes().len() != "fs.write.user.downloads".spec_bytes().len());
    assert("fs.write.tmp".spec_bytes().len() != "fs.read.user.desktop".spec_bytes().len());
    assert("fs.write.tmp".spec_bytes().len() != "fs.write.user.desktop".spec_bytes().len());
    assert("fs.write.tmp".spec_bytes().len() != "fs.read.user.pictures".spec_bytes().len());
    assert("fs.write.tmp".spec_bytes().len() != "fs.write.user.pictures".spec_bytes().len());
    assert("fs.write.tmp".spec_bytes().len() != "fs.read.user.music".spec_bytes().len());
    assert("fs.write.tmp".spec_bytes().len() != "fs.write.user.music".spec_bytes().len());
    assert("fs.write.tmp".spec_bytes().len() != "fs.read.user.videos".spec_bytes().len());
    assert("fs.write.tmp".spec_bytes().len() != "fs.write.user.videos".spec_bytes().len());
    assert("fs.write.tmp".spec_bytes()[3] != "fs.read.user".spec_bytes()[3]);
    assert("fs.write.tmp".spec_bytes().len() != "fs.write.user".spec_bytes().len());
    assert("fs.write.tmp".spec_bytes().len() != "fs.read.tmp".spec_bytes().len());
}

proof fn lemma_builtin_name_16()
    ensures
        builtin_named("fs.read.removable".spec_bytes()) == Some(Capability::FsReadRemovable),
{
    reveal(builtin_named);
    broadcast use vstd::string::is_ascii_spec_bytes;
    reveal_strlit("fs.read.removable");
    reveal_strlit("fs.read.user.documents");
    reveal_strlit("fs.write.user.documents");
    reveal_strlit("fs.read.user.downloads");
    reveal_strlit("fs.write.user.downloads");
    reveal_strlit("fs.read.user.desktop");
    reveal_strlit("fs.write.user.desktop");
    reveal_strlit("fs.read.user.pictures");
    reveal_strlit("fs.write.user.pictures");
    reveal_strlit("fs.read.user.music");
    reveal_strlit("fs.write.user.music");
    reveal_strlit("fs.read.user.videos");
    reveal_strlit("fs.write.user.videos");
    reveal_strlit("fs.read.user");
    reveal_strlit("fs.write.user");
    reveal_strlit("fs.read.tmp");
    reveal_strlit("fs.write.tmp");
    assert(vstd::string::is_ascii("fs.read.removable"));
    assert(vstd::string::is_ascii("fs.read.user.documents"));
    assert(vstd::string::is_ascii("fs.write.user.documents"));
    assert(vstd::string::is_ascii("fs.read.user.downloads"));
    assert(vstd::string::is_ascii("fs.write.user.downloads"));
    assert(vstd::string::is_ascii("fs.read.user.desktop"));
    assert(vstd::string::is_ascii("fs.write.user.desktop"));
    assert(vstd::string::is_ascii("fs.read.user.pictures"));
    assert(vstd::string::is_ascii("fs.write.user.pictures"));
    assert(vstd::string::is_ascii("fs.read.user.music"));
    assert(vstd::string::is_ascii("fs.write.user.music"));
    assert(vstd::string::is_ascii("fs.read.user.videos"));
    assert(vstd::string::is_ascii("fs.write.user.videos"));
    assert(vstd::string::is_ascii("fs.read.user"));
    assert(vstd::string::is_ascii("fs.write.user"));
    assert(vstd::string::is_ascii("fs.read.tmp"));
    assert(vstd::string::is_ascii("fs.write.tmp"));
    assert("fs.read.removable".spec_bytes().len() != "fs.read.user.documents".spec_bytes().len());
    assert("fs.read.removable".spec_bytes().len() != "fs.write.user.documents".spec_bytes().len());
    assert("fs.read.removable".spec_bytes().len() != "fs.read.user.downloads".spec_bytes().len());
    assert("fs.read.removable".spec_bytes().len() != "fs.write.user.downloads".spec_bytes().len());
    assert("fs.read.removable".spec_bytes().len() != "fs.read.user.desktop".spec_bytes().len());
    assert("fs.read.removable".spec_bytes().len() != "fs.write.user.desktop".spec_bytes().len());
    assert("fs.read.removable".spec_bytes().len() != "fs.read.user.pictures".spec_bytes().len());
    assert("fs.read.removable".spec_bytes().len() != "fs.write.user.pictures".spec_bytes().len());
    assert("fs.read.removable".spec_bytes().len() != "fs.read.user.music".spec_bytes().len());
    assert("fs.read.removable".spec_bytes().len() != "fs.write.user.music".spec_bytes().len());
    assert("fs.read.removable".spec_bytes().len() != "fs.read.user.videos".spec_bytes().len());
    assert("fs.read.removable".spec_bytes().len() != "fs.write.user.videos".spec_bytes().len());
    assert("fs.read.removable".spec_bytes().len() != "fs.read.user".spec_bytes().len());
    assert("fs.read.removable".spec_bytes().len() != "fs.write.user".spec_bytes().len());
    assert("fs.read.removable".spec_bytes().len() != "fs.read.tmp".spec_bytes().len());
    assert("fs.read.removable".spec_bytes().len() != "fs.write.tmp".spec_bytes().len());
}

proof fn lemma_builtin_name_17()
    ensures
        builtin_named("fs.write.removable".spec_bytes()) == Some(Capability::FsWriteRemovable),
{
    reveal(builtin_named);
    broadcast use vstd::string::is_ascii_spec_bytes;
    reveal_strlit("fs.write.removable");
    reveal_strlit("fs.read.user.documents");
    reveal_strlit("fs.write.user.documents");
    reveal_strlit("fs.read.user.downloads");
    reveal_strlit("fs.write.user.downloads");
    reveal_strlit("fs.read.user.desktop");
    reveal_strlit("fs.write.user.desktop");
    reveal_strlit("fs.read.user.pictures");
    reveal_strlit("fs.write.user.pictures");
    reveal_strlit("fs.read.user.music");
    reveal_strlit("fs.write.user.music");
    reveal_strlit("fs.read.user.videos");
    reveal_strlit("fs.write.user.videos");
    reveal_strlit("fs.read.user");
    reveal_strlit("fs.write.user");
    reveal_strlit("fs.read.tmp");
    reveal_strlit("fs.write.tmp");
    reveal_strlit("fs.read.removable");
    assert(vstd::string::is_ascii("fs.write.removable"));
    assert(vstd::string::is_ascii("fs.read.user.documents"));
    assert(vstd::string::is_ascii("fs.write.user.documents"));
    assert(vstd::string::is_ascii("fs.read.user.downloads"));
    assert(vstd::string::is_ascii("fs.write.user.downloads"));
    assert(vstd::string::is_ascii("fs.read.user.desktop"));
    assert(vstd::string::is_ascii("fs.write.user.desktop"));
    assert(vstd::string::is_ascii("fs.read.user.pictures"));
    assert(vstd::string::is_ascii("fs.write.user.pictures"));
    assert(vstd::string::is_ascii("fs.read.user.music"));
    assert(vstd::string::is_ascii("fs.write.user.music"));
    assert(vstd::string::is_ascii("fs.read.user.videos"));
    assert(vstd::string::is_ascii("fs.write.user.videos"));
    assert(vstd::string::is_ascii("fs.read.user"));
    assert(vstd::string::is_ascii("fs.write.user"));
    assert(vstd::string::is_ascii("fs.read.tmp"));
    assert(vstd::string::is_ascii("fs.write.tmp"));
    assert(vstd::string::is_ascii("fs.read.removable"));
    assert("fs.write.removable".spec_bytes().len() != "fs.read.user.documents".spec_bytes().len());
    assert("fs.write.removable".spec_bytes().len() != "fs.write.user.documents".spec_bytes().len());
    assert("fs.write.removable".spec_bytes().len() != "fs.read.user.downloads".spec_bytes().len());
    assert("fs.write.removable".spec_bytes().len() != "fs.write.user.downloads".spec_bytes().len());
    assert("fs.write.removable".spec_bytes().len() != "fs.read.user.desktop".spec_bytes().len());
    assert("fs.write.removable".spec_bytes().len() != "fs.write.user.desktop".spec_bytes().len());
    assert("fs.write.removable".spec_bytes().len() != "fs.read.user.pictures".spec_bytes().len());
    assert("fs.write.removable".spec_bytes().len() != "fs.write.user.pictures".spec_bytes().len());
    assert("fs.write.removable".spec_bytes()[3] != "fs.read.user.music".spec_bytes()[3]);
    assert("fs.write.removable".spec_bytes().len() != "fs.write.user.music".spec_bytes().len());
    assert("fs.write.removable".spec_bytes().len() != "fs.read.user.videos".spec_bytes().len());
    assert("fs.write.removable".spec_bytes().len() != "fs.write.user.videos".spec_bytes().len());
    assert("fs.write.removable".spec_bytes().len() != "fs.read.user".spec_bytes().len());
    assert("fs.write.removable".spec_bytes().len() != "fs.write.user".spec_bytes().len());
    assert("fs.write.removable".spec_bytes().len() != "fs.read.tmp".spec_bytes().len());
    assert("fs.write.removable".spec_bytes().len() != "fs.write.tmp".spec_bytes().len());
    assert("fs.write.removable".spec_bytes().len() != "fs.read.removable".spec_bytes().len());
}

proof fn lemma_builtin_name_18()
    ensures
        builtin_named("fs.read.all".spec_bytes()) == Some(Capability::FsReadAll),
{
    reveal(builtin_named);
    broadcast use vstd::string::is_ascii_spec_bytes;
    reveal_strlit("fs.read.all");
    reveal_strlit("fs.read.user.documents");
    reveal_strlit("fs.write.user.documents");
    reveal_strlit("fs.read.user.downloads");
    reveal_strlit("fs.write.user.downloads");
    reveal_strlit("fs.read.user.desktop");
    reveal_strlit("fs.write.user.desktop");
    reveal_strlit("fs.read.user.pictures");
    reveal_strlit("fs.write.user.pictures");
    reveal_strlit("fs.read.user.music");
    reveal_strlit("fs.write.user.music");
    reveal_strlit("fs.read.user.videos");
    reveal_strlit("fs.write.user.videos");
    reveal_strlit("fs.read.user");
    reveal_strlit("fs.write.user");
    reveal_strlit("fs.read.tmp");
    reveal_strlit("fs.write.tmp");
    reveal_strlit("fs.read.removable");
    reveal_strlit("fs.write.removable");
    assert(vstd::string::is_ascii("fs.read.all"));
    assert(vstd::string::is_ascii("fs.read.user.documents"));
    assert(vstd::string::is_ascii("fs.write.user.documents"));
    assert(vstd::string::is_ascii("fs.read.user.downloads"));
    assert(vstd::string::is_ascii("fs.write.user.downloads"));
    assert(vstd::string::is_ascii("fs.read.user.desktop"));
    assert(vstd::string::is_ascii("fs.write.user.desktop"));
    assert(vstd::string::is_ascii("fs.read.user.pictures"));
    assert(vstd::string::is_ascii("fs.write.user.pictures"));
    assert(vstd::string::is_ascii("fs.read.user.music"));
    assert(vstd::string::is_ascii("fs.write.user.music"));
    assert(vstd::string::is_ascii("fs.read.user.videos"));
    assert(vstd::string::is_ascii("fs.write.user.videos"));
    assert(vstd::string::is_ascii("fs.read.user"));
    assert(vstd::string::is_ascii("fs.write.user"));
    assert(vstd::string::is_ascii("fs.read.tmp"));
    assert(vstd::string::is_ascii("fs.write.tmp"));
    assert(vstd::string::is_ascii("fs.read.removable"));
    assert(vstd::string::is_ascii("fs.write.removable"));
    assert("fs.read.all".spec_bytes().len() != "fs.read.user.documents".spec_bytes().len());
    assert("fs.read.all".spec_bytes().len() != "fs.write.user.documents".spec_bytes().len());
    assert("fs.read.all".spec_bytes().len() != "fs.read.user.downloads".spec_bytes().len());
    assert("fs.read.all".spec_bytes().len() != "fs.write.user.downloads".spec_bytes().len());
    assert("fs.read.all".spec_bytes().len() != "fs.read.user.desktop".spec_bytes().len());
    assert("fs.read.all".spec_bytes().len() != "fs.write.user.desktop".spec_bytes().len());
    assert("fs.read.all".spec_bytes().len() != "fs.read.user.pictures".spec_bytes().len());
    assert("fs.read.all".spec_bytes().len() != "fs.write.user.pictures".spec_bytes().len());
    assert("fs.read.all".spec_bytes().len() != "fs.read.user.music".spec_bytes().len());
    assert("fs.read.all".spec_bytes().len() != "fs.write.user.music".spec_bytes().len());
    assert("fs.read.all".spec_bytes().len() != "fs.read.user.videos".spec_bytes().len());
    assert("fs.read.all".spec_bytes().len() != "fs.write.user.videos".spec_bytes().len());
    assert("fs.read.all".spec_bytes().len() != "fs.read.user".spec_bytes().len());
    assert("fs.read.all".spec_bytes().len() != "fs.write.user".spec_bytes().len());
    assert("fs.read.all".spec_bytes()[8] != "fs.read.tmp".spec_bytes()[8]);
    assert("fs.read.all".spec_bytes().len() != "fs.write.tmp".spec_bytes().len());
    assert("fs.read.all".spec_bytes().len() != "fs.read.removable".spec_bytes().len());
    assert("fs.read.all".spec_bytes().len() != "fs.write.removable".spec_bytes().len());
}

proof fn lemma_builtin_name_19()
    ensures
        builtin_named("fs.write.all".spec_bytes()) == Some(Capability::FsWriteAll),
{
    reveal(builtin_named);
    broadcast use vstd::string::is_ascii_spec_bytes;
    reveal_strlit("fs.write.all");
    reveal_strlit("fs.read.user.documents");
    reveal_strlit("fs.write.user.documents");
    reveal_strlit("fs.read.user.downloads");
    reveal_strlit("fs.write.user.downloads");
    reveal_strlit("fs.read.user.desktop");
    reveal_strlit("fs.write.user.desktop");
    reveal_strlit("fs.read.user.pictures");
    reveal_strlit("fs.write.user.pictures");
    reveal_strlit("fs.read.user.music");
    reveal_strlit("fs.write.user.music");
    reveal_strlit("fs.read.user.videos");
    reveal_strlit("fs.write.user.videos");
    reveal_strlit("fs.read.user");
    reveal_strlit("fs.write.user");
    reveal_strlit("fs.read.tmp");
    reveal_strlit("fs.write.tmp");
    reveal_strlit("fs.read.removable");
    reveal_strlit("fs.write.removable");
    reveal_strlit("fs.read.all");
    assert(vstd::string::is_ascii("fs.write.all"));
    assert(vstd::string::is_ascii("fs.read.user.documents"));
    assert(vstd::string::is_ascii("fs.write.user.documents"));
    assert(vstd::string::is_ascii("fs.read.user.downloads"));
    assert(vstd::string::is_ascii("fs.write.user.downloads"));
    assert(vstd::string::is_ascii("fs.read.user.desktop"));
    assert(vstd::string::is_ascii("fs.write.user.desktop"));
    assert(vstd::string::is_ascii("fs.read.user.pictures"));
    assert(vstd::string::is_ascii("fs.write.user.pictures"));
    assert(vstd::string::is_ascii("fs.read.user.music"));
    assert(vstd::string::is_ascii("fs.write.user.music"));
    assert(vstd::string::is_ascii("fs.read.user.videos"));
    assert(vstd::string::is_ascii("fs.write.user.videos"));
    assert(vstd::string::is_ascii("fs.read.user"));
    assert(vstd::string::is_ascii("fs.write.user"));
    assert(vstd::string::is_ascii("fs.read.tmp"));
    assert(vstd::string::is_ascii("fs.write.tmp"));
    assert(vstd::string::is_ascii("fs.read.removable"));
    assert(vstd::string::is_ascii("fs.write.removable"));
    assert(vstd::string::is_ascii("fs.read.all"));
    assert("fs.write.all".spec_bytes().len() != "fs.read.user.documents".spec_bytes().len());
    assert("fs.write.all".spec_bytes().len() != "fs.write.user.documents".spec_bytes().len());
    assert("fs.write.all".spec_bytes().len() != "fs.read.user.downloads".spec_bytes().len());
    assert("fs.write.all".spec_bytes().len() != "fs.write.user.downloads".spec_bytes().len());
    assert("fs.write.all".spec_bytes().len() != "fs.read.user.desktop".spec_bytes().len());
    assert("fs.write.all".spec_bytes().len() != "fs.write.user.desktop".spec_bytes().len());
    assert("fs.write.all".spec_bytes().len() != "fs.read.user.pictures".spec_bytes().len());
    assert("fs.write.all".spec_bytes().len() != "fs.write.user.pictures".spec_bytes().len());
    assert("fs.write.all".spec_bytes().len() != "fs.read.user.music".spec_bytes().len());
    assert("fs.write.all".spec_bytes().len() != "fs.write.user.music".spec_bytes().len());
    assert("fs.write.all".spec_bytes().len() != "fs.read.user.videos".spec_bytes().len());
    assert("fs.write.all".spec_bytes().len() != "fs.write.user.videos".spec_bytes().len());
    assert("fs.write.all".spec_bytes()[3] != "fs.read.user".spec_bytes()[3]);
    assert("fs.write.all".spec_bytes().len() != "fs.write.user".spec_bytes().len());
    assert("fs.write.all".spec_bytes().len() != "fs.read.tmp".spec_bytes().len());
    assert("fs.write.all".spec_bytes()[9] != "fs.write.tmp".spec_bytes()[9]);
    assert("fs.write.all".spec_bytes().len() != "fs.read.removable".spec_bytes().len());
    assert("fs.write.all".spec_bytes().len() != "fs.write.removable".spec_bytes().len());
    assert("fs.write.all".spec_bytes().len() != "fs.read.all".spec_bytes().len());
}

proof fn lemma_builtin_name_20()
    ensures
        builtin_named("ipc.client".spec_bytes()) == Some(Capability::IpcClient),
{
    reveal(builtin_named);
    broadcast use vstd::string::is_ascii_spec_bytes;
    reveal_strlit("ipc.client");
    reveal_strlit("fs.read.user.documents");
    reveal_strlit("fs.write.user.documents");
    reveal_strlit("fs.read.user.downloads");
    reveal_strlit("fs.write.user.downloads");
    reveal_strlit("fs.read.user.desktop");
    reveal_strlit("fs.write.user.desktop");
    reveal_strlit("fs.read.user.pictures");
    reveal_strlit("fs.write.user.pictures");
    reveal_strlit("fs.read.user.music");
    reveal_strlit("fs.write.user.music");
    reveal_strlit("fs.read.user.videos");
    reveal_strlit("fs.write.user.videos");
    reveal_strlit("fs.read.user");
    reveal_strlit("fs.write.user");
    reveal_strlit("fs.read.tmp");
    reveal_strlit("fs.write.tmp");
    reveal_strlit("fs.read.removable");
    reveal_strlit("fs.write.removable");
    reveal_strlit("fs.read.all");
    reveal_strlit("fs.write.all");
    assert(vstd::string::is_ascii("ipc.client"));
    assert(vstd::string::is_ascii("fs.read.user.documents"));
    assert(vstd::string::is_ascii("fs.write.user.documents"));
    assert(vstd::string::is_ascii("fs.read.user.downloads"));
    assert(vstd::string::is_ascii("fs.write.user.downloads"));
    assert(vstd::string::is_ascii("fs.read.user.desktop"));
    assert(vstd::string::is_ascii("fs.write.user.desktop"));
    assert(vstd::string::is_ascii("fs.read.user.pictures"));
    assert(vstd::string::is_ascii("fs.write.user.pictures"));
    assert(vstd::string::is_ascii("fs.read.user.music"));
    assert(vstd::string::is_ascii("fs.write.user.music"));
    assert(vstd::string::is_ascii("fs.read.user.videos"));
    assert(vstd::string::is_ascii("fs.write.user.videos"));
    assert(vstd::string::is_ascii("fs.read.user"));
    assert(vstd::string::is_ascii("fs.write.user"));
    assert(vstd::string::is_ascii("fs.read.tmp"));
    assert(vstd::string::is_ascii("fs.write.tmp"));
    assert(vstd::string::is_ascii("fs.read.removable"));
    assert(vstd::string::is_ascii("fs.write.removable"));
    assert(vstd::string::is_ascii("fs.read.all"));
    assert(vstd::string::is_ascii("fs.write.all"));
    assert("ipc.client".spec_bytes().len() != "fs.read.user.documents".spec_bytes().len());
    assert("ipc.client".spec_bytes().len() != "fs.write.user.documents".spec_bytes().len());
    assert("ipc.client".spec_bytes().len() != "fs.read.user.downloads".spec_bytes().len());
    assert("ipc.client".spec_bytes().len() != "fs.write.user.downloads".spec_bytes().len());
    assert("ipc.client".spec_bytes().len() != "fs.read.user.desktop".spec_bytes().len());
    assert("ipc.client".spec_bytes().len() != "fs.write.user.desktop".spec_bytes().len());
    assert("ipc.client".spec_bytes().len() != "fs.read.user.pictures".spec_bytes().len());
    assert("ipc.client".spec_bytes().len() != "fs.write.user.pictures".spec_bytes().len());
    assert("ipc.client".spec_bytes().len() != "fs.read.user.music".spec_bytes().len());
    assert("ipc.client".spec_bytes().len() != "fs.write.user.music".spec_bytes().len());
    assert("ipc.client".spec_bytes().len() != "fs.read.user.videos".spec_bytes().len());
    assert("ipc.client".spec_bytes().len() != "fs.write.user.videos".spec_bytes().len());
    assert("ipc.client".spec_bytes().len() != "fs.read.user".spec_bytes().len());
    assert("ipc.client".spec_bytes().len() != "fs.write.user".spec_bytes().len());
    assert("ipc.client".spec_bytes().len() != "fs.read.tmp".spec_bytes().len());
    assert("ipc.client".spec_bytes().len() != "fs.write.tmp".spec_bytes().len());
    assert("ipc.client".spec_bytes().len() != "fs.read.removable".spec_bytes().len());
    assert("ipc.client".spec_bytes().len() != "fs.write.removable".spec_bytes().len());
    assert("ipc.client".spec_bytes().len() != "fs.read.all".spec_bytes().len());
    assert("ipc.client".spec_bytes().len() != "fs.write.all".spec_bytes().len());
}

proof fn lemma_builtin_name_21()
    ensures
        builtin_named("ipc.server".spec_bytes()) == Some(Capability::IpcServer),
{
    reveal(builtin_named);
    broadcast use vstd::string::is_ascii_spec_bytes;
    reveal_strlit("ipc.server");
    reveal_strlit("fs.read.user.documents");
    reveal_strlit("fs.write.user.documents");
    reveal_strlit("fs.read.user.downloads");
    reveal_strlit("fs.write.user.downloads");
    reveal_strlit("fs.read.user.desktop");
    reveal_strlit("fs.write.user.desktop");
    reveal_strlit("fs.read.user.pictures");
    reveal_strlit("fs.write.user.pictures");
    reveal_strlit("fs.read.user.music");
    reveal_strlit("fs.write.user.music");
    reveal_strlit("fs.read.user.videos");
    reveal_strlit("fs.write.user.videos");
    reveal_strlit("fs.read.user");
    reveal_strlit("fs.write.user");
    reveal_strlit("fs.read.tmp");
    reveal_strlit("fs.write.tmp");
    reveal_strlit("fs.read.removable");
    reveal_strlit("fs.write.removable");
    reveal_strlit("fs.read.all");
    reveal_strlit("fs.write.all");
    reveal_strlit("ipc.client");
    assert(vstd::string::is_ascii("ipc.server"));
    assert(vstd::string::is_ascii("fs.read.user.documents"));
    assert(vstd::string::is_ascii("fs.write.user.documents"));
    assert(vstd::string::is_ascii("fs.read.user.downloads"));
    assert(vstd::string::is_ascii("fs.write.user.downloads"));
    assert(vstd::string::is_ascii("fs.read.user.desktop"));
    assert(vstd::string::is_ascii("fs.write.user.desktop"));
    assert(vstd::string::is_ascii("fs.read.user.pictures"));
    assert(vstd::string::is_ascii("fs.write.user.pictures"));
    assert(vstd::string::is_ascii("fs.read.user.music"));
    assert(vstd::string::is_ascii("fs.write.user.music"));
    assert(vstd::string::is_ascii("fs.read.user.videos"));
    assert(vstd::string::is_ascii("fs.write.user.videos"));
    assert(vstd::string::is_ascii("fs.read.user"));
    assert(vstd::string::is_ascii("fs.write.user"));
    assert(vstd::string::is_ascii("fs.read.tmp"));
    assert(vstd::string::is_ascii("fs.write.tmp"));
    assert(vstd::string::is_ascii("fs.read.removable"));
    assert(vstd::string::is_ascii("fs.write.removable"));
    assert(vstd::string::is_ascii("fs.read.all"));
    assert(vstd::string::is_ascii("fs.write.all"));
    assert(vstd::string::is_ascii("ipc.client"));
    assert("ipc.server".spec_bytes().len() != "fs.read.user.documents".spec_bytes().len());
    assert("ipc.server".spec_bytes().len() != "fs.write.user.documents".spec_bytes().len());
    assert("ipc.server".spec_bytes().len() != "fs.read.user.downloads".spec_bytes().len());
    assert("ipc.server".spec_bytes().len() != "fs.write.user.downloads".spec_bytes().len());
    assert("ipc.server".spec_bytes().len() != "fs.read.user.desktop".spec_bytes().len());
    assert("ipc.server".spec_bytes().len() != "fs.write.user.desktop".spec_bytes().len());
    assert("ipc.server".spec_bytes().len() != "fs.read.user.pictures".spec_bytes().len());
    assert("ipc.server".spec_bytes().len() != "fs.write.user.pictures".spec_bytes().len());
    assert("ipc.server".spec_bytes().len() != "fs.read.user.music".spec_bytes().len());
    assert("ipc.server".spec_bytes().len() != "fs.write.user.music".spec_bytes().len());
    assert("ipc.server".spec_bytes().len() != "fs.read.user.videos".spec_bytes().len());
    assert("ipc.server".spec_bytes().len() != "fs.write.user.videos".spec_bytes().len());
    assert("ipc.server".spec_bytes().len() != "fs.read.user".spec_bytes().len());
    assert("ipc.server".spec_bytes().len() != "fs.write.user".spec_bytes().len());
    assert("ipc.server".spec_bytes().len() != "fs.read.tmp".spec_bytes().len());
    assert("ipc.server".spec_bytes().len() != "fs.write.tmp".spec_bytes().len());
    assert("ipc.server".spec_bytes().len() != "fs.read.removable".spec_bytes().len());
    assert("ipc.server".spec_bytes().len() != "fs.write.removable".spec_bytes().len());
    assert("ipc.server".spec_bytes().len() != "fs.read.all".spec_bytes().len());
    assert("ipc.server".spec_bytes().len() != "fs.write.all".spec_bytes().len());
    assert("ipc.server".spec_bytes()[4] != "ipc.client".spec_bytes()[4]);
}

proof fn lemma_builtin_name_22()
    ensures
        builtin_named("process.spawn".spec_bytes()) == Some(Capability::ProcessSpawn),
{
    reveal(builtin_named);
    broadcast use vstd::string::is_ascii_spec_bytes;
    reveal_strlit("process.spawn");
    reveal_strlit("fs.read.user.documents");
    reveal_strlit("fs.write.user.documents");
    reveal_strlit("fs.read.user.downloads");
    reveal_strlit("fs.write.user.downloads");
    reveal_strlit("fs.read.user.desktop");
    reveal_strlit("fs.write.user.desktop");
    reveal_strlit("fs.read.user.pictures");
    reveal_strlit("fs.write.user.pictures");
    reveal_strlit("fs.read.user.music");
    reveal_strlit("fs.write.user.music");
    reveal_strlit("fs.read.user.videos");
    reveal_strlit("fs.write.user.videos");
    reveal_strlit("fs.read.user");
    reveal_strlit("fs.write.user");
    reveal_strlit("fs.read.tmp");
    reveal_strlit("fs.write.tmp");
    reveal_strlit("fs.read.removable");
    reveal_strlit("fs.write.removable");
    reveal_strlit("fs.read.all");
    reveal_strlit("fs.write.all");
    reveal_strlit("ipc.client");
    reveal_strlit("ipc.server");
    assert(vstd::string::is_ascii("process.spawn"));
    assert(vstd::string::is_ascii("fs.read.user.documents"));
    assert(vstd::string::is_ascii("fs.write.user.documents"));
    assert(vstd::string::is_ascii("fs.read.user.downloads"));
    assert(vstd::string::is_ascii("fs.write.user.downloads"));
    assert(vstd::string::is_ascii("fs.read.user.desktop"));
    assert(vstd::string::is_ascii("fs.write.user.desktop"));
    assert(vstd::string::is_ascii("fs.read.user.pictures"));
    assert(vstd::string::is_ascii("fs.write.user.pictures"));
    assert(vstd::string::is_ascii("fs.read.user.music"));
    assert(vstd::string::is_ascii("fs.write.user.music"));
    assert(vstd::string::is_ascii("fs.read.user.videos"));
    assert(vstd::string::is_ascii("fs.write.user.videos"));
    assert(vstd::string::is_ascii("fs.read.user"));
    assert(vstd::string::is_ascii("fs.write.user"));
    assert(vstd::string::is_ascii("fs.read.tmp"));
    assert(vstd::string::is_ascii("fs.write.tmp"));
    assert(vstd::string::is_ascii("fs.read.removable"));
    assert(vstd::string::is_ascii("fs.write.removable"));
    assert(vstd::string::is_ascii("fs.read.all"));
    assert(vstd::string::is_ascii("fs.write.all"));
    assert(vstd::string::is_ascii("ipc.client"));
    assert(vstd::string::is_ascii("ipc.server"));
    assert("process.spawn".spec_bytes().len() != "fs.read.user.documents".spec_bytes().len());
    assert("process.spawn".spec_bytes().len() != "fs.write.user.documents".spec_bytes().len());
    assert("process.spawn".spec_bytes().len() != "fs.read.user.downloads".spec_bytes().len());
    assert("process.spawn".spec_bytes().len() != "fs.write.user.downloads".spec_bytes().len());
    assert("process.spawn".spec_bytes().len() != "fs.read.user.desktop".spec_bytes().len());
    assert("process.spawn".spec_bytes().len() != "fs.write.user.desktop".spec_bytes().len());
    assert("process.spawn".spec_bytes().len() != "fs.read.user.pictures".spec_bytes().len());
    assert("process.spawn".spec_bytes().len() != "fs.write.user.pictures".spec_bytes().len());
    assert("process.spawn".spec_bytes().len() != "fs.read.user.music".spec_bytes().len());
    assert("process.spawn".spec_bytes().len() != "fs.write.user.music".spec_bytes().len());
    assert("process.spawn".spec_bytes().len() != "fs.read.user.videos".spec_bytes().len());
    assert("process.spawn".spec_bytes().len() != "fs.write.user.videos".spec_bytes().len());
    assert("process.spawn".spec_bytes().len() != "fs.read.user".spec_bytes().len());
    assert("process.spawn".spec_bytes()[0] != "fs.write.user".spec_bytes()[0]);
    assert("process.spawn".spec_bytes().len() != "fs.read.tmp".spec_bytes().len());
    assert("process.spawn".spec_bytes().len() != "fs.write.tmp".spec_bytes().len());
    assert("process.spawn".spec_bytes().len() != "fs.read.removable".spec_bytes().len());
    assert("process.spawn".spec_bytes().len() != "fs.write.removable".spec_bytes().len());
    assert("process.spawn".spec_bytes().len() != "fs.read.all".spec_bytes().len());
    assert("process.spawn".spec_bytes().len() != "fs.write.all".spec_bytes().len());
    assert("process.spawn".spec_bytes().len() != "ipc.client".spec_bytes().len());
    assert("process.spawn".spec_bytes().len() != "ipc.server".spec_bytes().len());
}

proof fn lemma_builtin_name_23()
    ensures
        builtin_named("process.inspect".spec_bytes()) == Some(Capability::ProcessInspect),
{
    reveal(builtin_named);
    broadcast use vstd::string::is_ascii_spec_bytes;
    reveal_strlit("process.inspect");
    reveal_strlit("fs.read.user.documents");
    reveal_strlit("fs.write.user.documents");
    reveal_strlit("fs.read.user.downloads");
    reveal_strlit("fs.write.user.downloads");
    reveal_strlit("fs.read.user.desktop");
    reveal_strlit("fs.write.user.desktop");
    reveal_strlit("fs.read.user.pictures");
    reveal_strlit("fs.write.user.pictures");
    reveal_strlit("fs.read.user.music");
    reveal_strlit("fs.write.user.music");
    reveal_strlit("fs.read.user.videos");
    reveal_strlit("fs.write.user.videos");
    reveal_strlit("fs.read.user");
    reveal_strlit("fs.write.user");
    reveal_strlit("fs.read.tmp");
    reveal_strlit("fs.write.tmp");
    reveal_strlit("fs.read.removable");
    reveal_strlit("fs.write.removable");
    reveal_strlit("fs.read.all");
    reveal_strlit("fs.write.all");
    reveal_strlit("ipc.client");
    reveal_strlit("ipc.server");
    reveal_strlit("process.spawn");
    assert(vstd::string::is_ascii("process.inspect"));
    assert(vstd::string::is_ascii("fs.read.user.documents"));
    assert(vstd::string::is_ascii("fs.write.user.documents"));
    assert(vstd::string::is_ascii("fs.read.user.downloads"));
    assert(vstd::string::is_ascii("fs.write.user.downloads"));
    assert(vstd::string::is_ascii("fs.read.user.desktop"));
    assert(vstd::string::is_ascii("fs.write.user.desktop"));
    assert(vstd::string::is_ascii("fs.read.user.pictures"));
    assert(vstd::string::is_ascii("fs.write.user.pictures"));
    assert(vstd::string::is_ascii("fs.read.user.music"));
    assert(vstd::string::is_ascii("fs.write.user.music"));
    assert(vstd::string::is_ascii("fs.read.user.videos"));
    assert(vstd::string::is_ascii("fs.write.user.videos"));
    assert(vstd::string::is_ascii("fs.read.user"));
    assert(vstd::string::is_ascii("fs.write.user"));
    assert(vstd::string::is_ascii("fs.read.tmp"));
    assert(vstd::string::is_ascii("fs.write.tmp"));
    assert(vstd::string::is_ascii("fs.read.removable"));
    assert(vstd::string::is_ascii("fs.write.removable"));
    assert(vstd::string::is_ascii("fs.read.all"));
    assert(vstd::string::is_ascii("fs.write.all"));
    assert(vstd::string::is_ascii("ipc.client"));
    assert(vstd::string::is_ascii("ipc.server"));
    assert(vstd::string::is_ascii("process.spawn"));
    assert("process.inspect".spec_bytes().len() != "fs.read.user.documents".spec_bytes().len());
    assert("process.inspect".spec_bytes().len() != "fs.write.user.documents".spec_bytes().len());
    assert("process.inspect".spec_bytes().len() != "fs.read.user.downloads".spec_bytes().len());
    assert("process.inspect".spec_bytes().len() != "fs.write.user.downloads".spec_bytes().len());
    assert("process.inspect".spec_bytes().len() != "fs.read.user.desktop".spec_bytes().len());
    assert("process.inspect".spec_bytes().len() != "fs.write.user.desktop".spec_bytes().len());
    assert("process.inspect".spec_bytes().len() != "fs.read.user.pictures".spec_bytes().len());
    assert("process.inspect".spec_bytes().len() != "fs.write.user.pictures".spec_bytes().len());
    assert("process.inspect".spec_bytes().len() != "fs.read.user.music".spec_bytes().len());
    assert("process.inspect".spec_bytes().len() != "fs.write.user.music".spec_bytes().len());
    assert("process.inspect".spec_bytes().len() != "fs.read.user.videos".spec_bytes().len());
    assert("process.inspect".spec_bytes().len() != "fs.write.user.videos".spec_bytes().len());
    assert("process.inspect".spec_bytes().len() != "fs.read.user".spec_bytes().len());
    assert("process.inspect".spec_bytes().len() != "fs.write.user".spec_bytes().len());
    assert("process.inspect".spec_bytes().len() != "fs.read.tmp".spec_bytes().len());
    assert("process.inspect".spec_bytes().len() != "fs.write.tmp".spec_bytes().len());
    assert("process.inspect".spec_bytes().len() != "fs.read.removable".spec_bytes().len());
    assert("process.inspect".spec_bytes().len() != "fs.write.removable".spec_bytes().len());
    assert("process.inspect".spec_bytes().len() != "fs.read.all".spec_bytes().len());
    assert("process.inspect".spec_bytes().len() != "fs.write.all".spec_bytes().len());
    assert("process.inspect".spec_bytes().len() != "ipc.client".spec_bytes().len());
    assert("process.inspect".spec_bytes().len() != "ipc.server".spec_bytes().len());
    assert("process.inspect".spec_bytes().len() != "process.spawn".spec_bytes().len());
}

proof fn lemma_builtin_name_24()
    ensures
        builtin_named("process.kill".spec_bytes()) == Some(Capability::ProcessKill),
{
    reveal(builtin_named);
    broadcast use vstd::string::is_ascii_spec_bytes;
    reveal_strlit("process.kill");
    reveal_strlit("fs.read.user.documents");
    reveal_strlit("fs.write.user.documents");
    reveal_strlit("fs.read.user.downloads");
    reveal_strlit("fs.write.user.downloads");
    reveal_strlit("fs.read.user.desktop");
    reveal_strlit("fs.write.user.desktop");
    reveal_strlit("fs.read.user.pictures");
    reveal_strlit("fs.write.user.pictures");
    reveal_strlit("fs.read.user.music");
    reveal_strlit("fs.write.user.music");
    reveal_strlit("fs.read.user.videos");
    reveal_strlit("fs.write.user.videos");
    reveal_strlit("fs.read.user");
    reveal_strlit("fs.write.user");
    reveal_strlit("fs.read.tmp");
    reveal_strlit("fs.write.tmp");
    reveal_strlit("fs.read.removable");
    reveal_strlit("fs.write.removable");
    reveal_strlit("fs.read.all");
    reveal_strlit("fs.write.all");
    reveal_strlit("ipc.client");
    reveal_strlit("ipc.server");
    reveal_strlit("process.spawn");
    reveal_strlit("process.inspect");
    assert(vstd::string::is_ascii("process.kill"));
    assert(vstd::string::is_ascii("fs.read.user.documents"));
    assert(vstd::string::is_ascii("fs.write.user.documents"));
    assert(vstd::string::is_ascii("fs.read.user.downloads"));
    assert(vstd::string::is_ascii("fs.write.user.downloads"));
    assert(vstd::string::is_ascii("fs.read.user.desktop"));
    assert(vstd::string::is_ascii("fs.write.user.desktop"));
    assert(vstd::string::is_ascii("fs.read.user.pictures"));
    assert(vstd::string::is_ascii("fs.write.user.pictures"));
    assert(vstd::string::is_ascii("fs.read.user.music"));
    assert(vstd::string::is_ascii("fs.write.user.music"));
    assert(vstd::string::is_ascii("fs.read.user.videos"));
    assert(vstd::string::is_ascii("fs.write.user.videos"));
    assert(vstd::string::is_ascii("fs.read.user"));
    assert(vstd::string::is_ascii("fs.write.user"));
    assert(vstd::string::is_ascii("fs.read.tmp"));
    assert(vstd::string::is_ascii("fs.write.tmp"));
    assert(vstd::string::is_ascii("fs.read.removable"));
    assert(vstd::string::is_ascii("fs.write.removable"));
    assert(vstd::string::is_ascii("fs.read.all"));
    assert(vstd::string::is_ascii("fs.write.all"));
    assert(vstd::string::is_ascii("ipc.client"));
    assert(vstd::string::is_ascii("ipc.server"));
    assert(vstd::string::is_ascii("process.spawn"));
    assert(vstd::string::is_ascii("process.inspect"));
    assert("process.kill".spec_bytes().len() != "fs.read.user.documents".spec_bytes().len());
    assert("process.kill".spec_bytes().len() != "fs.write.user.documents".spec_bytes().len());
    assert("process.kill".spec_bytes().len() != "fs.read.user.downloads".spec_bytes().len());
    assert("process.kill".spec_bytes().len() != "fs.write.user.downloads".spec_bytes().len());
    assert("process.kill".spec_bytes().len() != "fs.read.user.desktop".spec_bytes().len());
    assert("process.kill".spec_bytes().len() != "fs.write.user.desktop".spec_bytes().len());
    assert("process.kill".spec_bytes().len() != "fs.read.user.pictures".spec_bytes().len());
    assert("process.kill".spec_bytes().len() != "fs.write.user.pictures".spec_bytes().len());
    assert("process.kill".spec_bytes().len() != "fs.read.user.music".spec_bytes().len());
    assert("process.kill".spec_bytes().len() != "fs.write.user.music".spec_bytes().len());
    assert("process.kill".spec_bytes().len() != "fs.read.user.videos".spec_bytes().len());
    assert("process.kill".spec_bytes().len() != "fs.write.user.videos".spec_bytes().len());
    assert("process.kill".spec_bytes()[0] != "fs.read.user".spec_bytes()[0]);
    assert("process.kill".spec_bytes().len() != "fs.write.user".spec_bytes().len());
    assert("process.kill".spec_bytes().len() != "fs.read.tmp".spec_bytes().len());
    assert("process.kill".spec_bytes()[0] != "fs.write.tmp".spec_bytes()[0]);
    assert("process.kill".spec_bytes().len() != "fs.read.removable".spec_bytes().len());
    assert("process.kill".spec_bytes().len() != "fs.write.removable".spec_bytes().len());
    assert("process.kill".spec_bytes().len() != "fs.read.all".spec_bytes().len());
    assert("process.kill".spec_bytes()[0] != "fs.write.all".spec_bytes()[0]);
    assert("process.kill".spec_bytes().len() != "ipc.client".spec_bytes().len());
    assert("process.kill".spec_bytes().len() != "ipc.server".spec_bytes().len());
    assert("process.kill".spec_bytes().len() != "process.spawn".spec_bytes().len());
    assert("process.kill".spec_bytes().len() != "process.inspect".spec_bytes().len());
}

#[verifier::rlimit(80)]
proof fn lemma_builtin_name_25()
    ensures
        builtin_named("display.read".spec_bytes()) == Some(Capability::DisplayRead),
{
    reveal(builtin_named);
    broadcast use vstd::string::is_ascii_spec_bytes;
    reveal_strlit("display.read");
    reveal_strlit("fs.read.user.documents");
    reveal_strlit("fs.write.user.documents");
    reveal_strlit("fs.read.user.downloads");
    reveal_strlit("fs.write.user.downloads");
    reveal_strlit("fs.read.user.desktop");
    reveal_strlit("fs.write.user.desktop");
    reveal_strlit("fs.read.user.pictures");
    reveal_strlit("fs.write.user.pictures");
    reveal_strlit("fs.read.user.music");
    reveal_strlit("fs.write.user.music");
    reveal_strlit("fs.read.user.videos");
    reveal_strlit("fs.write.user.videos");
    reveal_strlit("fs.read.user");
    reveal_strlit("fs.write.user");
    reveal_strlit("fs.read.tmp");
    reveal_strlit("fs.write.tmp");
    reveal_strlit("fs.read.removable");
    reveal_strlit("fs.write.removable");
    reveal_strlit("fs.read.all");
    reveal_strlit("fs.write.all");
    reveal_strlit("ipc.client");
    reveal_strlit("ipc.server");
    reveal_strlit("process.spawn");
    reveal_strlit("process.inspect");
    reveal_strlit("process.kill");
    assert(vstd::string::is_ascii("display.read"));
    assert(vstd::string::is_ascii("fs.read.user.documents"));
    assert(vstd::string::is_ascii("fs.write.user.documents"));
    assert(vstd::string::is_ascii("fs.read.user.downloads"));
    assert(vstd::string::is_ascii("fs.write.user.downloads"));
    assert(vstd::string::is_ascii("fs.read.user.desktop"));
    assert(vstd::string::is_ascii("fs.write.user.desktop"));
    assert(vstd::string::is_ascii("fs.read.user.pictures"));
    assert(vstd::string::is_ascii("fs.write.user.pictures"));
    assert(vstd::string::is_ascii("fs.read.user.music"));
    assert(vstd::string::is_ascii("fs.write.user.music"));
    assert(vstd::string::is_ascii("fs.read.user.videos"));
    assert(vstd::string::is_ascii("fs.write.user.videos"));
    assert(vstd::string::is_ascii("fs.read.user"));
    assert(vstd::string::is_ascii("fs.write.user"));
    assert(vstd::string::is_ascii("fs.read.tmp"));
    assert(vstd::string::is_ascii("fs.write.tmp"));
    assert(vstd::string::is_ascii("fs.read.removable"));
    assert(vstd::string::is_ascii("fs.write.removable"));
    assert(vstd::string::is_ascii("fs.read.all"));
    assert(vstd::string::is_ascii("fs.write.all"));
    assert(vstd::string::is_ascii("ipc.client"));
    assert(vstd::string::is_ascii("ipc.server"));
    assert(vstd::string::is_ascii("process.spawn"));
    assert(vstd::string::is_ascii("process.inspect"));
    assert(vstd::string::is_ascii("process.kill"));
    assert("display.read".spec_bytes().len() != "fs.read.user.documents".spec_bytes().len());
    assert("display.read".spec_bytes().len() != "fs.write.user.documents".spec_bytes().len());
    assert("display.read".spec_bytes().len() != "fs.read.user.downloads".spec_bytes().len());
    assert("display.read".spec_bytes().len() != "fs.write.user.downloads".spec_bytes().len());
    assert("display.read".spec_bytes().len() != "fs.read.user.desktop".spec_bytes().len());
    assert("display.read".spec_bytes().len() != "fs.write.user.desktop".spec_bytes().len());
    assert("display.read".spec_bytes().len() != "fs.read.user.pictures".spec_bytes().len());
    assert("display.read".spec_bytes().len() != "fs.write.user.pictures".spec_bytes().len());
    assert("display.read".spec_bytes().len() != "fs.read.user.music".spec_bytes().len());
    assert("display.read".spec_bytes().len() != "fs.write.user.music".spec_bytes().len());
    assert("display.read".spec_bytes().len() != "fs.read.user.videos".spec_bytes().len());
    assert("display.read".spec_bytes().len() != "fs.write.user.videos".spec_bytes().len());
    assert("display.read".spec_bytes()[0] != "fs.read.user".spec_bytes()[0]);
    assert("display.read".spec_bytes().len() != "fs.write.user".spec_bytes().len());
    assert("display.read".spec_bytes().len() != "fs.read.tmp".spec_bytes().len());
    assert("display.read".spec_bytes()[0] != "fs.write.tmp".spec_bytes()[0]);
    assert("display.read".spec_bytes().len() != "fs.read.removable".spec_bytes().len());
    assert("display.read".spec_bytes().len() != "fs.write.removable".spec_bytes().len());
    assert("display.read".spec_bytes().len() != "fs.read.all".spec_bytes().len());
    assert("display.read".spec_bytes()[0] != "fs.write.all".spec_bytes()[0]);
    assert("display.read".spec_bytes().len() != "ipc.client".spec_bytes().len());
    assert("display.read".spec_bytes().len() != "ipc.server".spec_bytes().len());
    assert("display.read".spec_bytes().len() != "process.spawn".spec_bytes().len());
    assert("display.read".spec_bytes().len() != "process.inspect".spec_bytes().len());
    assert("display.read".spec_bytes()[0] != "process.kill".spec_bytes()[0]);
}

#[verifier::rlimit(80)]
proof fn lemma_builtin_name_26()
    ensures
        builtin_named("usb.access".spec_bytes()) == Some(Capability::UsbAccess),
{
    reveal(builtin_named);
    broadcast use vstd::string::is_ascii_spec_bytes;
    reveal_strlit("usb.access");
    reveal_strlit("fs.read.user.documents");
    reveal_strlit("fs.write.user.documents");
    reveal_strlit("fs.read.user.downloads");
    reveal_strlit("fs.write.user.downloads");
    reveal_strlit("fs.read.user.desktop");
    reveal_strlit("fs.write.user.desktop");
    reveal_strlit("fs.read.user.pictures");
    reveal_strlit("fs.write.user.pictures");
    reveal_strlit("fs.read.user.music");
    reveal_strlit("fs.write.user.music");
    reveal_strlit("fs.read.user.videos");
    reveal_strlit("fs.write.user.videos");
    reveal_strlit("fs.read.user");
    reveal_strlit("fs.write.user");
    reveal_strlit("fs.read.tmp");
    reveal_strlit("fs.write.tmp");
    reveal_strlit("fs.read.removable");
    reveal_strlit("fs.write.removable");
    reveal_strlit("fs.read.all");
    reveal_strlit("fs.write.all");
    reveal_strlit("ipc.client");
    reveal_strlit("ipc.server");
    reveal_strlit("process.spawn");
    reveal_strlit("process.inspect");
    reveal_strlit("process.kill");
    reveal_strlit("display.read");
    assert(vstd::string::is_ascii("usb.access"));
    assert(vstd::string::is_ascii("fs.read.user.documents"));
    assert(vstd::string::is_ascii("fs.write.user.documents"));
    assert(vstd::string::is_ascii("fs.read.user.downloads"));
    assert(vstd::string::is_ascii("fs.write.user.downloads"));
    assert(vstd::string::is_ascii("fs.read.user.desktop"));
    assert(vstd::string::is_ascii("fs.write.user.desktop"));
    assert(vstd::string::is_ascii("fs.read.user.pictures"));
    assert(vstd::string::is_ascii("fs.write.user.pictures"));
    assert(vstd::string::is_ascii("fs.read.user.music"));
    assert(vstd::string::is_ascii("fs.write.user.music"));
    assert(vstd::string::is_ascii("fs.read.user.videos"));
    assert(vstd::string::is_ascii("fs.write.user.videos"));
    assert(vstd::string::is_ascii("fs.read.user"));
    assert(vstd::string::is_ascii("fs.write.user"));
    assert(vstd::string::is_ascii("fs.read.tmp"));
    assert(vstd::string::is_ascii("fs.write.tmp"));
    assert(vstd::string::is_ascii("fs.read.removable"));
    assert(vstd::string::is_ascii("fs.write.removable"));
    assert(vstd::string::is_ascii("fs.read.all"));
    assert(vstd::string::is_ascii("fs.write.all"));
    assert(vstd::string::is_ascii("ipc.client"));
    assert(vstd::string::is_ascii("ipc.server"));
    assert(vstd::string::is_ascii("process.spawn"));
    assert(vstd::string::is_ascii("process.inspect"));
    assert(vstd::string::is_ascii("process.kill"));
    assert(vstd::string::is_ascii("display.read"));
    assert("usb.access".spec_bytes().len() != "fs.read.user.documents".spec_bytes().len());
    assert("usb.access".spec_bytes().len() != "fs.write.user.documents".spec_bytes().len());
    assert("usb.access".spec_bytes().len() != "fs.read.user.downloads".spec_bytes().len());
    assert("usb.access".spec_bytes().len() != "fs.write.user.downloads".spec_bytes().len());
    assert("usb.access".spec_bytes().len() != "fs.read.user.desktop".spec_bytes().len());
    assert("usb.access".spec_bytes().len() != "fs.write.user.desktop".spec_bytes().len());
    assert("usb.access".spec_bytes().len() != "fs.read.user.pictures".spec_bytes().len());
    assert("usb.access".spec_bytes().len() != "fs.write.user.pictures".spec_bytes().len());
    assert("usb.access".spec_bytes().len() != "fs.read.user.music".spec_bytes().len());
    assert("usb.access".spec_bytes().len() != "fs.write.user.music".spec_bytes().len());
    assert("usb.access".spec_bytes().len() != "fs.read.user.videos".spec_bytes().len());
    assert("usb.access".spec_bytes().len() != "fs.write.user.videos".spec_bytes().len());
    assert("usb.access".spec_bytes().len() != "fs.read.user".spec_bytes().len());
    assert("usb.access".spec_bytes().len() != "fs.write.user".spec_bytes().len());
    assert("usb.access".spec_bytes().len() != "fs.read.tmp".spec_bytes().len());
    assert("usb.access".spec_bytes().len() != "fs.write.tmp".spec_bytes().len());
    assert("usb.access".spec_bytes().len() != "fs.read.removable".spec_bytes().len());
    assert("usb.access".spec_bytes().len() != "fs.write.removable".spec_bytes().len());
    assert("usb.access".spec_bytes().len() != "fs.read.all".spec_bytes().len());
    assert("usb.access".spec_bytes().len() != "fs.write.all".spec_bytes().len());
    assert("usb.access".spec_bytes()[0] != "ipc.client".spec_bytes()[0]);
    assert("usb.access".spec_bytes()[0] != "ipc.server".spec_bytes()[0]);
    assert("usb.access".spec_bytes().len() != "process.spawn".spec_bytes().len());
    assert("usb.access".spec_bytes().len() != "process.inspect".spec_bytes().len());
    assert("usb.access".spec_bytes().len() != "process.kill".spec_bytes().len());
    assert("usb.access".spec_bytes().len() != "display.read".spec_bytes().len());
}

#[verifier::rlimit(80)]
proof fn lemma_builtin_name_27()
    ensures
        builtin_named("serial.access".spec_bytes()) == Some(Capability::SerialAccess),
{
    reveal(builtin_named);
    broadcast use vstd::string::is_ascii_spec_bytes;
    reveal_strlit("serial.access");
    reveal_strlit("fs.read.user.documents");
    reveal_strlit("fs.write.user.documents");
    reveal_strlit("fs.read.user.downloads");
    reveal_strlit("fs.write.user.downloads");
    reveal_strlit("fs.read.user.desktop");
    reveal_strlit("fs.write.user.desktop");
    reveal_strlit("fs.read.user.pictures");
    reveal_strlit("fs.write.user.pictures");
    reveal_strlit("fs.read.user.music");
    reveal_strlit("fs.write.user.music");
    reveal_strlit("fs.read.user.videos");
    reveal_strlit("fs.write.user.videos");
    reveal_strlit("fs.read.user");
    reveal_strlit("fs.write.user");
    reveal_strlit("fs.read.tmp");
    reveal_strlit("fs.write.tmp");
    reveal_strlit("fs.read.removable");
    reveal_strlit("fs.write.removable");
    reveal_strlit("fs.read.all");
    reveal_strlit("fs.write.all");
    reveal_strlit("ipc.client");
    reveal_strlit("ipc.server");
    reveal_strlit("process.spawn");
    reveal_strlit("process.inspect");
    reveal_strlit("process.kill");
    reveal_strlit("display.read");
    reveal_strlit("usb.access");
    assert(vstd::string::is_ascii("serial.access"));
    assert(vstd::string::is_ascii("fs.read.user.documents"));
    assert(vstd::string::is_ascii("fs.write.user.documents"));
    assert(vstd::string::is_ascii("fs.read.user.downloads"));
    assert(vstd::string::is_ascii("fs.write.user.downloads"));
    assert(vstd::string::is_ascii("fs.read.user.desktop"));
    assert(vstd::string::is_ascii("fs.write.user.desktop"));
    assert(vstd::string::is_ascii("fs.read.user.pictures"));
    assert(vstd::string::is_ascii("fs.write.user.pictures"));
    assert(vstd::string::is_ascii("fs.read.user.music"));
    assert(vstd::string::is_ascii("fs.write.user.music"));
    assert(vstd::string::is_ascii("fs.read.user.videos"));
    assert(vstd::string::is_ascii("fs.write.user.videos"));
    assert(vstd::string::is_ascii("fs.read.user"));
    assert(vstd::string::is_ascii("fs.write.user"));
    assert(vstd::string::is_ascii("fs.read.tmp"));
    assert(vstd::string::is_ascii("fs.write.tmp"));
    assert(vstd::string::is_ascii("fs.read.removable"));
    assert(vstd::string::is_ascii("fs.write.removable"));
    assert(vstd::string::is_ascii("fs.read.all"));
    assert(vstd::string::is_ascii("fs.write.all"));
    assert(vstd::string::is_ascii("ipc.client"));
    assert(vstd::string::is_ascii("ipc.server"));
    assert(vstd::string::is_ascii("process.spawn"));
    assert(vstd::string::is_ascii("process.inspect"));
    assert(vstd::string::is_ascii("process.kill"));
    assert(vstd::string::is_ascii("display.read"));
    assert(vstd::string::is_ascii("usb.access"));
    assert("serial.access".spec_bytes().len() != "fs.read.user.documents".spec_bytes().len());
    assert("serial.access".spec_bytes().len() != "fs.write.user.documents".spec_bytes().len());
    assert("serial.access".spec_bytes().len() != "fs.read.user.downloads".spec_bytes().len());
    assert("serial.access".spec_bytes().len() != "fs.write.user.downloads".spec_bytes().len());
    assert("serial.access".spec_bytes().len() != "fs.read.user.desktop".spec_bytes().len());
    assert("serial.access".spec_bytes().len() != "fs.write.user.desktop".spec_bytes().len());
    assert("serial.access".spec_bytes().len() != "fs.read.user.pictures".spec_bytes().len());
    assert("serial.access".spec_bytes().len() != "fs.write.user.pictures".spec_bytes().len());
    assert("serial.access".spec_bytes().len() != "fs.read.user.music".spec_bytes().len());
    assert("serial.access".spec_bytes().len() != "fs.write.user.music".spec_bytes().len());
    assert("serial.access".spec_bytes().len() != "fs.read.user.videos".spec_bytes().len());
    assert("serial.access".spec_bytes().len() != "fs.write.user.videos".spec_bytes().len());
    assert("serial.access".spec_bytes().len() != "fs.read.user".spec_bytes().len());
    assert("serial.access".spec_bytes()[0] != "fs.write.user".spec_bytes()[0]);
    assert("serial.access".spec_bytes().len() != "fs.read.tmp".spec_bytes().len());
    assert("serial.access".spec_bytes().len() != "fs.write.tmp".spec_bytes().len());
    assert("serial.access".spec_bytes().len() != "fs.read.removable".spec_bytes().len());
    assert("serial.access".spec_bytes().len() != "fs.write.removable".spec_bytes().len());
    assert("serial.access".spec_bytes().len() != "fs.read.all".spec_bytes().len());
    assert("serial.access".spec_bytes().len() != "fs.write.all".spec_bytes().len());
    assert("serial.access".spec_bytes().len() != "ipc.client".spec_bytes().len());
    assert("serial.access".spec_bytes().len() != "ipc.server".spec_bytes().len());
    assert("serial.access".spec_bytes()[0] != "process.spawn".spec_bytes()[0]);
    assert("serial.access".spec_bytes().len() != "process.inspect".spec_bytes().len());
    assert("serial.access".spec_bytes().len() != "process.kill".spec_bytes().len());
    assert("serial.access".spec_bytes().len() != "display.read".spec_bytes().len());
    assert("serial.access".spec_bytes().len() != "usb.access".spec_bytes().len());
}

#[verifier::rlimit(80)]
proof fn lemma_builtin_name_28()
    ensures
        builtin_named("system.time.read".spec_bytes()) == Some(Capability::SystemTimeRead),
{
    reveal(builtin_named);
    broadcast use vstd::string::is_ascii_spec_bytes;
    reveal_strlit("system.time.read");
    reveal_strlit("fs.read.user.documents");
    reveal_strlit("fs.write.user.documents");
    reveal_strlit("fs.read.user.downloads");
    reveal_strlit("fs.write.user.downloads");
    reveal_strlit("fs.read.user.desktop");
    reveal_strlit("fs.write.user.desktop");
    reveal_strlit("fs.read.user.pictures");
    reveal_strlit("fs.write.user.pictures");
    reveal_strlit("fs.read.user.music");
    reveal_strlit("fs.write.user.music");
    reveal_strlit("fs.read.user.videos");
    reveal_strlit("fs.write.user.videos");
    reveal_strlit("fs.read.user");
    reveal_strlit("fs.write.user");
    reveal_strlit("fs.read.tmp");
    reveal_strlit("fs.write.tmp");
    reveal_strlit("fs.read.removable");
    reveal_strlit("fs.write.removable");
    reveal_strlit("fs.read.all");
    reveal_strlit("fs.write.all");
    reveal_strlit("ipc.client");
    reveal_strlit("ipc.server");
    reveal_strlit("process.spawn");
    reveal_strlit("process.inspect");
    reveal_strlit("process.kill");
    reveal_strlit("display.read");
    reveal_strlit("usb.access");
    reveal_strlit("serial.access");
    assert(vstd::string::is_ascii("system.time.read"));
    assert(vstd::string::is_ascii("fs.read.user.documents"));
    assert(vstd::string::is_ascii("fs.write.user.documents"));
    assert(vstd::string::is_ascii("fs.read.user.downloads"));
    assert(vstd::string::is_ascii("fs.write.user.downloads"));
    assert(vstd::string::is_ascii("fs.read.user.desktop"));
    assert(vstd::string::is_ascii("fs.write.user.desktop"));
    assert(vstd::string::is_ascii("fs.read.user.pictures"));
    assert(vstd::string::is_ascii("fs.write.user.pictures"));
    assert(vstd::string::is_ascii("fs.read.user.music"));
    assert(vstd::string::is_ascii("fs.write.user.music"));
    assert(vstd::string::is_ascii("fs.read.user.videos"));
    assert(vstd::string::is_ascii("fs.write.user.videos"));
    assert(vstd::string::is_ascii("fs.read.user"));
    assert(vstd::string::is_ascii("fs.write.user"));
    assert(vstd::string::is_ascii("fs.read.tmp"));
    assert(vstd::string::is_ascii("fs.write.tmp"));
    assert(vstd::string::is_ascii("fs.read.removable"));
    assert(vstd::string::is_ascii("fs.write.removable"));
    assert(vstd::string::is_ascii("fs.read.all"));
    assert(vstd::string::is_ascii("fs.write.all"));
    assert(vstd::string::is_ascii("ipc.client"));
    assert(vstd::string::is_ascii("ipc.server"));
    assert(vstd::string::is_ascii("process.spawn"));
    assert(vstd::string::is_ascii("process.inspect"));
    assert(vstd::string::is_ascii("process.kill"));
    assert(vstd::string::is_ascii("display.read"));
    assert(vstd::string::is_ascii("usb.access"));
    assert(vstd::string::is_ascii("serial.access"));
    assert("system.time.read".spec_bytes().len() != "fs.read.user.documents".spec_bytes().len());
    assert("system.time.read".spec_bytes().len() != "fs.write.user.documents".spec_bytes().len());
    assert("system.time.read".spec_bytes().len() != "fs.read.user.downloads".spec_bytes().len());
    assert("system.time.read".spec_bytes().len() != "fs.write.user.downloads".spec_bytes().len());
    assert("system.time.read".spec_bytes().len() != "fs.read.user.desktop".spec_bytes().len());
    assert("system.time.read".spec_bytes().len() != "fs.write.user.desktop".spec_bytes().len());
    assert("system.time.read".spec_bytes().len() != "fs.read.user.pictures".spec_bytes().len());
    assert("system.time.read".spec_bytes().len() != "fs.write.user.pictures".spec_bytes().len());
    assert("system.time.read".spec_bytes().len() != "fs.read.user.music".spec_bytes().len());
    assert("system.time.read".spec_bytes().len() != "fs.write.user.music".spec_bytes().len());
    assert("system.time.read".spec_bytes().len() != "fs.read.user.videos".spec_bytes().len());
    assert("system.time.read".spec_bytes().len() != "fs.write.user.videos".spec_bytes().len());
    assert("system.time.read".spec_bytes().len() != "fs.read.user".spec_bytes().len());
    assert("system.time.read".spec_bytes().len() != "fs.write.user".spec_bytes().len());
    assert("system.time.read".spec_bytes().len() != "fs.read.tmp".spec_bytes().len());
    assert("system.time.read".spec_bytes().len() != "fs.write.tmp".spec_bytes().len());
    assert("system.time.read".spec_bytes().len() != "fs.read.removable".spec_bytes().len());
    assert("system.time.read".spec_bytes().len() != "fs.write.removable".spec_bytes().len());
    assert("system.time.read".spec_bytes().len() != "fs.read.all".spec_bytes().len());
    assert("system.time.read".spec_bytes().len() != "fs.write.all".spec_bytes().len());
    assert("system.time.read".spec_bytes().len() != "ipc.client".spec_bytes().len());
    assert("system.time.read".spec_bytes().len() != "ipc.server".spec_bytes().len());
    assert("system.time.read".spec_bytes().len() != "process.spawn".spec_bytes().len());
    assert("system.time.read".spec_bytes().len() != "process.inspect".spec_bytes().len());
    assert("system.time.read".spec_bytes().len() != "process.kill".spec_bytes().len());
    assert("system.time.read".spec_bytes().len() != "display.read".spec_bytes().len());
    assert("system.time.read".spec_bytes().len() != "usb.access".spec_bytes().len());
    assert("system.time.read".spec_bytes().len() != "serial.access".spec_bytes().len());
}

#[verifier::rlimit(80)]
proof fn lemma_builtin_name_29()
    ensures
        builtin_named("system.random.read".spec_bytes()) == Some(Capability::SystemRandomRead),
{
    reveal(builtin_named);
    broadcast use vstd::string::is_ascii_spec_bytes;
    reveal_strlit("system.random.read");
    reveal_strlit("fs.read.user.documents");
    reveal_strlit("fs.write.user.documents");
    reveal_strlit("fs.read.user.downloads");
    reveal_strlit("fs.write.user.downloads");
    reveal_strlit("fs.read.user.desktop");
    reveal_strlit("fs.write.user.desktop");
    reveal_strlit("fs.read.user.pictures");
    reveal_strlit("fs.write.user.pictures");
    reveal_strlit("fs.read.user.music");
    reveal_strlit("fs.write.user.music");
    reveal_strlit("fs.read.user.videos");
    reveal_strlit("fs.write.user.videos");
    reveal_strlit("fs.read.user");
    reveal_strlit("fs.write.user");
    reveal_strlit("fs.read.tmp");
    reveal_strlit("fs.write.tmp");
    reveal_strlit("fs.read.removable");
    reveal_strlit("fs.write.removable");
    reveal_strlit("fs.read.all");
    reveal_strlit("fs.write.all");
    reveal_strlit("ipc.client");
    reveal_strlit("ipc.server");
    reveal_strlit("process.spawn");
    reveal_strlit("process.inspect");
    reveal_strlit("process.kill");
    reveal_strlit("display.read");
    reveal_strlit("usb.access");
    reveal_strlit("serial.access");
    reveal_strlit("system.time.read");
    assert(vstd::string::is_ascii("system.random.read"));
    assert(vstd::string::is_ascii("fs.read.user.documents"));
    assert(vstd::string::is_ascii("fs.write.user.documents"));
    assert(vstd::string::is_ascii("fs.read.user.downloads"));
    assert(vstd::string::is_ascii("fs.write.user.downloads"));
    assert(vstd::string::is_ascii("fs.read.user.desktop"));
    assert(vstd::string::is_ascii("fs.write.user.desktop"));
    assert(vstd::string::is_ascii("fs.read.user.pictures"));
    assert(vstd::string::is_ascii("fs.write.user.pictures"));
    assert(vstd::string::is_ascii("fs.read.user.music"));
    assert(vstd::string::is_ascii("fs.write.user.music"));
    assert(vstd::string::is_ascii("fs.read.user.videos"));
    assert(vstd::string::is_ascii("fs.write.user.videos"));
    assert(vstd::string::is_ascii("fs.read.user"));
    assert(vstd::string::is_ascii("fs.write.user"));
    assert(vstd::string::is_ascii("fs.read.tmp"));
    assert(vstd::string::is_ascii("fs.write.tmp"));
    assert(vstd::string::is_ascii("fs.read.removable"));
    assert(vstd::string::is_ascii("fs.write.removable"));
    assert(vstd::string::is_ascii("fs.read.all"));
    assert(vstd::string::is_ascii("fs.write.all"));
    assert(vstd::string::is_ascii("ipc.client"));
    assert(vstd::string::is_ascii("ipc.server"));
    assert(vstd::string::is_ascii("process.spawn"));
    assert(vstd::string::is_ascii("process.inspect"));
    assert(vstd::string::is_ascii("process.kill"));
    assert(vstd::string::is_ascii("display.read"));
    assert(vstd::string::is_ascii("usb.access"));
    assert(vstd::string::is_ascii("serial.access"));
    assert(vstd::string::is_ascii("system.time.read"));
    assert("system.random.read".spec_bytes().len() != "fs.read.user.documents".spec_bytes().len());
    assert("system.random.read".spec_bytes().len() != "fs.write.user.documents".spec_bytes().len());
    assert("system.random.read".spec_bytes().len() != "fs.read.user.downloads".spec_bytes().len());
    assert("system.random.read".spec_bytes().len() != "fs.write.user.downloads".spec_bytes().len());
    assert("system.random.read".spec_bytes().len() != "fs.read.user.desktop".spec_bytes().len());
    assert("system.random.read".spec_bytes().len() != "fs.write.user.desktop".spec_bytes().len());
    assert("system.random.read".spec_bytes().len() != "fs.read.user.pictures".spec_bytes().len());
    assert("system.random.read".spec_bytes().len() != "fs.write.user.pictures".spec_bytes().len());
    assert("system.random.read".spec_bytes()[0] != "fs.read.user.music".spec_bytes()[0]);
    assert("system.random.read".spec_bytes().len() != "fs.write.user.music".spec_bytes().len());
    assert("system.random.read".spec_bytes().len() != "fs.read.user.videos".spec_bytes().len());
    assert("system.random.read".spec_bytes().len() != "fs.write.user.videos".spec_bytes().len());
    assert("system.random.read".spec_bytes().len() != "fs.read.user".spec_bytes().len());
    assert("system.random.read".spec_bytes().len() != "fs.write.user".spec_bytes().len());
    assert("system.random.read".spec_bytes().len() != "fs.read.tmp".spec_bytes().len());
    assert("system.random.read".spec_bytes().len() != "fs.write.tmp".spec_bytes().len());
    assert("system.random.read".spec_bytes().len() != "fs.read.removable".spec_bytes().len());
    assert("system.random.read".spec_bytes()[0] != "fs.write.removable".spec_bytes()[0]);
    assert("system.random.read".spec_bytes().len() != "fs.read.all".spec_bytes().len());
    assert("system.random.read".spec_bytes().len() != "fs.write.all".spec_bytes().len());
    assert("system.random.read".spec_bytes().len() != "ipc.client".spec_bytes().len());
    assert("system.random.read".spec_bytes().len() != "ipc.server".spec_bytes().len());
    assert("system.random.read".spec_bytes().len() != "process.spawn".spec_bytes().len());
    assert("system.random.read".spec_bytes().len() != "process.inspect".spec_bytes().len());
    assert("system.random.read".spec_bytes().len() != "process.kill".spec_bytes().len());
    assert("system.random.read".spec_bytes().len() != "display.read".spec_bytes().len());
    assert("system.random.read".spec_bytes().len() != "usb.access".spec_bytes().len());
    assert("system.random.read".spec_bytes().len() != "serial.access".spec_bytes().len());
    assert("system.random.read".spec_bytes().len() != "system.time.read".spec_bytes().len());
}

#[verifier::rlimit(80)]
proof fn lemma_builtin_name_30()
    ensures
        builtin_named("service.register".spec_bytes()) == Some(Capability::ServiceRegister),
{
    reveal(builtin_named);
    broadcast use vstd::string::is_ascii_spec_bytes;
    reveal_strlit("service.register");
    reveal_strlit("fs.read.user.documents");
    reveal_strlit("fs.write.user.documents");
    reveal_strlit("fs.read.user.downloads");
    reveal_strlit("fs.write.user.downloads");
    reveal_strlit("fs.read.user.desktop");
    reveal_strlit("fs.write.user.desktop");
    reveal_strlit("fs.read.user.pictures");
    reveal_strlit("fs.write.user.pictures");
    reveal_strlit("fs.read.user.music");
    reveal_strlit("fs.write.user.music");
    reveal_strlit("fs.read.user.videos");
    reveal_strlit("fs.write.user.videos");
    reveal_strlit("fs.read.user");
    reveal_strlit("fs.write.user");
    reveal_strlit("fs.read.tmp");
    reveal_strlit("fs.write.tmp");
    reveal_strlit("fs.read.removable");
    reveal_strlit("fs.write.removable");
    reveal_strlit("fs.read.all");
    reveal_strlit("fs.write.all");
    reveal_strlit("ipc.client");
    reveal_strlit("ipc.server");
    reveal_strlit("process.spawn");
    reveal_strlit("process.inspect");
    reveal_strlit("process.kill");
    reveal_strlit("display.read");
    reveal_strlit("usb.access");
    reveal_strlit("serial.access");
    reveal_strlit("system.time.read");
    reveal_strlit("system.random.read");
    assert(vstd::string::is_ascii("service.register"));
    assert(vstd::string::is_ascii("fs.read.user.documents"));
    assert(vstd::string::is_ascii("fs.write.user.documents"));
    assert(vstd::string::is_ascii("fs.read.user.downloads"));
    assert(vstd::string::is_ascii("fs.write.user.downloads"));
    assert(vstd::string::is_ascii("fs.read.user.desktop"));
    assert(vstd::string::is_ascii("fs.write.user.desktop"));
    assert(vstd::string::is_ascii("fs.read.user.pictures"));
    assert(vstd::string::is_ascii("fs.write.user.pictures"));
    assert(vstd::string::is_ascii("fs.read.user.music"));
    assert(vstd::string::is_ascii("fs.write.user.music"));
    assert(vstd::string::is_ascii("fs.read.user.videos"));
    assert(vstd::string::is_ascii("fs.write.user.videos"));
    assert(vstd::string::is_ascii("fs.read.user"));
    assert(vstd::string::is_ascii("fs.write.user"));
    assert(vstd::string::is_ascii("fs.read.tmp"));
    assert(vstd::string::is_ascii("fs.write.tmp"));
    assert(vstd::string::is_ascii("fs.read.removable"));
    assert(vstd::string::is_ascii("fs.write.removable"));
    assert(vstd::string::is_ascii("fs.read.all"));
    assert(vstd::string::is_ascii("fs.write.all"));
    assert(vstd::string::is_ascii("ipc.client"));
    assert(vstd::string::is_ascii("ipc.server"));
    assert(vstd::string::is_ascii("process.spawn"));
    assert(vstd::string::is_ascii("process.inspect"));
    assert(vstd::string::is_ascii("process.kill"));
    assert(vstd::string::is_ascii("display.read"));
    assert(vstd::string::is_ascii("usb.access"));
    assert(vstd::string::is_ascii("serial.access"));
    assert(vstd::string::is_ascii("system.time.read"));
    assert(vstd::string::is_ascii("system.random.read"));
    assert("service.register".spec_bytes().len() != "fs.read.user.documents".spec_bytes().len());
    assert("service.register".spec_bytes().len() != "fs.write.user.documents".spec_bytes().len());
    assert("service.register".spec_bytes().len() != "fs.read.user.downloads".spec_bytes().len());
    assert("service.register".spec_bytes().len() != "fs.write.user.downloads".spec_bytes().len());
    assert("service.register".spec_bytes().len() != "fs.read.user.desktop".spec_bytes().len());
    assert("service.register".spec_bytes().len() != "fs.write.user.desktop".spec_bytes().len());
    assert("service.register".spec_bytes().len() != "fs.read.user.pictures".spec_bytes().len());
    assert("service.register".spec_bytes().len() != "fs.write.user.pictures".spec_bytes().len());
    assert("service.register".spec_bytes().len() != "fs.read.user.music".spec_bytes().len());
    assert("service.register".spec_bytes().len() != "fs.write.user.music".spec_bytes().len());
    assert("service.register".spec_bytes().len() != "fs.read.user.videos".spec_bytes().len());
    assert("service.register".spec_bytes().len() != "fs.write.user.videos".spec_bytes().len());
    assert("service.register".spec_bytes().len() != "fs.read.user".spec_bytes().len());
    assert("service.register".spec_bytes().len() != "fs.write.user".spec_bytes().len());
    assert("service.register".spec_bytes().len() != "fs.read.tmp".spec_bytes().len());
    assert("service.register".spec_bytes().len() != "fs.write.tmp".spec_bytes().len());
    assert("service.register".spec_bytes().len() != "fs.read.removable".spec_bytes().len());
    assert("service.register".spec_bytes().len() != "fs.write.removable".spec_bytes().len());
    assert("service.register".spec_bytes().len() != "fs.read.all".spec_bytes().len());
    assert("service.register".spec_bytes().len() != "fs.write.all".spec_bytes().len());
    assert("service.register".spec_bytes().len() != "ipc.client".spec_bytes().len());
    assert("service.register".spec_bytes().len() != "ipc.server".spec_bytes().len());
    assert("service.register".spec_bytes().len() != "process.spawn".spec_bytes().len());
    assert("service.register".spec_bytes().len() != "process.inspect".spec_bytes().len());
    assert("service.register".spec_bytes().len() != "process.kill".spec_bytes().len());
    assert("service.register".spec_bytes().len() != "display.read".spec_bytes().len());
    assert("service.register".spec_bytes().len() != "usb.access".spec_bytes().len());
    assert("service.register".spec_bytes().len() != "serial.access".spec_bytes().len());
    assert("service.register".spec_bytes()[1] != "system.time.read".spec_bytes()[1]);
    assert("service.register".spec_bytes().len() != "system.random.read".spec_bytes().len());
}

#[verifier::rlimit(80)]
proof fn lemma_builtin_name_31()
    ensures
        builtin_named("dma.allocate".spec_bytes()) == Some(Capability::DmaAllocate),
{
    reveal(builtin_named);
    broadcast use vstd::string::is_ascii_spec_bytes;
    reveal_strlit("dma.allocate");
    reveal_strlit("fs.read.user.documents");
    reveal_strlit("fs.write.user.documents");
    reveal_strlit("fs.read.user.downloads");
    reveal_strlit("fs.write.user.downloads");
    reveal_strlit("fs.read.user.desktop");
    reveal_strlit("fs.write.user.desktop");
    reveal_strlit("fs.read.user.pictures");
    reveal_strlit("fs.write.user.pictures");
    reveal_strlit("fs.read.user.music");
    reveal_strlit("fs.write.user.music");
    reveal_strlit("fs.read.user.videos");
    reveal_strlit("fs.write.user.videos");
    reveal_strlit("fs.read.user");
    reveal_strlit("fs.write.user");
    reveal_strlit("fs.read.tmp");
    reveal_strlit("fs.write.tmp");
    reveal_strlit("fs.read.removable");
    reveal_strlit("fs.write.removable");
    reveal_strlit("fs.read.all");
    reveal_strlit("fs.write.all");
    reveal_strlit("ipc.client");
    reveal_strlit("ipc.server");
    reveal_strlit("process.spawn");
    reveal_strlit("process.inspect");
    reveal_strlit("process.kill");
    reveal_strlit("display.read");
    reveal_strlit("usb.access");
    reveal_strlit("serial.access");
    reveal_strlit("system.time.read");
    reveal_strlit("system.random.read");
    reveal_strlit("service.register");
    assert(vstd::string::is_ascii("dma.allocate"));
    assert(vstd::string::is_ascii("fs.read.user.documents"));
    assert(vstd::string::is_ascii("fs.write.user.documents"));
    assert(vstd::string::is_ascii("fs.read.user.downloads"));
    assert(vstd::string::is_ascii("fs.write.user.downloads"));
    assert(vstd::string::is_ascii("fs.read.user.desktop"));
    assert(vstd::string::is_ascii("fs.write.user.desktop"));
    assert(vstd::string::is_ascii("fs.read.user.pictures"));
    assert(vstd::string::is_ascii("fs.write.user.pictures"));
    assert(vstd::string::is_ascii("fs.read.user.music"));
    assert(vstd::string::is_ascii("fs.write.user.music"));
    assert(vstd::string::is_ascii("fs.read.user.videos"));
    assert(vstd::string::is_ascii("fs.write.user.videos"));
    assert(vstd::string::is_ascii("fs.read.user"));
    assert(vstd::string::is_ascii("fs.write.user"));
    assert(vstd::string::is_ascii("fs.read.tmp"));
    assert(vstd::string::is_ascii("fs.write.tmp"));
    assert(vstd::string::is_ascii("fs.read.removable"));
    assert(vstd::string::is_ascii("fs.write.removable"));
    assert(vstd::string::is_ascii("fs.read.all"));
    assert(vstd::string::is_ascii("fs.write.all"));
    assert(vstd::string::is_ascii("ipc.client"));
    assert(vstd::string::is_ascii("ipc.server"));
    assert(vstd::string::is_ascii("process.spawn"));
    assert(vstd::string::is_ascii("process.inspect"));
    assert(vstd::string::is_ascii("process.kill"));
    assert(vstd::string::is_ascii("display.read"));
    assert(vstd::string::is_ascii("usb.access"));
    assert(vstd::string::is_ascii("serial.access"));
    assert(vstd::string::is_ascii("system.time.read"));
    assert(vstd::string::is_ascii("system.random.read"));
    assert(vstd::string::is_ascii("service.register"));
    assert("dma.allocate".spec_bytes().len() != "fs.read.user.documents".spec_bytes().len());
    assert("dma.allocate".spec_bytes().len() != "fs.write.user.documents".spec_bytes().len());
    assert("dma.allocate".spec_bytes().len() != "fs.read.user.downloads".spec_bytes().len());
    assert("dma.allocate".spec_bytes().len() != "fs.write.user.downloads".spec_bytes().len());
    assert("dma.allocate".spec_bytes().len() != "fs.read.user.desktop".spec_bytes().len());
    assert("dma.allocate".spec_bytes().len() != "fs.write.user.desktop".spec_bytes().len());
    assert("dma.allocate".spec_bytes().len() != "fs.read.user.pictures".spec_bytes().len());
    assert("dma.allocate".spec_bytes().len() != "fs.write.user.pictures".spec_bytes().len());
    assert("dma.allocate".spec_bytes().len() != "fs.read.user.music".spec_bytes().len());
    assert("dma.allocate".spec_bytes().len() != "fs.write.user.music".spec_bytes().len());
    assert("dma.allocate".spec_bytes().len() != "fs.read.user.videos".spec_bytes().len());
    assert("dma.allocate".spec_bytes().len() != "fs.write.user.videos".spec_bytes().len());
    assert("dma.allocate".spec_bytes()[0] != "fs.read.user".spec_bytes()[0]);
    assert("dma.allocate".spec_bytes().len() != "fs.write.user".spec_bytes().len());
    assert("dma.allocate".spec_bytes().len() != "fs.read.tmp".spec_bytes().len());
    assert("dma.allocate".spec_bytes()[0] != "fs.write.tmp".spec_bytes()[0]);
    assert("dma.allocate".spec_bytes().len() != "fs.read.removable".spec_bytes().len());
    assert("dma.allocate".spec_bytes().len() != "fs.write.removable".spec_bytes().len());
    assert("dma.allocate".spec_bytes().len() != "fs.read.all".spec_bytes().len());
    assert("dma.allocate".spec_bytes()[0] != "fs.write.all".spec_bytes()[0]);
    assert("dma.allocate".spec_bytes().len() != "ipc.client".spec_bytes().len());
    assert("dma.allocate".spec_bytes().len() != "ipc.server".spec_bytes().len());
    assert("dma.allocate".spec_bytes().len() != "process.spawn".spec_bytes().len());
    assert("dma.allocate".spec_bytes().len() != "process.inspect".spec_bytes().len());
    assert("dma.allocate".spec_bytes()[0] != "process.kill".spec_bytes()[0]);
    assert("dma.allocate".spec_bytes()[1] != "display.read".spec_bytes()[1]);
    assert("dma.allocate".spec_bytes().len() != "usb.access".spec_bytes().len());
    assert("dma.allocate".spec_bytes().len() != "serial.access".spec_bytes().len());
    assert("dma.allocate".spec_bytes().len() != "system.time.read".spec_bytes().len());
    assert("dma.allocate".spec_bytes().len() != "system.random.read".spec_bytes().len());
    assert("dma.allocate".spec_bytes().len() != "service.register".spec_bytes().len());
}

#[verifier::rlimit(80)]
proof fn lemma_builtin_name_32()
    ensures
        builtin_named("memory.phys.map".spec_bytes()) == Some(Capability::MemoryPhysMap),
{
    reveal(builtin_named);
    broadcast use vstd::string::is_ascii_spec_bytes;
    reveal_strlit("memory.phys.map");
    reveal_strlit("fs.read.user.documents");
    reveal_strlit("fs.write.user.documents");
    reveal_strlit("fs.read.user.downloads");
    reveal_strlit("fs.write.user.downloads");
    reveal_strlit("fs.read.user.desktop");
    reveal_strlit("fs.write.user.desktop");
    reveal_strlit("fs.read.user.pictures");
    reveal_strlit("fs.write.user.pictures");
    reveal_strlit("fs.read.user.music");
    reveal_strlit("fs.write.user.music");
    reveal_strlit("fs.read.user.videos");
    reveal_strlit("fs.write.user.videos");
    reveal_strlit("fs.read.user");
    reveal_strlit("fs.write.user");
    reveal_strlit("fs.read.tmp");
    reveal_strlit("fs.write.tmp");
    reveal_strlit("fs.read.removable");
    reveal_strlit("fs.write.removable");
    reveal_strlit("fs.read.all");
    reveal_strlit("fs.write.all");
    reveal_strlit("ipc.client");
    reveal_strlit("ipc.server");
    reveal_strlit("process.spawn");
    reveal_strlit("process.inspect");
    reveal_strlit("process.kill");
    reveal_strlit("display.read");
    reveal_strlit("usb.access");
    reveal_strlit("serial.access");
    reveal_strlit("system.time.read");
    reveal_strlit("system.random.read");
    reveal_strlit("service.register");
    reveal_strlit("dma.allocate");
    assert(vstd::string::is_ascii("memory.phys.map"));
    assert(vstd::string::is_ascii("fs.read.user.documents"));
    assert(vstd::string::is_ascii("fs.write.user.documents"));
    assert(vstd::string::is_ascii("fs.read.user.downloads"));
    assert(vstd::string::is_ascii("fs.write.user.downloads"));
    assert(vstd::string::is_ascii("fs.read.user.desktop"));
    assert(vstd::string::is_ascii("fs.write.user.desktop"));
    assert(vstd::string::is_ascii("fs.read.user.pictures"));
    assert(vstd::string::is_ascii("fs.write.user.pictures"));
    assert(vstd::string::is_ascii("fs.read.user.music"));
    assert(vstd::string::is_ascii("fs.write.user.music"));
    assert(vstd::string::is_ascii("fs.read.user.videos"));
    assert(vstd::string::is_ascii("fs.write.user.videos"));
    assert(vstd::string::is_ascii("fs.read.user"));
    assert(vstd::string::is_ascii("fs.write.user"));
    assert(vstd::string::is_ascii("fs.read.tmp"));
    assert(vstd::string::is_ascii("fs.write.tmp"));
    assert(vstd::string::is_ascii("fs.read.removable"));
    assert(vstd::string::is_ascii("fs.write.removable"));
    assert(vstd::string::is_ascii("fs.read.all"));
    assert(vstd::string::is_ascii("fs.write.all"));
    assert(vstd::string::is_ascii("ipc.client"));
    assert(vstd::string::is_ascii("ipc.server"));
    assert(vstd::string::is_ascii("process.spawn"));
    assert(vstd::string::is_ascii("process.inspect"));
    assert(vstd::string::is_ascii("process.kill"));
    assert(vstd::string::is_ascii("display.read"));
    assert(vstd::string::is_ascii("usb.access"));
    assert(vstd::string::is_ascii("serial.access"));
    assert(vstd::string::is_ascii("system.time.read"));
    assert(vstd::string::is_ascii("system.random.read"));
    assert(vstd::string::is_ascii("service.register"));
    assert(vstd::string::is_ascii("dma.allocate"));
    assert("memory.phys.map".spec_bytes().len() != "fs.read.user.documents".spec_bytes().len());
    assert("memory.phys.map".spec_bytes().len() != "fs.write.user.documents".spec_bytes().len());
    assert("memory.phys.map".spec_bytes().len() != "fs.read.user.downloads".spec_bytes().len());
    assert("memory.phys.map".spec_bytes().len() != "fs.write.user.downloads".spec_bytes().len());
    assert("memory.phys.map".spec_bytes().len() != "fs.read.user.desktop".spec_bytes().len());
    assert("memory.phys.map".spec_bytes().len() != "fs.write.user.desktop".spec_bytes().len());
    assert("memory.phys.map".spec_bytes().len() != "fs.read.user.pictures".spec_bytes().len());
    assert("memory.phys.map".spec_bytes().len() != "fs.write.user.pictures".spec_bytes().len());
    assert("memory.phys.map".spec_bytes().len() != "fs.read.user.music".spec_bytes().len());
    assert("memory.phys.map".spec_bytes().len() != "fs.write.user.music".spec_bytes().len());
    assert("memory.phys.map".spec_bytes().len() != "fs.read.user.videos".spec_bytes().len());
    assert("memory.phys.map".spec_bytes().len() != "fs.write.user.videos".spec_bytes().len());
    assert("memory.phys.map".spec_bytes().len() != "fs.read.user".spec_bytes().len());
    assert("memory.phys.map".spec_bytes().len() != "fs.write.user".spec_bytes().len());
    assert("memory.phys.map".spec_bytes().len() != "fs.read.tmp".spec_bytes().len());
    assert("memory.phys.map".spec_bytes().len() != "fs.write.tmp".spec_bytes().len());
    assert("memory.phys.map".spec_bytes().len() != "fs.read.removable".spec_bytes().len());
    assert("memory.phys.map".spec_bytes().len() != "fs.write.removable".spec_bytes().len());
    assert("memory.phys.map".spec_bytes().len() != "fs.read.all".spec_bytes().len());
    assert("memory.phys.map".spec_bytes().len() != "fs.write.all".spec_bytes().len());
    assert("memory.phys.map".spec_bytes().len() != "ipc.client".spec_bytes().len());
    assert("memory.phys.map".spec_bytes().len() != "ipc.server".spec_bytes().len());
    assert("memory.phys.map".spec_bytes().len() != "process.spawn".spec_bytes().len());
    assert("memory.phys.map".spec_bytes()[0] != "process.inspect".spec_bytes()[0]);
    assert("memory.phys.map".spec_bytes().len() != "process.kill".spec_bytes().len());
    assert("memory.phys.map".spec_bytes().len() != "display.read".spec_bytes().len());
    assert("memory.phys.map".spec_bytes().len() != "usb.access".spec_bytes().len());
    assert("memory.phys.map".spec_bytes().len() != "serial.access".spec_bytes().len());
    assert("memory.phys.map".spec_bytes().len() != "system.time.read".spec_bytes().len());
    assert("memory.phys.map".spec_bytes().len() != "system.random.read".spec_bytes().len());
    assert("memory.phys.map".spec_bytes().len() != "service.register".spec_bytes().len());
    assert("memory.phys.map".spec_bytes().len() != "dma.allocate".spec_bytes().len());
}

#[verifier::rlimit(80)]
proof fn lemma_builtin_name_33()
    ensures
        builtin_named("memory.phys.translate".spec_bytes()) == Some(Capability::MemoryPhysTranslate),
{
    reveal(builtin_named);
    broadcast use vstd::string::is_ascii_spec_bytes;
    reveal_strlit("memory.phys.translate");
    reveal_strlit("fs.read.user.documents");
    reveal_strlit("fs.write.user.documents");
    reveal_strlit("fs.read.user.downloads");
    reveal_strlit("fs.write.user.downloads");
    reveal_strlit("fs.read.user.desktop");
    reveal_strlit("fs.write.user.desktop");
    reveal_strlit("fs.read.user.pictures");
    reveal_strlit("fs.write.user.pictures");
    reveal_strlit("fs.read.user.music");
    reveal_strlit("fs.write.user.music");
    reveal_strlit("fs.read.user.videos");
    reveal_strlit("fs.write.user.videos");
    reveal_strlit("fs.read.user");
    reveal_strlit("fs.write.user");
    reveal_strlit("fs.read.tmp");
    reveal_strlit("fs.write.tmp");
    reveal_strlit("fs.read.removable");
    reveal_strlit("fs.write.removable");
    reveal_strlit("fs.read.all");
    reveal_strlit("fs.write.all");
    reveal_strlit("ipc.client");
    reveal_strlit("ipc.server");
    reveal_strlit("process.spawn");
    reveal_strlit("process.inspect");
    reveal_strlit("process.kill");
    reveal_strlit("display.read");
    reveal_strlit("usb.access");
    reveal_strlit("serial.access");
    reveal_strlit("system.time.read");
    reveal_strlit("system.random.read");
    reveal_strlit("service.register");
    reveal_strlit("dma.allocate");
    reveal_strlit("memory.phys.map");
    assert(vstd::string::is_ascii("memory.phys.translate"));
    assert(vstd::string::is_ascii("fs.read.user.documents"));
    assert(vstd::string::is_ascii("fs.write.user.documents"));
    assert(vstd::string::is_ascii("fs.read.user.downloads"));
    assert(vstd::string::is_ascii("fs.write.user.downloads"));
    assert(vstd::string::is_ascii("fs.read.user.desktop"));
    assert(vstd::string::is_ascii("fs.write.user.desktop"));
    assert(vstd::string::is_ascii("fs.read.user.pictures"));
    assert(vstd::string::is_ascii("fs.write.user.pictures"));
    assert(vstd::string::is_ascii("fs.read.user.music"));
    assert(vstd::string::is_ascii("fs.write.user.music"));
    assert(vstd::string::is_ascii("fs.read.user.videos"));
    assert(vstd::string::is_ascii("fs.write.user.videos"));
    assert(vstd::string::is_ascii("fs.read.user"));
    assert(vstd::string::is_ascii("fs.write.user"));
    assert(vstd::string::is_ascii("fs.read.tmp"));
    assert(vstd::string::is_ascii("fs.write.tmp"));
    assert(vstd::string::is_ascii("fs.read.removable"));
    assert(vstd::string::is_ascii("fs.write.removable"));
    assert(vstd::string::is_ascii("fs.read.all"));
    assert(vstd::string::is_ascii("fs.write.all"));
    assert(vstd::string::is_ascii("ipc.client"));
    assert(vstd::string::is_ascii("ipc.server"));
    assert(vstd::string::is_ascii("process.spawn"));
    assert(vstd::string::is_ascii("process.inspect"));
    assert(vstd::string::is_ascii("process.kill"));
    assert(vstd::string::is_ascii("display.read"));
    assert(vstd::string::is_ascii("usb.access"));
    assert(vstd::string::is_ascii("serial.access"));
    assert(vstd::string::is_ascii("system.time.read"));
    assert(vstd::string::is_ascii("system.random.read"));
    assert(vstd::string::is_ascii("service.register"));
    assert(vstd::string::is_ascii("dma.allocate"));
    assert(vstd::string::is_ascii("memory.phys.map"));
    assert("memory.phys.translate".spec_bytes().len() != "fs.read.user.documents".spec_bytes().len());
    assert("memory.phys.translate".spec_bytes().len() != "fs.write.user.documents".spec_bytes().len());
    assert("memory.phys.translate".spec_bytes().len() != "fs.read.user.downloads".spec_bytes().len());
    assert("memory.phys.translate".spec_bytes().len() != "fs.write.user.downloads".spec_bytes().len());
    assert("memory.phys.translate".spec_bytes().len() != "fs.read.user.desktop".spec_bytes().len());
    assert("memory.phys.translate".spec_bytes()[0] != "fs.write.user.desktop".spec_bytes()[0]);
    assert("memory.phys.translate".spec_bytes()[0] != "fs.read.user.pictures".spec_bytes()[0]);
    assert("memory.phys.translate".spec_bytes().len() != "fs.write.user.pictures".spec_bytes().len());
    assert("memory.phys.translate".spec_bytes().len() != "fs.read.user.music".spec_bytes().len());
    assert("memory.phys.translate".spec_bytes().len() != "fs.write.user.music".spec_bytes().len());
    assert("memory.phys.translate".spec_bytes().len() != "fs.read.user.videos".spec_bytes().len());
    assert("memory.phys.translate".spec_bytes().len() != "fs.write.user.videos".spec_bytes().len());
    assert("memory.phys.translate".spec_bytes().len() != "fs.read.user".spec_bytes().len());
    assert("memory.phys.translate".spec_bytes().len() != "fs.write.user".spec_bytes().len());
    assert("memory.phys.translate".spec_bytes().len() != "fs.read.tmp".spec_bytes().len());
    assert("memory.phys.translate".spec_bytes().len() != "fs.write.tmp".spec_bytes().len());
    assert("memory.phys.translate".spec_bytes().len() != "fs.read.removable".spec_bytes().len());
    assert("memory.phys.translate".spec_bytes().len() != "fs.write.removable".spec_bytes().len());
    assert("memory.phys.translate".spec_bytes().len() != "fs.read.all".spec_bytes().len());
    assert("memory.phys.translate".spec_bytes().len() != "fs.write.all".spec_bytes().len());
    assert("memory.phys.translate".spec_bytes().len() != "ipc.client".spec_bytes().len());
    assert("memory.phys.translate".spec_bytes().len() != "ipc.server".spec_bytes().len());
    assert("memory.phys.translate".spec_bytes().len() != "process.spawn".spec_bytes().len());
    assert("memory.phys.translate".spec_bytes().len() != "process.inspect".spec_bytes().len());
    assert("memory.phys.translate".spec_bytes().len() != "process.kill".spec_bytes().len());
    assert("memory.phys.translate".spec_bytes().len() != "display.read".spec_bytes().len());
    assert("memory.phys.translate".spec_bytes().len() != "usb.access".spec_bytes().len());
    assert("memory.phys.translate".spec_bytes().len() != "serial.access".spec_bytes().len());
    assert("memory.phys.translate".spec_bytes().len() != "system.time.read".spec_bytes().len());
    assert("memory.phys.translate".spec_bytes().len() != "system.random.read".spec_bytes().len());
    assert("memory.phys.translate".spec_bytes().len() != "service.register".spec_bytes().len());
    assert("memory.phys.translate".spec_bytes().len() != "dma.allocate".spec_bytes().len());
    assert("memory.phys.translate".spec_bytes().len() != "memory.phys.map".spec_bytes().len());
}

#[verifier::rlimit(80)]
proof fn lemma_builtin_name_34()
    ensures
        builtin_named("kernel.debug".spec_bytes()) == Some(Capability::KernelDebug),
{
    reveal(builtin_named);
    broadcast use vstd::string::is_ascii_spec_bytes;
    reveal_strlit("kernel.debug");
    reveal_strlit("fs.read.user.documents");
    reveal_strlit("fs.write.user.documents");
    reveal_strlit("fs.read.user.downloads");
    reveal_strlit("fs.write.user.downloads");
    reveal_strlit("fs.read.user.desktop");
    reveal_strlit("fs.write.user.desktop");
    reveal_strlit("fs.read.user.pictures");
    reveal_strlit("fs.write.user.pictures");
    reveal_strlit("fs.read.user.music");
    reveal_strlit("fs.write.user.music");
    reveal_strlit("fs.read.user.videos");
    reveal_strlit("fs.write.user.videos");
    reveal_strlit("fs.read.user");
    reveal_strlit("fs.write.user");
    reveal_strlit("fs.read.tmp");
    reveal_strlit("fs.write.tmp");
    reveal_strlit("fs.read.removable");
    reveal_strlit("fs.write.removable");
    reveal_strlit("fs.read.all");
    reveal_strlit("fs.write.all");
    reveal_strlit("ipc.client");
    reveal_strlit("ipc.server");
    reveal_strlit("process.spawn");
    reveal_strlit("process.inspect");
    reveal_strlit("process.kill");
    reveal_strlit("display.read");
    reveal_strlit("usb.access");
    reveal_strlit("serial.access");
    reveal_strlit("system.time.read");
    reveal_strlit("system.random.read");
    reveal_strlit("service.register");
    reveal_strlit("dma.allocate");
    reveal_strlit("memory.phys.map");
    reveal_strlit("memory.phys.translate");
    assert(vstd::string::is_ascii("kernel.debug"));
    assert(vstd::string::is_ascii("fs.read.user.documents"));
    assert(vstd::string::is_ascii("fs.write.user.documents"));
    assert(vstd::string::is_ascii("fs.read.user.downloads"));
    assert(vstd::string::is_ascii("fs.write.user.downloads"));
    assert(vstd::string::is_ascii("fs.read.user.desktop"));
    assert(vstd::string::is_ascii("fs.write.user.desktop"));
    assert(vstd::string::is_ascii("fs.read.user.pictures"));
    assert(vstd::string::is_ascii("fs.write.user.pictures"));
    assert(vstd::string::is_ascii("fs.read.user.music"));
    assert(vstd::string::is_ascii("fs.write.user.music"));
    assert(vstd::string::is_ascii("fs.read.user.videos"));
    assert(vstd::string::is_ascii("fs.write.user.videos"));
    assert(vstd::string::is_ascii("fs.read.user"));
    assert(vstd::string::is_ascii("fs.write.user"));
    assert(vstd::string::is_ascii("fs.read.tmp"));
    assert(vstd::string::is_ascii("fs.write.tmp"));
    assert(vstd::string::is_ascii("fs.read.removable"));
    assert(vstd::string::is_ascii("fs.write.removable"));
    assert(vstd::string::is_ascii("fs.read.all"));
    assert(vstd::string::is_ascii("fs.write.all"));
    assert(vstd::string::is_ascii("ipc.client"));
    assert(vstd::string::is_ascii("ipc.server"));
    assert(vstd::string::is_ascii("process.spawn"));
    assert(vstd::string::is_ascii("process.inspect"));
    assert(vstd::string::is_ascii("process.kill"));
    assert(vstd::string::is_ascii("display.read"));
    assert(vstd::string::is_ascii("usb.access"));
    assert(vstd::string::is_ascii("serial.access"));
    assert(vstd::string::is_ascii("system.time.read"));
    assert(vstd::string::is_ascii("system.random.read"));
    assert(vstd::string::is_ascii("service.register"));
    assert(vstd::string::is_ascii("dma.allocate"));
    assert(vstd::string::is_ascii("memory.phys.map"));
    assert(vstd::string::is_ascii("memory.phys.translate"));
    assert("kernel.debug".spec_bytes().len() != "fs.read.user.documents".spec_bytes().len());
    assert("kernel.debug".spec_bytes().len() != "fs.write.user.documents".spec_bytes().len());
    assert("kernel.debug".spec_bytes().len() != "fs.read.user.downloads".spec_bytes().len());
    assert("kernel.debug".spec_bytes().len() != "fs.write.user.downloads".spec_bytes().len());
    assert("kernel.debug".spec_bytes().len() != "fs.read.user.desktop".spec_bytes().len());
    assert("kernel.debug".spec_bytes().len() != "fs.write.user.desktop".spec_bytes().len());
    assert("kernel.debug".spec_bytes().len() != "fs.read.user.pictures".spec_bytes().len());
    assert("kernel.debug".spec_bytes().len() != "fs.write.user.pictures".spec_bytes().len());
    assert("kernel.debug".spec_bytes().len() != "fs.read.user.music".spec_bytes().len());
    assert("kernel.debug".spec_bytes().len() != "fs.write.user.music".spec_bytes().len());
    assert("kernel.debug".spec_bytes().len() != "fs.read.user.videos".spec_bytes().len());
    assert("kernel.debug".spec_bytes().len() != "fs.write.user.videos".spec_bytes().len());
    assert("kernel.debug".spec_bytes()[0] != "fs.read.user".spec_bytes()[0]);
    assert("kernel.debug".spec_bytes().len() != "fs.write.user".spec_bytes().len());
    assert("kernel.debug".spec_bytes().len() != "fs.read.tmp".spec_bytes().len());
    assert("kernel.debug".spec_bytes()[0] != "fs.write.tmp".spec_bytes()[0]);
    assert("kernel.debug".spec_bytes().len() != "fs.read.removable".spec_bytes().len());
    assert("kernel.debug".spec_bytes().len() != "fs.write.removable".spec_bytes().len());
    assert("kernel.debug".spec_bytes().len() != "fs.read.all".spec_bytes().len());
    assert("kernel.debug".spec_bytes()[0] != "fs.write.all".spec_bytes()[0]);
    assert("kernel.debug".spec_bytes().len() != "ipc.client".spec_bytes().len());
    assert("kernel.debug".spec_bytes().len() != "ipc.server".spec_bytes().len());
    assert("kernel.debug".spec_bytes().len() != "process.spawn".spec_bytes().len());
    assert("kernel.debug".spec_bytes().len() != "process.inspect".spec_bytes().len());
    assert("kernel.debug".spec_bytes()[0] != "process.kill".spec_bytes()[0]);
    assert("kernel.debug".spec_bytes()[0] != "display.read".spec_bytes()[0]);
    assert("kernel.debug".spec_bytes().len() != "usb.access".spec_bytes().len());
    assert("kernel.debug".spec_bytes().len() != "serial.access".spec_bytes().len());
    assert("kernel.debug".spec_bytes().len() != "system.time.read".spec_bytes().len());
    assert("kernel.debug".spec_bytes().len() != "system.random.read".spec_bytes().len());
    assert("kernel.debug".spec_bytes().len() != "service.register".spec_bytes().len());
    assert("kernel.debug".spec_bytes()[0] != "dma.allocate".spec_bytes()[0]);
    assert("kernel.debug".spec_bytes().len() != "memory.phys.map".spec_bytes().len());
    assert("kernel.debug".spec_bytes().len() != "memory.phys.translate".spec_bytes().len());
}

#[verifier::rlimit(80)]
proof fn lemma_builtin_name_35()
    ensures
        builtin_named("device.gpu".spec_bytes()) == Some(Capability::DeviceGpu),
{
    reveal(builtin_named);
    broadcast use vstd::string::is_ascii_spec_bytes;
    reveal_strlit("device.gpu");
    reveal_strlit("fs.read.user.documents");
    reveal_strlit("fs.write.user.documents");
    reveal_strlit("fs.read.user.downloads");
    reveal_strlit("fs.write.user.downloads");
    reveal_strlit("fs.read.user.desktop");
    reveal_strlit("fs.write.user.desktop");
    reveal_strlit("fs.read.user.pictures");
    reveal_strlit("fs.write.user.pictures");
    reveal_strlit("fs.read.user.music");
    reveal_strlit("fs.write.user.music");
    reveal_strlit("fs.read.user.videos");
    reveal_strlit("fs.write.user.videos");
    reveal_strlit("fs.read.user");
    reveal_strlit("fs.write.user");
    reveal_strlit("fs.read.tmp");
    reveal_strlit("fs.write.tmp");
    reveal_strlit("fs.read.removable");
    reveal_strlit("fs.write.removable");
    reveal_strlit("fs.read.all");
    reveal_strlit("fs.write.all");
    reveal_strlit("ipc.client");
    reveal_strlit("ipc.server");
    reveal_strlit("process.spawn");
    reveal_strlit("process.inspect");
    reveal_strlit("process.kill");
    reveal_strlit("display.read");
    reveal_strlit("usb.access");
    reveal_strlit("serial.access");
    reveal_strlit("system.time.read");
    reveal_strlit("system.random.read");
    reveal_strlit("service.register");
    reveal_strlit("dma.allocate");
    reveal_strlit("memory.phys.map");
    reveal_strlit("memory.phys.translate");
    reveal_strlit("kernel.debug");
    assert(vstd::string::is_ascii("device.gpu"));
    assert(vstd::string::is_ascii("fs.read.user.documents"));
    assert(vstd::string::is_ascii("fs.write.user.documents"));
    assert(vstd::string::is_ascii("fs.read.user.downloads"));
    assert(vstd::string::is_ascii("fs.write.user.downloads"));
    assert(vstd::string::is_ascii("fs.read.user.desktop"));
    assert(vstd::string::is_ascii("fs.write.user.desktop"));
    assert(vstd::string::is_ascii("fs.read.user.pictures"));
    assert(vstd::string::is_ascii("fs.write.user.pictures"));
    assert(vstd::string::is_ascii("fs.read.user.music"));
    assert(vstd::string::is_ascii("fs.write.user.music"));
    assert(vstd::string::is_ascii("fs.read.user.videos"));
    assert(vstd::string::is_ascii("fs.write.user.videos"));
    assert(vstd::string::is_ascii("fs.read.user"));
    assert(vstd::string::is_ascii("fs.write.user"));
    assert(vstd::string::is_ascii("fs.read.tmp"));
    assert(vstd::string::is_ascii("fs.write.tmp"));
    assert(vstd::string::is_ascii("fs.read.removable"));
    assert(vstd::string::is_ascii("fs.write.removable"));
    assert(vstd::string::is_ascii("fs.read.all"));
    assert(vstd::string::is_ascii("fs.write.all"));
    assert(vstd::string::is_ascii("ipc.client"));
    assert(vstd::string::is_ascii("ipc.server"));
    assert(vstd::string::is_ascii("process.spawn"));
    assert(vstd::string::is_ascii("process.inspect"));
    assert(vstd::string::is_ascii("process.kill"));
    assert(vstd::string::is_ascii("display.read"));
    assert(vstd::string::is_ascii("usb.access"));
    assert(vstd::string::is_ascii("serial.access"));
    assert(vstd::string::is_ascii("system.time.read"));
    assert(vstd::string::is_ascii("system.random.read"));
    assert(vstd::string::is_ascii("service.register"));
    assert(vstd::string::is_ascii("dma.allocate"));
    assert(vstd::string::is_ascii("memory.phys.map"));
    assert(vstd::string::is_ascii("memory.phys.translate"));
    assert(vstd::string::is_ascii("kernel.debug"));
    assert("device.gpu".spec_bytes().len() != "fs.read.user.documents".spec_bytes().len());
    assert("device.gpu".spec_bytes().len() != "fs.write.user.documents".spec_bytes().len());
    assert("device.gpu".spec_bytes().len() != "fs.read.user.downloads".spec_bytes().len());
    assert("device.gpu".spec_bytes().len() != "fs.write.user.downloads".spec_bytes().len());
    assert("device.gpu".spec_bytes().len() != "fs.read.user.desktop".spec_bytes().len());
    assert("device.gpu".spec_bytes().len() != "fs.write.user.desktop".spec_bytes().len());
    assert("device.gpu".spec_bytes().len() != "fs.read.user.pictures".spec_bytes().len());
    assert("device.gpu".spec_bytes().len() != "fs.write.user.pictures".spec_bytes().len());
    assert("device.gpu".spec_bytes().len() != "fs.read.user.music".spec_bytes().len());
    assert("device.gpu".spec_bytes().len() != "fs.write.user.music".spec_bytes().len());
    assert("device.gpu".spec_bytes().len() != "fs.read.user.videos".spec_bytes().len());
    assert("device.gpu".spec_bytes().len() != "fs.write.user.videos".spec_bytes().len());
    assert("device.gpu".spec_bytes().len() != "fs.read.user".spec_bytes().len());
    assert("device.gpu".spec_bytes().len() != "fs.write.user".spec_bytes().len());
    assert("device.gpu".spec_bytes().len() != "fs.read.tmp".spec_bytes().len());
    assert("device.gpu".spec_bytes().len() != "fs.write.tmp".spec_bytes().len());
    assert("device.gpu".spec_bytes().len() != "fs.read.removable".spec_bytes().len());
    assert("device.gpu".spec_bytes().len() != "fs.write.removable".spec_bytes().len());
    assert("device.gpu".spec_bytes().len() != "fs.read.all".spec_bytes().len());
    assert("device.gpu".spec_bytes().len() != "fs.write.all".spec_bytes().len());
    assert("device.gpu".spec_bytes()[0] != "ipc.client".spec_bytes()[0]);
    assert("device.gpu".spec_bytes()[0] != "ipc.server".spec_bytes()[0]);
    assert("device.gpu".spec_bytes().len() != "process.spawn".spec_bytes().len());
    assert("device.gpu".spec_bytes().len() != "process.inspect".spec_bytes().len());
    assert("device.gpu".spec_bytes().len() != "process.kill".spec_bytes().len());
    assert("device.gpu".spec_bytes().len() != "display.read".spec_bytes().len());
    assert("device.gpu".spec_bytes()[0] != "usb.access".spec_bytes()[0]);
    assert("device.gpu".spec_bytes().len() != "serial.access".spec_bytes().len());
    assert("device.gpu".spec_bytes().len() != "system.time.read".spec_bytes().len());
    assert("device.gpu".spec_bytes().len() != "system.random.read".spec_bytes().len());
    assert("device.gpu".spec_bytes().len() != "service.register".spec_bytes().len());
    assert("device.gpu".spec_bytes().len() != "dma.allocate".spec_bytes().len());
    assert("device.gpu".spec_bytes().len() != "memory.phys.map".spec_bytes().len());
    assert("device.gpu".spec_bytes().len() != "memory.phys.translate".spec_bytes().len());
    assert("device.gpu".spec_bytes().len() != "kernel.debug".spec_bytes().len());
}

#[verifier::rlimit(80)]
proof fn lemma_builtin_name_36()
    ensures
        builtin_named("device.input".spec_bytes()) == Some(Capability::DeviceInput),
{
    reveal(builtin_named);
    broadcast use vstd::string::is_ascii_spec_bytes;
    reveal_strlit("device.input");
    reveal_strlit("fs.read.user.documents");
    reveal_strlit("fs.write.user.documents");
    reveal_strlit("fs.read.user.downloads");
    reveal_strlit("fs.write.user.downloads");
    reveal_strlit("fs.read.user.desktop");
    reveal_strlit("fs.write.user.desktop");
    reveal_strlit("fs.read.user.pictures");
    reveal_strlit("fs.write.user.pictures");
    reveal_strlit("fs.read.user.music");
    reveal_strlit("fs.write.user.music");
    reveal_strlit("fs.read.user.videos");
    reveal_strlit("fs.write.user.videos");
    reveal_strlit("fs.read.user");
    reveal_strlit("fs.write.user");
    reveal_strlit("fs.read.tmp");
    reveal_strlit("fs.write.tmp");
    reveal_strlit("fs.read.removable");
    reveal_strlit("fs.write.removable");
    reveal_strlit("fs.read.all");
    reveal_strlit("fs.write.all");
    reveal_strlit("ipc.client");
    reveal_strlit("ipc.server");
    reveal_strlit("process.spawn");
    reveal_strlit("process.inspect");
    reveal_strlit("process.kill");
    reveal_strlit("display.read");
    reveal_strlit("usb.access");
    reveal_strlit("serial.access");
    reveal_strlit("system.time.read");
    reveal_strlit("system.random.read");
    reveal_strlit("service.register");
    reveal_strlit("dma.allocate");
    reveal_strlit("memory.phys.map");
    reveal_strlit("memory.phys.translate");
    reveal_strlit("kernel.debug");
    reveal_strlit("device.gpu");
    assert(vstd::string::is_ascii("device.input"));
    assert(vstd::string::is_ascii("fs.read.user.documents"));
    assert(vstd::string::is_ascii("fs.write.user.documents"));
    assert(vstd::string::is_ascii("fs.read.user.downloads"));
    assert(vstd::string::is_ascii("fs.write.user.downloads"));
    assert(vstd::string::is_ascii("fs.read.user.desktop"));
    assert(vstd::string::is_ascii("fs.write.user.desktop"));
    assert(vstd::string::is_ascii("fs.read.user.pictures"));
    assert(vstd::string::is_ascii("fs.write.user.pictures"));
    assert(vstd::string::is_ascii("fs.read.user.music"));
    assert(vstd::string::is_ascii("fs.write.user.music"));
    assert(vstd::string::is_ascii("fs.read.user.videos"));
    assert(vstd::string::is_ascii("fs.write.user.videos"));
    assert(vstd::string::is_ascii("fs.read.user"));
    assert(vstd::string::is_ascii("fs.write.user"));
    assert(vstd::string::is_ascii("fs.read.tmp"));
    assert(vstd::string::is_ascii("fs.write.tmp"));
    assert(vstd::string::is_ascii("fs.read.removable"));
    assert(vstd::string::is_ascii("fs.write.removable"));
    assert(vstd::string::is_ascii("fs.read.all"));
    assert(vstd::string::is_ascii("fs.write.all"));
    assert(vstd::string::is_ascii("ipc.client"));
    assert(vstd::string::is_ascii("ipc.server"));
    assert(vstd::string::is_ascii("process.spawn"));
    assert(vstd::string::is_ascii("process.inspect"));
    assert(vstd::string::is_ascii("process.kill"));
    assert(vstd::string::is_ascii("display.read"));
    assert(vstd::string::is_ascii("usb.access"));
    assert(vstd::string::is_ascii("serial.access"));
    assert(vstd::string::is_ascii("system.time.read"));
    assert(vstd::string::is_ascii("system.random.read"));
    assert(vstd::string::is_ascii("service.register"));
    assert(vstd::string::is_ascii("dma.allocate"));
    assert(vstd::string::is_ascii("memory.phys.map"));
    assert(vstd::string::is_ascii("memory.phys.translate"));
    assert(vstd::string::is_ascii("kernel.debug"));
    assert(vstd::string::is_ascii("device.gpu"));
    assert("device.input".spec_bytes().len() != "fs.read.user.documents".spec_bytes().len());
    assert("device.input".spec_bytes().len() != "fs.write.user.documents".spec_bytes().len());
    assert("device.input".spec_bytes().len() != "fs.read.user.downloads".spec_bytes().len());
    assert("device.input".spec_bytes().len() != "fs.write.user.downloads".spec_bytes().len());
    assert("device.input".spec_bytes().len() != "fs.read.user.desktop".spec_bytes().len());
    assert("device.input".spec_bytes().len() != "fs.write.user.desktop".spec_bytes().len());
    assert("device.input".spec_bytes().len() != "fs.read.user.pictures".spec_bytes().len());
    assert("device.input".spec_bytes().len() != "fs.write.user.pictures".spec_bytes().len());
    assert("device.input".spec_bytes().len() != "fs.read.user.music".spec_bytes().len());
    assert("device.input".spec_bytes().len() != "fs.write.user.music".spec_bytes().len());
    assert("device.input".spec_bytes().len() != "fs.read.user.videos".spec_bytes().len());
    assert("device.input".spec_bytes().len() != "fs.write.user.videos".spec_bytes().len());
    assert("device.input".spec_bytes()[0] != "fs.read.user".spec_bytes()[0]);
    assert("device.input".spec_bytes().len() != "fs.write.user".spec_bytes().len());
    assert("device.input".spec_bytes().len() != "fs.read.tmp".spec_bytes().len());
    assert("device.input".spec_bytes()[0] != "fs.write.tmp".spec_bytes()[0]);
    assert("device.input".spec_bytes().len() != "fs.read.removable".spec_bytes().len());
    assert("device.input".spec_bytes().len() != "fs.write.removable".spec_bytes().len());
    assert("device.input".spec_bytes().len() != "fs.read.all".spec_bytes().len());
    assert("device.input".spec_bytes()[0] != "fs.write.all".spec_bytes()[0]);
    assert("device.input".spec_bytes().len() != "ipc.client".spec_bytes().len());
    assert("device.input".spec_bytes().len() != "ipc.server".spec_bytes().len());
    assert("device.input".spec_bytes().len() != "process.spawn".spec_bytes().len());
    assert("device.input".spec_bytes().len() != "process.inspect".spec_bytes().len());
    assert("device.input".spec_bytes()[0] != "process.kill".spec_bytes()[0]);
    assert("device.input".spec_bytes()[1] != "display.read".spec_bytes()[1]);
    assert("device.input".spec_bytes().len() != "usb.access".spec_bytes().len());
    assert("device.input".spec_bytes().len() != "serial.access".spec_bytes().len());
    assert("device.input".spec_bytes().len() != "system.time.read".spec_bytes().len());
    assert("device.input".spec_bytes().len() != "system.random.read".spec_bytes().len());
    assert("device.input".spec_bytes().len() != "service.register".spec_bytes().len());
    assert("device.input".spec_bytes()[1] != "dma.allocate".spec_bytes()[1]);
    assert("device.input".spec_bytes().len() != "memory.phys.map".spec_bytes().len());
    assert("device.input".spec_bytes().len() != "memory.phys.translate".spec_bytes().len());
    assert("device.input".spec_bytes()[0] != "kernel.debug".spec_bytes()[0]);
    assert("device.input".spec_bytes().len() != "device.gpu".spec_bytes().len());
}

#[verifier::rlimit(80)]
proof fn lemma_builtin_name_37()
    ensures
        builtin_named("device.storage".spec_bytes()) == Some(Capability::DeviceStorage),
{
    reveal(builtin_named);
    broadcast use vstd::string::is_ascii_spec_bytes;
    reveal_strlit("device.storage");
    reveal_strlit("fs.read.user.documents");
    reveal_strlit("fs.write.user.documents");
    reveal_strlit("fs.read.user.downloads");
    reveal_strlit("fs.write.user.downloads");
    reveal_strlit("fs.read.user.desktop");
    reveal_strlit("fs.write.user.desktop");
    reveal_strlit("fs.read.user.pictures");
    reveal_strlit("fs.write.user.pictures");
    reveal_strlit("fs.read.user.music");
    reveal_strlit("fs.write.user.music");
    reveal_strlit("fs.read.user.videos");
    reveal_strlit("fs.write.user.videos");
    reveal_strlit("fs.read.user");
    reveal_strlit("fs.write.user");
    reveal_strlit("fs.read.tmp");
    reveal_strlit("fs.write.tmp");
    reveal_strlit("fs.read.removable");
    reveal_strlit("fs.write.removable");
    reveal_strlit("fs.read.all");
    reveal_strlit("fs.write.all");
    reveal_strlit("ipc.client");
    reveal_strlit("ipc.server");
    reveal_strlit("process.spawn");
    reveal_strlit("process.inspect");
    reveal_strlit("process.kill");
    reveal_strlit("display.read");
    reveal_strlit("usb.access");
    reveal_strlit("serial.access");
    reveal_strlit("system.time.read");
    reveal_strlit("system.random.read");
    reveal_strlit("service.register");
    reveal_strlit("dma.allocate");
    reveal_strlit("memory.phys.map");
    reveal_strlit("memory.phys.translate");
    reveal_strlit("kernel.debug");
    reveal_strlit("device.gpu");
    reveal_strlit("device.input");
    assert(vstd::string::is_ascii("device.storage"));
    assert(vstd::string::is_ascii("fs.read.user.documents"));
    assert(vstd::string::is_ascii("fs.write.user.documents"));
    assert(vstd::string::is_ascii("fs.read.user.downloads"));
    assert(vstd::string::is_ascii("fs.write.user.downloads"));
    assert(vstd::string::is_ascii("fs.read.user.desktop"));
    assert(vstd::string::is_ascii("fs.write.user.desktop"));
    assert(vstd::string::is_ascii("fs.read.user.pictures"));
    assert(vstd::string::is_ascii("fs.write.user.pictures"));
    assert(vstd::string::is_ascii("fs.read.user.music"));
    assert(vstd::string::is_ascii("fs.write.user.music"));
    assert(vstd::string::is_ascii("fs.read.user.videos"));
    assert(vstd::string::is_ascii("fs.write.user.videos"));
    assert(vstd::string::is_ascii("fs.read.user"));
    assert(vstd::string::is_ascii("fs.write.user"));
    assert(vstd::string::is_ascii("fs.read.tmp"));
    assert(vstd::string::is_ascii("fs.write.tmp"));
    assert(vstd::string::is_ascii("fs.read.removable"));
    assert(vstd::string::is_ascii("fs.write.removable"));
    assert(vstd::string::is_ascii("fs.read.all"));
    assert(vstd::string::is_ascii("fs.write.all"));
    assert(vstd::string::is_ascii("ipc.client"));
    assert(vstd::string::is_ascii("ipc.server"));
    assert(vstd::string::is_ascii("process.spawn"));
    assert(vstd::string::is_ascii("process.inspect"));
    assert(vstd::string::is_ascii("process.kill"));
    assert(vstd::string::is_ascii("display.read"));
    assert(vstd::string::is_ascii("usb.access"));
    assert(vstd::string::is_ascii("serial.access"));
    assert(vstd::string::is_ascii("system.time.read"));
    assert(vstd::string::is_ascii("system.random.read"));
    assert(vstd::string::is_ascii("service.register"));
    assert(vstd::string::is_ascii("dma.allocate"));
    assert(vstd::string::is_ascii("memory.phys.map"));
    assert(vstd::string::is_ascii("memory.phys.translate"));
    assert(vstd::string::is_ascii("kernel.debug"));
    assert(vstd::string::is_ascii("device.gpu"));
    assert(vstd::string::is_ascii("device.input"));
    assert("device.storage".spec_bytes().len() != "fs.read.user.documents".spec_bytes().len());
    assert("device.storage".spec_bytes().len() != "fs.write.user.documents".spec_bytes().len());
    assert("device.storage".spec_bytes().len() != "fs.read.user.downloads".spec_bytes().len());
    assert("device.storage".spec_bytes().len() != "fs.write.user.downloads".spec_bytes().len());
    assert("device.storage".spec_bytes().len() != "fs.read.user.desktop".spec_bytes().len());
    assert("device.storage".spec_bytes().len() != "fs.write.user.desktop".spec_bytes().len());
    assert("device.storage".spec_bytes().len() != "fs.read.user.pictures".spec_bytes().len());
    assert("device.storage".spec_bytes().len() != "fs.write.user.pictures".spec_bytes().len());
    assert("device.storage".spec_bytes().len() != "fs.read.user.music".spec_bytes().len());
    assert("device.storage".spec_bytes().len() != "fs.write.user.music".spec_bytes().len());
    assert("device.storage".spec_bytes().len() != "fs.read.user.videos".spec_bytes().len());
    assert("device.storage".spec_bytes().len() != "fs.write.user.videos".spec_bytes().len());
    assert("device.storage".spec_bytes().len() != "fs.read.user".spec_bytes().len());
    assert("device.storage".spec_bytes().len() != "fs.write.user".spec_bytes().len());
    assert("device.storage".spec_bytes().len() != "fs.read.tmp".spec_bytes().len());
    assert("device.storage".spec_bytes().len() != "fs.write.tmp".spec_bytes().len());
    assert("device.storage".spec_bytes().len() != "fs.read.removable".spec_bytes().len());
    assert("device.storage".spec_bytes().len() != "fs.write.removable".spec_bytes().len());
    assert("device.storage".spec_bytes().len() != "fs.read.all".spec_bytes().len());
    assert("device.storage".spec_bytes().len() != "fs.write.all".spec_bytes().len());
    assert("device.storage".spec_bytes().len() != "ipc.client".spec_bytes().len());
    assert("device.storage".spec_bytes().len() != "ipc.server".spec_bytes().len());
    assert("device.storage".spec_bytes().len() != "process.spawn".spec_bytes().len());
    assert("device.storage".spec_bytes().len() != "process.inspect".spec_bytes().len());
    assert("device.storage".spec_bytes().len() != "process.kill".spec_bytes().len());
    assert("device.storage".spec_bytes().len() != "display.read".spec_bytes().len());
    assert("device.storage".spec_bytes().len() != "usb.access".spec_bytes().len());
    assert("device.storage".spec_bytes().len() != "serial.access".spec_bytes().len());
    assert("device.storage".spec_bytes().len() != "system.time.read".spec_bytes().len());
    assert("device.storage".spec_bytes().len() != "system.random.read".spec_bytes().len());
    assert("device.storage".spec_bytes().len() != "service.register".spec_bytes().len());
    assert("device.storage".spec_bytes().len() != "dma.allocate".spec_bytes().len());
    assert("device.storage".spec_bytes().len() != "memory.phys.map".spec_bytes().len());
    assert("device.storage".spec_bytes().len() != "memory.phys.translate".spec_bytes().len());
    assert("device.storage".spec_bytes().len() != "kernel.debug".spec_bytes().len());
    assert("device.storage".spec_bytes().len() != "device.gpu".spec_bytes().len());
    assert("device.storage".spec_bytes().len() != "device.input".spec_bytes().len());
}

#[verifier::rlimit(80)]
proof fn lemma_builtin_name_38()
    ensures
        builtin_named("device.net".spec_bytes()) == Some(Capability::DeviceNet),
{
    reveal(builtin_named);
    broadcast use vstd::string::is_ascii_spec_bytes;
    reveal_strlit("device.net");
    reveal_strlit("fs.read.user.documents");
    reveal_strlit("fs.write.user.documents");
    reveal_strlit("fs.read.user.downloads");
    reveal_strlit("fs.write.user.downloads");
    reveal_strlit("fs.read.user.desktop");
    reveal_strlit("fs.write.user.desktop");
    reveal_strlit("fs.read.user.pictures");
    reveal_strlit("fs.write.user.pictures");
    reveal_strlit("fs.read.user.music");
    reveal_strlit("fs.write.user.music");
    reveal_strlit("fs.read.user.videos");
    reveal_strlit("fs.write.user.videos");
    reveal_strlit("fs.read.user");
    reveal_strlit("fs.write.user");
    reveal_strlit("fs.read.tmp");
    reveal_strlit("fs.write.tmp");
    reveal_strlit("fs.read.removable");
    reveal_strlit("fs.write.removable");
    reveal_strlit("fs.read.all");
    reveal_strlit("fs.write.all");
    reveal_strlit("ipc.client");
    reveal_strlit("ipc.server");
    reveal_strlit("process.spawn");
    reveal_strlit("process.inspect");
    reveal_strlit("process.kill");
    reveal_strlit("display.read");
    reveal_strlit("usb.access");
    reveal_strlit("serial.access");
    reveal_strlit("system.time.read");
    reveal_strlit("system.random.read");
    reveal_strlit("service.register");
    reveal_strlit("dma.allocate");
    reveal_strlit("memory.phys.map");
    reveal_strlit("memory.phys.translate");
    reveal_strlit("kernel.debug");
    reveal_strlit("device.gpu");
    reveal_strlit("device.input");
    reveal_strlit("device.storage");
    assert(vstd::string::is_ascii("device.net"));
    assert(vstd::string::is_ascii("fs.read.user.documents"));
    assert(vstd::string::is_ascii("fs.write.user.documents"));
    assert(vstd::string::is_ascii("fs.read.user.downloads"));
    assert(vstd::string::is_ascii("fs.write.user.downloads"));
    assert(vstd::string::is_ascii("fs.read.user.desktop"));
    assert(vstd::string::is_ascii("fs.write.user.desktop"));
    assert(vstd::string::is_ascii("fs.read.user.pictures"));
    assert(vstd::string::is_ascii("fs.write.user.pictures"));
    assert(vstd::string::is_ascii("fs.read.user.music"));
    assert(vstd::string::is_ascii("fs.write.user.music"));
    assert(vstd::string::is_ascii("fs.read.user.videos"));
    assert(vstd::string::is_ascii("fs.write.user.videos"));
    assert(vstd::string::is_ascii("fs.read.user"));
    assert(vstd::string::is_ascii("fs.write.user"));
    assert(vstd::string::is_ascii("fs.read.tmp"));
    assert(vstd::string::is_ascii("fs.write.tmp"));
    assert(vstd::string::is_ascii("fs.read.removable"));
    assert(vstd::string::is_ascii("fs.write.removable"));
    assert(vstd::string::is_ascii("fs.read.all"));
    assert(vstd::string::is_ascii("fs.write.all"));
    assert(vstd::string::is_ascii("ipc.client"));
    assert(vstd::string::is_ascii("ipc.server"));
    assert(vstd::string::is_ascii("process.spawn"));
    assert(vstd::string::is_ascii("process.inspect"));
    assert(vstd::string::is_ascii("process.kill"));
    assert(vstd::string::is_ascii("display.read"));
    assert(vstd::string::is_ascii("usb.access"));
    assert(vstd::string::is_ascii("serial.access"));
    assert(vstd::string::is_ascii("system.time.read"));
    assert(vstd::string::is_ascii("system.random.read"));
    assert(vstd::string::is_ascii("service.register"));
    assert(vstd::string::is_ascii("dma.allocate"));
    assert(vstd::string::is_ascii("memory.phys.map"));
    assert(vstd::string::is_ascii("memory.phys.translate"));
    assert(vstd::string::is_ascii("kernel.debug"));
    assert(vstd::string::is_ascii("device.gpu"));
    assert(vstd::string::is_ascii("device.input"));
    assert(vstd::string::is_ascii("device.storage"));
    assert("device.net".spec_bytes().len() != "fs.read.user.documents".spec_bytes().len());
    assert("device.net".spec_bytes().len() != "fs.write.user.documents".spec_bytes().len());
    assert("device.net".spec_bytes().len() != "fs.read.user.downloads".spec_bytes().len());
    assert("device.net".spec_bytes().len() != "fs.write.user.downloads".spec_bytes().len());
    assert("device.net".spec_bytes().len() != "fs.read.user.desktop".spec_bytes().len());
    assert("device.net".spec_bytes().len() != "fs.write.user.desktop".spec_bytes().len());
    assert("device.net".spec_bytes().len() != "fs.read.user.pictures".spec_bytes().len());
    assert("device.net".spec_bytes().len() != "fs.write.user.pictures".spec_bytes().len());
    assert("device.net".spec_bytes().len() != "fs.read.user.music".spec_bytes().len());
    assert("device.net".spec_bytes().len() != "fs.write.user.music".spec_bytes().len());
    assert("device.net".spec_bytes().len() != "fs.read.user.videos".spec_bytes().len());
    assert("device.net".spec_bytes().len() != "fs.write.user.videos".spec_bytes().len());
    assert("device.net".spec_bytes().len() != "fs.read.user".spec_bytes().len());
    assert("device.net".spec_bytes().len() != "fs.write.user".spec_bytes().len());
    assert("device.net".spec_bytes().len() != "fs.read.tmp".spec_bytes().len());
    assert("device.net".spec_bytes().len() != "fs.write.tmp".spec_bytes().len());
    assert("device.net".spec_bytes().len() != "fs.read.removable".spec_bytes().len());
    assert("device.net".spec_bytes().len() != "fs.write.removable".spec_bytes().len());
    assert("device.net".spec_bytes().len() != "fs.read.all".spec_bytes().len());
    assert("device.net".spec_bytes().len() != "fs.write.all".spec_bytes().len());
    assert("device.net".spec_bytes()[0] != "ipc.client".spec_bytes()[0]);
    assert("device.net".spec_bytes()[0] != "ipc.server".spec_bytes()[0]);
    assert("device.net".spec_bytes().len() != "process.spawn".spec_bytes().len());
    assert("device.net".spec_bytes().len() != "process.inspect".spec_bytes().len());
    assert("device.net".spec_bytes().len() != "process.kill".spec_bytes().len());
    assert("device.net".spec_bytes().len() != "display.read".spec_bytes().len());
    assert("device.net".spec_bytes()[0] != "usb.access".spec_bytes()[0]);
    assert("device.net".spec_bytes().len() != "serial.access".spec_bytes().len());
    assert("device.net".spec_bytes().len() != "system.time.read".spec_bytes().len());
    assert("device.net".spec_bytes().len() != "system.random.read".spec_bytes().len());
    assert("device.net".spec_bytes().len() != "service.register".spec_bytes().len());
    assert("device.net".spec_bytes().len() != "dma.allocate".spec_bytes().len());
    assert("device.net".spec_bytes().len() != "memory.phys.map".spec_bytes().len());
    assert("device.net".spec_bytes().len() != "memory.phys.translate".spec_bytes().len());
    assert("device.net".spec_bytes().len() != "kernel.debug".spec_bytes().len());
    assert("device.net".spec_bytes()[7] != "device.gpu".spec_bytes()[7]);
    assert("device.net".spec_bytes().len() != "device.input".spec_bytes().len());
    assert("device.net".spec_bytes().len() != "device.storage".spec_bytes().len());
}

#[verifier::rlimit(80)]
proof fn lemma_builtin_name_39()
    ensures
        builtin_named("settings.read".spec_bytes()) == Some(Capability::SettingsRead),
{
    reveal(builtin_named);
    broadcast use vstd::string::is_ascii_spec_bytes;
    reveal_strlit("settings.read");
    reveal_strlit("fs.read.user.documents");
    reveal_strlit("fs.write.user.documents");
    reveal_strlit("fs.read.user.downloads");
    reveal_strlit("fs.write.user.downloads");
    reveal_strlit("fs.read.user.desktop");
    reveal_strlit("fs.write.user.desktop");
    reveal_strlit("fs.read.user.pictures");
    reveal_strlit("fs.write.user.pictures");
    reveal_strlit("fs.read.user.music");
    reveal_strlit("fs.write.user.music");
    reveal_strlit("fs.read.user.videos");
    reveal_strlit("fs.write.user.videos");
    reveal_strlit("fs.read.user");
    reveal_strlit("fs.write.user");
    reveal_strlit("fs.read.tmp");
    reveal_strlit("fs.write.tmp");
    reveal_strlit("fs.read.removable");
    reveal_strlit("fs.write.removable");
    reveal_strlit("fs.read.all");
    reveal_strlit("fs.write.all");
    reveal_strlit("ipc.client");
    reveal_strlit("ipc.server");
    reveal_strlit("process.spawn");
    reveal_strlit("process.inspect");
    reveal_strlit("process.kill");
    reveal_strlit("display.read");
    reveal_strlit("usb.access");
    reveal_strlit("serial.access");
    reveal_strlit("system.time.read");
    reveal_strlit("system.random.read");
    reveal_strlit("service.register");
    reveal_strlit("dma.allocate");
    reveal_strlit("memory.phys.map");
    reveal_strlit("memory.phys.translate");
    reveal_strlit("kernel.debug");
    reveal_strlit("device.gpu");
    reveal_strlit("device.input");
    reveal_strlit("device.storage");
    reveal_strlit("device.net");
    assert(vstd::string::is_ascii("settings.read"));
    assert(vstd::string::is_ascii("fs.read.user.documents"));
    assert(vstd::string::is_ascii("fs.write.user.documents"));
    assert(vstd::string::is_ascii("fs.read.user.downloads"));
    assert(vstd::string::is_ascii("fs.write.user.downloads"));
    assert(vstd::string::is_ascii("fs.read.user.desktop"));
    assert(vstd::string::is_ascii("fs.write.user.desktop"));
    assert(vstd::string::is_ascii("fs.read.user.pictures"));
    assert(vstd::string::is_ascii("fs.write.user.pictures"));
    assert(vstd::string::is_ascii("fs.read.user.music"));
    assert(vstd::string::is_ascii("fs.write.user.music"));
    assert(vstd::string::is_ascii("fs.read.user.videos"));
    assert(vstd::string::is_ascii("fs.write.user.videos"));
    assert(vstd::string::is_ascii("fs.read.user"));
    assert(vstd::string::is_ascii("fs.write.user"));
    assert(vstd::string::is_ascii("fs.read.tmp"));
    assert(vstd::string::is_ascii("fs.write.tmp"));
    assert(vstd::string::is_ascii("fs.read.removable"));
    assert(vstd::string::is_ascii("fs.write.removable"));
    assert(vstd::string::is_ascii("fs.read.all"));
    assert(vstd::string::is_ascii("fs.write.all"));
    assert(vstd::string::is_ascii("ipc.client"));
    assert(vstd::string::is_ascii("ipc.server"));
    assert(vstd::string::is_ascii("process.spawn"));
    assert(vstd::string::is_ascii("process.inspect"));
    assert(vstd::string::is_ascii("process.kill"));
    assert(vstd::string::is_ascii("display.read"));
    assert(vstd::string::is_ascii("usb.access"));
    assert(vstd::string::is_ascii("serial.access"));
    assert(vstd::string::is_ascii("system.time.read"));
    assert(vstd::string::is_ascii("system.random.read"));
    assert(vstd::string::is_ascii("service.register"));
    assert(vstd::string::is_ascii("dma.allocate"));
    assert(vstd::string::is_ascii("memory.phys.map"));
    assert(vstd::string::is_ascii("memory.phys.translate"));
    assert(vstd::string::is_ascii("kernel.debug"));
    assert(vstd::string::is_ascii("device.gpu"));
    assert(vstd::string::is_ascii("device.input"));
    assert(vstd::string::is_ascii("device.storage"));
    assert(vstd::string::is_ascii("device.net"));
    assert("settings.read".spec_bytes().len() != "fs.read.user.documents".spec_bytes().len());
    assert("settings.read".spec_bytes().len() != "fs.write.user.documents".spec_bytes().len());
    assert("settings.read".spec_bytes().len() != "fs.read.user.downloads".spec_bytes().len());
    assert("settings.read".spec_bytes().len() != "fs.write.user.downloads".spec_bytes().len());
    assert("settings.read".spec_bytes().len() != "fs.read.user.desktop".spec_bytes().len());
    assert("settings.read".spec_bytes().len() != "fs.write.user.desktop".spec_bytes().len());
    assert("settings.read".spec_bytes().len() != "fs.read.user.pictures".spec_bytes().len());
    assert("settings.read".spec_bytes().len() != "fs.write.user.pictures".spec_bytes().len());
    assert("settings.read".spec_bytes().len() != "fs.read.user.music".spec_bytes().len());
    assert("settings.read".spec_bytes().len() != "fs.write.user.music".spec_bytes().len());
    assert("settings.read".spec_bytes().len() != "fs.read.user.videos".spec_bytes().len());
    assert("settings.read".spec_bytes().len() != "fs.write.user.videos".spec_bytes().len());
    assert("settings.read".spec_bytes().len() != "fs.read.user".spec_bytes().len());
    assert("settings.read".spec_bytes()[0] != "fs.write.user".spec_bytes()[0]);
    assert("settings.read".spec_bytes().len() != "fs.read.tmp".spec_bytes().len());
    assert("settings.read".spec_bytes().len() != "fs.write.tmp".spec_bytes().len());
    assert("settings.read".spec_bytes().len() != "fs.read.removable".spec_bytes().len());
    assert("settings.read".spec_bytes().len() != "fs.write.removable".spec_bytes().len());
    assert("settings.read".spec_bytes().len() != "fs.read.all".spec_bytes().len());
    assert("settings.read".spec_bytes().len() != "fs.write.all".spec_bytes().len());
    assert("settings.read".spec_bytes().len() != "ipc.client".spec_bytes().len());
    assert("settings.read".spec_bytes().len() != "ipc.server".spec_bytes().len());
    assert("settings.read".spec_bytes()[0] != "process.spawn".spec_bytes()[0]);
    assert("settings.read".spec_bytes().len() != "process.inspect".spec_bytes().len());
    assert("settings.read".spec_bytes().len() != "process.kill".spec_bytes().len());
    assert("settings.read".spec_bytes().len() != "display.read".spec_bytes().len());
    assert("settings.read".spec_bytes().len() != "usb.access".spec_bytes().len());
    assert("settings.read".spec_bytes()[2] != "serial.access".spec_bytes()[2]);
    assert("settings.read".spec_bytes().len() != "system.time.read".spec_bytes().len());
    assert("settings.read".spec_bytes().len() != "system.random.read".spec_bytes().len());
    assert("settings.read".spec_bytes().len() != "service.register".spec_bytes().len());
    assert("settings.read".spec_bytes().len() != "dma.allocate".spec_bytes().len());
    assert("settings.read".spec_bytes().len() != "memory.phys.map".spec_bytes().len());
    assert("settings.read".spec_bytes().len() != "memory.phys.translate".spec_bytes().len());
    assert("settings.read".spec_bytes().len() != "kernel.debug".spec_bytes().len());
    assert("settings.read".spec_bytes().len() != "device.gpu".spec_bytes().len());
    assert("settings.read".spec_bytes().len() != "device.input".spec_bytes().len());
    assert("settings.read".spec_bytes().len() != "device.storage".spec_bytes().len());
    assert("settings.read".spec_bytes().len() != "device.net".spec_bytes().len());
}

#[verifier::rlimit(80)]
proof fn lemma_builtin_name_40()
    ensures
        builtin_named("settings.write".spec_bytes()) == Some(Capability::SettingsWrite),
{
    reveal(builtin_named);
    broadcast use vstd::string::is_ascii_spec_bytes;
    reveal_strlit("settings.write");
    reveal_strlit("fs.read.user.documents");
    reveal_strlit("fs.write.user.documents");
    reveal_strlit("fs.read.user.downloads");
    reveal_strlit("fs.write.user.downloads");
    reveal_strlit("fs.read.user.desktop");
    reveal_strlit("fs.write.user.desktop");
    reveal_strlit("fs.read.user.pictures");
    reveal_strlit("fs.write.user.pictures");
    reveal_strlit("fs.read.user.music");
    reveal_strlit("fs.write.user.music");
    reveal_strlit("fs.read.user.videos");
    reveal_strlit("fs.write.user.videos");
    reveal_strlit("fs.read.user");
    reveal_strlit("fs.write.user");
    reveal_strlit("fs.read.tmp");
    reveal_strlit("fs.write.tmp");
    reveal_strlit("fs.read.removable");
    reveal_strlit("fs.write.removable");
    reveal_strlit("fs.read.all");
    reveal_strlit("fs.write.all");
    reveal_strlit("ipc.client");
    reveal_strlit("ipc.server");
    reveal_strlit("process.spawn");
    reveal_strlit("process.inspect");
    reveal_strlit("process.kill");
    reveal_strlit("display.read");
    reveal_strlit("usb.access");
    reveal_strlit("serial.access");
    reveal_strlit("system.time.read");
    reveal_strlit("system.random.read");
    reveal_strlit("service.register");
    reveal_strlit("dma.allocate");
    reveal_strlit("memory.phys.map");
    reveal_strlit("memory.phys.translate");
    reveal_strlit("kernel.debug");
    reveal_strlit("device.gpu");
    reveal_strlit("device.input");
    reveal_strlit("device.storage");
    reveal_strlit("device.net");
    reveal_strlit("settings.read");
    assert(vstd::string::is_ascii("settings.write"));
    assert(vstd::string::is_ascii("fs.read.user.documents"));
    assert(vstd::string::is_ascii("fs.write.user.documents"));
    assert(vstd::string::is_ascii("fs.read.user.downloads"));
    assert(vstd::string::is_ascii("fs.write.user.downloads"));
    assert(vstd::string::is_ascii("fs.read.user.desktop"));
    assert(vstd::string::is_ascii("fs.write.user.desktop"));
    assert(vstd::string::is_ascii("fs.read.user.pictures"));
    assert(vstd::string::is_ascii("fs.write.user.pictures"));
    assert(vstd::string::is_ascii("fs.read.user.music"));
    assert(vstd::string::is_ascii("fs.write.user.music"));
    assert(vstd::string::is_ascii("fs.read.user.videos"));
    assert(vstd::string::is_ascii("fs.write.user.videos"));
    assert(vstd::string::is_ascii("fs.read.user"));
    assert(vstd::string::is_ascii("fs.write.user"));
    assert(vstd::string::is_ascii("fs.read.tmp"));
    assert(vstd::string::is_ascii("fs.write.tmp"));
    assert(vstd::string::is_ascii("fs.read.removable"));
    assert(vstd::string::is_ascii("fs.write.removable"));
    assert(vstd::string::is_ascii("fs.read.all"));
    assert(vstd::string::is_ascii("fs.write.all"));
    assert(vstd::string::is_ascii("ipc.client"));
    assert(vstd::string::is_ascii("ipc.server"));
    assert(vstd::string::is_ascii("process.spawn"));
    assert(vstd::string::is_ascii("process.inspect"));
    assert(vstd::string::is_ascii("process.kill"));
    assert(vstd::string::is_ascii("display.read"));
    assert(vstd::string::is_ascii("usb.access"));
    assert(vstd::string::is_ascii("serial.access"));
    assert(vstd::string::is_ascii("system.time.read"));
    assert(vstd::string::is_ascii("system.random.read"));
    assert(vstd::string::is_ascii("service.register"));
    assert(vstd::string::is_ascii("dma.allocate"));
    assert(vstd::string::is_ascii("memory.phys.map"));
    assert(vstd::string::is_ascii("memory.phys.translate"));
    assert(vstd::string::is_ascii("kernel.debug"));
    assert(vstd::string::is_ascii("device.gpu"));
    assert(vstd::string::is_ascii("device.input"));
    assert(vstd::string::is_ascii("device.storage"));
    assert(vstd::string::is_ascii("device.net"));
    assert(vstd::string::is_ascii("settings.read"));
    assert("settings.write".spec_bytes().len() != "fs.read.user.documents".spec_bytes().len());
    assert("settings.write".spec_bytes().len() != "fs.write.user.documents".spec_bytes().len());
    assert("settings.write".spec_bytes().len() != "fs.read.user.downloads".spec_bytes().len());
    assert("settings.write".spec_bytes().len() != "fs.write.user.downloads".spec_bytes().len());
    assert("settings.write".spec_bytes().len() != "fs.read.user.desktop".spec_bytes().len());
    assert("settings.write".spec_bytes().len() != "fs.write.user.desktop".spec_bytes().len());
    assert("settings.write".spec_bytes().len() != "fs.read.user.pictures".spec_bytes().len());
    assert("settings.write".spec_bytes().len() != "fs.write.user.pictures".spec_bytes().len());
    assert("settings.write".spec_bytes().len() != "fs.read.user.music".spec_bytes().len());
    assert("settings.write".spec_bytes().len() != "fs.write.user.music".spec_bytes().len());
    assert("settings.write".spec_bytes().len() != "fs.read.user.videos".spec_bytes().len());
    assert("settings.write".spec_bytes().len() != "fs.write.user.videos".spec_bytes().len());
    assert("settings.write".spec_bytes().len() != "fs.read.user".spec_bytes().len());
    assert("settings.write".spec_bytes().len() != "fs.write.user".spec_bytes().len());
    assert("settings.write".spec_bytes().len() != "fs.read.tmp".spec_bytes().len());
    assert("settings.write".spec_bytes().len() != "fs.write.tmp".spec_bytes().len());
    assert("settings.write".spec_bytes().len() != "fs.read.removable".spec_bytes().len());
    assert("settings.write".spec_bytes().len() != "fs.write.removable".spec_bytes().len());
    assert("settings.write".spec_bytes().len() != "fs.read.all".spec_bytes().len());
    assert("settings.write".spec_bytes().len() != "fs.write.all".spec_bytes().len());
    assert("settings.write".spec_bytes().len() != "ipc.client".spec_bytes().len());
    assert("settings.write".spec_bytes().len() != "ipc.server".spec_bytes().len());
    assert("settings.write".spec_bytes().len() != "process.spawn".spec_bytes().len());
    assert("settings.write".spec_bytes().len() != "process.inspect".spec_bytes().len());
    assert("settings.write".spec_bytes().len() != "process.kill".spec_bytes().len());
    assert("settings.write".spec_bytes().len() != "display.read".spec_bytes().len());
    assert("settings.write".spec_bytes().len() != "usb.access".spec_bytes().len());
    assert("settings.write".spec_bytes().len() != "serial.access".spec_bytes().len());
    assert("settings.write".spec_bytes().len() != "system.time.read".spec_bytes().len());
    assert("settings.write".spec_bytes().len() != "system.random.read".spec_bytes().len());
    assert("settings.write".spec_bytes().len() != "service.register".spec_bytes().len());
    assert("settings.write".spec_bytes().len() != "dma.allocate".spec_bytes().len());
    assert("settings.write".spec_bytes().len() != "memory.phys.map".spec_bytes().len());
    assert("settings.write".spec_bytes().len() != "memory.phys.translate".spec_bytes().len());
    assert("settings.write".spec_bytes().len() != "kernel.debug".spec_bytes().len());
    assert("settings.write".spec_bytes().len() != "device.gpu".spec_bytes().len());
    assert("settings.write".spec_bytes().len() != "device.input".spec_bytes().len());
    assert("settings.write".spec_bytes()[0] != "device.storage".spec_bytes()[0]);
    assert("settings.write".spec_bytes().len() != "device.net".spec_bytes().len());
    assert("settings.write".spec_bytes().len() != "settings.read".spec_bytes().len());
}

#[verifier::rlimit(80)]
proof fn lemma_builtin_name_41()
    ensures
        builtin_named("capabilities.manage".spec_bytes()) == Some(Capability::CapabilitiesManage),
{
    reveal(builtin_named);
    broadcast use vstd::string::is_ascii_spec_bytes;
    reveal_strlit("capabilities.manage");
    reveal_strlit("fs.read.user.documents");
    reveal_strlit("fs.write.user.documents");
    reveal_strlit("fs.read.user.downloads");
    reveal_strlit("fs.write.user.downloads");
    reveal_strlit("fs.read.user.desktop");
    reveal_strlit("fs.write.user.desktop");
    reveal_strlit("fs.read.user.pictures");
    reveal_strlit("fs.write.user.pictures");
    reveal_strlit("fs.read.user.music");
    reveal_strlit("fs.write.user.music");
    reveal_strlit("fs.read.user.videos");
    reveal_strlit("fs.write.user.videos");
    reveal_strlit("fs.read.user");
    reveal_strlit("fs.write.user");
    reveal_strlit("fs.read.tmp");
    reveal_strlit("fs.write.tmp");
    reveal_strlit("fs.read.removable");
    reveal_strlit("fs.write.removable");
    reveal_strlit("fs.read.all");
    reveal_strlit("fs.write.all");
    reveal_strlit("ipc.client");
    reveal_strlit("ipc.server");
    reveal_strlit("process.spawn");
    reveal_strlit("process.inspect");
    reveal_strlit("process.kill");
    reveal_strlit("display.read");
    reveal_strlit("usb.access");
    reveal_strlit("serial.access");
    reveal_strlit("system.time.read");
    reveal_strlit("system.random.read");
    reveal_strlit("service.register");
    reveal_strlit("dma.allocate");
    reveal_strlit("memory.phys.map");
    reveal_strlit("memory.phys.translate");
    reveal_strlit("kernel.debug");
    reveal_strlit("device.gpu");
    reveal_strlit("device.input");
    reveal_strlit("device.storage");
    reveal_strlit("device.net");
    reveal_strlit("settings.read");
    reveal_strlit("settings.write");
    assert(vstd::string::is_ascii("capabilities.manage"));
    assert(vstd::string::is_ascii("fs.read.user.documents"));
    assert(vstd::string::is_ascii("fs.write.user.documents"));
    assert(vstd::string::is_ascii("fs.read.user.downloads"));
    assert(vstd::string::is_ascii("fs.write.user.downloads"));
    assert(vstd::string::is_ascii("fs.read.user.desktop"));
    assert(vstd::string::is_ascii("fs.write.user.desktop"));
    assert(vstd::string::is_ascii("fs.read.user.pictures"));
    assert(vstd::string::is_ascii("fs.write.user.pictures"));
    assert(vstd::string::is_ascii("fs.read.user.music"));
    assert(vstd::string::is_ascii("fs.write.user.music"));
    assert(vstd::string::is_ascii("fs.read.user.videos"));
    assert(vstd::string::is_ascii("fs.write.user.videos"));
    assert(vstd::string::is_ascii("fs.read.user"));
    assert(vstd::string::is_ascii("fs.write.user"));
    assert(vstd::string::is_ascii("fs.read.tmp"));
    assert(vstd::string::is_ascii("fs.write.tmp"));
    assert(vstd::string::is_ascii("fs.read.removable"));
    assert(vstd::string::is_ascii("fs.write.removable"));
    assert(vstd::string::is_ascii("fs.read.all"));
    assert(vstd::string::is_ascii("fs.write.all"));
    assert(vstd::string::is_ascii("ipc.client"));
    assert(vstd::string::is_ascii("ipc.server"));
    assert(vstd::string::is_ascii("process.spawn"));
    assert(vstd::string::is_ascii("process.inspect"));
    assert(vstd::string::is_ascii("process.kill"));
    assert(vstd::string::is_ascii("display.read"));
    assert(vstd::string::is_ascii("usb.access"));
    assert(vstd::string::is_ascii("serial.access"));
    assert(vstd::string::is_ascii("system.time.read"));
    assert(vstd::string::is_ascii("system.random.read"));
    assert(vstd::string::is_ascii("service.register"));
    assert(vstd::string::is_ascii("dma.allocate"));
    assert(vstd::string::is_ascii("memory.phys.map"));
    assert(vstd::string::is_ascii("memory.phys.translate"));
    assert(vstd::string::is_ascii("kernel.debug"));
    assert(vstd::string::is_ascii("device.gpu"));
    assert(vstd::string::is_ascii("device.input"));
    assert(vstd::string::is_ascii("device.storage"));
    assert(vstd::string::is_ascii("device.net"));
    assert(vstd::string::is_ascii("settings.read"));
    assert(vstd::string::is_ascii("settings.write"));
    assert("capabilities.manage".spec_bytes().len() != "fs.read.user.documents".spec_bytes().len());
    assert("capabilities.manage".spec_bytes().len() != "fs.write.user.documents".spec_bytes().len());
    assert("capabilities.manage".spec_bytes().len() != "fs.read.user.downloads".spec_bytes().len());
    assert("capabilities.manage".spec_bytes().len() != "fs.write.user.downloads".spec_bytes().len());
    assert("capabilities.manage".spec_bytes().len() != "fs.read.user.desktop".spec_bytes().len());
    assert("capabilities.manage".spec_bytes().len() != "fs.write.user.desktop".spec_bytes().len());
    assert("capabilities.manage".spec_bytes().len() != "fs.read.user.pictures".spec_bytes().len());
    assert("capabilities.manage".spec_bytes().len() != "fs.write.user.pictures".spec_bytes().len());
    assert("capabilities.manage".spec_bytes().len() != "fs.read.user.music".spec_bytes().len());
    assert("capabilities.manage".spec_bytes()[0] != "fs.write.user.music".spec_bytes()[0]);
    assert("capabilities.manage".spec_bytes()[0] != "fs.read.user.videos".spec_bytes()[0]);
    assert("capabilities.manage".spec_bytes().len() != "fs.write.user.videos".spec_bytes().len());
    assert("capabilities.manage".spec_bytes().len() != "fs.read.user".spec_bytes().len());
    assert("capabilities.manage".spec_bytes().len() != "fs.write.user".spec_bytes().len());
    assert("capabilities.manage".spec_bytes().len() != "fs.read.tmp".spec_bytes().len());
    assert("capabilities.manage".spec_bytes().len() != "fs.write.tmp".spec_bytes().len());
    assert("capabilities.manage".spec_bytes().len() != "fs.read.removable".spec_bytes().len());
    assert("capabilities.manage".spec_bytes().len() != "fs.write.removable".spec_bytes().len());
    assert("capabilities.manage".spec_bytes().len() != "fs.read.all".spec_bytes().len());
    assert("capabilities.manage".spec_bytes().len() != "fs.write.all".spec_bytes().len());
    assert("capabilities.manage".spec_bytes().len() != "ipc.client".spec_bytes().len());
    assert("capabilities.manage".spec_bytes().len() != "ipc.server".spec_bytes().len());
    assert("capabilities.manage".spec_bytes().len() != "process.spawn".spec_bytes().len());
    assert("capabilities.manage".spec_bytes().len() != "process.inspect".spec_bytes().len());
    assert("capabilities.manage".spec_bytes().len() != "process.kill".spec_bytes().len());
    assert("capabilities.manage".spec_bytes().len() != "display.read".spec_bytes().len());
    assert("capabilities.manage".spec_bytes().len() != "usb.access".spec_bytes().len());
    assert("capabilities.manage".spec_bytes().len() != "serial.access".spec_bytes().len());
    assert("capabilities.manage".spec_bytes().len() != "system.time.read".spec_bytes().len());
    assert("capabilities.manage".spec_bytes().len() != "system.random.read".spec_bytes().len());
    assert("capabilities.manage".spec_bytes().len() != "service.register".spec_bytes().len());
    assert("capabilities.manage".spec_bytes().len() != "dma.allocate".spec_bytes().len());
    assert("capabilities.manage".spec_bytes().len() != "memory.phys.map".spec_bytes().len());
    assert("capabilities.manage".spec_bytes().len() != "memory.phys.translate".spec_bytes().len());
    assert("capabilities.manage".spec_bytes().len() != "kernel.debug".spec_bytes().len());
    assert("capabilities.manage".spec_bytes().len() != "device.gpu".spec_bytes().len());
    assert("capabilities.manage".spec_bytes().len() != "device.input".spec_bytes().len());
    assert("capabilities.manage".spec_bytes().len() != "device.storage".spec_bytes().len());
    assert("capabilities.manage".spec_bytes().len() != "device.net".spec_bytes().len());
    assert("capabilities.manage".spec_bytes().len() != "settings.read".spec_bytes().len());
    assert("capabilities.manage".spec_bytes().len() != "settings.write".spec_bytes().len());
}

#[verifier::rlimit(80)]
proof fn lemma_builtin_name_42()
    ensures
        builtin_named("unsandboxed".spec_bytes()) == Some(Capability::Unsandboxed),
{
    reveal(builtin_named);
    broadcast use vstd::string::is_ascii_spec_bytes;
    reveal_strlit("unsandboxed");
    reveal_strlit("fs.read.user.documents");
    reveal_strlit("fs.write.user.documents");
    reveal_strlit("fs.read.user.downloads");
    reveal_strlit("fs.write.user.downloads");
    reveal_strlit("fs.read.user.desktop");
    reveal_strlit("fs.write.user.desktop");
    reveal_strlit("fs.read.user.pictures");
    reveal_strlit("fs.write.user.pictures");
    reveal_strlit("fs.read.user.music");
    reveal_strlit("fs.write.user.music");
    reveal_strlit("fs.read.user.videos");
    reveal_strlit("fs.write.user.videos");
    reveal_strlit("fs.read.user");
    reveal_strlit("fs.write.user");
    reveal_strlit("fs.read.tmp");
    reveal_strlit("fs.write.tmp");
    reveal_strlit("fs.read.removable");
    reveal_strlit("fs.write.removable");
    reveal_strlit("fs.read.all");
    reveal_strlit("fs.write.all");
    reveal_strlit("ipc.client");
    reveal_strlit("ipc.server");
    reveal_strlit("process.spawn");
    reveal_strlit("process.inspect");
    reveal_strlit("process.kill");
    reveal_strlit("display.read");
    reveal_strlit("usb.access");
    reveal_strlit("serial.access");
    reveal_strlit("system.time.read");
    reveal_strlit("system.random.read");
    reveal_strlit("service.register");
    reveal_strlit("dma.allocate");
    reveal_strlit("memory.phys.map");
    reveal_strlit("memory.phys.translate");
    reveal_strlit("kernel.debug");
    reveal_strlit("device.gpu");
    reveal_strlit("device.input");
    reveal_strlit("device.storage");
    reveal_strlit("device.net");
    reveal_strlit("settings.read");
    reveal_strlit("settings.write");
    reveal_strlit("capabilities.manage");
    assert(vstd::string::is_ascii("unsandboxed"));
    assert(vstd::string::is_ascii("fs.read.user.documents"));
    assert(vstd::string::is_ascii("fs.write.user.documents"));
    assert(vstd::string::is_ascii("fs.read.user.downloads"));
    assert(vstd::string::is_ascii("fs.write.user.downloads"));
    assert(vstd::string::is_ascii("fs.read.user.desktop"));
    assert(vstd::string::is_ascii("fs.write.user.desktop"));
    assert(vstd::string::is_ascii("fs.read.user.pictures"));
    assert(vstd::string::is_ascii("fs.write.user.pictures"));
    assert(vstd::string::is_ascii("fs.read.user.music"));
    assert(vstd::string::is_ascii("fs.write.user.music"));
    assert(vstd::string::is_ascii("fs.read.user.videos"));
    assert(vstd::string::is_ascii("fs.write.user.videos"));
    assert(vstd::string::is_ascii("fs.read.user"));
    assert(vstd::string::is_ascii("fs.write.user"));
    assert(vstd::string::is_ascii("fs.read.tmp"));
    assert(vstd::string::is_ascii("fs.write.tmp"));
    assert(vstd::string::is_ascii("fs.read.removable"));
    assert(vstd::string::is_ascii("fs.write.removable"));
    assert(vstd::string::is_ascii("fs.read.all"));
    assert(vstd::string::is_ascii("fs.write.all"));
    assert(vstd::string::is_ascii("ipc.client"));
    assert(vstd::string::is_ascii("ipc.server"));
    assert(vstd::string::is_ascii("process.spawn"));
    assert(vstd::string::is_ascii("process.inspect"));
    assert(vstd::string::is_ascii("process.kill"));
    assert(vstd::string::is_ascii("display.read"));
    assert(vstd::string::is_ascii("usb.access"));
    assert(vstd::string::is_ascii("serial.access"));
    assert(vstd::string::is_ascii("system.time.read"));
    assert(vstd::string::is_ascii("system.random.read"));
    assert(vstd::string::is_ascii("service.register"));
    assert(vstd::string::is_ascii("dma.allocate"));
    assert(vstd::string::is_ascii("memory.phys.map"));
    assert(vstd::string::is_ascii("memory.phys.translate"));
    assert(vstd::string::is_ascii("kernel.debug"));
    assert(vstd::string::is_ascii("device.gpu"));
    assert(vstd::string::is_ascii("device.input"));
    assert(vstd::string::is_ascii("device.storage"));
    assert(vstd::string::is_ascii("device.net"));
    assert(vstd::string::is_ascii("settings.read"));
    assert(vstd::string::is_ascii("settings.write"));
    assert(vstd::string::is_ascii("capabilities.manage"));
    assert("unsandboxed".spec_bytes().len() != "fs.read.user.documents".spec_bytes().len());
    assert("unsandboxed".spec_bytes().len() != "fs.write.user.documents".spec_bytes().len());
    assert("unsandboxed".spec_bytes().len() != "fs.read.user.downloads".spec_bytes().len());
    assert("unsandboxed".spec_bytes().len() != "fs.write.user.downloads".spec_bytes().len());
    assert("unsandboxed".spec_bytes().len() != "fs.read.user.desktop".spec_bytes().len());
    assert("unsandboxed".spec_bytes().len() != "fs.write.user.desktop".spec_bytes().len());
    assert("unsandboxed".spec_bytes().len() != "fs.read.user.pictures".spec_bytes().len());
    assert("unsandboxed".spec_bytes().len() != "fs.write.user.pictures".spec_bytes().len());
    assert("unsandboxed".spec_bytes().len() != "fs.read.user.music".spec_bytes().len());
    assert("unsandboxed".spec_bytes().len() != "fs.write.user.music".spec_bytes().len());
    assert("unsandboxed".spec_bytes().len() != "fs.read.user.videos".spec_bytes().len());
    assert("unsandboxed".spec_bytes().len() != "fs.write.user.videos".spec_bytes().len());
    assert("unsandboxed".spec_bytes().len() != "fs.read.user".spec_bytes().len());
    assert("unsandboxed".spec_bytes().len() != "fs.write.user".spec_bytes().len());
    assert("unsandboxed".spec_bytes()[0] != "fs.read.tmp".spec_bytes()[0]);
    assert("unsandboxed".spec_bytes().len() != "fs.write.tmp".spec_bytes().len());
    assert("unsandboxed".spec_bytes().len() != "fs.read.removable".spec_bytes().len());
    assert("unsandboxed".spec_bytes().len() != "fs.write.removable".spec_bytes().len());
    assert("unsandboxed".spec_bytes()[0] != "fs.read.all".spec_bytes()[0]);
    assert("unsandboxed".spec_bytes().len() != "fs.write.all".spec_bytes().len());
    assert("unsandboxed".spec_bytes().len() != "ipc.client".spec_bytes().len());
    assert("unsandboxed".spec_bytes().len() != "ipc.server".spec_bytes().len());
    assert("unsandboxed".spec_bytes().len() != "process.spawn".spec_bytes().len());
    assert("unsandboxed".spec_bytes().len() != "process.inspect".spec_bytes().len());
    assert("unsandboxed".spec_bytes().len() != "process.kill".spec_bytes().len());
    assert("unsandboxed".spec_bytes().len() != "display.read".spec_bytes().len());
    assert("unsandboxed".spec_bytes().len() != "usb.access".spec_bytes().len());
    assert("unsandboxed".spec_bytes().len() != "serial.access".spec_bytes().len());
    assert("unsandboxed".spec_bytes().len() != "system.time.read".spec_bytes().len());
    assert("unsandboxed".spec_bytes().len() != "system.random.read".spec_bytes().len());
    assert("unsandboxed".spec_bytes().len() != "service.register".spec_bytes().len());
    assert("unsandboxed".spec_bytes().len() != "dma.allocate".spec_bytes().len());
    assert("unsandboxed".spec_bytes().len() != "memory.phys.map".spec_bytes().len());
    assert("unsandboxed".spec_bytes().len() != "memory.phys.translate".spec_bytes().len());
    assert("unsandboxed".spec_bytes().len() != "kernel.debug".spec_bytes().len());
    assert("unsandboxed".spec_bytes().len() != "device.gpu".spec_bytes().len());
    assert("unsandboxed".spec_bytes().len() != "device.input".spec_bytes().len());
    assert("unsandboxed".spec_bytes().len() != "device.storage".spec_bytes().len());
    assert("unsandboxed".spec_bytes().len() != "device.net".spec_bytes().len());
    assert("unsandboxed".spec_bytes().len() != "settings.read".spec_bytes().len());
    assert("unsandboxed".spec_bytes().len() != "settings.write".spec_bytes().len());
    assert("unsandboxed".spec_bytes().len() != "capabilities.manage".spec_bytes().len());
}

#[verifier::rlimit(80)]
proof fn lemma_builtin_name_43()
    ensures
        builtin_named("developer.profile".spec_bytes()) == Some(Capability::DeveloperProfile),
{
    reveal(builtin_named);
    broadcast use vstd::string::is_ascii_spec_bytes;
    reveal_strlit("developer.profile");
    reveal_strlit("fs.read.user.documents");
    reveal_strlit("fs.write.user.documents");
    reveal_strlit("fs.read.user.downloads");
    reveal_strlit("fs.write.user.downloads");
    reveal_strlit("fs.read.user.desktop");
    reveal_strlit("fs.write.user.desktop");
    reveal_strlit("fs.read.user.pictures");
    reveal_strlit("fs.write.user.pictures");
    reveal_strlit("fs.read.user.music");
    reveal_strlit("fs.write.user.music");
    reveal_strlit("fs.read.user.videos");
    reveal_strlit("fs.write.user.videos");
    reveal_strlit("fs.read.user");
    reveal_strlit("fs.write.user");
    reveal_strlit("fs.read.tmp");
    reveal_strlit("fs.write.tmp");
    reveal_strlit("fs.read.removable");
    reveal_strlit("fs.write.removable");
    reveal_strlit("fs.read.all");
    reveal_strlit("fs.write.all");
    reveal_strlit("ipc.client");
    reveal_strlit("ipc.server");
    reveal_strlit("process.spawn");
    reveal_strlit("process.inspect");
    reveal_strlit("process.kill");
    reveal_strlit("display.read");
    reveal_strlit("usb.access");
    reveal_strlit("serial.access");
    reveal_strlit("system.time.read");
    reveal_strlit("system.random.read");
    reveal_strlit("service.register");
    reveal_strlit("dma.allocate");
    reveal_strlit("memory.phys.map");
    reveal_strlit("memory.phys.translate");
    reveal_strlit("kernel.debug");
    reveal_strlit("device.gpu");
    reveal_strlit("device.input");
    reveal_strlit("device.storage");
    reveal_strlit("device.net");
    reveal_strlit("settings.read");
    reveal_strlit("settings.write");
    reveal_strlit("capabilities.manage");
    reveal_strlit("unsandboxed");
    assert(vstd::string::is_ascii("developer.profile"));
    assert(vstd::string::is_ascii("fs.read.user.documents"));
    assert(vstd::string::is_ascii("fs.write.user.documents"));
    assert(vstd::string::is_ascii("fs.read.user.downloads"));
    assert(vstd::string::is_ascii("fs.write.user.downloads"));
    assert(vstd::string::is_ascii("fs.read.user.desktop"));
    assert(vstd::string::is_ascii("fs.write.user.desktop"));
    assert(vstd::string::is_ascii("fs.read.user.pictures"));
    assert(vstd::string::is_ascii("fs.write.user.pictures"));
    assert(vstd::string::is_ascii("fs.read.user.music"));
    assert(vstd::string::is_ascii("fs.write.user.music"));
    assert(vstd::string::is_ascii("fs.read.user.videos"));
    assert(vstd::string::is_ascii("fs.write.user.videos"));
    assert(vstd::string::is_ascii("fs.read.user"));
    assert(vstd::string::is_ascii("fs.write.user"));
    assert(vstd::string::is_ascii("fs.read.tmp"));
    assert(vstd::string::is_ascii("fs.write.tmp"));
    assert(vstd::string::is_ascii("fs.read.removable"));
    assert(vstd::string::is_ascii("fs.write.removable"));
    assert(vstd::string::is_ascii("fs.read.all"));
    assert(vstd::string::is_ascii("fs.write.all"));
    assert(vstd::string::is_ascii("ipc.client"));
    assert(vstd::string::is_ascii("ipc.server"));
    assert(vstd::string::is_ascii("process.spawn"));
    assert(vstd::string::is_ascii("process.inspect"));
    assert(vstd::string::is_ascii("process.kill"));
    assert(vstd::string::is_ascii("display.read"));
    assert(vstd::string::is_ascii("usb.access"));
    assert(vstd::string::is_ascii("serial.access"));
    assert(vstd::string::is_ascii("system.time.read"));
    assert(vstd::string::is_ascii("system.random.read"));
    assert(vstd::string::is_ascii("service.register"));
    assert(vstd::string::is_ascii("dma.allocate"));
    assert(vstd::string::is_ascii("memory.phys.map"));
    assert(vstd::string::is_ascii("memory.phys.translate"));
    assert(vstd::string::is_ascii("kernel.debug"));
    assert(vstd::string::is_ascii("device.gpu"));
    assert(vstd::string::is_ascii("device.input"));
    assert(vstd::string::is_ascii("device.storage"));
    assert(vstd::string::is_ascii("device.net"));
    assert(vstd::string::is_ascii("settings.read"));
    assert(vstd::string::is_ascii("settings.write"));
    assert(vstd::string::is_ascii("capabilities.manage"));
    assert(vstd::string::is_ascii("unsandboxed"));
    assert("developer.profile".spec_bytes().len() != "fs.read.user.documents".spec_bytes().len());
    assert("developer.profile".spec_bytes().len() != "fs.write.user.documents".spec_bytes().len());
    assert("developer.profile".spec_bytes().len() != "fs.read.user.downloads".spec_bytes().len());
    assert("developer.profile".spec_bytes().len() != "fs.write.user.downloads".spec_bytes().len());
    assert("developer.profile".spec_bytes().len() != "fs.read.user.desktop".spec_bytes().len());
    assert("developer.profile".spec_bytes().len() != "fs.write.user.desktop".spec_bytes().len());
    assert("developer.profile".spec_bytes().len() != "fs.read.user.pictures".spec_bytes().len());
    assert("developer.profile".spec_bytes().len() != "fs.write.user.pictures".spec_bytes().len());
    assert("developer.profile".spec_bytes().len() != "fs.read.user.music".spec_bytes().len());
    assert("developer.profile".spec_bytes().len() != "fs.write.user.music".spec_bytes().len());
    assert("developer.profile".spec_bytes().len() != "fs.read.user.videos".spec_bytes().len());
    assert("developer.profile".spec_bytes().len() != "fs.write.user.videos".spec_bytes().len());
    assert("developer.profile".spec_bytes().len() != "fs.read.user".spec_bytes().len());
    assert("developer.profile".spec_bytes().len() != "fs.write.user".spec_bytes().len());
    assert("developer.profile".spec_bytes().len() != "fs.read.tmp".spec_bytes().len());
    assert("developer.profile".spec_bytes().len() != "fs.write.tmp".spec_bytes().len());
    assert("developer.profile".spec_bytes()[0] != "fs.read.removable".spec_bytes()[0]);
    assert("developer.profile".spec_bytes().len() != "fs.write.removable".spec_bytes().len());
    assert("developer.profile".spec_bytes().len() != "fs.read.all".spec_bytes().len());
    assert("developer.profile".spec_bytes().len() != "fs.write.all".spec_bytes().len());
    assert("developer.profile".spec_bytes().len() != "ipc.client".spec_bytes().len());
    assert("developer.profile".spec_bytes().len() != "ipc.server".spec_bytes().len());
    assert("developer.profile".spec_bytes().len() != "process.spawn".spec_bytes().len());
    assert("developer.profile".spec_bytes().len() != "process.inspect".spec_bytes().len());
    assert("developer.profile".spec_bytes().len() != "process.kill".spec_bytes().len());
    assert("developer.profile".spec_bytes().len() != "display.read".spec_bytes().len());
    assert("developer.profile".spec_bytes().len() != "usb.access".spec_bytes().len());
    assert("developer.profile".spec_bytes().len() != "serial.access".spec_bytes().len());
    assert("developer.profile".spec_bytes().len() != "system.time.read".spec_bytes().len());
    assert("developer.profile".spec_bytes().len() != "system.random.read".spec_bytes().len());
    assert("developer.profile".spec_bytes().len() != "service.register".spec_bytes().len());
    assert("developer.profile".spec_bytes().len() != "dma.allocate".spec_bytes().len());
    assert("developer.profile".spec_bytes().len() != "memory.phys.map".spec_bytes().len());
    assert("developer.profile".spec_bytes().len() != "memory.phys.translate".spec_bytes().len());
    assert("developer.profile".spec_bytes().len() != "kernel.debug".spec_bytes().len());
    assert("developer.profile".spec_bytes().len() != "device.gpu".spec_bytes().len());
    assert("developer.profile".spec_bytes().len() != "device.input".spec_bytes().len());
    assert("developer.profile".spec_bytes().len() != "device.storage".spec_bytes().len());
    assert("developer.profile".spec_bytes().len() != "device.net".spec_bytes().len());
    assert("developer.profile".spec_bytes().len() != "settings.read".spec_bytes().len());
    assert("developer.profile".spec_bytes().len() != "settings.write".spec_bytes().len());
    assert("developer.profile".spec_bytes().len() != "capabilities.manage".spec_bytes().len());
    assert("developer.profile".spec_bytes().len() != "unsandboxed".spec_bytes().len());
}

#[verifier::rlimit(80)]
proof fn lemma_builtin_name_44()
    ensures
        builtin_named("signature.db.read".spec_bytes()) == Some(Capability::SignatureRead),
{
    reveal(builtin_named);
    broadcast use vstd::string::is_ascii_spec_bytes;
    reveal_strlit("signature.db.read");
    reveal_strlit("fs.read.user.documents");
    reveal_strlit("fs.write.user.documents");
    reveal_strlit("fs.read.user.downloads");
    reveal_strlit("fs.write.user.downloads");
    reveal_strlit("fs.read.user.desktop");
    reveal_strlit("fs.write.user.desktop");
    reveal_strlit("fs.read.user.pictures");
    reveal_strlit("fs.write.user.pictures");
    reveal_strlit("fs.read.user.music");
    reveal_strlit("fs.write.user.music");
    reveal_strlit("fs.read.user.videos");
    reveal_strlit("fs.write.user.videos");
    reveal_strlit("fs.read.user");
    reveal_strlit("fs.write.user");
    reveal_strlit("fs.read.tmp");
    reveal_strlit("fs.write.tmp");
    reveal_strlit("fs.read.removable");
    reveal_strlit("fs.write.removable");
    reveal_strlit("fs.read.all");
    reveal_strlit("fs.write.all");
    reveal_strlit("ipc.client");
    reveal_strlit("ipc.server");
    reveal_strlit("process.spawn");
    reveal_strlit("process.inspect");
    reveal_strlit("process.kill");
    reveal_strlit("display.read");
    reveal_strlit("usb.access");
    reveal_strlit("serial.access");
    reveal_strlit("system.time.read");
    reveal_strlit("system.random.read");
    reveal_strlit("service.register");
    reveal_strlit("dma.allocate");
    reveal_strlit("memory.phys.map");
    reveal_strlit("memory.phys.translate");
    reveal_strlit("kernel.debug");
    reveal_strlit("device.gpu");
    reveal_strlit("device.input");
    reveal_strlit("device.storage");
    reveal_strlit("device.net");
    reveal_strlit("settings.read");
    reveal_strlit("settings.write");
    reveal_strlit("capabilities.manage");
    reveal_strlit("unsandboxed");
    reveal_strlit("developer.profile");
    assert(vstd::string::is_ascii("signature.db.read"));
    assert(vstd::string::is_ascii("fs.read.user.documents"));
    assert(vstd::string::is_ascii("fs.write.user.documents"));
    assert(vstd::string::is_ascii("fs.read.user.downloads"));
    assert(vstd::string::is_ascii("fs.write.user.downloads"));
    assert(vstd::string::is_ascii("fs.read.user.desktop"));
    assert(vstd::string::is_ascii("fs.write.user.desktop"));
    assert(vstd::string::is_ascii("fs.read.user.pictures"));
    assert(vstd::string::is_ascii("fs.write.user.pictures"));
    assert(vstd::string::is_ascii("fs.read.user.music"));
    assert(vstd::string::is_ascii("fs.write.user.music"));
    assert(vstd::string::is_ascii("fs.read.user.videos"));
    assert(vstd::string::is_ascii("fs.write.user.videos"));
    assert(vstd::string::is_ascii("fs.read.user"));
    assert(vstd::string::is_ascii("fs.write.user"));
    assert(vstd::string::is_ascii("fs.read.tmp"));
    assert(vstd::string::is_ascii("fs.write.tmp"));
    assert(vstd::string::is_ascii("fs.read.removable"));
    assert(vstd::string::is_ascii("fs.write.removable"));
    assert(vstd::string::is_ascii("fs.read.all"));
    assert(vstd::string::is_ascii("fs.write.all"));
    assert(vstd::string::is_ascii("ipc.client"));
    assert(vstd::string::is_ascii("ipc.server"));
    assert(vstd::string::is_ascii("process.spawn"));
    assert(vstd::string::is_ascii("process.inspect"));
    assert(vstd::string::is_ascii("process.kill"));
    assert(vstd::string::is_ascii("display.read"));
    assert(vstd::string::is_ascii("usb.access"));
    assert(vstd::string::is_ascii("serial.access"));
    assert(vstd::string::is_ascii("system.time.read"));
    assert(vstd::string::is_ascii("system.random.read"));
    assert(vstd::string::is_ascii("service.register"));
    assert(vstd::string::is_ascii("dma.allocate"));
    assert(vstd::string::is_ascii("memory.phys.map"));
    assert(vstd::string::is_ascii("memory.phys.translate"));
    assert(vstd::string::is_ascii("kernel.debug"));
    assert(vstd::string::is_ascii("device.gpu"));
    assert(vstd::string::is_ascii("device.input"));
    assert(vstd::string::is_ascii("device.storage"));
    assert(vstd::string::is_ascii("device.net"));
    assert(vstd::string::is_ascii("settings.read"));
    assert(vstd::string::is_ascii("settings.write"));
    assert(vstd::string::is_ascii("capabilities.manage"));
    assert(vstd::string::is_ascii("unsandboxed"));
    assert(vstd::string::is_ascii("developer.profile"));
    assert("signature.db.read".spec_bytes().len() != "fs.read.user.documents".spec_bytes().len());
    assert("signature.db.read".spec_bytes().len() != "fs.write.user.documents".spec_bytes().len());
    assert("signature.db.read".spec_bytes().len() != "fs.read.user.downloads".spec_bytes().len());
    assert("signature.db.read".spec_bytes().len() != "fs.write.user.downloads".spec_bytes().len());
    assert("signature.db.read".spec_bytes().len() != "fs.read.user.desktop".spec_bytes().len());
    assert("signature.db.read".spec_bytes().len() != "fs.write.user.desktop".spec_bytes().len());
    assert("signature.db.read".spec_bytes().len() != "fs.read.user.pictures".spec_bytes().len());
    assert("signature.db.read".spec_bytes().len() != "fs.write.user.pictures".spec_bytes().len());
    assert("signature.db.read".spec_bytes().len() != "fs.read.user.music".spec_bytes().len());
    assert("signature.db.read".spec_bytes().len() != "fs.write.user.music".spec_bytes().len());
    assert("signature.db.read".spec_bytes().len() != "fs.read.user.videos".spec_bytes().len());
    assert("signature.db.read".spec_bytes().len() != "fs.write.user.videos".spec_bytes().len());
    assert("signature.db.read".spec_bytes().len() != "fs.read.user".spec_bytes().len());
    assert("signature.db.read".spec_bytes().len() != "fs.write.user".spec_bytes().len());
    assert("signature.db.read".spec_bytes().len() != "fs.read.tmp".spec_bytes().len());
    assert("signature.db.read".spec_bytes().len() != "fs.write.tmp".spec_bytes().len());
    assert("signature.db.read".spec_bytes()[0] != "fs.read.removable".spec_bytes()[0]);
    assert("signature.db.read".spec_bytes().len() != "fs.write.removable".spec_bytes().len());
    assert("signature.db.read".spec_bytes().len() != "fs.read.all".spec_bytes().len());
    assert("signature.db.read".spec_bytes().len() != "fs.write.all".spec_bytes().len());
    assert("signature.db.read".spec_bytes().len() != "ipc.client".spec_bytes().len());
    assert("signature.db.read".spec_bytes().len() != "ipc.server".spec_bytes().len());
    assert("signature.db.read".spec_bytes().len() != "process.spawn".spec_bytes().len());
    assert("signature.db.read".spec_bytes().len() != "process.inspect".spec_bytes().len());
    assert("signature.db.read".spec_bytes().len() != "process.kill".spec_bytes().len());
    assert("signature.db.read".spec_bytes().len() != "display.read".spec_bytes().len());
    assert("signature.db.read".spec_bytes().len() != "usb.access".spec_bytes().len());
    assert("signature.db.read".spec_bytes().len() != "serial.access".spec_bytes().len());
    assert("signature.db.read".spec_bytes().len() != "system.time.read".spec_bytes().len());
    assert("signature.db.read".spec_bytes().len() != "system.random.read".spec_bytes().len());
    assert("signature.db.read".spec_bytes().len() != "service.register".spec_bytes().len());
    assert("signature.db.read".spec_bytes().len() != "dma.allocate".spec_bytes().len());
    assert("signature.db.read".spec_bytes().len() != "memory.phys.map".spec_bytes().len());
    assert("signature.db.read".spec_bytes().len() != "memory.phys.translate".spec_bytes().len());
    assert("signature.db.read".spec_bytes().len() != "kernel.debug".spec_bytes().len());
    assert("signature.db.read".spec_bytes().len() != "device.gpu".spec_bytes().len());
    assert("signature.db.read".spec_bytes().len() != "device.input".spec_bytes().len());
    assert("signature.db.read".spec_bytes().len() != "device.storage".spec_bytes().len());
    assert("signature.db.read".spec_bytes().len() != "device.net".spec_bytes().len());
    assert("signature.db.read".spec_bytes().len() != "settings.read".spec_bytes().len());
    assert("signature.db.read".spec_bytes().len() != "settings.write".spec_bytes().len());
    assert("signature.db.read".spec_bytes().len() != "capabilities.manage".spec_bytes().len());
    assert("signature.db.read".spec_bytes().len() != "unsandboxed".spec_bytes().len());
    assert("signature.db.read".spec_bytes()[0] != "developer.profile".spec_bytes()[0]);
}

#[verifier::rlimit(80)]
proof fn lemma_builtin_name_45()
    ensures
        builtin_named("signature.db.write".spec_bytes()) == Some(Capability::SignatureWrite),
{
    reveal(builtin_named);
    broadcast use vstd::string::is_ascii_spec_bytes;
    reveal_strlit("signature.db.write");
    reveal_strlit("fs.read.user.documents");
    reveal_strlit("fs.write.user.documents");
    reveal_strlit("fs.read.user.downloads");
    reveal_strlit("fs.write.user.downloads");
    reveal_strlit("fs.read.user.desktop");
    reveal_strlit("fs.write.user.desktop");
    reveal_strlit("fs.read.user.pictures");
    reveal_strlit("fs.write.user.pictures");
    reveal_strlit("fs.read.user.music");
    reveal_strlit("fs.write.user.music");
    reveal_strlit("fs.read.user.videos");
    reveal_strlit("fs.write.user.videos");
    reveal_strlit("fs.read.user");
    reveal_strlit("fs.write.user");
    reveal_strlit("fs.read.tmp");
    reveal_strlit("fs.write.tmp");
    reveal_strlit("fs.read.removable");
    reveal_strlit("fs.write.removable");
    reveal_strlit("fs.read.all");
    reveal_strlit("fs.write.all");
    reveal_strlit("ipc.client");
    reveal_strlit("ipc.server");
    reveal_strlit("process.spawn");
    reveal_strlit("process.inspect");
    reveal_strlit("process.kill");
    reveal_strlit("display.read");
    reveal_strlit("usb.access");
    reveal_strlit("serial.access");
    reveal_strlit("system.time.read");
    reveal_strlit("system.random.read");
    reveal_strlit("service.register");
    reveal_strlit("dma.allocate");
    reveal_strlit("memory.phys.map");
    reveal_strlit("memory.phys.translate");
    reveal_strlit("kernel.debug");
    reveal_strlit("device.gpu");
    reveal_strlit("device.input");
    reveal_strlit("device.storage");
    reveal_strlit("device.net");
    reveal_strlit("settings.read");
    reveal_strlit("settings.write");
    reveal_strlit("capabilities.manage");
    reveal_strlit("unsandboxed");
    reveal_strlit("developer.profile");
    reveal_strlit("signature.db.read");
    assert(vstd::string::is_ascii("signature.db.write"));
    assert(vstd::string::is_ascii("fs.read.user.documents"));
    assert(vstd::string::is_ascii("fs.write.user.documents"));
    assert(vstd::string::is_ascii("fs.read.user.downloads"));
    assert(vstd::string::is_ascii("fs.write.user.downloads"));
    assert(vstd::string::is_ascii("fs.read.user.desktop"));
    assert(vstd::string::is_ascii("fs.write.user.desktop"));
    assert(vstd::string::is_ascii("fs.read.user.pictures"));
    assert(vstd::string::is_ascii("fs.write.user.pictures"));
    assert(vstd::string::is_ascii("fs.read.user.music"));
    assert(vstd::string::is_ascii("fs.write.user.music"));
    assert(vstd::string::is_ascii("fs.read.user.videos"));
    assert(vstd::string::is_ascii("fs.write.user.videos"));
    assert(vstd::string::is_ascii("fs.read.user"));
    assert(vstd::string::is_ascii("fs.write.user"));
    assert(vstd::string::is_ascii("fs.read.tmp"));
    assert(vstd::string::is_ascii("fs.write.tmp"));
    assert(vstd::string::is_ascii("fs.read.removable"));
    assert(vstd::string::is_ascii("fs.write.removable"));
    assert(vstd::string::is_ascii("fs.read.all"));
    assert(vstd::string::is_ascii("fs.write.all"));
    assert(vstd::string::is_ascii("ipc.client"));
    assert(vstd::string::is_ascii("ipc.server"));
    assert(vstd::string::is_ascii("process.spawn"));
    assert(vstd::string::is_ascii("process.inspect"));
    assert(vstd::string::is_ascii("process.kill"));
    assert(vstd::string::is_ascii("display.read"));
    assert(vstd::string::is_ascii("usb.access"));
    assert(vstd::string::is_ascii("serial.access"));
    assert(vstd::string::is_ascii("system.time.read"));
    assert(vstd::string::is_ascii("system.random.read"));
    assert(vstd::string::is_ascii("service.register"));
    assert(vstd::string::is_ascii("dma.allocate"));
    assert(vstd::string::is_ascii("memory.phys.map"));
    assert(vstd::string::is_ascii("memory.phys.translate"));
    assert(vstd::string::is_ascii("kernel.debug"));
    assert(vstd::string::is_ascii("device.gpu"));
    assert(vstd::string::is_ascii("device.input"));
    assert(vstd::string::is_ascii("device.storage"));
    assert(vstd::string::is_ascii("device.net"));
    assert(vstd::string::is_ascii("settings.read"));
    assert(vstd::string::is_ascii("settings.write"));
    assert(vstd::string::is_ascii("capabilities.manage"));
    assert(vstd::string::is_ascii("unsandboxed"));
    assert(vstd::string::is_ascii("developer.profile"));
    assert(vstd::string::is_ascii("signature.db.read"));
    assert("signature.db.write".spec_bytes().len() != "fs.read.user.documents".spec_bytes().len());
    assert("signature.db.write".spec_bytes().len() != "fs.write.user.documents".spec_bytes().len());
    assert("signature.db.write".spec_bytes().len() != "fs.read.user.downloads".spec_bytes().len());
    assert("signature.db.write".spec_bytes().len() != "fs.write.user.downloads".spec_bytes().len());
    assert("signature.db.write".spec_bytes().len() != "fs.read.user.desktop".spec_bytes().len());
    assert("signature.db.write".spec_bytes().len() != "fs.write.user.desktop".spec_bytes().len());
    assert("signature.db.write".spec_bytes().len() != "fs.read.user.pictures".spec_bytes().len());
    assert("signature.db.write".spec_bytes().len() != "fs.write.user.pictures".spec_bytes().len());
    assert("signature.db.write".spec_bytes()[0] != "fs.read.user.music".spec_bytes()[0]);
    assert("signature.db.write".spec_bytes().len() != "fs.write.user.music".spec_bytes().len());
    assert("signature.db.write".spec_bytes().len() != "fs.read.user.videos".spec_bytes().len());
    assert("signature.db.write".spec_bytes().len() != "fs.write.user.videos".spec_bytes().len());
    assert("signature.db.write".spec_bytes().len() != "fs.read.user".spec_bytes().len());
    assert("signature.db.write".spec_bytes().len() != "fs.write.user".spec_bytes().len());
    assert("signature.db.write".spec_bytes().len() != "fs.read.tmp".spec_bytes().len());
    assert("signature.db.write".spec_bytes().len() != "fs.write.tmp".spec_bytes().len());
    assert("signature.db.write".spec_bytes().len() != "fs.read.removable".spec_bytes().len());
    assert("signature.db.write".spec_bytes()[0] != "fs.write.removable".spec_bytes()[0]);
    assert("signature.db.write".spec_bytes().len() != "fs.read.all".spec_bytes().len());
    assert("signature.db.write".spec_bytes().len() != "fs.write.all".spec_bytes().len());
    assert("signature.db.write".spec_bytes().len() != "ipc.client".spec_bytes().len());
    assert("signature.db.write".spec_bytes().len() != "ipc.server".spec_bytes().len());
    assert("signature.db.write".spec_bytes().len() != "process.spawn".spec_bytes().len());
    assert("signature.db.write".spec_bytes().len() != "process.inspect".spec_bytes().len());
    assert("signature.db.write".spec_bytes().len() != "process.kill".spec_bytes().len());
    assert("signature.db.write".spec_bytes().len() != "display.read".spec_bytes().len());
    assert("signature.db.write".spec_bytes().len() != "usb.access".spec_bytes().len());
    assert("signature.db.write".spec_bytes().len() != "serial.access".spec_bytes().len());
    assert("signature.db.write".spec_bytes().len() != "system.time.read".spec_bytes().len());
    assert("signature.db.write".spec_bytes()[1] != "system.random.read".spec_bytes()[1]);
    assert("signature.db.write".spec_bytes().len() != "service.register".spec_bytes().len());
    assert("signature.db.write".spec_bytes().len() != "dma.allocate".spec_bytes().len());
    assert("signature.db.write".spec_bytes().len() != "memory.phys.map".spec_bytes().len());
    assert("signature.db.write".spec_bytes().len() != "memory.phys.translate".spec_bytes().len());
    assert("signature.db.write".spec_bytes().len() != "kernel.debug".spec_bytes().len());
    assert("signature.db.write".spec_bytes().len() != "device.gpu".spec_bytes().len());
    assert("signature.db.write".spec_bytes().len() != "device.input".spec_bytes().len());
    assert("signature.db.write".spec_bytes().len() != "device.storage".spec_bytes().len());
    assert("signature.db.write".spec_bytes().len() != "device.net".spec_bytes().len());
    assert("signature.db.write".spec_bytes().len() != "settings.read".spec_bytes().len());
    assert("signature.db.write".spec_bytes().len() != "settings.write".spec_bytes().len());
    assert("signature.db.write".spec_bytes().len() != "capabilities.manage".spec_bytes().len());
    assert("signature.db.write".spec_bytes().len() != "unsandboxed".spec_bytes().len());
    assert("signature.db.write".spec_bytes().len() != "developer.profile".spec_bytes().len());
    assert("signature.db.write".spec_bytes().len() != "signature.db.read".spec_bytes().len());
}

/// Every built-in capability is found again from its name.
pub proof fn lemma_builtin_name_round_trip(c: Capability)
    requires
        builtin_name(c) is Some,
    ensures
        builtin_named(builtin_name(c)->0) == Some(c),
{
    match c {
        Capability::FsReadUserDocuments => lemma_builtin_name_0(),
        Capability::FsWriteUserDocuments => lemma_builtin_name_1(),
        Capability::FsReadUserDownloads => lemma_builtin_name_2(),
        Capability::FsWriteUserDownloads => lemma_builtin_name_3(),
        Capability::FsReadUserDesktop => lemma_builtin_name_4(),
        Capability::FsWriteUserDesktop => lemma_builtin_name_5(),
        Capability::FsReadUserPictures => lemma_builtin_name_6(),
        Capability::FsWriteUserPictures => lemma_builtin_name_7(),
        Capability::FsReadUserMusic => lemma_builtin_name_8(),
        Capability::FsWriteUserMusic => lemma_builtin_name_9(),
        Capability::FsReadUserVideos => lemma_builtin_name_10(),
        Capability::FsWriteUserVideos => lemma_builtin_name_11(),
        Capability::FsReadUser => lemma_builtin_name_12(),
        Capability::FsWriteUser => lemma_builtin_name_13(),
        Capability::FsReadTmp => lemma_builtin_name_14(),
        Capability::FsWriteTmp => lemma_builtin_name_15(),
        Capability::FsReadRemovable => lemma_builtin_name_16(),
        Capability::FsWriteRemovable => lemma_builtin_name_17(),
        Capability::FsReadAll => lemma_builtin_name_18(),
        Capability::FsWriteAll => lemma_builtin_name_19(),
        Capability::IpcClient => lemma_builtin_name_20(),
        Capability::IpcServer => lemma_builtin_name_21(),
        Capability::ProcessSpawn => lemma_builtin_name_22(),
        Capability::ProcessInspect => lemma_builtin_name_23(),
        Capability::ProcessKill => lemma_builtin_name_24(),
        Capability::DisplayRead => lemma_builtin_name_25(),
        Capability::UsbAccess => lemma_builtin_name_26(),
        Capability::SerialAccess => lemma_builtin_name_27(),
        Capability::SystemTimeRead => lemma_builtin_name_28(),
        Capability::SystemRandomRead => lemma_builtin_name_29(),
        Capability::ServiceRegister => lemma_builtin_name_30(),
        Capability::DmaAllocate => lemma_builtin_name_31(),
        Capability::MemoryPhysMap => lemma_builtin_name_32(),
        Capability::MemoryPhysTranslate => lemma_builtin_name_33(),
        Capability::KernelDebug => lemma_builtin_name_34(),
        Capability::DeviceGpu => lemma_builtin_name_35(),
        Capability::DeviceInput => lemma_builtin_name_36(),
        Capability::DeviceStorage => lemma_builtin_name_37(),
        Capability::DeviceNet => lemma_builtin_name_38(),
        Capability::SettingsRead => lemma_builtin_name_39(),
        Capability::SettingsWrite => lemma_builtin_name_40(),
        Capability::CapabilitiesManage => lemma_builtin_name_41(),
        Capability::Unsandboxed => lemma_builtin_name_42(),
        Capability::DeveloperProfile => lemma_builtin_name_43(),
        Capability::SignatureRead => lemma_builtin_name_44(),
        Capability::SignatureWrite => lemma_builtin_name_45(),
        Capability::Dynamic(_) => {},
    }
}

} // verus!

//! Device-visible memory that virtqueues live in.

use vstd::prelude::*;
use crate::virtio::error::{VirtioError, VirtioResult};

verus! {

/// Memory a device can reach by DMA, seen by the driver as a byte buffer.
pub trait DmaMemory {
    /// Current contents of the buffer.
    spec fn contents(&self) -> Seq<u8>;

    /// Bus address at which the device sees the first byte.
    spec fn bus_address(&self) -> u64;

    fn len(&self) -> (n: usize)
        ensures
            n == self.contents().len();

    fn is_empty(&self) -> (r: bool)
        ensures
            r == (self.contents().len() == 0),
    {
        self.len() == 0
    }

    fn device_address(&self) -> (a: u64)
        ensures
            a == self.bus_address();

    fn bytes(&self) -> (b: &[u8])
        ensures
            b@ == self.contents();

    fn bytes_mut(&mut self) -> (b: &mut [u8])
        ensures
            b@ == old(self).contents(),
            final(self).contents() == final(b)@,
            final(self).bus_address() == old(self).bus_address();

    /// Makes CPU writes visible to the device.
    fn sync_for_device(&self) -> VirtioResult<()>;

    /// Makes device writes visible to the CPU.
    fn sync_for_cpu(&self) -> VirtioResult<()>;
}

/// Source of DMA memory for virtqueues.
pub trait DmaAllocator {
    type Memory: DmaMemory;

    fn allocate_dma(&mut self, size: usize, alignment: usize) -> VirtioResult<Self::Memory>;
}

/// DMA memory owned by this process at a fixed bus address.
pub struct DmaBuffer {
    data: Vec<u8>,
    device_addr: u64,
}

impl DmaBuffer {
    /// A zero-filled buffer of `len` bytes that the device sees at `device_addr`.
    pub fn new(len: usize, device_addr: u64) -> (b: Self)
        ensures
            b.contents() == Seq::new(len as nat, |i: int| 0u8),
            b.bus_address() == device_addr,
    {
        let data = vec![0u8; len];
        assert(data@ =~= Seq::new(len as nat, |i: int| 0u8));
        DmaBuffer { data, device_addr }
    }

    pub fn as_slice(&self) -> (b: &[u8])
        ensures
            b@ == self.contents(),
    {
        self.data.as_slice()
    }

    pub fn as_mut_slice(&mut self) -> (b: &mut [u8])
        ensures
            b@ == old(self).contents(),
            final(self).contents() == final(b)@,
            final(self).bus_address() == old(self).bus_address(),
    {
        self.data.as_mut_slice()
    }

    /// Copies `bytes` into the buffer at `offset`.
    pub fn write_at(&mut self, offset: usize, bytes: &[u8])
        requires
            offset + bytes@.len() <= old(self).contents().len(),
        ensures
            final(self).contents() == old(self).contents().subrange(0, offset as int) + bytes@
                + old(self).contents().subrange(offset + bytes@.len(), old(self).contents().len() as int),
            final(self).bus_address() == old(self).bus_address(),
    {
        let ghost original = self.data@;
        let _len = self.data.len();
        let mut i: usize = 0;
        while i < bytes.len()
            invariant
                offset + bytes@.len() <= original.len(),
                self.data@.len() == original.len(),
                original.len() <= usize::MAX,
                self.device_addr == old(self).device_addr,
                i <= bytes@.len(),
                forall|j: int| 0 <= j < offset ==> self.data@[j] == original[j],
                forall|j: int| offset + bytes@.len() <= j < original.len() ==> self.data@[j] == original[j],
                forall|j: int| 0 <= j < i ==> self.data@[offset + j] == bytes@[j],
            decreases bytes@.len() - i,
        {
            self.data.set(offset + i, bytes[i]);
            i = i + 1;
        }
        assert(self.data@ =~= original.subrange(0, offset as int) + bytes@ + original.subrange(
            offset + bytes@.len(),
            original.len() as int,
        ));
    }
}

impl DmaMemory for DmaBuffer {
    closed spec fn contents(&self) -> Seq<u8> {
        self.data@
    }

    closed spec fn bus_address(&self) -> u64 {
        self.device_addr
    }

    fn len(&self) -> (n: usize) {
        self.data.len()
    }

    fn device_address(&self) -> (a: u64) {
        self.device_addr
    }

    fn bytes(&self) -> (b: &[u8]) {
        self.data.as_slice()
    }

    fn bytes_mut(&mut self) -> (b: &mut [u8]) {
        self.data.as_mut_slice()
    }

    fn sync_for_device(&self) -> (r: VirtioResult<()>)
        ensures
            r is Ok,
    {
        Ok(())
    }

    fn sync_for_cpu(&self) -> (r: VirtioResult<()>)
        ensures
            r is Ok,
    {
        Ok(())
    }
}

} // verus!

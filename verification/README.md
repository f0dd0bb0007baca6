# mnu

The verified core of the mnu kernel, written in Verus.

- `src/` is the library. Every function in it carries a contract that Verus
  proves: the boot and domain ABI records (`abi`), the capability model and
  path capabilities (`capability`), the execution policy and its allowlist
  (`policy`), virtio transport and split virtqueues (`virtio`), metrics and
  kernel performance counters, the hardened heap's bookkeeping and the frame
  reference table (`mem`), the mDriver control protocol (`mdriver`), driver
  package manifests (`plugkit`) and the smaller state machines the kernel
  keeps (per-CPU state, C extensions, interrupts, random seeding).
- The domains' start-up checks are state machines in `src/` that name each
  request and judge each answer: the system domain's check of the mDriver
  control protocol (`mdriver::ProtocolCheck`), of a block device's
  synchronous data path (`block_check::BlockPathCheck`) and of its
  asynchronous queue (`block_check::AsyncQueueCheck`, `QueueWriteCheck`), the
  search for the installed system's partition (`mdriver::PartitionSearch`), the display check
  (`mdriver::check_display`), and the hardware domain's device bring-up
  (`bring_up::bring_up_step`), with the boot-record checks of the system
  and hardware domains. `app/` runs these machines; each domain hands it
  its own hypercall entry and the reads of the pages the hypervisor writes.
- `app/` is the kernel-side glue that Verus does not see: the shared global
  instances behind spin locks, processor instructions, the `GlobalAlloc`
  implementation and the loops that move bytes over the shared ring.
- `tests/` exercises the library on concrete values.

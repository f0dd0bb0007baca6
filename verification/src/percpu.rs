//! Per-CPU kernel state: the kernel page table root, the system call stack,
//! the running thread, and the shared pages system calls enter through.

use vstd::prelude::*;

verus! {

pub const MAX_CPUS: usize = 64;
pub const SYSCALL_SHARED_BASE: u64 = 0x0000_7fff_0000_0000;
pub const SYSCALL_SHARED_STACK_BASE: u64 = 0x0000_7fff_0004_0000;

/// Whether `vaddr` lies in a page of the shared system call state or stack
/// regions, one page per CPU each.
pub open spec fn syscall_shared(vaddr: u64) -> bool {
    let page = vaddr - vaddr % 4096;
    (SYSCALL_SHARED_BASE <= page < SYSCALL_SHARED_BASE + MAX_CPUS * 4096)
        || (SYSCALL_SHARED_STACK_BASE <= page < SYSCALL_SHARED_STACK_BASE + MAX_CPUS * 4096)
}

pub fn is_syscall_shared_vaddr(vaddr: u64) -> (r: bool)
    ensures
        r == syscall_shared(vaddr),
{
    let page = vaddr & !0xfffu64;
    assert(page == vaddr - vaddr % 4096) by (bit_vector)
        requires
            page == vaddr & !0xfffu64,
    ;
    let region_len: u64 = (MAX_CPUS as u64) * 4096;
    (page >= SYSCALL_SHARED_BASE && page < SYSCALL_SHARED_BASE + region_len)
        || (page >= SYSCALL_SHARED_STACK_BASE && page < SYSCALL_SHARED_STACK_BASE + region_len)
}

/// Address of the shared system call state page of `cpu`.
pub fn current_cpu_syscall_state_vaddr(cpu: usize) -> (r: u64)
    requires
        cpu < MAX_CPUS,
    ensures
        r == SYSCALL_SHARED_BASE + cpu * 4096,
        syscall_shared(r),
{
    let r = SYSCALL_SHARED_BASE + (cpu as u64) * 4096;
    assert(r % 4096 == 0) by (nonlinear_arith)
        requires
            r == SYSCALL_SHARED_BASE + cpu * 4096,
            SYSCALL_SHARED_BASE % 4096 == 0,
    ;
    r
}

/// Slot of the CPU with local APIC id `apic_id`; processors beyond the table
/// are not run.
pub fn current_cpu_id(apic_id: u32) -> (r: usize)
    requires
        apic_id < MAX_CPUS,
    ensures
        r == apic_id,
{
    apic_id as usize
}

/// State kept for one CPU.
#[derive(Clone, Copy, Debug, PartialEq, Eq, Structural)]
pub struct PerCpuState {
    pub kernel_cr3: u64,
    pub syscall_kernel_rsp: u64,
    pub current_thread_id: u64,
    /// Slot of the running thread; `u64::MAX` when none.
    pub current_thread_slot: u64,
    pub syscall_user_rsp_tmp: u64,
}

/// Per-CPU state of every CPU.
pub struct PerCpuTable {
    states: Vec<PerCpuState>,
}

impl PerCpuTable {
    pub closed spec fn view_states(&self) -> Seq<PerCpuState> {
        self.states@
    }

    pub open spec fn state(&self, cpu: int) -> PerCpuState {
        self.view_states()[cpu]
    }

    /// Every CPU with no page table root, stack or thread yet.
    pub fn new() -> (t: Self)
        ensures
            t.view_states().len() == MAX_CPUS,
            forall|c: int| 0 <= c < MAX_CPUS ==> #[trigger] t.state(c) == (PerCpuState {
                kernel_cr3: 0,
                syscall_kernel_rsp: 0,
                current_thread_id: 0,
                current_thread_slot: u64::MAX,
                syscall_user_rsp_tmp: 0,
            }),
    {
        let empty = PerCpuState {
            kernel_cr3: 0,
            syscall_kernel_rsp: 0,
            current_thread_id: 0,
            current_thread_slot: u64::MAX,
            syscall_user_rsp_tmp: 0,
        };
        let states = vec![empty; MAX_CPUS];
        PerCpuTable { states }
    }

    /// Sets up the boot CPU `cpu` with the page table root `cr3` and the
    /// system call stack `syscall_kernel_rsp`, with no thread running.
    pub fn init_boot_cpu(&mut self, cpu: usize, cr3: u64, syscall_kernel_rsp: u64)
        requires
            cpu < old(self).view_states().len(),
        ensures
            final(self).view_states() == old(self).view_states().update(cpu as int, PerCpuState {
                kernel_cr3: cr3,
                syscall_kernel_rsp,
                current_thread_id: 0,
                current_thread_slot: u64::MAX,
                syscall_user_rsp_tmp: 0,
            }),
    {
        self.states.set(cpu, PerCpuState {
            kernel_cr3: cr3,
            syscall_kernel_rsp,
            current_thread_id: 0,
            current_thread_slot: u64::MAX,
            syscall_user_rsp_tmp: 0,
        });
    }

    pub fn kernel_cr3(&self, cpu: usize) -> (r: u64)
        requires
            cpu < self.view_states().len(),
        ensures
            r == self.state(cpu as int).kernel_cr3,
    {
        self.states[cpu].kernel_cr3
    }

    pub fn set_syscall_kernel_rsp(&mut self, cpu: usize, rsp: u64)
        requires
            cpu < old(self).view_states().len(),
        ensures
            final(self).view_states() == old(self).view_states().update(
                cpu as int,
                PerCpuState { syscall_kernel_rsp: rsp, ..old(self).state(cpu as int) },
            ),
    {
        let mut state = self.states[cpu];
        state.syscall_kernel_rsp = rsp;
        self.states.set(cpu, state);
    }

    pub fn syscall_kernel_rsp(&self, cpu: usize) -> (r: u64)
        requires
            cpu < self.view_states().len(),
        ensures
            r == self.state(cpu as int).syscall_kernel_rsp,
    {
        self.states[cpu].syscall_kernel_rsp
    }

    pub fn current_thread_raw_id(&self, cpu: usize) -> (r: u64)
        requires
            cpu < self.view_states().len(),
        ensures
            r == self.state(cpu as int).current_thread_id,
    {
        self.states[cpu].current_thread_id
    }

    pub fn set_current_thread_raw_id(&mut self, cpu: usize, id: u64)
        requires
            cpu < old(self).view_states().len(),
        ensures
            final(self).view_states() == old(self).view_states().update(
                cpu as int,
                PerCpuState { current_thread_id: id, ..old(self).state(cpu as int) },
            ),
    {
        let mut state = self.states[cpu];
        state.current_thread_id = id;
        self.states.set(cpu, state);
    }

    /// Slot of the thread running on `cpu`, if any.
    pub fn current_thread_slot(&self, cpu: usize) -> (r: Option<usize>)
        requires
            cpu < self.view_states().len(),
        ensures
            r == (if self.state(cpu as int).current_thread_slot == u64::MAX || self.state(cpu as int).current_thread_slot > usize::MAX {
                None
            } else {
                Some(self.state(cpu as int).current_thread_slot as usize)
            }),
    {
        let raw = self.states[cpu].current_thread_slot;
        if raw == u64::MAX || raw > usize::MAX as u64 {
            None
        } else {
            Some(raw as usize)
        }
    }

    /// Records the thread slot running on `cpu`; none is kept as `u64::MAX`.
    pub fn set_current_thread_slot(&mut self, cpu: usize, slot: Option<usize>)
        requires
            cpu < old(self).view_states().len(),
        ensures
            final(self).view_states() == old(self).view_states().update(
                cpu as int,
                PerCpuState {
                    current_thread_slot: match slot {
                        Some(s) => s as u64,
                        None => u64::MAX,
                    },
                    ..old(self).state(cpu as int)
                },
            ),
    {
        let raw: u64 = match slot {
            Some(value) => value as u64,
            None => u64::MAX,
        };
        let mut state = self.states[cpu];
        state.current_thread_slot = raw;
        self.states.set(cpu, state);
    }
}

/// Address of the shared system call stack page of `cpu`.
pub fn syscall_stack_vaddr_for_cpu(cpu: usize) -> (r: u64)
    requires
        cpu < MAX_CPUS,
    ensures
        r == SYSCALL_SHARED_STACK_BASE + cpu * 4096,
{
    SYSCALL_SHARED_STACK_BASE + (cpu as u64) * 4096
}

/// The physical pages backing each CPU's shared system call state and
/// stack pages; zero while a CPU has none.
pub struct SyscallRegions {
    state_phys: Vec<u64>,
    stack_phys: Vec<u64>,
}

/// The pages to map for the CPUs `0..n` that have both shared pages: the
/// state page, then the stack page, as (virtual, physical) pairs.
pub open spec fn region_mappings(state: Seq<u64>, stack: Seq<u64>, n: int) -> Seq<(u64, u64)>
    decreases n,
{
    if n <= 0 {
        Seq::empty()
    } else {
        let before = region_mappings(state, stack, n - 1);
        let c = n - 1;
        if state[c] == 0 || stack[c] == 0 {
            before
        } else {
            before + seq![
                ((SYSCALL_SHARED_BASE + c * 4096) as u64, state[c]),
                ((SYSCALL_SHARED_STACK_BASE + c * 4096) as u64, stack[c]),
            ]
        }
    }
}

impl SyscallRegions {
    pub closed spec fn state_pages(&self) -> Seq<u64> {
        self.state_phys@
    }

    pub closed spec fn stack_pages(&self) -> Seq<u64> {
        self.stack_phys@
    }

    pub open spec fn wf(&self) -> bool {
        self.state_pages().len() == MAX_CPUS && self.stack_pages().len() == MAX_CPUS
    }

    pub fn new() -> (r: Self)
        ensures
            r.wf(),
            r.state_pages() == Seq::new(MAX_CPUS as nat, |i: int| 0u64),
            r.stack_pages() == Seq::new(MAX_CPUS as nat, |i: int| 0u64),
    {
        let mut state_phys: Vec<u64> = Vec::new();
        let mut stack_phys: Vec<u64> = Vec::new();
        let mut i: usize = 0;
        while i < MAX_CPUS
            invariant
                i <= MAX_CPUS,
                state_phys@ == Seq::new(i as nat, |k: int| 0u64),
                stack_phys@ == Seq::new(i as nat, |k: int| 0u64),
            decreases MAX_CPUS - i,
        {
            state_phys.push(0);
            stack_phys.push(0);
            i = i + 1;
            assert(state_phys@ =~= Seq::new(i as nat, |k: int| 0u64));
            assert(stack_phys@ =~= Seq::new(i as nat, |k: int| 0u64));
        }
        SyscallRegions { state_phys, stack_phys }
    }

    /// Whether `cpu` still lacks one of its shared pages.
    pub fn needs_region(&self, cpu: usize) -> (r: bool)
        requires
            self.wf(),
            cpu < MAX_CPUS,
        ensures
            r == (self.state_pages()[cpu as int] == 0 || self.stack_pages()[cpu as int] == 0),
    {
        self.state_phys[cpu] == 0 || self.stack_phys[cpu] == 0
    }

    /// Records the pages backing `cpu`'s shared state and stack pages.
    pub fn record_region(&mut self, cpu: usize, state_phys: u64, stack_phys: u64)
        requires
            old(self).wf(),
            cpu < MAX_CPUS,
        ensures
            final(self).wf(),
            final(self).state_pages() == old(self).state_pages().update(cpu as int, state_phys),
            final(self).stack_pages() == old(self).stack_pages().update(cpu as int, stack_phys),
    {
        self.state_phys.set(cpu, state_phys);
        self.stack_phys.set(cpu, stack_phys);
    }

    /// The pages another page table must map for system calls to enter
    /// through it: every CPU's shared pages that exist.
    pub fn shared_mappings(&self) -> (r: Vec<(u64, u64)>)
        requires
            self.wf(),
        ensures
            r@ == region_mappings(self.state_pages(), self.stack_pages(), MAX_CPUS as int),
    {
        let mut out: Vec<(u64, u64)> = Vec::new();
        let mut cpu: usize = 0;
        while cpu < MAX_CPUS
            invariant
                cpu <= MAX_CPUS,
                self.wf(),
                out@ == region_mappings(self.state_pages(), self.stack_pages(), cpu as int),
            decreases MAX_CPUS - cpu,
        {
            let state = self.state_phys[cpu];
            let stack = self.stack_phys[cpu];
            if state != 0 && stack != 0 {
                let ghost before = out@;
                out.push((current_cpu_syscall_state_vaddr(cpu), state));
                out.push((syscall_stack_vaddr_for_cpu(cpu), stack));
                assert(out@ =~= before + seq![
                    ((SYSCALL_SHARED_BASE + cpu * 4096) as u64, state),
                    ((SYSCALL_SHARED_STACK_BASE + cpu * 4096) as u64, stack),
                ]);
            }
            cpu = cpu + 1;
        }
        out
    }
}

/// A thread slot set on a CPU reads back, unless it is the largest value,
/// which stands for none.
pub proof fn lemma_thread_slot_round_trip(slot: usize)
    requires
        slot as u64 != u64::MAX,
    ensures
        !(slot as u64 == u64::MAX || slot as u64 > usize::MAX) && (slot as u64) as usize == slot,
{
}

} // verus!

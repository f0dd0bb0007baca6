//! Launch policy: the registered init process, the processes delegated to
//! spawn services and drivers, and who may launch what.

pub mod signature;

use vstd::prelude::*;
use crate::capability::{Capability, CapabilitySet};

verus! {

/// Privilege a process runs with.
#[derive(Clone, Copy, Debug, PartialEq, Eq, Structural)]
pub enum PrivilegeLevel {
    Core,
    Service,
    User,
}

/// Kind of process a spawn delegate launches.
#[derive(Clone, Copy, Debug, PartialEq, Eq, Structural)]
pub enum SpawnDelegateKind {
    Service,
    Driver,
}

impl SpawnDelegateKind {
    /// Value the kind has in the system call interface.
    pub fn raw(self) -> (r: u64)
        ensures
            r == (match self {
                SpawnDelegateKind::Service => 1u64,
                SpawnDelegateKind::Driver => 2u64,
            }),
    {
        match self {
            SpawnDelegateKind::Service => 1,
            SpawnDelegateKind::Driver => 2,
        }
    }
}

/// Role a manifest declares.
#[derive(Clone, Copy, Debug, PartialEq, Eq, Structural)]
pub enum ManifestRole {
    CoreService,
    Service,
    Application,
    Driver,
    Tool,
    Unknown,
}

/// What the kernel needs to start the first process.
#[derive(Clone, Copy, Debug, PartialEq, Eq)]
pub struct BootLaunch {
    pub process_name: &'static str,
    pub exec_path: &'static str,
}

/// The first process: `init`, from `/init`.
pub fn init_launch() -> (b: BootLaunch)
    ensures
        b.process_name@ == "init"@,
        b.exec_path@ == "/init"@,
{
    BootLaunch { process_name: "init", exec_path: "/init" }
}

/// What the kernel knows of a calling process.
pub struct ProcessFacts {
    pub privilege: PrivilegeLevel,
    /// Neither a zombie nor terminated.
    pub alive: bool,
    pub capabilities: CapabilitySet,
}

/// The process making a request: its id and, when the process table has it,
/// what is known of it.
pub struct Caller {
    pub pid: u64,
    pub process: Option<ProcessFacts>,
}

/// Whether `facts` describe a live process of service or core privilege.
pub open spec fn live_privileged(facts: Option<ProcessFacts>) -> bool {
    match facts {
        Some(p) => p.alive && (p.privilege == PrivilegeLevel::Service || p.privilege == PrivilegeLevel::Core),
        None => false,
    }
}

/// Whether `facts` describe a process of service or core privilege that
/// holds the right to spawn processes.
pub open spec fn privileged_spawner(facts: Option<ProcessFacts>) -> bool {
    match facts {
        Some(p) => (p.privilege == PrivilegeLevel::Service || p.privilege == PrivilegeLevel::Core)
            && p.capabilities.implies_spec(Capability::ProcessSpawn),
        None => false,
    }
}

/// Whether `facts` describe a process of service or core privilege.
pub open spec fn service_or_core(facts: Option<ProcessFacts>) -> bool {
    match facts {
        Some(p) => p.privilege == PrivilegeLevel::Service || p.privilege == PrivilegeLevel::Core,
        None => false,
    }
}

fn is_live_privileged(facts: &Option<ProcessFacts>) -> (r: bool)
    ensures
        r == live_privileged(*facts),
{
    match facts {
        Some(p) => p.alive && (p.privilege == PrivilegeLevel::Service || p.privilege == PrivilegeLevel::Core),
        None => false,
    }
}

fn is_service_or_core(facts: &Option<ProcessFacts>) -> (r: bool)
    ensures
        r == service_or_core(*facts),
{
    match facts {
        Some(p) => p.privilege == PrivilegeLevel::Service || p.privilege == PrivilegeLevel::Core,
        None => false,
    }
}

fn is_privileged_spawner(facts: &Option<ProcessFacts>) -> (r: bool)
    ensures
        r == privileged_spawner(*facts),
{
    match facts {
        Some(p) => (p.privilege == PrivilegeLevel::Service || p.privilege == PrivilegeLevel::Core)
            && p.capabilities.contains(Capability::ProcessSpawn),
        None => false,
    }
}

/// The registered init process and spawn delegates; zero means none.
pub struct PolicyState {
    init: u64,
    service_delegate: u64,
    driver_delegate: u64,
}

impl PolicyState {
    pub closed spec fn init_view(&self) -> u64 {
        self.init
    }

    pub closed spec fn delegate_view(&self, kind: SpawnDelegateKind) -> u64 {
        match kind {
            SpawnDelegateKind::Service => self.service_delegate,
            SpawnDelegateKind::Driver => self.driver_delegate,
        }
    }

    pub fn new() -> (s: Self)
        ensures
            s.init_view() == 0,
            s.delegate_view(SpawnDelegateKind::Service) == 0,
            s.delegate_view(SpawnDelegateKind::Driver) == 0,
    {
        PolicyState { init: 0, service_delegate: 0, driver_delegate: 0 }
    }

    pub fn register_init_pid(&mut self, pid: u64)
        ensures
            final(self).init_view() == pid,
            forall|k: SpawnDelegateKind| final(self).delegate_view(k) == old(self).delegate_view(k),
    {
        self.init = pid;
    }

    pub fn init_pid(&self) -> (r: u64)
        ensures
            r == self.init_view(),
    {
        self.init
    }

    /// Registers `pid` as init when none is; whether it was registered.
    pub fn claim_init_pid(&mut self, pid: u64) -> (r: bool)
        ensures
            r == (old(self).init_view() == 0),
            final(self).init_view() == (if r { pid } else { old(self).init_view() }),
            forall|k: SpawnDelegateKind| final(self).delegate_view(k) == old(self).delegate_view(k),
    {
        if self.init == 0 {
            self.init = pid;
            true
        } else {
            false
        }
    }

    /// Forgets init when `pid` is the registered one; whether it was.
    pub fn release_init_pid(&mut self, pid: u64) -> (r: bool)
        ensures
            r == (old(self).init_view() == pid),
            final(self).init_view() == (if r { 0 } else { old(self).init_view() }),
            forall|k: SpawnDelegateKind| final(self).delegate_view(k) == old(self).delegate_view(k),
    {
        if self.init == pid {
            self.init = 0;
            true
        } else {
            false
        }
    }

    pub fn register_spawn_delegate(&mut self, kind: SpawnDelegateKind, pid: u64)
        ensures
            final(self).delegate_view(kind) == pid,
            forall|k: SpawnDelegateKind| k != kind ==> final(self).delegate_view(k) == old(self).delegate_view(k),
            final(self).init_view() == old(self).init_view(),
    {
        match kind {
            SpawnDelegateKind::Service => self.service_delegate = pid,
            SpawnDelegateKind::Driver => self.driver_delegate = pid,
        }
    }

    pub fn spawn_delegate_pid(&self, kind: SpawnDelegateKind) -> (r: u64)
        ensures
            r == self.delegate_view(kind),
    {
        match kind {
            SpawnDelegateKind::Service => self.service_delegate,
            SpawnDelegateKind::Driver => self.driver_delegate,
        }
    }

    /// Whether the caller may launch a service: the kernel itself may; init
    /// and the service delegate may while alive with service or core
    /// privilege; any other caller needs that privilege and the right to
    /// spawn processes.
    pub open spec fn may_launch_service(&self, caller: Option<Caller>) -> bool {
        match caller {
            None => true,
            Some(c) => if self.init_view() != 0 && c.pid == self.init_view() {
                live_privileged(c.process)
            } else if self.delegate_view(SpawnDelegateKind::Service) == 0
                || c.pid != self.delegate_view(SpawnDelegateKind::Service) {
                privileged_spawner(c.process)
            } else {
                live_privileged(c.process)
            },
        }
    }

    /// Whether the caller may launch a driver: the kernel and init may; the
    /// driver delegate may while alive with service or core privilege; any
    /// other caller needs that privilege and the right to spawn processes.
    pub open spec fn may_launch_driver(&self, caller: Option<Caller>) -> bool {
        match caller {
            None => true,
            Some(c) => if self.init_view() != 0 && c.pid == self.init_view() {
                true
            } else if self.delegate_view(SpawnDelegateKind::Driver) == 0
                || c.pid != self.delegate_view(SpawnDelegateKind::Driver) {
                privileged_spawner(c.process)
            } else {
                live_privileged(c.process)
            },
        }
    }

    pub fn caller_can_launch_service(&self, caller: &Option<Caller>) -> (r: bool)
        ensures
            r == self.may_launch_service(*caller),
    {
        match caller {
            None => true,
            Some(c) => {
                if self.init != 0 && c.pid == self.init {
                    is_live_privileged(&c.process)
                } else if self.service_delegate == 0 || c.pid != self.service_delegate {
                    is_privileged_spawner(&c.process)
                } else {
                    is_live_privileged(&c.process)
                }
            },
        }
    }

    pub fn caller_can_launch_driver(&self, caller: &Option<Caller>) -> (r: bool)
        ensures
            r == self.may_launch_driver(*caller),
    {
        match caller {
            None => true,
            Some(c) => {
                if self.init != 0 && c.pid == self.init {
                    true
                } else if self.driver_delegate == 0 || c.pid != self.driver_delegate {
                    is_privileged_spawner(&c.process)
                } else {
                    is_live_privileged(&c.process)
                }
            },
        }
    }
}

/// Whether the caller may grant capabilities to what it executes: the kernel
/// may, and so may processes of service or core privilege.
pub fn caller_can_grant_capabilities_on_exec(caller: &Option<Caller>) -> (r: bool)
    ensures
        r == (match *caller {
            None => true,
            Some(c) => service_or_core(c.process),
        }),
{
    match caller {
        None => true,
        Some(c) => is_service_or_core(&c.process),
    }
}

/// Whether the caller is a process of service or core privilege.
pub fn caller_is_service_or_core_process(caller: &Option<Caller>) -> (r: bool)
    ensures
        r == (match *caller {
            None => false,
            Some(c) => service_or_core(c.process),
        }),
{
    match caller {
        None => false,
        Some(c) => is_service_or_core(&c.process),
    }
}

/// Privilege an exec runs with: what was asked for, else user privilege.
/// Nothing is inferred from the executable's path.
pub fn resolve_exec_privilege(requested_privilege: Option<PrivilegeLevel>) -> (p: PrivilegeLevel)
    ensures
        p == (match requested_privilege {
            Some(level) => level,
            None => PrivilegeLevel::User,
        }),
{
    match requested_privilege {
        Some(level) => level,
        None => PrivilegeLevel::User,
    }
}

/// A registered init may always launch drivers, and a live privileged init
/// may launch services, whatever the delegates are.
pub proof fn lemma_init_may_launch(state: PolicyState, caller: Caller)
    requires
        state.init_view() != 0,
        caller.pid == state.init_view(),
    ensures
        state.may_launch_driver(Some(caller)),
        state.may_launch_service(Some(caller)) == live_privileged(caller.process),
{
}

} // verus!

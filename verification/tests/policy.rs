use mnu::capability::{Capability, CapabilitySet};
use mnu::policy::{
    caller_can_grant_capabilities_on_exec, caller_is_service_or_core_process, init_launch,
    resolve_exec_privilege, Caller, PolicyState, PrivilegeLevel, ProcessFacts, SpawnDelegateKind,
};

fn facts(privilege: PrivilegeLevel, alive: bool, caps: &[Capability]) -> Option<ProcessFacts> {
    let mut capabilities = CapabilitySet::empty();
    for cap in caps {
        capabilities.insert(*cap);
    }
    Some(ProcessFacts { privilege, alive, capabilities })
}

fn caller(pid: u64, process: Option<ProcessFacts>) -> Option<Caller> {
    Some(Caller { pid, process })
}

#[test]
fn init_launch_target() {
    let launch = init_launch();
    assert_eq!(launch.process_name, "init");
    assert_eq!(launch.exec_path, "/init");
}

#[test]
fn init_pid_claim_and_release() {
    let mut state = PolicyState::new();
    assert_eq!(state.init_pid(), 0);
    assert!(state.claim_init_pid(7));
    assert!(!state.claim_init_pid(8));
    assert_eq!(state.init_pid(), 7);
    assert!(!state.release_init_pid(8));
    assert!(state.release_init_pid(7));
    assert_eq!(state.init_pid(), 0);
    state.register_init_pid(11);
    assert_eq!(state.init_pid(), 11);
}

#[test]
fn spawn_delegates_are_kept_per_kind() {
    let mut state = PolicyState::new();
    state.register_spawn_delegate(SpawnDelegateKind::Service, 3);
    state.register_spawn_delegate(SpawnDelegateKind::Driver, 4);
    assert_eq!(state.spawn_delegate_pid(SpawnDelegateKind::Service), 3);
    assert_eq!(state.spawn_delegate_pid(SpawnDelegateKind::Driver), 4);
    assert_eq!(SpawnDelegateKind::Service.raw(), 1);
    assert_eq!(SpawnDelegateKind::Driver.raw(), 2);
}

#[test]
fn kernel_context_may_launch_everything() {
    let state = PolicyState::new();
    assert!(state.caller_can_launch_service(&None));
    assert!(state.caller_can_launch_driver(&None));
}

#[test]
fn init_launches_services_only_while_alive_and_privileged() {
    let mut state = PolicyState::new();
    state.register_init_pid(1);
    assert!(state.caller_can_launch_service(&caller(1, facts(PrivilegeLevel::Core, true, &[]))));
    assert!(!state.caller_can_launch_service(&caller(1, facts(PrivilegeLevel::Core, false, &[]))));
    assert!(!state.caller_can_launch_service(&caller(1, facts(PrivilegeLevel::User, true, &[]))));
    assert!(!state.caller_can_launch_service(&caller(1, None)));
    assert!(state.caller_can_launch_driver(&caller(1, None)));
}

#[test]
fn other_callers_need_privilege_and_spawn_right() {
    let mut state = PolicyState::new();
    state.register_init_pid(1);
    let spawner = facts(PrivilegeLevel::Service, true, &[Capability::ProcessSpawn]);
    assert!(state.caller_can_launch_service(&caller(20, spawner)));
    let unsandboxed = facts(PrivilegeLevel::Service, true, &[Capability::Unsandboxed]);
    assert!(state.caller_can_launch_service(&caller(20, unsandboxed)));
    let no_right = facts(PrivilegeLevel::Service, true, &[Capability::IpcClient]);
    assert!(!state.caller_can_launch_service(&caller(20, no_right)));
    let user = facts(PrivilegeLevel::User, true, &[Capability::ProcessSpawn]);
    assert!(!state.caller_can_launch_driver(&caller(20, user)));
}

#[test]
fn delegates_launch_while_alive() {
    let mut state = PolicyState::new();
    state.register_spawn_delegate(SpawnDelegateKind::Service, 5);
    state.register_spawn_delegate(SpawnDelegateKind::Driver, 6);
    assert!(state.caller_can_launch_service(&caller(5, facts(PrivilegeLevel::Service, true, &[]))));
    assert!(!state.caller_can_launch_service(&caller(5, facts(PrivilegeLevel::Service, false, &[]))));
    assert!(state.caller_can_launch_driver(&caller(6, facts(PrivilegeLevel::Core, true, &[]))));
    assert!(!state.caller_can_launch_driver(&caller(6, facts(PrivilegeLevel::User, true, &[]))));
}

#[test]
fn exec_grants_and_privilege_resolution() {
    assert!(caller_can_grant_capabilities_on_exec(&None));
    assert!(caller_can_grant_capabilities_on_exec(&caller(2, facts(PrivilegeLevel::Service, false, &[]))));
    assert!(!caller_can_grant_capabilities_on_exec(&caller(2, facts(PrivilegeLevel::User, true, &[]))));
    assert!(!caller_is_service_or_core_process(&None));
    assert!(caller_is_service_or_core_process(&caller(2, facts(PrivilegeLevel::Core, true, &[]))));
    assert!(!caller_is_service_or_core_process(&caller(2, None)));
    assert_eq!(resolve_exec_privilege(None), PrivilegeLevel::User);
    assert_eq!(resolve_exec_privilege(Some(PrivilegeLevel::Service)), PrivilegeLevel::Service);
}

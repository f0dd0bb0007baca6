//! The domains' start: the boot-record checks of the system and hardware
//! domains, and the hardware domain's device bring-up: for each device the hypervisor
//! reports, claim it when it is claimable, check its identity and MMIO
//! resources, activate it, check that decode is on, have it verified, and
//! hand it back to quarantine; then report ready. The decisions between the
//! hypercalls are a step function from state and event to state and action.

use vstd::prelude::*;
use crate::abi::hypervisor::{
    pci_device_info_valid, pci_device_resource_valid, PciDeviceInfo, PciDeviceResource,
    DOMAIN_CAPABILITY_DEVICE_CLAIM, DOMAIN_CAPABILITY_DEVICE_QUERY, DOMAIN_FEATURE_DEVICE_ACTIVATION,
    DOMAIN_FEATURE_DEVICE_OWNERSHIP, DOMAIN_FEATURE_DEVICE_QUERY, DOMAIN_FEATURE_DEVICE_RESOURCES,
    DOMAIN_FEATURE_READY, DOMAIN_FEATURE_WAIT, DOMAIN_ROLE_HARDWARE, DOMAIN_FEATURE_EVENT_CHANNEL,
    DOMAIN_FEATURE_EVENT_IRQ, DOMAIN_FEATURE_EVENT_POLL, DOMAIN_FEATURE_GRANT_QUERY, DOMAIN_FEATURE_GRANT_TABLE,
    DOMAIN_FEATURE_SHARED_RING, DOMAIN_FEATURE_VIRTUAL_APIC, DOMAIN_ROLE_SYSTEM, HYPERCALL_INVALID_ARGUMENT,
    HYPERCALL_SUCCESS, PCI_DEVICE_FLAG_CLAIMABLE, PCI_DEVICE_STATE_ACTIVE, PCI_DEVICE_STATE_CLAIMED_DISABLED,
    PCI_DEVICE_STATE_QUARANTINED,
};

verus! {

/// Device indexes the bring-up asks about.
pub const MAX_DEVICE_INDEX: u64 = 256;
/// Resources a device can report, one per BAR.
pub const MAX_DEVICE_RESOURCES: u64 = 6;
/// The argument the hardware domain activates devices with.
pub const ACTIVATION_ARGUMENT: u64 = 0x42;
/// The command register's memory-decode bit.
pub const COMMAND_MEMORY_DECODE: u64 = 1 << 2;

/// Features the hardware domain needs from the hypervisor.
pub const HARDWARE_REQUIRED_FEATURES: u64 = DOMAIN_FEATURE_DEVICE_QUERY | DOMAIN_FEATURE_DEVICE_OWNERSHIP
    | DOMAIN_FEATURE_DEVICE_RESOURCES | DOMAIN_FEATURE_DEVICE_ACTIVATION | DOMAIN_FEATURE_READY | DOMAIN_FEATURE_WAIT;

/// Whether a hardware domain may start from its boot record: the record is
/// valid, the domain has the hardware role, the features it uses, and the
/// right to query devices.
pub open spec fn hardware_boot_allowed(record_valid: bool, role: u32, features: u64, capabilities: u64) -> bool {
    record_valid && role == DOMAIN_ROLE_HARDWARE && features & HARDWARE_REQUIRED_FEATURES == HARDWARE_REQUIRED_FEATURES
        && capabilities & DOMAIN_CAPABILITY_DEVICE_QUERY != 0
}

pub fn hardware_boot_ok(record_valid: bool, role: u32, features: u64, capabilities: u64) -> (r: bool)
    ensures
        r == hardware_boot_allowed(record_valid, role, features, capabilities),
{
    record_valid && role == DOMAIN_ROLE_HARDWARE && features & HARDWARE_REQUIRED_FEATURES == HARDWARE_REQUIRED_FEATURES
        && capabilities & DOMAIN_CAPABILITY_DEVICE_QUERY != 0
}

/// Features the system domain needs from the hypervisor.
pub const SYSTEM_REQUIRED_FEATURES: u64 = DOMAIN_FEATURE_READY | DOMAIN_FEATURE_EVENT_CHANNEL | DOMAIN_FEATURE_EVENT_IRQ
    | DOMAIN_FEATURE_EVENT_POLL | DOMAIN_FEATURE_GRANT_QUERY | DOMAIN_FEATURE_GRANT_TABLE | DOMAIN_FEATURE_SHARED_RING
    | DOMAIN_FEATURE_VIRTUAL_APIC;

/// Whether a system domain may start from its boot record: the record is
/// valid, the domain has the system role, and the features it uses.
pub open spec fn system_boot_allowed(record_valid: bool, role: u32, features: u64) -> bool {
    record_valid && role == DOMAIN_ROLE_SYSTEM && features & SYSTEM_REQUIRED_FEATURES == SYSTEM_REQUIRED_FEATURES
}

pub fn system_boot_ok(record_valid: bool, role: u32, features: u64) -> (r: bool)
    ensures
        r == system_boot_allowed(record_valid, role, features),
{
    record_valid && role == DOMAIN_ROLE_SYSTEM && features & SYSTEM_REQUIRED_FEATURES == SYSTEM_REQUIRED_FEATURES
}

/// Where the bring-up stands; each stage waits for the answer to the action
/// that led to it.
#[derive(Clone, Copy, Debug, PartialEq, Eq, Structural)]
pub enum BringUpStage {
    Query,
    Claim,
    Requery,
    Identity,
    Resources,
    Activate,
    ConfirmActive,
    Command,
    Verify,
    Release,
    ConfirmQuarantine,
    Ready,
    Running,
    Failed,
}

/// The bring-up's state: the stage, the device index, and what it learned of
/// the device at hand; then what the boot record gave it.
#[derive(Clone, Copy, Debug, PartialEq, Eq, Structural)]
pub struct BringUpState {
    pub stage: BringUpStage,
    pub index: u64,
    pub requester: u16,
    pub identity: u32,
    pub resources: u64,
    pub domain_id: u32,
    pub capabilities: u64,
    pub window_start: u64,
    pub window_size: u64,
}

/// What came back from the last action.
#[derive(Clone, Copy, Debug, PartialEq, Eq)]
pub enum BringUpEvent {
    /// The device query's result, and the record it wrote.
    Queried { result: u64, info: PciDeviceInfo },
    /// A hypercall's result.
    Answer(u64),
    /// The resource query's result, and the record it wrote.
    Resource { result: u64, resource: PciDeviceResource },
    /// Whether the device passed its driver's own check.
    Verified(bool),
}

/// What to do next.
#[derive(Clone, Copy, Debug, PartialEq, Eq, Structural)]
pub enum BringUpAction {
    QueryDevice(u64),
    Claim(u16),
    ConfigRead(u16, u64),
    QueryResource(u16, u64),
    Activate(u16, u64),
    /// Run the device's driver check, for the device with this identity.
    Verify(u16, u32),
    Release(u16),
    Ready,
    Wait,
    Fail,
}

/// The state at the start, for a domain with `domain_id` and
/// `capabilities` whose device window starts at `window_start` and spans
/// `window_size` bytes; the first action asks for device 0.
pub open spec fn bring_up_initial(domain_id: u32, capabilities: u64, window_start: u64, window_size: u64) -> (BringUpState, BringUpAction) {
    (
        BringUpState {
            stage: BringUpStage::Query,
            index: 0,
            requester: 0,
            identity: 0,
            resources: 0,
            domain_id,
            capabilities,
            window_start,
            window_size,
        },
        BringUpAction::QueryDevice(0),
    )
}

pub fn bring_up_start(domain_id: u32, capabilities: u64, window_start: u64, window_size: u64) -> (r: (BringUpState, BringUpAction))
    ensures
        r == bring_up_initial(domain_id, capabilities, window_start, window_size),
        window_start + window_size <= u64::MAX ==> bring_up_wf(r.0),
{
    (
        BringUpState {
            stage: BringUpStage::Query,
            index: 0,
            requester: 0,
            identity: 0,
            resources: 0,
            domain_id,
            capabilities,
            window_start,
            window_size,
        },
        BringUpAction::QueryDevice(0),
    )
}

/// States the bring-up can reach: at most one resource per BAR counted,
/// and a device window that ends inside the address space.
pub open spec fn bring_up_wf(s: BringUpState) -> bool {
    &&& s.resources <= MAX_DEVICE_RESOURCES
    &&& s.stage == BringUpStage::Resources ==> s.resources < MAX_DEVICE_RESOURCES
    &&& s.window_start + s.window_size <= u64::MAX
}

/// The bring-up fails for good.
pub open spec fn failed(s: BringUpState) -> (BringUpState, BringUpAction) {
    (BringUpState { stage: BringUpStage::Failed, ..s }, BringUpAction::Fail)
}

/// On to the next device index, or to reporting ready after the last.
pub open spec fn next_device(s: BringUpState) -> (BringUpState, BringUpAction) {
    if s.index + 1 >= MAX_DEVICE_INDEX {
        (BringUpState { stage: BringUpStage::Ready, ..s }, BringUpAction::Ready)
    } else {
        (BringUpState { stage: BringUpStage::Query, index: (s.index + 1) as u64, ..s }, BringUpAction::QueryDevice((s.index + 1) as u64))
    }
}

/// The resources are all in: activate the device if it has any.
pub open spec fn resources_done(s: BringUpState) -> (BringUpState, BringUpAction) {
    if s.resources == 0 {
        failed(s)
    } else {
        (BringUpState { stage: BringUpStage::Activate, ..s }, BringUpAction::Activate(s.requester, ACTIVATION_ARGUMENT))
    }
}

/// Whether a resource lies inside the device window and belongs to the
/// device at hand.
pub open spec fn resource_ok(s: BringUpState, r: PciDeviceResource) -> bool {
    &&& pci_device_resource_valid(r)
    &&& r.requester == s.requester
    &&& r.guest_address >= s.window_start
    &&& r.guest_address + r.length <= s.window_start + s.window_size
}

/// One step of the bring-up: the next state and action after `event` at
/// state `s`. An event the stage does not wait for fails the bring-up.
pub open spec fn bring_up_spec(s: BringUpState, event: BringUpEvent) -> (BringUpState, BringUpAction) {
    match (s.stage, event) {
        (BringUpStage::Query, BringUpEvent::Queried { result, info }) => if result == HYPERCALL_INVALID_ARGUMENT {
            (BringUpState { stage: BringUpStage::Ready, ..s }, BringUpAction::Ready)
        } else if result != HYPERCALL_SUCCESS || !pci_device_info_valid(info) {
            failed(s)
        } else if info.flags & PCI_DEVICE_FLAG_CLAIMABLE == 0 {
            next_device(s)
        } else if s.capabilities & DOMAIN_CAPABILITY_DEVICE_CLAIM == 0 {
            failed(s)
        } else {
            (BringUpState { stage: BringUpStage::Claim, requester: info.requester, ..s }, BringUpAction::Claim(info.requester))
        },
        (BringUpStage::Claim, BringUpEvent::Answer(result)) => if result != HYPERCALL_SUCCESS {
            failed(s)
        } else {
            (BringUpState { stage: BringUpStage::Requery, ..s }, BringUpAction::QueryDevice(s.index))
        },
        (BringUpStage::Requery, BringUpEvent::Queried { result, info }) => if result != HYPERCALL_SUCCESS
            || info.state != PCI_DEVICE_STATE_CLAIMED_DISABLED || info.owner_domain != s.domain_id {
            failed(s)
        } else {
            (BringUpState { stage: BringUpStage::Identity, requester: info.requester, ..s }, BringUpAction::ConfigRead(info.requester, 0))
        },
        (BringUpStage::Identity, BringUpEvent::Answer(identity)) => if identity == HYPERCALL_INVALID_ARGUMENT
            || identity % 0x1_0000 == 0xffff || identity > u32::MAX {
            failed(s)
        } else {
            (
                BringUpState { stage: BringUpStage::Resources, identity: identity as u32, resources: 0, ..s },
                BringUpAction::QueryResource(s.requester, 0),
            )
        },
        (BringUpStage::Resources, BringUpEvent::Resource { result, resource }) => if result == HYPERCALL_INVALID_ARGUMENT {
            resources_done(s)
        } else if result != HYPERCALL_SUCCESS || !resource_ok(s, resource) {
            failed(s)
        } else if s.resources + 1 >= MAX_DEVICE_RESOURCES {
            resources_done(BringUpState { resources: (s.resources + 1) as u64, ..s })
        } else {
            (
                BringUpState { resources: (s.resources + 1) as u64, ..s },
                BringUpAction::QueryResource(s.requester, (s.resources + 1) as u64),
            )
        },
        (BringUpStage::Activate, BringUpEvent::Answer(result)) => if result != HYPERCALL_SUCCESS {
            failed(s)
        } else {
            (BringUpState { stage: BringUpStage::ConfirmActive, ..s }, BringUpAction::QueryDevice(s.index))
        },
        (BringUpStage::ConfirmActive, BringUpEvent::Queried { result, info }) => if result != HYPERCALL_SUCCESS
            || info.state != PCI_DEVICE_STATE_ACTIVE {
            failed(s)
        } else {
            (BringUpState { stage: BringUpStage::Command, ..s }, BringUpAction::ConfigRead(s.requester, 4))
        },
        (BringUpStage::Command, BringUpEvent::Answer(command)) => if command == HYPERCALL_INVALID_ARGUMENT
            || command & COMMAND_MEMORY_DECODE == 0 {
            failed(s)
        } else {
            (BringUpState { stage: BringUpStage::Verify, ..s }, BringUpAction::Verify(s.requester, s.identity))
        },
        (BringUpStage::Verify, BringUpEvent::Verified(passed)) => if !passed {
            failed(s)
        } else {
            (BringUpState { stage: BringUpStage::Release, ..s }, BringUpAction::Release(s.requester))
        },
        (BringUpStage::Release, BringUpEvent::Answer(result)) => if result != HYPERCALL_SUCCESS {
            failed(s)
        } else {
            (BringUpState { stage: BringUpStage::ConfirmQuarantine, ..s }, BringUpAction::QueryDevice(s.index))
        },
        (BringUpStage::ConfirmQuarantine, BringUpEvent::Queried { result, info }) => if result != HYPERCALL_SUCCESS
            || info.state != PCI_DEVICE_STATE_QUARANTINED {
            failed(s)
        } else {
            next_device(s)
        },
        (BringUpStage::Ready, BringUpEvent::Answer(result)) => if result != HYPERCALL_SUCCESS {
            failed(s)
        } else {
            (BringUpState { stage: BringUpStage::Running, ..s }, BringUpAction::Wait)
        },
        (BringUpStage::Running, _) => (s, BringUpAction::Wait),
        _ => failed(s),
    }
}

fn fail_state(s: BringUpState) -> (r: (BringUpState, BringUpAction))
    ensures
        r == failed(s),
{
    (BringUpState { stage: BringUpStage::Failed, ..s }, BringUpAction::Fail)
}

fn advance_device(s: BringUpState) -> (r: (BringUpState, BringUpAction))
    ensures
        r == next_device(s),
{
    if s.index >= MAX_DEVICE_INDEX - 1 {
        (BringUpState { stage: BringUpStage::Ready, ..s }, BringUpAction::Ready)
    } else {
        (BringUpState { stage: BringUpStage::Query, index: s.index + 1, ..s }, BringUpAction::QueryDevice(s.index + 1))
    }
}

fn finish_resources(s: BringUpState) -> (r: (BringUpState, BringUpAction))
    ensures
        r == resources_done(s),
{
    if s.resources == 0 {
        fail_state(s)
    } else {
        (BringUpState { stage: BringUpStage::Activate, ..s }, BringUpAction::Activate(s.requester, ACTIVATION_ARGUMENT))
    }
}

/// One step of the bring-up: takes what the last action gave back and says
/// what to do next.
pub fn bring_up_step(state: BringUpState, event: BringUpEvent) -> (r: (BringUpState, BringUpAction))
    requires
        bring_up_wf(state),
    ensures
        r == bring_up_spec(state, event),
        bring_up_wf(r.0),
{
    let s = state;
    match (s.stage, event) {
        (BringUpStage::Query, BringUpEvent::Queried { result, info }) => if result == HYPERCALL_INVALID_ARGUMENT {
            (BringUpState { stage: BringUpStage::Ready, ..s }, BringUpAction::Ready)
        } else if result != HYPERCALL_SUCCESS || !info.validate() {
            fail_state(s)
        } else if info.flags & PCI_DEVICE_FLAG_CLAIMABLE == 0 {
            advance_device(s)
        } else if s.capabilities & DOMAIN_CAPABILITY_DEVICE_CLAIM == 0 {
            fail_state(s)
        } else {
            (BringUpState { stage: BringUpStage::Claim, requester: info.requester, ..s }, BringUpAction::Claim(info.requester))
        },
        (BringUpStage::Claim, BringUpEvent::Answer(result)) => if result != HYPERCALL_SUCCESS {
            fail_state(s)
        } else {
            (BringUpState { stage: BringUpStage::Requery, ..s }, BringUpAction::QueryDevice(s.index))
        },
        (BringUpStage::Requery, BringUpEvent::Queried { result, info }) => if result != HYPERCALL_SUCCESS
            || info.state != PCI_DEVICE_STATE_CLAIMED_DISABLED || info.owner_domain != s.domain_id {
            fail_state(s)
        } else {
            (BringUpState { stage: BringUpStage::Identity, requester: info.requester, ..s }, BringUpAction::ConfigRead(info.requester, 0))
        },
        (BringUpStage::Identity, BringUpEvent::Answer(identity)) => if identity == HYPERCALL_INVALID_ARGUMENT
            || identity % 0x1_0000 == 0xffff || identity > 0xffff_ffff {
            fail_state(s)
        } else {
            (
                BringUpState { stage: BringUpStage::Resources, identity: identity as u32, resources: 0, ..s },
                BringUpAction::QueryResource(s.requester, 0),
            )
        },
        (BringUpStage::Resources, BringUpEvent::Resource { result, resource }) => if result == HYPERCALL_INVALID_ARGUMENT {
            finish_resources(s)
        } else if result != HYPERCALL_SUCCESS || !resource.validate() || resource.requester != s.requester
            || resource.guest_address < s.window_start || resource.length > u64::MAX - resource.guest_address
            || resource.guest_address + resource.length > s.window_start + s.window_size {
            fail_state(s)
        } else if s.resources >= MAX_DEVICE_RESOURCES - 1 {
            finish_resources(BringUpState { resources: s.resources + 1, ..s })
        } else {
            (BringUpState { resources: s.resources + 1, ..s }, BringUpAction::QueryResource(s.requester, s.resources + 1))
        },
        (BringUpStage::Activate, BringUpEvent::Answer(result)) => if result != HYPERCALL_SUCCESS {
            fail_state(s)
        } else {
            (BringUpState { stage: BringUpStage::ConfirmActive, ..s }, BringUpAction::QueryDevice(s.index))
        },
        (BringUpStage::ConfirmActive, BringUpEvent::Queried { result, info }) => if result != HYPERCALL_SUCCESS
            || info.state != PCI_DEVICE_STATE_ACTIVE {
            fail_state(s)
        } else {
            (BringUpState { stage: BringUpStage::Command, ..s }, BringUpAction::ConfigRead(s.requester, 4))
        },
        (BringUpStage::Command, BringUpEvent::Answer(command)) => if command == HYPERCALL_INVALID_ARGUMENT
            || command & COMMAND_MEMORY_DECODE == 0 {
            fail_state(s)
        } else {
            (BringUpState { stage: BringUpStage::Verify, ..s }, BringUpAction::Verify(s.requester, s.identity))
        },
        (BringUpStage::Verify, BringUpEvent::Verified(passed)) => if !passed {
            fail_state(s)
        } else {
            (BringUpState { stage: BringUpStage::Release, ..s }, BringUpAction::Release(s.requester))
        },
        (BringUpStage::Release, BringUpEvent::Answer(result)) => if result != HYPERCALL_SUCCESS {
            fail_state(s)
        } else {
            (BringUpState { stage: BringUpStage::ConfirmQuarantine, ..s }, BringUpAction::QueryDevice(s.index))
        },
        (BringUpStage::ConfirmQuarantine, BringUpEvent::Queried { result, info }) => if result != HYPERCALL_SUCCESS
            || info.state != PCI_DEVICE_STATE_QUARANTINED {
            fail_state(s)
        } else {
            advance_device(s)
        },
        (BringUpStage::Ready, BringUpEvent::Answer(result)) => if result != HYPERCALL_SUCCESS {
            fail_state(s)
        } else {
            (BringUpState { stage: BringUpStage::Running, ..s }, BringUpAction::Wait)
        },
        (BringUpStage::Running, _) => (s, BringUpAction::Wait),
        _ => fail_state(s),
    }
}

} // verus!

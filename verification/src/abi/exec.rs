//! Process creation metadata shared by the kernel and its user space.

use vstd::prelude::*;

verus! {

/// Process role supplied to the manifest-based exec system call.
#[derive(Clone, Copy, Debug, PartialEq, Eq, Structural)]
pub enum ProcessRole {
    CoreService,
    Service,
    Application,
    Driver,
    Tool,
    Unknown,
}

/// System call value of each role: 1 through 6 in declaration order.
pub open spec fn role_value(role: ProcessRole) -> u64 {
    match role {
        ProcessRole::CoreService => 1,
        ProcessRole::Service => 2,
        ProcessRole::Application => 3,
        ProcessRole::Driver => 4,
        ProcessRole::Tool => 5,
        ProcessRole::Unknown => 6,
    }
}

impl ProcessRole {
    /// Value of this role on the system call boundary.
    pub fn raw(self) -> (r: u64)
        ensures
            r == role_value(self),
    {
        match self {
            ProcessRole::CoreService => 1,
            ProcessRole::Service => 2,
            ProcessRole::Application => 3,
            ProcessRole::Driver => 4,
            ProcessRole::Tool => 5,
            ProcessRole::Unknown => 6,
        }
    }

    pub fn from_raw(raw: u64) -> (r: Option<Self>)
        ensures
            match r {
                Some(role) => role_value(role) == raw,
                None => !(1 <= raw <= 6),
            },
    {
        match raw {
            1 => Some(ProcessRole::CoreService),
            2 => Some(ProcessRole::Service),
            3 => Some(ProcessRole::Application),
            4 => Some(ProcessRole::Driver),
            5 => Some(ProcessRole::Tool),
            6 => Some(ProcessRole::Unknown),
            _ => None,
        }
    }
}

/// Decoding the system call value of a role gives the role back.
pub proof fn process_role_round_trip(role: ProcessRole)
    ensures
        1 <= role_value(role) <= 6,
        forall|other: ProcessRole| role_value(other) == role_value(role) ==> other == role,
{
}

} // verus!

//! The result of probing one host.

use vstd::prelude::*;

verus! {

/// Mathematical model of a [`HostStatus`]: the same fields over `Seq<char>`
/// and `int`.
pub struct HostStatusV {
    pub name: Seq<char>,
    pub is_primary: bool,
    pub timeline_id: int,
    pub replica_attached: bool,
}

/// Status of one successfully probed host: its name, whether it reported
/// itself as a primary, its replication timeline identifier, and whether at
/// least one standby was attached to it. Built only after every status query
/// for the host succeeded, and never mutated afterwards.
pub struct HostStatus {
    pub name: String,
    pub is_primary: bool,
    pub timeline_id: i32,
    pub replica_attached: bool,
}

impl View for HostStatus {
    type V = HostStatusV;

    open spec fn view(&self) -> HostStatusV {
        HostStatusV {
            name: self.name@,
            is_primary: self.is_primary,
            timeline_id: self.timeline_id as int,
            replica_attached: self.replica_attached,
        }
    }
}

} // verus!

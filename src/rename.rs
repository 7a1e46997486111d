use vstd::prelude::*;
use crate::model::SyncState;

verus! {

/// How a run treats the network name it was asked for, against the stored one.
#[derive(Clone, Copy, Debug, PartialEq, Eq, Structural)]
pub enum RenameDecision {
    /// Same network: go straight to diffing.
    Unchanged,
    /// Another network, nothing synced: adopt the new name.
    ChangedEmpty,
    /// Another network, records exist, and their removal is authorized.
    ChangedNonEmptyAllowed,
    /// Another network, records exist, and nothing authorizes their removal.
    ChangedNonEmptyDenied,
}

pub open spec fn rename_decision_of(
    stored: Seq<char>,
    synced: nat,
    requested: Seq<char>,
    allow: bool,
) -> RenameDecision {
    if stored == requested {
        RenameDecision::Unchanged
    } else if synced == 0 {
        RenameDecision::ChangedEmpty
    } else if allow {
        RenameDecision::ChangedNonEmptyAllowed
    } else {
        RenameDecision::ChangedNonEmptyDenied
    }
}

/// Decides the rename recovery step for a run on network `requested`.
pub fn decide_rename(state: &SyncState, requested: &String, allow: bool) -> (r: RenameDecision)
    ensures
        r == rename_decision_of(
            state.network_name@,
            state.servers_synced@.len(),
            requested@,
            allow,
        ),
{
    if state.network_name == *requested {
        RenameDecision::Unchanged
    } else if state.servers_synced.len() == 0 {
        RenameDecision::ChangedEmpty
    } else if allow {
        RenameDecision::ChangedNonEmptyAllowed
    } else {
        RenameDecision::ChangedNonEmptyDenied
    }
}

} // verus!

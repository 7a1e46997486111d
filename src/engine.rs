use vstd::prelude::*;
use crate::diff::{adds_of, compute_diff, lemma_apply_diff_converges, removes_of, Diff};
use crate::model::{fqdn, fqdn_of, Server, SyncError, SyncState};
use crate::rename::{decide_rename, rename_decision_of, RenameDecision};

verus! {

/// Where a run stands: each phase but the first and the last two waits for
/// the outcome of the action issued on entering it.
#[derive(Clone, Copy, Debug, PartialEq, Eq, Structural)]
pub enum Phase {
    Start,
    /// Deleting the record of the first synced server of the old network.
    RenameDeleting,
    /// Saving the state after one such deletion.
    RenameSaving,
    /// Saving the state after adopting the requested network name.
    AdoptSaving,
    /// Listing the members of the network.
    Listing,
    /// Fetching the detail of the next server to add.
    Hydrating,
    /// Creating the record of `hydrated[cursor]`.
    Creating,
    /// Updating the record of `hydrated[cursor]`, which already existed.
    Updating,
    /// Saving the state after recording `hydrated[cursor]`.
    AddSaving,
    /// Deleting the record of `to_remove[cursor]`.
    Removing,
    /// Saving the state after forgetting `to_remove[cursor]`.
    RemoveSaving,
    Done,
    Failed(SyncError),
}

/// Outside work the caller performs next, reporting its outcome as an `Event`.
#[derive(Clone, Debug)]
pub enum Action {
    /// Delete the address record of this name.
    DeleteRecord { fqdn: String },
    /// Write the current sync state to stable storage.
    SaveState,
    /// List the ids of the servers attached to this network.
    ListMembers { network_name: String },
    /// Fetch the hostname and the address on the network of this server.
    FetchServer { id: i64 },
    /// Create an address record.
    CreateRecord { fqdn: String, ip_address: String },
    /// Update an existing address record.
    UpdateRecord { fqdn: String, ip_address: String },
    /// The run completed.
    Finish,
    /// The run ends with this error.
    Abort { error: SyncError },
}

/// The outcome of the last action.
#[derive(Clone, Debug)]
pub enum Event {
    /// Starts the run.
    Begin,
    /// The delete, save, create or update succeeded.
    Succeeded,
    /// The DNS server rejected a create, as it does for an existing record.
    AlreadyExists,
    /// The member ids of the network.
    Members { ids: Vec<i64> },
    /// The detail of the fetched server; no address when it is not attached.
    ServerDetail { hostname: String, ip_on_network: Option<String> },
    /// The action failed.
    Failed { error: SyncError },
}

/// `a` deletes the record named `name`.
pub open spec fn deletes(a: Action, name: Seq<char>) -> bool {
    a is DeleteRecord && a->DeleteRecord_fqdn@ == name
}

/// `a` creates the record of `s` in `zone`.
pub open spec fn creates(a: Action, s: Server, zone: Seq<char>) -> bool {
    &&& a is CreateRecord
    &&& a->CreateRecord_fqdn@ == fqdn_of(s.hostname@, zone)
    &&& a->CreateRecord_ip_address@ == s.ip_address@
}

/// `a` updates the record of `s` in `zone`.
pub open spec fn updates(a: Action, s: Server, zone: Seq<char>) -> bool {
    &&& a is UpdateRecord
    &&& a->UpdateRecord_fqdn@ == fqdn_of(s.hostname@, zone)
    &&& a->UpdateRecord_ip_address@ == s.ip_address@
}

/// `a` is a call on the DNS server.
pub open spec fn is_dns_call(a: Action) -> bool {
    a is DeleteRecord || a is CreateRecord || a is UpdateRecord
}

/// The reconciliation of one run, as a state machine over the sync state.
pub struct Reconciler {
    /// The in-memory sync state; each `SaveState` action persists it.
    pub state: SyncState,
    pub network_name: String,
    pub zone_name: String,
    pub allow_network_change: bool,
    pub phase: Phase,
    /// The member ids, once listed.
    pub members: Vec<i64>,
    pub diff: Diff,
    /// The servers of `diff.to_add` fetched so far, in order.
    pub hydrated: Vec<Server>,
    pub cursor: usize,
    /// The synced ids when the diff was computed.
    pub base: Ghost<Set<i64>>,
    /// The sync state the run started from.
    pub start: Ghost<SyncState>,
}

impl Reconciler {
    /// The state has adopted the requested network.
    pub open spec fn adopted(&self) -> bool {
        self.state.network_name@ == self.network_name@
    }

    /// The diff is that of `base` against the members.
    pub open spec fn planned(&self) -> bool {
        self.diff.is_diff_of(self.base@, self.members@.to_set())
    }

    /// The hydrated servers are those of `to_add`, in order.
    pub open spec fn hydrated_prefix(&self) -> bool {
        &&& self.hydrated@.len() <= self.diff.to_add@.len()
        &&& forall|i: int|
            0 <= i < self.hydrated@.len() ==> #[trigger] self.hydrated@[i].id == self.diff.to_add@[i]
    }

    /// The synced ids after `n` additions.
    pub open spec fn ids_after_adds(&self, n: int) -> Set<i64> {
        self.base@.union(self.diff.to_add@.take(n).to_set())
    }

    /// The synced ids after all additions and `n` removals.
    pub open spec fn ids_after_removals(&self, n: int) -> Set<i64> {
        self.base@.union(self.diff.to_add@.to_set()).difference(self.diff.to_remove@.take(n).to_set())
    }

    /// During rename recovery: the starting state without its first
    /// servers, in order, under the old network name.
    pub open spec fn drained_prefix(&self) -> bool {
        let first = self.start@.servers_synced@;
        let now = self.state.servers_synced@;
        &&& self.state.network_name == self.start@.network_name
        &&& now.len() <= first.len()
        &&& now == first.subrange(first.len() - now.len(), first.len() as int)
    }

    pub open spec fn adding(&self) -> bool {
        &&& self.adopted()
        &&& self.planned()
        &&& self.hydrated_prefix()
        &&& self.hydrated@.len() == self.diff.to_add@.len()
        &&& self.cursor < self.hydrated@.len()
    }

    pub open spec fn removing(&self) -> bool {
        &&& self.adopted()
        &&& self.planned()
        &&& self.cursor < self.diff.to_remove@.len()
    }

    /// The invariant of every phase.
    pub open spec fn wf(&self) -> bool {
        &&& self.state.wf()
        &&& match self.phase {
            Phase::Start => self.state == self.start@,
            Phase::RenameDeleting => self.state.servers_synced@.len() > 0 && self.drained_prefix(),
            Phase::RenameSaving => self.drained_prefix(),
            Phase::AdoptSaving => self.adopted(),
            Phase::Listing => self.adopted(),
            Phase::Hydrating => {
                &&& self.adopted()
                &&& self.planned()
                &&& self.hydrated_prefix()
                &&& self.hydrated@.len() < self.diff.to_add@.len()
                &&& self.state.synced_ids() == self.base@
            },
            Phase::Creating => self.adding() && self.state.synced_ids() == self.ids_after_adds(
                self.cursor as int,
            ),
            Phase::Updating => self.adding() && self.state.synced_ids() == self.ids_after_adds(
                self.cursor as int,
            ),
            Phase::AddSaving => self.adding() && self.state.synced_ids() == self.ids_after_adds(
                self.cursor + 1,
            ),
            Phase::Removing => self.removing() && self.state.synced_ids()
                == self.ids_after_removals(self.cursor as int),
            Phase::RemoveSaving => self.removing() && self.state.synced_ids()
                == self.ids_after_removals(self.cursor + 1),
            Phase::Done => self.adopted() && self.state.synced_ids() == self.members@.to_set(),
            Phase::Failed(_) => true,
        }
    }

    /// The parameters of the run are those of `other`.
    pub open spec fn same_run(&self, other: Reconciler) -> bool {
        &&& self.start == other.start
        &&& self.network_name == other.network_name
        &&& self.zone_name == other.zone_name
        &&& self.allow_network_change == other.allow_network_change
    }

    /// What the machine now waits for agrees with the action `a` it issued.
    pub open spec fn issued(&self, a: Action) -> bool {
        &&& a is CreateRecord ==> self.phase == Phase::Creating && creates(
            a,
            self.hydrated@[self.cursor as int],
            self.zone_name@,
        )
        &&& a is UpdateRecord ==> self.phase == Phase::Updating && updates(
            a,
            self.hydrated@[self.cursor as int],
            self.zone_name@,
        )
        &&& a is Finish ==> self.phase == Phase::Done
        &&& a is Abort ==> self.phase == Phase::Failed(a->error)
        &&& a is ListMembers ==> self.phase == Phase::Listing && a->network_name == self.network_name
        &&& a is FetchServer ==> self.phase == Phase::Hydrating && a->id
            == self.diff.to_add@[self.hydrated@.len() as int]
        &&& a is SaveState ==> self.phase == Phase::RenameSaving || self.phase == Phase::AdoptSaving
            || self.phase == Phase::AddSaving || self.phase == Phase::RemoveSaving
        &&& a is DeleteRecord ==> self.phase == Phase::RenameDeleting || self.phase
            == Phase::Removing
        &&& a is DeleteRecord && self.phase == Phase::RenameDeleting ==> deletes(
            a,
            fqdn_of(self.state.servers_synced@[0].hostname@, self.zone_name@),
        )
        &&& a is DeleteRecord && self.phase == Phase::Removing ==> exists|k: int|
            0 <= k < self.state.servers_synced@.len() && self.state.servers_synced@[k].id
                == self.diff.to_remove@[self.cursor as int] && deletes(
                a,
                fqdn_of(self.state.servers_synced@[k].hostname@, self.zone_name@),
            )
    }

    /// The member list, the diff, its base and the hydrated servers are
    /// those of `other`.
    pub open spec fn keeps_plan(&self, other: Reconciler) -> bool {
        &&& self.members == other.members
        &&& self.diff == other.diff
        &&& self.base == other.base
        &&& self.hydrated == other.hydrated
    }

    fn fail(&mut self, error: SyncError) -> (a: Action)
        requires
            old(self).state.wf(),
        ensures
            final(self).wf(),
            final(self).same_run(*old(self)),
            final(self).keeps_plan(*old(self)),
            final(self).state == old(self).state,
            final(self).phase == Phase::Failed(error),
            final(self).members == old(self).members,
            final(self).diff == old(self).diff,
            final(self).hydrated == old(self).hydrated,
            final(self).cursor == old(self).cursor,
            a == (Action::Abort { error }),
            final(self).issued(a),
    {
        self.phase = Phase::Failed(error);
        Action::Abort { error }
    }

    /// Issues the deletion of the first synced server of the old network.
    fn delete_first(&mut self) -> (a: Action)
        requires
            old(self).state.wf(),
            old(self).state.servers_synced@.len() > 0,
            old(self).drained_prefix(),
        ensures
            final(self).wf(),
            final(self).same_run(*old(self)),
            final(self).keeps_plan(*old(self)),
            final(self).state == old(self).state,
            final(self).phase == Phase::RenameDeleting,
            deletes(a, fqdn_of(old(self).state.servers_synced@[0].hostname@, old(self).zone_name@)),
            final(self).issued(a),
    {
        self.phase = Phase::RenameDeleting;
        Action::DeleteRecord { fqdn: fqdn(&self.state.servers_synced[0].hostname, &self.zone_name) }
    }

    /// Issues the creation of the record of `hydrated[cursor]`.
    fn issue_create(&mut self) -> (a: Action)
        requires
            old(self).state.wf(),
            old(self).adding(),
            old(self).state.synced_ids() == old(self).ids_after_adds(old(self).cursor as int),
        ensures
            final(self).wf(),
            final(self).same_run(*old(self)),
            final(self).keeps_plan(*old(self)),
            final(self).state == old(self).state,
            final(self).hydrated == old(self).hydrated,
            final(self).cursor == old(self).cursor,
            final(self).phase == Phase::Creating,
            creates(a, old(self).hydrated@[old(self).cursor as int], old(self).zone_name@),
            final(self).issued(a),
    {
        self.phase = Phase::Creating;
        let s = &self.hydrated[self.cursor];
        Action::CreateRecord { fqdn: fqdn(&s.hostname, &self.zone_name), ip_address: s.ip_address.clone() }
    }

    /// Issues the deletion of the record of `to_remove[cursor]`.
    fn issue_removal(&mut self) -> (a: Action)
        requires
            old(self).state.wf(),
            old(self).removing(),
            old(self).state.synced_ids() == old(self).ids_after_removals(old(self).cursor as int),
        ensures
            final(self).wf(),
            final(self).same_run(*old(self)),
            final(self).keeps_plan(*old(self)),
            final(self).state == old(self).state,
            final(self).diff == old(self).diff,
            final(self).members == old(self).members,
            final(self).cursor == old(self).cursor,
            final(self).phase == Phase::Removing,
            a is DeleteRecord,
            final(self).issued(a),
    {
        let id = self.diff.to_remove[self.cursor];
        proof {
            let rm = self.diff.to_remove@;
            let c = self.cursor as int;
            assert(rm.to_set().contains(rm[c]));
            assert(!self.diff.to_add@.to_set().contains(id));
            if rm.take(c).to_set().contains(id) {
                let j = choose|j: int| 0 <= j < rm.take(c).len() && rm.take(c)[j] == id;
                assert(rm[j] == rm[c]);
            }
            assert(self.state.synced_ids().contains(id));
        }
        match self.state.position_of(id) {
            Some(k) => {
                self.phase = Phase::Removing;
                Action::DeleteRecord { fqdn: fqdn(&self.state.servers_synced[k].hostname, &self.zone_name) }
            },
            // not reached: every id to remove is among the synced ones
            None => self.fail(SyncError::DataConsistency),
        }
    }

    /// Moves to the removals once every addition is recorded.
    fn start_removals(&mut self) -> (a: Action)
        requires
            old(self).state.wf(),
            old(self).adopted(),
            old(self).planned(),
            old(self).state.synced_ids() == old(self).base@.union(old(self).diff.to_add@.to_set()),
        ensures
            final(self).wf(),
            final(self).same_run(*old(self)),
            final(self).keeps_plan(*old(self)),
            old(self).diff.to_remove@.len() > 0 ==> a is DeleteRecord && final(self).phase
                == Phase::Removing && final(self).cursor == 0,
            final(self).state == old(self).state,
            final(self).members == old(self).members,
            final(self).diff == old(self).diff,
            old(self).diff.to_remove@.len() == 0 ==> a is Finish,
            a is Finish || a is DeleteRecord,
            final(self).issued(a),
    {
        self.cursor = 0;
        if self.diff.to_remove.len() == 0 {
            proof {
                lemma_apply_diff_converges(self.base@, self.members@.to_set());
                assert(removes_of(self.base@, self.members@.to_set()) =~= Set::empty());
                assert(self.state.synced_ids() =~= self.base@.union(adds_of(self.base@, self.members@.to_set())).difference(removes_of(self.base@, self.members@.to_set())));
            }
            self.phase = Phase::Done;
            Action::Finish
        } else {
            proof {
                assert(self.diff.to_remove@.take(0).to_set() =~= Set::empty());
                assert(self.ids_after_removals(0) =~= self.state.synced_ids());
            }
            self.issue_removal()
        }
    }

    fn on_begin(&mut self) -> (a: Action)
        requires
            old(self).wf(),
            old(self).phase == Phase::Start,
        ensures
            final(self).wf(),
            final(self).same_run(*old(self)),
            final(self).keeps_plan(*old(self)),
            final(self).issued(a),
            final(self).state == old(self).state || a is SaveState,
            is_dns_call(a) ==> final(self).state == old(self).state,
            ({
                let d = rename_decision_of(
                    old(self).state.network_name@,
                    old(self).state.servers_synced@.len(),
                    old(self).network_name@,
                    old(self).allow_network_change,
                );
                &&& d == RenameDecision::Unchanged ==> a == (Action::ListMembers {
                    network_name: old(self).network_name,
                }) && final(self).state == old(self).state
                &&& d == RenameDecision::ChangedEmpty ==> a is SaveState
                    && final(self).state.network_name@ == old(self).network_name@
                    && final(self).state.servers_synced == old(self).state.servers_synced
                &&& d == RenameDecision::ChangedNonEmptyDenied ==> a == (Action::Abort {
                    error: SyncError::DeniedOperation,
                }) && final(self).state == old(self).state
                &&& d == RenameDecision::ChangedNonEmptyAllowed ==> deletes(
                    a,
                    fqdn_of(old(self).state.servers_synced@[0].hostname@, old(self).zone_name@),
                ) && final(self).state == old(self).state
            }),
    {
        match decide_rename(&self.state, &self.network_name, self.allow_network_change) {
            RenameDecision::Unchanged => {
                self.phase = Phase::Listing;
                Action::ListMembers { network_name: self.network_name.clone() }
            },
            RenameDecision::ChangedEmpty => {
                self.state.network_name = self.network_name.clone();
                self.phase = Phase::AdoptSaving;
                Action::SaveState
            },
            RenameDecision::ChangedNonEmptyAllowed => {
                proof {
                    let first = self.start@.servers_synced@;
                    assert(first.subrange(0, first.len() as int) =~= first);
                }
                self.delete_first()
            },
            RenameDecision::ChangedNonEmptyDenied => self.fail(SyncError::DeniedOperation),
        }
    }

    fn on_rename_deleted(&mut self) -> (a: Action)
        requires
            old(self).wf(),
            old(self).phase == Phase::RenameDeleting,
        ensures
            final(self).wf(),
            final(self).same_run(*old(self)),
            final(self).keeps_plan(*old(self)),
            final(self).issued(a),
            a is SaveState,
            final(self).state.network_name == old(self).state.network_name,
            final(self).state.servers_synced@ == old(self).state.servers_synced@.remove(0),
    {
        let id = self.state.servers_synced[0].id;
        proof {
            let ids = crate::model::ids_of(self.state.servers_synced@);
            assert(ids[0] == id);
            assert(self.state.synced_ids().contains(id));
        }
        self.state.forget_server(id);
        proof {
            let ids = crate::model::ids_of(old(self).state.servers_synced@);
            let k = choose|k: int|
                0 <= k < old(self).state.servers_synced@.len() && old(self).state.servers_synced@[k].id == id
                    && self.state.servers_synced@ == old(self).state.servers_synced@.remove(k);
            assert(ids[k] == ids[0]);
            let first = self.start@.servers_synced@;
            let n = old(self).state.servers_synced@.len();
            assert(self.state.servers_synced@ =~= first.subrange(first.len() - (n - 1), first.len() as int));
        }
        self.phase = Phase::RenameSaving;
        Action::SaveState
    }

    fn on_rename_saved(&mut self) -> (a: Action)
        requires
            old(self).wf(),
            old(self).phase == Phase::RenameSaving,
        ensures
            final(self).wf(),
            final(self).same_run(*old(self)),
            final(self).keeps_plan(*old(self)),
            final(self).issued(a),
            final(self).state == old(self).state || a is SaveState,
            is_dns_call(a) ==> final(self).state == old(self).state,
            old(self).state.servers_synced@.len() == 0 ==> a is SaveState
                && final(self).phase == Phase::AdoptSaving
                && final(self).state.network_name@ == old(self).network_name@
                && final(self).state.servers_synced == old(self).state.servers_synced,
            old(self).state.servers_synced@.len() > 0 ==> deletes(
                a,
                fqdn_of(old(self).state.servers_synced@[0].hostname@, old(self).zone_name@),
            ) && final(self).state == old(self).state,
    {
        if self.state.servers_synced.len() == 0 {
            self.state.network_name = self.network_name.clone();
            self.phase = Phase::AdoptSaving;
            Action::SaveState
        } else {
            self.delete_first()
        }
    }

    fn on_members(&mut self, ids: Vec<i64>) -> (a: Action)
        requires
            old(self).wf(),
            old(self).phase == Phase::Listing,
        ensures
            final(self).wf(),
            final(self).same_run(*old(self)),
            final(self).base@ == old(self).state.synced_ids(),
            final(self).hydrated@.len() == 0,
            final(self).diff.to_add@.len() > 0 ==> a == (Action::FetchServer {
                id: final(self).diff.to_add@[0],
            }),
            final(self).diff.to_add@.len() == 0 && final(self).diff.to_remove@.len() > 0 ==> a is DeleteRecord
                && final(self).phase == Phase::Removing && final(self).cursor == 0,
            final(self).diff.to_add@.len() == 0 && final(self).diff.to_remove@.len() == 0 ==> a is Finish,
            final(self).issued(a),
            final(self).state == old(self).state,
            final(self).members == ids,
            final(self).diff.is_diff_of(old(self).state.synced_ids(), ids@.to_set()),
            old(self).state.synced_ids() == ids@.to_set() ==> a is Finish,
    {
        self.diff = compute_diff(&self.state, &ids);
        self.base = Ghost(self.state.synced_ids());
        self.members = ids;
        self.hydrated = Vec::new();
        proof {
            if self.state.synced_ids() == self.members@.to_set() {
                crate::diff::lemma_converged_diff_is_empty(self.diff, self.base@, self.members@.to_set());
            }
        }
        if self.diff.to_add.len() > 0 {
            self.phase = Phase::Hydrating;
            Action::FetchServer { id: self.diff.to_add[0] }
        } else {
            proof {
                assert(self.diff.to_add@.to_set() =~= Set::empty());
                assert(self.base@.union(self.diff.to_add@.to_set()) =~= self.state.synced_ids());
            }
            self.start_removals()
        }
    }

    fn on_server_detail(&mut self, hostname: String, ip_on_network: Option<String>) -> (a: Action)
        requires
            old(self).wf(),
            old(self).phase == Phase::Hydrating,
        ensures
            final(self).wf(),
            final(self).same_run(*old(self)),
            final(self).members == old(self).members,
            final(self).diff == old(self).diff,
            final(self).base == old(self).base,
            ip_on_network is Some && final(self).hydrated@.len() < final(self).diff.to_add@.len() ==> a
                == (Action::FetchServer { id: final(self).diff.to_add@[final(self).hydrated@.len() as int] }),
            ip_on_network is Some && final(self).hydrated@.len() == final(self).diff.to_add@.len() ==> a
                is CreateRecord && final(self).cursor == 0,
            final(self).issued(a),
            final(self).state == old(self).state,
            ip_on_network is None ==> a == (Action::Abort { error: SyncError::DataConsistency }),
            ip_on_network is Some ==> final(self).hydrated@ == old(self).hydrated@.push(
                Server {
                    id: old(self).diff.to_add@[old(self).hydrated@.len() as int],
                    ip_address: ip_on_network->0,
                    hostname,
                },
            ),
    {
        match ip_on_network {
            None => self.fail(SyncError::DataConsistency),
            Some(ip_address) => {
                let id = self.diff.to_add[self.hydrated.len()];
                self.hydrated.push(Server { id, ip_address, hostname });
                if self.hydrated.len() < self.diff.to_add.len() {
                    Action::FetchServer { id: self.diff.to_add[self.hydrated.len()] }
                } else {
                    self.cursor = 0;
                    proof {
                        assert(self.diff.to_add@.take(0).to_set() =~= Set::empty());
                        assert(self.ids_after_adds(0) =~= self.state.synced_ids());
                    }
                    self.issue_create()
                }
            },
        }
    }

    fn on_record_written(&mut self) -> (a: Action)
        requires
            old(self).wf(),
            old(self).phase == Phase::Creating || old(self).phase == Phase::Updating,
        ensures
            final(self).wf(),
            final(self).same_run(*old(self)),
            final(self).keeps_plan(*old(self)),
            final(self).issued(a),
            a is SaveState,
            final(self).state.network_name == old(self).state.network_name,
            final(self).state.servers_synced@ == old(self).state.servers_synced@.push(
                old(self).hydrated@[old(self).cursor as int],
            ),
    {
        let s = self.hydrated[self.cursor].duplicate();
        proof {
            let add = self.diff.to_add@;
            let c = self.cursor as int;
            assert(s.id == add[c]);
            assert(add.to_set().contains(add[c]));
            if add.take(c).to_set().contains(s.id) {
                let j = choose|j: int| 0 <= j < add.take(c).len() && add.take(c)[j] == s.id;
                assert(add[j] == add[c]);
            }
            assert(add.take(c + 1) == add.take(c).push(add[c]));
            add.take(c).lemma_push_to_set_commute(add[c]);
        }
        self.state.record_server(s);
        proof {
            assert(self.state.synced_ids() =~= self.ids_after_adds(self.cursor + 1));
        }
        self.phase = Phase::AddSaving;
        Action::SaveState
    }

    fn on_add_saved(&mut self) -> (a: Action)
        requires
            old(self).wf(),
            old(self).phase == Phase::AddSaving,
        ensures
            final(self).wf(),
            final(self).same_run(*old(self)),
            final(self).keeps_plan(*old(self)),
            old(self).cursor + 1 < old(self).hydrated@.len() ==> a is CreateRecord && final(self).cursor
                == old(self).cursor + 1,
            old(self).cursor + 1 >= old(self).hydrated@.len() && old(self).diff.to_remove@.len() == 0 ==> a is Finish,
            old(self).cursor + 1 >= old(self).hydrated@.len() && old(self).diff.to_remove@.len() > 0 ==> a
                is DeleteRecord && final(self).phase == Phase::Removing && final(self).cursor == 0,
            final(self).issued(a),
            final(self).state == old(self).state,
    {
        if self.cursor < self.hydrated.len() - 1 {
            self.cursor = self.cursor + 1;
            self.issue_create()
        } else {
            proof {
                assert(self.diff.to_add@.take(self.cursor + 1) == self.diff.to_add@);
            }
            self.start_removals()
        }
    }

    fn on_removed(&mut self) -> (a: Action)
        requires
            old(self).wf(),
            old(self).phase == Phase::Removing,
        ensures
            final(self).wf(),
            final(self).same_run(*old(self)),
            final(self).keeps_plan(*old(self)),
            exists|k: int|
                0 <= k < old(self).state.servers_synced@.len() && old(self).state.servers_synced@[k].id
                    == old(self).diff.to_remove@[old(self).cursor as int]
                    && final(self).state.servers_synced@ == old(self).state.servers_synced@.remove(k),
            final(self).issued(a),
            a is SaveState,
            final(self).state.network_name == old(self).state.network_name,
            final(self).state.synced_ids() == old(self).state.synced_ids().remove(
                old(self).diff.to_remove@[old(self).cursor as int],
            ),
    {
        let id = self.diff.to_remove[self.cursor];
        proof {
            let rm = self.diff.to_remove@;
            let c = self.cursor as int;
            assert(rm.to_set().contains(rm[c]));
            assert(!self.diff.to_add@.to_set().contains(id));
            if rm.take(c).to_set().contains(id) {
                let j = choose|j: int| 0 <= j < rm.take(c).len() && rm.take(c)[j] == id;
                assert(rm[j] == rm[c]);
            }
            assert(self.state.synced_ids().contains(id));
        }
        self.state.forget_server(id);
        proof {
            let rm = self.diff.to_remove@;
            let c = self.cursor as int;
            assert(rm.take(c + 1) == rm.take(c).push(rm[c]));
            rm.take(c).lemma_push_to_set_commute(rm[c]);
            assert(self.state.synced_ids() =~= self.ids_after_removals(c + 1));
        }
        self.phase = Phase::RemoveSaving;
        Action::SaveState
    }

    fn on_remove_saved(&mut self) -> (a: Action)
        requires
            old(self).wf(),
            old(self).phase == Phase::RemoveSaving,
        ensures
            final(self).wf(),
            final(self).same_run(*old(self)),
            final(self).keeps_plan(*old(self)),
            old(self).cursor + 1 < old(self).diff.to_remove@.len() ==> a is DeleteRecord && final(self).phase
                == Phase::Removing && final(self).cursor == old(self).cursor + 1,
            old(self).cursor + 1 >= old(self).diff.to_remove@.len() ==> a is Finish,
            final(self).issued(a),
            final(self).state == old(self).state,
    {
        if self.cursor < self.diff.to_remove.len() - 1 {
            self.cursor = self.cursor + 1;
            self.issue_removal()
        } else {
            proof {
                assert(self.diff.to_remove@.take(self.cursor + 1) == self.diff.to_remove@);
                lemma_apply_diff_converges(self.base@, self.members@.to_set());
                assert(self.state.synced_ids() =~= self.members@.to_set());
            }
            self.phase = Phase::Done;
            Action::Finish
        }
    }

    /// Takes the outcome of the last action and returns the next action.
    ///
    /// Every change of the sync state is followed by a `SaveState` action
    /// before any further DNS call, so the persisted state is never behind
    /// the DNS records by more than the one operation in flight. An event
    /// that does not answer the action issued last ends the run with
    /// `SyncError::Provider`.
    pub fn step(&mut self, event: Event) -> (a: Action)
        requires
            old(self).wf(),
        ensures
            final(self).wf(),
            final(self).same_run(*old(self)),
            final(self).issued(a),
            final(self).state == old(self).state || a is SaveState,
            is_dns_call(a) ==> final(self).state == old(self).state,
            // what a step leaves alone
            !(old(self).phase == Phase::Listing && event is Members) && !(old(self).phase
                == Phase::Hydrating && event is ServerDetail) ==> final(self).keeps_plan(*old(self)),
            old(self).phase == Phase::Hydrating ==> final(self).members == old(self).members
                && final(self).diff == old(self).diff && final(self).base == old(self).base,
            !(event is Succeeded && (old(self).phase == Phase::RenameDeleting || old(self).phase
                == Phase::RenameSaving || old(self).phase == Phase::Creating || old(self).phase
                == Phase::Updating || old(self).phase == Phase::Removing)) && !(old(self).phase
                == Phase::Start && event is Begin) ==> final(self).state == old(self).state,
            // after a save
            old(self).phase == Phase::AdoptSaving && event is Succeeded ==> a == (Action::ListMembers {
                network_name: old(self).network_name,
            }) && final(self).phase == Phase::Listing,
            old(self).phase == Phase::AddSaving && event is Succeeded ==> {
                &&& old(self).cursor + 1 < old(self).hydrated@.len() ==> final(self).cursor
                    == old(self).cursor + 1 && creates(
                    a,
                    old(self).hydrated@[old(self).cursor + 1],
                    old(self).zone_name@,
                )
                &&& old(self).cursor + 1 >= old(self).hydrated@.len()
                    && old(self).diff.to_remove@.len() == 0 ==> a is Finish
                &&& old(self).cursor + 1 >= old(self).hydrated@.len()
                    && old(self).diff.to_remove@.len() > 0 ==> a is DeleteRecord && final(self).phase
                    == Phase::Removing && final(self).cursor == 0
            },
            old(self).phase == Phase::RemoveSaving && event is Succeeded ==> {
                &&& old(self).cursor + 1 < old(self).diff.to_remove@.len() ==> a is DeleteRecord
                    && final(self).phase == Phase::Removing && final(self).cursor == old(self).cursor + 1
                &&& old(self).cursor + 1 >= old(self).diff.to_remove@.len() ==> a is Finish
            },
            a is Finish ==> final(self).adopted() && final(self).state.wf()
                && final(self).state.synced_ids() == final(self).members@.to_set(),
            // rename recovery
            old(self).phase == Phase::Start && event is Begin ==> ({
                let d = rename_decision_of(
                    old(self).state.network_name@,
                    old(self).state.servers_synced@.len(),
                    old(self).network_name@,
                    old(self).allow_network_change,
                );
                &&& d == RenameDecision::Unchanged ==> a == (Action::ListMembers {
                    network_name: old(self).network_name,
                }) && final(self).state == old(self).state
                &&& d == RenameDecision::ChangedEmpty ==> a is SaveState
                    && final(self).state.network_name@ == old(self).network_name@
                    && final(self).state.servers_synced == old(self).state.servers_synced
                &&& d == RenameDecision::ChangedNonEmptyDenied ==> a == (Action::Abort {
                    error: SyncError::DeniedOperation,
                }) && final(self).state == old(self).state
                &&& d == RenameDecision::ChangedNonEmptyAllowed ==> deletes(
                    a,
                    fqdn_of(old(self).state.servers_synced@[0].hostname@, old(self).zone_name@),
                ) && final(self).state == old(self).state
            }),
            old(self).phase == Phase::RenameDeleting && event is Succeeded ==> a is SaveState
                && final(self).state.network_name == old(self).state.network_name
                && final(self).state.servers_synced@ == old(self).state.servers_synced@.remove(0),
            old(self).phase == Phase::RenameSaving && event is Succeeded ==> {
                &&& old(self).state.servers_synced@.len() == 0 ==> a is SaveState
                    && final(self).phase == Phase::AdoptSaving
                    && final(self).state.network_name@ == old(self).network_name@
                    && final(self).state.servers_synced == old(self).state.servers_synced
                &&& old(self).state.servers_synced@.len() > 0 ==> deletes(
                    a,
                    fqdn_of(old(self).state.servers_synced@[0].hostname@, old(self).zone_name@),
                ) && final(self).state == old(self).state
            },
            // diff
            old(self).phase == Phase::Listing && event is Members ==> {
                &&& final(self).members == event->ids
                &&& final(self).diff.is_diff_of(old(self).state.synced_ids(), event->ids@.to_set())
                &&& old(self).state.synced_ids() == event->ids@.to_set() ==> a is Finish
                &&& final(self).base@ == old(self).state.synced_ids()
                &&& final(self).hydrated@.len() == 0
                &&& final(self).diff.to_add@.len() > 0 ==> a == (Action::FetchServer {
                    id: final(self).diff.to_add@[0],
                })
                &&& final(self).diff.to_add@.len() == 0 && final(self).diff.to_remove@.len() > 0 ==> a
                    is DeleteRecord && final(self).phase == Phase::Removing && final(self).cursor == 0
                &&& final(self).diff.to_add@.len() == 0 && final(self).diff.to_remove@.len() == 0 ==> a
                    is Finish
            },
            old(self).phase == Phase::Hydrating && event is ServerDetail
                && event->ip_on_network is None ==> a == (Action::Abort {
                error: SyncError::DataConsistency,
            }),
            old(self).phase == Phase::Hydrating && event is ServerDetail
                && event->ip_on_network is Some ==> final(self).hydrated@ == old(self).hydrated@.push(
                Server {
                    id: old(self).diff.to_add@[old(self).hydrated@.len() as int],
                    ip_address: event->ip_on_network->0,
                    hostname: event->hostname,
                },
            ) && (final(self).hydrated@.len() < final(self).diff.to_add@.len() ==> a
                == (Action::FetchServer { id: final(self).diff.to_add@[final(self).hydrated@.len() as int] }))
                && (final(self).hydrated@.len() == final(self).diff.to_add@.len() ==> final(self).cursor
                == 0 && creates(a, final(self).hydrated@[0], old(self).zone_name@)),
            // create-or-update
            old(self).phase == Phase::Creating && event is AlreadyExists ==> final(self).phase
                == Phase::Updating && final(self).cursor == old(self).cursor && final(self).hydrated
                == old(self).hydrated && updates(
                a,
                old(self).hydrated@[old(self).cursor as int],
                old(self).zone_name@,
            ),
            old(self).phase == Phase::Updating ==> !(a is CreateRecord) && !(a is UpdateRecord),
            (old(self).phase == Phase::Creating || old(self).phase == Phase::Updating)
                && event is Succeeded ==> a is SaveState && final(self).state.network_name
                == old(self).state.network_name && final(self).state.servers_synced@
                == old(self).state.servers_synced@.push(old(self).hydrated@[old(self).cursor as int]),
            old(self).phase == Phase::Removing && event is Succeeded ==> a is SaveState
                && final(self).state.network_name == old(self).state.network_name
                && final(self).state.synced_ids() == old(self).state.synced_ids().remove(
                old(self).diff.to_remove@[old(self).cursor as int],
            ) && exists|k: int|
                0 <= k < old(self).state.servers_synced@.len() && old(self).state.servers_synced@[k].id
                    == old(self).diff.to_remove@[old(self).cursor as int]
                    && final(self).state.servers_synced@ == old(self).state.servers_synced@.remove(k),
            // failures and the end
            event is Failed && old(self).phase != Phase::Done && !(old(self).phase is Failed)
                ==> a == (Action::Abort { error: event->error }) && final(self).state
                == old(self).state,
            old(self).phase == Phase::Done ==> a is Finish && final(self).state == old(self).state,
            old(self).phase is Failed ==> a == (Action::Abort { error: old(self).phase->0 })
                && final(self).state == old(self).state,
    {
        match self.phase {
            Phase::Done => {
                return Action::Finish;
            },
            Phase::Failed(error) => {
                return Action::Abort { error };
            },
            _ => {},
        }
        match event {
            Event::Failed { error } => self.fail(error),
            Event::Begin => {
                if self.phase == Phase::Start {
                    self.on_begin()
                } else {
                    self.fail(SyncError::Provider)
                }
            },
            Event::Succeeded => {
                match self.phase {
                    Phase::RenameDeleting => self.on_rename_deleted(),
                    Phase::RenameSaving => self.on_rename_saved(),
                    Phase::AdoptSaving => {
                        self.phase = Phase::Listing;
                        Action::ListMembers { network_name: self.network_name.clone() }
                    },
                    Phase::Creating => self.on_record_written(),
                    Phase::Updating => self.on_record_written(),
                    Phase::AddSaving => self.on_add_saved(),
                    Phase::Removing => self.on_removed(),
                    Phase::RemoveSaving => self.on_remove_saved(),
                    _ => self.fail(SyncError::Provider),
                }
            },
            Event::AlreadyExists => {
                if self.phase == Phase::Creating {
                    self.phase = Phase::Updating;
                    let s = &self.hydrated[self.cursor];
                    Action::UpdateRecord {
                        fqdn: fqdn(&s.hostname, &self.zone_name),
                        ip_address: s.ip_address.clone(),
                    }
                } else {
                    self.fail(SyncError::Provider)
                }
            },
            Event::Members { ids } => {
                if self.phase == Phase::Listing {
                    self.on_members(ids)
                } else {
                    self.fail(SyncError::Provider)
                }
            },
            Event::ServerDetail { hostname, ip_on_network } => {
                if self.phase == Phase::Hydrating {
                    self.on_server_detail(hostname, ip_on_network)
                } else {
                    self.fail(SyncError::Provider)
                }
            },
        }
    }

    /// A completed run starts the next run from the state it leaves, on the
    /// same network: with unchanged membership that run keeps its network
    /// and its diff is empty, so it makes no DNS call.
    pub proof fn lemma_completed_run_is_idempotent(&self, allow: bool, next: Diff)
        requires
            self.wf(),
            self.phase == Phase::Done,
            next.is_diff_of(self.state.synced_ids(), self.members@.to_set()),
        ensures
            rename_decision_of(
                self.state.network_name@,
                self.state.servers_synced@.len(),
                self.network_name@,
                allow,
            ) == RenameDecision::Unchanged,
            next.to_add@.len() == 0,
            next.to_remove@.len() == 0,
    {
        crate::diff::lemma_converged_diff_is_empty(next, self.state.synced_ids(), self.members@.to_set());
    }

    /// Rename recovery deletes in order: whenever it waits on a deletion or
    /// a save, the state holds the starting servers without the first `k`
    /// of them, order kept, under the old network name, where `k` counts the
    /// deletions that succeeded.
    pub proof fn lemma_rename_drains_in_order(&self)
        requires
            self.wf(),
            self.phase == Phase::RenameDeleting || self.phase == Phase::RenameSaving,
        ensures
            self.state.network_name == self.start@.network_name,
            ({
                let first = self.start@.servers_synced@;
                let k = first.len() - self.state.servers_synced@.len();
                0 <= k <= first.len() && self.state.servers_synced@ == first.subrange(
                    k,
                    first.len() as int,
                )
            }),
    {
    }

    /// Crash safety: the state saved after some of the additions, or after
    /// all additions and some removals, gives against unchanged membership a
    /// diff that holds exactly the operations not yet applied.
    pub proof fn lemma_saved_progress_resumes(&self, next: Diff)
        requires
            self.wf(),
            self.phase == Phase::AddSaving || self.phase == Phase::RemoveSaving,
            next.is_diff_of(self.state.synced_ids(), self.members@.to_set()),
        ensures
            self.phase == Phase::AddSaving ==> next.to_add@.to_set() == self.diff.to_add@.to_set().difference(
                self.diff.to_add@.take(self.cursor + 1).to_set(),
            ) && next.to_remove@.to_set() == self.diff.to_remove@.to_set(),
            self.phase == Phase::RemoveSaving ==> next.to_add@.to_set() == Set::<i64>::empty()
                && next.to_remove@.to_set() == self.diff.to_remove@.to_set().difference(
                self.diff.to_remove@.take(self.cursor + 1).to_set(),
            ),
    {
        let current = self.members@.to_set();
        let add = self.diff.to_add@;
        let rm = self.diff.to_remove@;
        if self.phase == Phase::AddSaving {
            let prefix = add.take(self.cursor + 1);
            let done = prefix.to_set();
            assert forall|x: i64| done.contains(x) implies add.to_set().contains(x) by {
                let j = choose|j: int| 0 <= j < prefix.len() && prefix[j] == x;
                assert(add[j] == x);
            }
            crate::diff::lemma_resume_plans_remaining(self.base@, current, done, Set::empty());
            assert(self.base@.union(done).difference(Set::empty()) =~= self.base@.union(done));
            assert(removes_of(self.base@, current).difference(Set::empty()) =~= removes_of(self.base@, current));
        } else {
            let prefix = rm.take(self.cursor + 1);
            let done = prefix.to_set();
            assert forall|x: i64| done.contains(x) implies rm.to_set().contains(x) by {
                let j = choose|j: int| 0 <= j < prefix.len() && prefix[j] == x;
                assert(rm[j] == x);
            }
            crate::diff::lemma_resume_plans_remaining(self.base@, current, add.to_set(), done);
            assert(adds_of(self.base@, current).difference(add.to_set()) =~= Set::empty());
        }
    }

    /// A run on network `network_name` from the loaded state `state`.
    pub fn new(state: SyncState, network_name: String, zone_name: String, allow_network_change: bool) -> (r: Reconciler)
        requires
            state.wf(),
        ensures
            r.wf(),
            r.phase == Phase::Start,
            r.state == state,
            r.network_name == network_name,
            r.zone_name == zone_name,
            r.allow_network_change == allow_network_change,
            r.start@ == state,
    {
        Reconciler {
            state,
            network_name,
            zone_name,
            allow_network_change,
            phase: Phase::Start,
            members: Vec::new(),
            diff: Diff { to_add: Vec::new(), to_remove: Vec::new() },
            hydrated: Vec::new(),
            cursor: 0,
            base: Ghost(Set::empty()),
            start: Ghost(state),
        }
    }
}

} // verus!

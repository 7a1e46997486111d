use hetzner_private_dns_sync::diff::{compute_diff, set_difference};
use hetzner_private_dns_sync::engine::{Action, Event, Phase, Reconciler};
use hetzner_private_dns_sync::model::{contains_id, fqdn, server_ids, Server, SyncError, SyncState};
use hetzner_private_dns_sync::rename::{decide_rename, RenameDecision};

const ZONE: &str = "internal.example";

/// An in-memory cloud network, DNS zone and state file.
struct World {
    members: Vec<(i64, String, Option<String>)>,
    records: Vec<(String, String)>,
    calls: Vec<String>,
    saved: SyncState,
    saves: usize,
    crash_after_saves: Option<usize>,
    fail_creates: bool,
}

#[derive(Debug, PartialEq)]
enum Outcome {
    Finished,
    Aborted(SyncError),
    Crashed,
}

impl World {
    fn new(members: &[(i64, &str, &str)]) -> World {
        World {
            members: members
                .iter()
                .map(|(id, h, ip)| (*id, h.to_string(), Some(ip.to_string())))
                .collect(),
            records: Vec::new(),
            calls: Vec::new(),
            saved: SyncState::empty(),
            saves: 0,
            crash_after_saves: None,
            fail_creates: false,
        }
    }

    fn dns_calls(&self) -> Vec<String> {
        self.calls
            .iter()
            .filter(|c| c.starts_with("create") || c.starts_with("update") || c.starts_with("delete"))
            .cloned()
            .collect()
    }

    fn record(&self, name: &str) -> Option<String> {
        self.records.iter().find(|(n, _)| n == name).map(|(_, ip)| ip.clone())
    }

    fn run(&mut self, network: &str, allow: bool) -> Outcome {
        let mut r = Reconciler::new(self.saved.clone(), network.to_string(), ZONE.to_string(), allow);
        let mut action = r.step(Event::Begin);
        loop {
            let event = match action {
                Action::Finish => return Outcome::Finished,
                Action::Abort { error } => return Outcome::Aborted(error),
                Action::SaveState => {
                    self.calls.push("save".to_string());
                    self.saved = r.state.clone();
                    self.saves += 1;
                    if Some(self.saves) == self.crash_after_saves {
                        return Outcome::Crashed;
                    }
                    Event::Succeeded
                }
                Action::ListMembers { network_name } => {
                    self.calls.push(format!("list {}", network_name));
                    Event::Members { ids: self.members.iter().map(|m| m.0).collect() }
                }
                Action::FetchServer { id } => {
                    self.calls.push(format!("fetch {}", id));
                    match self.members.iter().find(|m| m.0 == id) {
                        Some((_, h, ip)) => Event::ServerDetail { hostname: h.clone(), ip_on_network: ip.clone() },
                        None => Event::Failed { error: SyncError::Configuration },
                    }
                }
                Action::CreateRecord { fqdn, ip_address } => {
                    self.calls.push(format!("create {} {}", fqdn, ip_address));
                    if self.fail_creates {
                        Event::Failed { error: SyncError::Provider }
                    } else if self.record(&fqdn).is_some() {
                        Event::AlreadyExists
                    } else {
                        self.records.push((fqdn, ip_address));
                        Event::Succeeded
                    }
                }
                Action::UpdateRecord { fqdn, ip_address } => {
                    self.calls.push(format!("update {} {}", fqdn, ip_address));
                    self.records.retain(|(n, _)| *n != fqdn);
                    self.records.push((fqdn, ip_address));
                    Event::Succeeded
                }
                Action::DeleteRecord { fqdn } => {
                    self.calls.push(format!("delete {}", fqdn));
                    self.records.retain(|(n, _)| *n != fqdn);
                    Event::Succeeded
                }
            };
            action = r.step(event);
        }
    }
}

fn server(id: i64, host: &str, ip: &str) -> Server {
    Server { id, ip_address: ip.to_string(), hostname: host.to_string() }
}

fn sorted_ids(state: &SyncState) -> Vec<i64> {
    let mut ids = server_ids(&state.servers_synced);
    ids.sort();
    ids
}

fn three_members() -> World {
    World::new(&[(1, "web", "10.0.0.2"), (2, "db", "10.0.0.3"), (3, "cache", "10.0.0.4")])
}

#[test]
fn fqdn_joins_host_and_zone() {
    assert_eq!(fqdn(&"web".to_string(), &"example.com".to_string()), "web.example.com");
    assert_eq!(fqdn(&"a".to_string(), &"".to_string()), "a.");
}

#[test]
fn set_difference_keeps_each_missing_id_once() {
    assert_eq!(set_difference(&vec![5, 1, 5, 2, 3], &vec![2, 7]), vec![5, 1, 3]);
    assert_eq!(set_difference(&vec![], &vec![1]), Vec::<i64>::new());
    assert_eq!(set_difference(&vec![1, 2], &vec![]), vec![1, 2]);
}

#[test]
fn contains_id_finds_members() {
    assert!(contains_id(&vec![4, 5, 6], 6));
    assert!(!contains_id(&vec![4, 5, 6], 7));
    assert!(!contains_id(&vec![], 0));
}

#[test]
fn diff_adds_new_members_and_removes_departed_ones() {
    let state = SyncState {
        network_name: "net".to_string(),
        servers_synced: vec![server(1, "a", "10.0.0.1"), server(2, "b", "10.0.0.2")],
    };
    let d = compute_diff(&state, &vec![2, 3, 3, 4]);
    assert_eq!(d.to_add, vec![3, 4]);
    assert_eq!(d.to_remove, vec![1]);
    assert!(!d.is_empty());
    assert!(compute_diff(&state, &vec![2, 1]).is_empty());
}

#[test]
fn rename_decisions() {
    let mut state = SyncState::empty();
    assert_eq!(decide_rename(&state, &"".to_string(), false), RenameDecision::Unchanged);
    assert_eq!(decide_rename(&state, &"net".to_string(), false), RenameDecision::ChangedEmpty);
    state.network_name = "old".to_string();
    state.servers_synced.push(server(1, "a", "10.0.0.1"));
    assert_eq!(decide_rename(&state, &"old".to_string(), false), RenameDecision::Unchanged);
    assert_eq!(decide_rename(&state, &"new".to_string(), true), RenameDecision::ChangedNonEmptyAllowed);
    assert_eq!(decide_rename(&state, &"new".to_string(), false), RenameDecision::ChangedNonEmptyDenied);
}

#[test]
fn state_add_and_remove_servers() {
    let mut state = SyncState::empty();
    assert!(state.has_unique_ids());
    state.record_server(server(7, "a", "10.0.0.7"));
    state.record_server(server(8, "b", "10.0.0.8"));
    assert_eq!(state.position_of(8), Some(1));
    assert_eq!(state.position_of(9), None);
    state.forget_server(7);
    assert_eq!(server_ids(&state.servers_synced), vec![8]);
    state.forget_server(42);
    assert_eq!(server_ids(&state.servers_synced), vec![8]);
    state.servers_synced.push(server(8, "c", "10.0.0.9"));
    assert!(!state.has_unique_ids());
}

#[test]
fn first_run_creates_a_record_per_member() {
    let mut w = three_members();
    assert_eq!(w.run("net", false), Outcome::Finished);
    assert_eq!(sorted_ids(&w.saved), vec![1, 2, 3]);
    assert_eq!(w.saved.network_name, "net");
    assert_eq!(w.record("web.internal.example"), Some("10.0.0.2".to_string()));
    assert_eq!(w.record("cache.internal.example"), Some("10.0.0.4".to_string()));
    assert_eq!(w.dns_calls().len(), 3);
}

#[test]
fn membership_change_adds_and_removes() {
    let mut w = three_members();
    assert_eq!(w.run("net", false), Outcome::Finished);
    w.members.retain(|m| m.0 != 2);
    w.members.push((9, "queue".to_string(), Some("10.0.0.9".to_string())));
    w.calls.clear();
    assert_eq!(w.run("net", false), Outcome::Finished);
    assert_eq!(sorted_ids(&w.saved), vec![1, 3, 9]);
    assert_eq!(
        w.dns_calls(),
        vec!["create queue.internal.example 10.0.0.9".to_string(), "delete db.internal.example".to_string()]
    );
    assert_eq!(w.record("db.internal.example"), None);
}

#[test]
fn duplicate_member_ids_are_synced_once() {
    let mut w = World::new(&[(1, "web", "10.0.0.2"), (1, "web", "10.0.0.2")]);
    assert_eq!(w.run("net", false), Outcome::Finished);
    assert_eq!(sorted_ids(&w.saved), vec![1]);
    assert_eq!(w.dns_calls().len(), 1);
}

#[test]
fn second_run_without_changes_makes_no_dns_call() {
    let mut w = three_members();
    assert_eq!(w.run("net", false), Outcome::Finished);
    w.calls.clear();
    assert_eq!(w.run("net", false), Outcome::Finished);
    assert!(w.dns_calls().is_empty());
    assert_eq!(w.calls, vec!["list net".to_string()]);
}

#[test]
fn rename_with_empty_state_adopts_name_without_dns_calls() {
    let mut w = World::new(&[]);
    w.saved.network_name = "old".to_string();
    assert_eq!(w.run("new", false), Outcome::Finished);
    assert_eq!(w.saved.network_name, "new");
    assert!(w.dns_calls().is_empty());
    assert_eq!(w.calls, vec!["save".to_string(), "list new".to_string()]);
}

#[test]
fn rename_without_authorization_fails_before_any_call() {
    let mut w = three_members();
    assert_eq!(w.run("old", false), Outcome::Finished);
    let before = w.saved.clone();
    w.calls.clear();
    assert_eq!(w.run("new", false), Outcome::Aborted(SyncError::DeniedOperation));
    assert!(w.calls.is_empty());
    assert_eq!(w.saved.network_name, before.network_name);
    assert_eq!(sorted_ids(&w.saved), sorted_ids(&before));
}

#[test]
fn authorized_rename_deletes_each_record_once() {
    let mut w = three_members();
    assert_eq!(w.run("old", false), Outcome::Finished);
    w.members.clear();
    w.calls.clear();
    assert_eq!(w.run("new", true), Outcome::Finished);
    let deletes: Vec<String> = w.dns_calls();
    assert_eq!(deletes.len(), 3);
    for host in ["web", "db", "cache"] {
        let call = format!("delete {}.{}", host, ZONE);
        assert_eq!(deletes.iter().filter(|c| **c == call).count(), 1);
    }
    assert!(w.saved.servers_synced.is_empty());
    assert_eq!(w.saved.network_name, "new");
    assert!(w.records.is_empty());
}

#[test]
fn authorized_rename_persists_after_each_delete() {
    for n in 1..=3usize {
        let mut w = three_members();
        assert_eq!(w.run("old", false), Outcome::Finished);
        w.members.clear();
        w.saves = 0;
        w.crash_after_saves = Some(n);
        assert_eq!(w.run("new", true), Outcome::Crashed);
        assert_eq!(w.saved.servers_synced.len(), 3 - n);
        assert_eq!(w.records.len(), 3 - n);
        assert_eq!(w.saved.network_name, "old");
    }
}

#[test]
fn create_rejected_as_existing_falls_back_to_one_update() {
    let mut w = World::new(&[(1, "web", "10.0.0.2")]);
    w.records.push(("web.internal.example".to_string(), "10.9.9.9".to_string()));
    assert_eq!(w.run("net", false), Outcome::Finished);
    assert_eq!(
        w.dns_calls(),
        vec![
            "create web.internal.example 10.0.0.2".to_string(),
            "update web.internal.example 10.0.0.2".to_string()
        ]
    );
    assert_eq!(w.record("web.internal.example"), Some("10.0.0.2".to_string()));
    assert_eq!(sorted_ids(&w.saved), vec![1]);
}

#[test]
fn restart_after_crash_performs_only_the_remaining_operations() {
    let mut w = three_members();
    w.crash_after_saves = Some(3);
    // saves: adopt the network name, then one per created record
    assert_eq!(w.run("net", false), Outcome::Crashed);
    assert_eq!(w.saved.servers_synced.len(), 2);
    w.crash_after_saves = None;
    w.calls.clear();
    assert_eq!(w.run("net", false), Outcome::Finished);
    assert_eq!(w.dns_calls().len(), 1);
    assert_eq!(sorted_ids(&w.saved), vec![1, 2, 3]);
}

#[test]
fn server_without_network_address_is_a_consistency_error() {
    let mut w = World::new(&[(1, "web", "10.0.0.2")]);
    w.members.push((2, "lost".to_string(), None));
    assert_eq!(w.run("net", false), Outcome::Aborted(SyncError::DataConsistency));
    assert!(w.dns_calls().is_empty());
}

#[test]
fn failed_create_aborts_and_keeps_committed_progress() {
    let mut w = World::new(&[(1, "web", "10.0.0.2")]);
    assert_eq!(w.run("net", false), Outcome::Finished);
    w.members.push((2, "db".to_string(), Some("10.0.0.3".to_string())));
    w.fail_creates = true;
    assert_eq!(w.run("net", false), Outcome::Aborted(SyncError::Provider));
    assert_eq!(sorted_ids(&w.saved), vec![1]);
}

#[test]
fn missing_network_aborts_with_configuration_error() {
    let mut r = Reconciler::new(SyncState::empty(), "net".to_string(), ZONE.to_string(), false);
    assert!(matches!(r.step(Event::Begin), Action::SaveState));
    assert!(matches!(r.step(Event::Succeeded), Action::ListMembers { .. }));
    let a = r.step(Event::Failed { error: SyncError::Configuration });
    assert!(matches!(a, Action::Abort { error: SyncError::Configuration }));
    assert_eq!(r.phase, Phase::Failed(SyncError::Configuration));
    assert!(matches!(r.step(Event::Succeeded), Action::Abort { error: SyncError::Configuration }));
}

#[test]
fn unexpected_event_is_a_provider_error() {
    let mut r = Reconciler::new(SyncState::empty(), "".to_string(), ZONE.to_string(), false);
    assert!(matches!(r.step(Event::Succeeded), Action::Abort { error: SyncError::Provider }));
}

#[test]
fn completed_run_keeps_answering_finish() {
    let mut r = Reconciler::new(SyncState::empty(), "".to_string(), ZONE.to_string(), false);
    assert!(matches!(r.step(Event::Begin), Action::ListMembers { .. }));
    assert!(matches!(r.step(Event::Members { ids: vec![] }), Action::Finish));
    assert_eq!(r.phase, Phase::Done);
    assert!(matches!(r.step(Event::Begin), Action::Finish));
}

#[test]
fn interrupted_rename_keeps_the_undeleted_servers_in_order() {
    for k in 1..=2usize {
        let mut w = three_members();
        assert_eq!(w.run("old", false), Outcome::Finished);
        let before = server_ids(&w.saved.servers_synced);
        w.members.clear();
        w.saves = 0;
        w.crash_after_saves = Some(k);
        assert_eq!(w.run("new", true), Outcome::Crashed);
        assert_eq!(server_ids(&w.saved.servers_synced), before[k..].to_vec());
        assert_eq!(w.saved.network_name, "old");
    }
}

#[test]
fn adds_come_before_removals_and_each_is_saved() {
    let mut w = World::new(&[(1, "web", "10.0.0.2")]);
    assert_eq!(w.run("net", false), Outcome::Finished);
    w.members = vec![(2, "db".to_string(), Some("10.0.0.3".to_string()))];
    w.calls.clear();
    assert_eq!(w.run("net", false), Outcome::Finished);
    assert_eq!(
        w.calls,
        vec![
            "list net".to_string(),
            "fetch 2".to_string(),
            "create db.internal.example 10.0.0.3".to_string(),
            "save".to_string(),
            "delete web.internal.example".to_string(),
            "save".to_string(),
        ]
    );
    assert_eq!(sorted_ids(&w.saved), vec![2]);
}

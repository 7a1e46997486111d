use vstd::prelude::*;
use crate::model::{contains_id, id_set, server_ids, SyncState};

verus! {

/// The records to create and the records to delete to converge.
#[derive(Clone, Debug)]
pub struct Diff {
    pub to_add: Vec<i64>,
    pub to_remove: Vec<i64>,
}

/// What `to_add` must hold: members not yet reflected in DNS.
pub open spec fn adds_of(known: Set<i64>, current: Set<i64>) -> Set<i64> {
    current.difference(known)
}

/// What `to_remove` must hold: records whose server left the network.
pub open spec fn removes_of(known: Set<i64>, current: Set<i64>) -> Set<i64> {
    known.difference(current)
}

impl Diff {
    /// The diff of `known` (ids reflected in DNS) against `current` (members).
    pub open spec fn is_diff_of(&self, known: Set<i64>, current: Set<i64>) -> bool {
        &&& self.to_add@.no_duplicates()
        &&& self.to_remove@.no_duplicates()
        &&& self.to_add@.to_set() == adds_of(known, current)
        &&& self.to_remove@.to_set() == removes_of(known, current)
    }

    /// Nothing to create and nothing to delete.
    pub fn is_empty(&self) -> (r: bool)
        ensures
            r == (self.to_add@.len() == 0 && self.to_remove@.len() == 0),
    {
        self.to_add.len() == 0 && self.to_remove.len() == 0
    }
}

/// The ids of `a` that are not in `b`, each once, in their order in `a`.
pub fn set_difference(a: &Vec<i64>, b: &Vec<i64>) -> (r: Vec<i64>)
    ensures
        r@.no_duplicates(),
        r@.to_set() == a@.to_set().difference(b@.to_set()),
{
    let mut r: Vec<i64> = Vec::new();
    let mut i: usize = 0;
    while i < a.len()
        invariant
            i <= a.len(),
            r@.no_duplicates(),
            forall|x: i64| r@.contains(x) <==> (a@.subrange(0, i as int).contains(x) && !b@.contains(x)),
        decreases a.len() - i,
    {
        let x = a[i];
        let ghost prev = r@;
        if !contains_id(b, x) && !contains_id(&r, x) {
            r.push(x);
            proof {
                assert forall|y: i64| r@.contains(y) <==> (prev.contains(y) || y == x) by {
                    if r@.contains(y) && y != x {
                        let k = choose|k: int| 0 <= k < r@.len() && r@[k] == y;
                        assert(prev[k] == y);
                    }
                    if y == x {
                        assert(r@[prev.len() as int] == x);
                    }
                    if prev.contains(y) {
                        let k = choose|k: int| 0 <= k < prev.len() && prev[k] == y;
                        assert(r@[k] == y);
                    }
                }
            }
        }
        proof {
            assert forall|y: i64| a@.subrange(0, i + 1).contains(y) <==> (a@.subrange(0, i as int).contains(y) || y == x) by {
                let s0 = a@.subrange(0, i as int);
                let s1 = a@.subrange(0, i + 1);
                if s1.contains(y) && y != x {
                    let k = choose|k: int| 0 <= k < s1.len() && s1[k] == y;
                    assert(s0[k] == y);
                }
                if y == x {
                    assert(s1[i as int] == x);
                }
                if s0.contains(y) {
                    let k = choose|k: int| 0 <= k < s0.len() && s0[k] == y;
                    assert(s1[k] == y);
                }
            }
            assert forall|y: i64| r@.contains(y) <==> (a@.subrange(0, i + 1).contains(y) && !b@.contains(y)) by {
                assert(prev.contains(y) <==> (a@.subrange(0, i as int).contains(y) && !b@.contains(y)));
            }
        }
        i += 1;
    }
    proof {
        assert(a@.subrange(0, i as int) == a@);
        assert(r@.to_set() =~= a@.to_set().difference(b@.to_set()));
    }
    r
}

/// The diff of a state's synced servers against the network's member ids.
pub fn compute_diff(state: &SyncState, current: &Vec<i64>) -> (r: Diff)
    ensures
        r.is_diff_of(state.synced_ids(), current@.to_set()),
{
    let known = server_ids(&state.servers_synced);
    Diff { to_add: set_difference(current, &known), to_remove: set_difference(&known, current) }
}

/// Converged state: when the state reflects exactly the current members,
/// the diff is empty, so a second run performs no DNS operation.
pub proof fn lemma_converged_diff_is_empty(d: Diff, known: Set<i64>, current: Set<i64>)
    requires
        d.is_diff_of(known, current),
        known == current,
    ensures
        d.to_add@.len() == 0,
        d.to_remove@.len() == 0,
{
    if d.to_add@.len() > 0 {
        assert(d.to_add@.to_set().contains(d.to_add@[0]));
    }
    if d.to_remove@.len() > 0 {
        assert(d.to_remove@.to_set().contains(d.to_remove@[0]));
    }
}

/// Resuming after a crash: once some of the additions and some of the
/// removals of a diff have been applied and persisted, the diff of the
/// persisted ids against unchanged membership holds exactly the operations
/// that were not yet applied.
pub proof fn lemma_resume_plans_remaining(
    known: Set<i64>,
    current: Set<i64>,
    added: Set<i64>,
    removed: Set<i64>,
)
    requires
        added.subset_of(adds_of(known, current)),
        removed.subset_of(removes_of(known, current)),
    ensures
        adds_of(known.union(added).difference(removed), current)
            == adds_of(known, current).difference(added),
        removes_of(known.union(added).difference(removed), current)
            == removes_of(known, current).difference(removed),
{
    assert(adds_of(known.union(added).difference(removed), current)
        =~= adds_of(known, current).difference(added));
    assert(removes_of(known.union(added).difference(removed), current)
        =~= removes_of(known, current).difference(removed));
}

/// Applying a whole diff to the ids it was computed from yields the members.
pub proof fn lemma_apply_diff_converges(known: Set<i64>, current: Set<i64>)
    ensures
        known.union(adds_of(known, current)).difference(removes_of(known, current)) == current,
{
    assert(known.union(adds_of(known, current)).difference(removes_of(known, current)) =~= current);
}

} // verus!

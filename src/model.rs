use vstd::prelude::*;

verus! {

/// A cloud server whose address record is (or is to be) kept in the zone.
#[derive(Clone, Debug)]
pub struct Server {
    pub id: i64,
    pub ip_address: String,
    pub hostname: String,
}

/// The durable record of what DNS is believed to reflect.
#[derive(Clone, Debug)]
pub struct SyncState {
    pub network_name: String,
    pub servers_synced: Vec<Server>,
}

/// The errors that end a run.
#[derive(Clone, Copy, Debug, PartialEq, Eq, Structural)]
pub enum SyncError {
    /// The network is missing, or the stored state cannot be read.
    Configuration,
    /// The network name changed while records exist, without authorization.
    DeniedOperation,
    /// A transport or protocol failure of the cloud provider or the DNS server.
    Provider,
    /// A server has no address on the target network.
    DataConsistency,
    /// The state could not be written to stable storage.
    Storage,
}

/// The ids of a list of servers, in order.
pub open spec fn ids_of(servers: Seq<Server>) -> Seq<i64> {
    servers.map_values(|s: Server| s.id)
}

/// The set of ids of a list of servers.
pub open spec fn id_set(servers: Seq<Server>) -> Set<i64> {
    ids_of(servers).to_set()
}

/// The fully qualified name of a host in a zone.
pub open spec fn fqdn_of(hostname: Seq<char>, zone: Seq<char>) -> Seq<char> {
    hostname + seq!['.'] + zone
}

impl Server {
    /// A copy of this server.
    pub fn duplicate(&self) -> (r: Server)
        ensures
            r == *self,
    {
        Server { id: self.id, ip_address: self.ip_address.clone(), hostname: self.hostname.clone() }
    }
}

proof fn lemma_ids_push(servers: Seq<Server>, s: Server)
    ensures
        ids_of(servers.push(s)) == ids_of(servers).push(s.id),
{
    assert(ids_of(servers.push(s)) =~= ids_of(servers).push(s.id));
}

proof fn lemma_ids_remove(servers: Seq<Server>, k: int)
    requires
        0 <= k < servers.len(),
        ids_of(servers).no_duplicates(),
    ensures
        ids_of(servers.remove(k)) == ids_of(servers).remove(k),
        ids_of(servers.remove(k)).no_duplicates(),
        id_set(servers.remove(k)) == id_set(servers).remove(servers[k].id),
{
    let ids = ids_of(servers);
    let rest = ids.remove(k);
    assert(ids_of(servers.remove(k)) =~= rest);
    assert forall|x: i64| rest.contains(x) <==> (ids.contains(x) && x != servers[k].id) by {
        if rest.contains(x) {
            let j = choose|j: int| 0 <= j < rest.len() && rest[j] == x;
            assert(ids[k] == servers[k].id);
            if j < k {
                assert(ids[j] == x);
            } else {
                assert(ids[j + 1] == x);
            }
        }
        if ids.contains(x) && x != servers[k].id {
            let j = choose|j: int| 0 <= j < ids.len() && ids[j] == x;
            if j < k {
                assert(rest[j] == x);
            } else {
                assert(j != k);
                assert(rest[j - 1] == x);
            }
        }
    }
    assert(id_set(servers.remove(k)) =~= id_set(servers).remove(servers[k].id));
}

impl SyncState {
    /// Each server is listed at most once.
    pub open spec fn wf(&self) -> bool {
        ids_of(self.servers_synced@).no_duplicates()
    }

    /// The ids of the servers whose records are believed to exist.
    pub open spec fn synced_ids(&self) -> Set<i64> {
        id_set(self.servers_synced@)
    }

    /// The index of the server with id `id`, if it is synced.
    pub fn position_of(&self, id: i64) -> (r: Option<usize>)
        ensures
            r matches Some(k) ==> k < self.servers_synced@.len() && self.servers_synced@[k as int].id == id,
            r is None ==> !self.synced_ids().contains(id),
    {
        let mut i: usize = 0;
        while i < self.servers_synced.len()
            invariant
                i <= self.servers_synced@.len(),
                forall|j: int| 0 <= j < i ==> #[trigger] self.servers_synced@[j].id != id,
            decreases self.servers_synced.len() - i,
        {
            if self.servers_synced[i].id == id {
                return Some(i);
            }
            i += 1;
        }
        proof {
            if self.synced_ids().contains(id) {
                let ids = ids_of(self.servers_synced@);
                let j = choose|j: int| 0 <= j < ids.len() && ids[j] == id;
                assert(self.servers_synced@[j].id == id);
            }
        }
        None
    }

    /// Records a server whose DNS record now exists.
    pub fn record_server(&mut self, s: Server)
        requires
            old(self).wf(),
            !old(self).synced_ids().contains(s.id),
        ensures
            final(self).wf(),
            final(self).network_name == old(self).network_name,
            final(self).servers_synced@ == old(self).servers_synced@.push(s),
            final(self).synced_ids() == old(self).synced_ids().insert(s.id),
    {
        proof {
            lemma_ids_push(self.servers_synced@, s);
            ids_of(self.servers_synced@).lemma_push_to_set_commute(s.id);
        }
        self.servers_synced.push(s);
    }

    /// Forgets the server with id `id`, whose DNS record no longer exists.
    pub fn forget_server(&mut self, id: i64)
        requires
            old(self).wf(),
        ensures
            final(self).wf(),
            final(self).network_name == old(self).network_name,
            final(self).synced_ids() == old(self).synced_ids().remove(id),
            old(self).synced_ids().contains(id) ==> exists|k: int|
                0 <= k < old(self).servers_synced@.len() && old(self).servers_synced@[k].id == id
                    && final(self).servers_synced@ == old(self).servers_synced@.remove(k),
            !old(self).synced_ids().contains(id) ==> *final(self) == *old(self),
    {
        match self.position_of(id) {
            Some(k) => {
                proof {
                    lemma_ids_remove(self.servers_synced@, k as int);
                    assert(ids_of(self.servers_synced@)[k as int] == id);
                }
                self.servers_synced.remove(k);
            },
            None => {
                proof {
                    assert(self.synced_ids().remove(id) =~= self.synced_ids());
                }
            },
        }
    }

    /// Whether each server is listed at most once, as a loaded state must be.
    pub fn has_unique_ids(&self) -> (r: bool)
        ensures
            r == self.wf(),
    {
        let ids = server_ids(&self.servers_synced);
        let mut i: usize = 0;
        while i < ids.len()
            invariant
                ids@ == ids_of(self.servers_synced@),
                i <= ids@.len(),
                forall|j: int, k: int| 0 <= j < k < i ==> ids@[j] != ids@[k],
            decreases ids.len() - i,
        {
            let mut j: usize = 0;
            while j < i
                invariant
                    ids@ == ids_of(self.servers_synced@),
                    i < ids@.len(),
                    j <= i,
                    forall|a: int, b: int| 0 <= a < b < i ==> ids@[a] != ids@[b],
                    forall|a: int| 0 <= a < j ==> ids@[a] != ids@[i as int],
                decreases i - j,
            {
                if ids[j] == ids[i] {
                    return false;
                }
                j += 1;
            }
            i += 1;
        }
        true
    }

    /// The state of a location that holds nothing yet.
    pub fn empty() -> (r: SyncState)
        ensures
            r.network_name@ == Seq::<char>::empty(),
            r.servers_synced@ == Seq::<Server>::empty(),
            r.wf(),
    {
        SyncState { network_name: String::new(), servers_synced: Vec::new() }
    }
}

/// `hostname.zone`.
pub fn fqdn(hostname: &String, zone: &String) -> (r: String)
    ensures
        r@ == fqdn_of(hostname@, zone@),
{
    let mut r = hostname.clone();
    r.append(".");
    r.append(zone.as_str());
    proof {
        reveal_strlit(".");
    }
    r
}

/// The ids of `servers`, in order.
pub fn server_ids(servers: &Vec<Server>) -> (r: Vec<i64>)
    ensures
        r@ == ids_of(servers@),
{
    let mut r: Vec<i64> = Vec::new();
    let mut i: usize = 0;
    while i < servers.len()
        invariant
            i <= servers.len(),
            r@ == ids_of(servers@.subrange(0, i as int)),
        decreases servers.len() - i,
    {
        proof {
            assert(servers@.subrange(0, i + 1) == servers@.subrange(0, i as int).push(servers@[i as int]));
        }
        r.push(servers[i].id);
        i += 1;
    }
    proof {
        assert(servers@.subrange(0, i as int) == servers@);
    }
    r
}

/// Whether `id` occurs in `ids`.
pub fn contains_id(ids: &Vec<i64>, id: i64) -> (r: bool)
    ensures
        r == ids@.contains(id),
{
    let mut i: usize = 0;
    while i < ids.len()
        invariant
            i <= ids.len(),
            forall|j: int| 0 <= j < i ==> ids@[j] != id,
        decreases ids.len() - i,
    {
        if ids[i] == id {
            return true;
        }
        i += 1;
    }
    false
}

} // verus!

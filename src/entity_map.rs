use std::collections::HashMap;
use std::collections::HashSet;
use vstd::prelude::*;

verus! {

broadcast use vstd::std_specs::hash::group_hash_axioms;

/// Local entity allocation and liveness: ids are handed out in increasing order
/// and never reused.
pub struct Entities {
    next: u64,
    live: HashSet<u64>,
}

impl Entities {
    /// The entities that are spawned and not yet despawned.
    pub closed spec fn live(&self) -> Set<u64> {
        self.live@
    }

    /// The id that the next spawn hands out.
    pub closed spec fn next_id(&self) -> u64 {
        self.next
    }

    pub open spec fn wf(&self) -> bool {
        forall|e: u64| #[trigger] self.live().contains(e) ==> e < self.next_id()
    }

    pub fn new() -> (r: Self)
        ensures
            r.wf(),
            r.live() == Set::<u64>::empty(),
            r.next_id() == 0,
    {
        Entities { next: 0, live: HashSet::new() }
    }

    /// Whether another entity can still be spawned.
    pub fn can_spawn(&self) -> (r: bool)
        ensures
            r == (self.next_id() < u64::MAX),
    {
        self.next < u64::MAX
    }

    /// Spawns a fresh entity.
    pub fn spawn(&mut self) -> (e: u64)
        requires
            old(self).wf(),
            old(self).next_id() < u64::MAX,
        ensures
            final(self).wf(),
            e == old(self).next_id(),
            !old(self).live().contains(e),
            final(self).live() == old(self).live().insert(e),
            final(self).next_id() == e + 1,
    {
        let e = self.next;
        self.live.insert(e);
        self.next = e + 1;
        proof {
            assert forall|x: u64| #[trigger] self.live().contains(x) implies x < self.next_id() by {
                if x != e {
                    assert(old(self).live().contains(x));
                }
            }
        }
        e
    }

    /// Despawns `e`; returns whether it was live. A dead entity is left as it is.
    pub fn despawn(&mut self, e: u64) -> (r: bool)
        requires
            old(self).wf(),
        ensures
            final(self).wf(),
            r == old(self).live().contains(e),
            final(self).live() == old(self).live().remove(e),
            final(self).next_id() == old(self).next_id(),
    {
        let r = self.live.remove(&e);
        proof {
            assert forall|x: u64| #[trigger] self.live().contains(x) implies x < self.next_id() by {
                assert(old(self).live().contains(x));
            }
        }
        r
    }

    pub fn contains(&self, e: u64) -> (r: bool)
        ensures
            r == self.live().contains(e),
    {
        self.live.contains(&e)
    }

    /// The number of live entities.
    pub fn len(&self) -> (r: usize)
        ensures
            r == self.live().len(),
    {
        self.live.len()
    }
}

/// Bidirectional translation between server-assigned and client-assigned entity
/// ids. Both directions always hold the same pairs.
pub struct ServerEntityMap {
    server_to_client: HashMap<u64, u64>,
    client_to_server: HashMap<u64, u64>,
}

impl ServerEntityMap {
    /// Server id to client id.
    pub closed spec fn to_client(&self) -> Map<u64, u64> {
        self.server_to_client@
    }

    /// Client id to server id.
    pub closed spec fn to_server(&self) -> Map<u64, u64> {
        self.client_to_server@
    }

    /// Each pair appears in both directions, and only there.
    pub open spec fn wf(&self) -> bool {
        &&& forall|s: u64| #[trigger]
            self.to_client().contains_key(s) ==> {
                &&& self.to_server().contains_key(self.to_client()[s])
                &&& self.to_server()[self.to_client()[s]] == s
            }
        &&& forall|c: u64| #[trigger]
            self.to_server().contains_key(c) ==> {
                &&& self.to_client().contains_key(self.to_server()[c])
                &&& self.to_client()[self.to_server()[c]] == c
            }
    }

    pub fn new() -> (r: Self)
        ensures
            r.wf(),
            r.to_client() == Map::<u64, u64>::empty(),
            r.to_server() == Map::<u64, u64>::empty(),
    {
        ServerEntityMap { server_to_client: HashMap::new(), client_to_server: HashMap::new() }
    }

    pub fn get_by_server(&self, server: u64) -> (r: Option<u64>)
        ensures
            r == (if self.to_client().contains_key(server) {
                Some(self.to_client()[server])
            } else {
                None
            }),
    {
        match self.server_to_client.get(&server) {
            Some(c) => Some(*c),
            None => None,
        }
    }

    pub fn get_by_client(&self, client: u64) -> (r: Option<u64>)
        ensures
            r == (if self.to_server().contains_key(client) {
                Some(self.to_server()[client])
            } else {
                None
            }),
    {
        match self.client_to_server.get(&client) {
            Some(s) => Some(*s),
            None => None,
        }
    }

    /// Maps `server` to `client` in both directions. Any earlier pair that held
    /// either id is dropped, so that the map stays one to one.
    pub fn insert(&mut self, server: u64, client: u64)
        requires
            old(self).wf(),
        ensures
            final(self).wf(),
            final(self).to_client() == unlink_client(old(self).to_client(), client).remove(
                server,
            ).insert(server, client),
            final(self).to_server() == unlink_client(old(self).to_server(), server).remove(
                client,
            ).insert(client, server),
    {
        self.remove_by_server(server);
        self.remove_by_client(client);
        self.server_to_client.insert(server, client);
        self.client_to_server.insert(client, server);
        proof {
            assert(self.to_client() =~= unlink_client(old(self).to_client(), client).remove(
                server,
            ).insert(server, client));
            assert(self.to_server() =~= unlink_client(old(self).to_server(), server).remove(
                client,
            ).insert(client, server));
        }
    }

    /// Removes the pair of a server id, both directions at once, and returns
    /// the client id it held.
    pub fn remove_by_server(&mut self, server: u64) -> (r: Option<u64>)
        requires
            old(self).wf(),
        ensures
            final(self).wf(),
            r == (if old(self).to_client().contains_key(server) {
                Some(old(self).to_client()[server])
            } else {
                None
            }),
            final(self).to_client() == old(self).to_client().remove(server),
            final(self).to_server() == (match r {
                Some(c) => old(self).to_server().remove(c),
                None => old(self).to_server(),
            }),
    {
        let r = match self.server_to_client.remove(&server) {
            Some(c) => {
                self.client_to_server.remove(&c);
                Some(c)
            },
            None => None,
        };
        proof {
            assert forall|s2: u64| #[trigger] self.to_client().contains_key(s2) implies {
                &&& self.to_server().contains_key(self.to_client()[s2])
                &&& self.to_server()[self.to_client()[s2]] == s2
            } by {
                assert(old(self).to_client().contains_key(s2));
            }
            assert forall|c2: u64| #[trigger] self.to_server().contains_key(c2) implies {
                &&& self.to_client().contains_key(self.to_server()[c2])
                &&& self.to_client()[self.to_server()[c2]] == c2
            } by {
                assert(old(self).to_server().contains_key(c2));
            }
        }
        r
    }

    /// Removes the pair of a client id, both directions at once, and returns
    /// the server id it held.
    pub fn remove_by_client(&mut self, client: u64) -> (r: Option<u64>)
        requires
            old(self).wf(),
        ensures
            final(self).wf(),
            r == (if old(self).to_server().contains_key(client) {
                Some(old(self).to_server()[client])
            } else {
                None
            }),
            final(self).to_server() == old(self).to_server().remove(client),
            final(self).to_client() == (match r {
                Some(s) => old(self).to_client().remove(s),
                None => old(self).to_client(),
            }),
    {
        let r = match self.client_to_server.remove(&client) {
            Some(s) => {
                self.server_to_client.remove(&s);
                Some(s)
            },
            None => None,
        };
        proof {
            assert forall|s2: u64| #[trigger] self.to_client().contains_key(s2) implies {
                &&& self.to_server().contains_key(self.to_client()[s2])
                &&& self.to_server()[self.to_client()[s2]] == s2
            } by {
                assert(old(self).to_client().contains_key(s2));
            }
            assert forall|c2: u64| #[trigger] self.to_server().contains_key(c2) implies {
                &&& self.to_client().contains_key(self.to_server()[c2])
                &&& self.to_client()[self.to_server()[c2]] == c2
            } by {
                assert(old(self).to_server().contains_key(c2));
            }
        }
        r
    }

    pub fn len(&self) -> (r: usize)
        requires
            self.wf(),
        ensures
            r == self.to_client().len(),
    {
        self.server_to_client.len()
    }
}

/// `m` without the pair, if any, whose value is `v`, in a one-to-one map.
pub open spec fn unlink_client(m: Map<u64, u64>, v: u64) -> Map<u64, u64> {
    m.restrict(m.dom().filter(|k: u64| m[k] != v))
}

/// The map is one to one: a server id resolves to a client id exactly when
/// that client id resolves back to it.
pub proof fn lemma_map_is_bijective(m: &ServerEntityMap, s: u64, c: u64)
    requires
        m.wf(),
    ensures
        (m.to_client().contains_key(s) && m.to_client()[s] == c) <==> (m.to_server().contains_key(c)
            && m.to_server()[c] == s),
{
}

/// After `insert(s, c)` both directions resolve; after `remove_by_server(s)`
/// neither does.
pub proof fn lemma_insert_then_remove(
    before: &ServerEntityMap,
    inserted: &ServerEntityMap,
    removed: &ServerEntityMap,
    s: u64,
    c: u64,
)
    requires
        before.wf(),
        inserted.wf(),
        removed.wf(),
        inserted.to_client() == unlink_client(before.to_client(), c).remove(s).insert(s, c),
        inserted.to_server() == unlink_client(before.to_server(), s).remove(c).insert(c, s),
        removed.to_client() == inserted.to_client().remove(s),
    ensures
        inserted.to_client()[s] == c,
        inserted.to_server()[c] == s,
        !removed.to_client().contains_key(s),
        !removed.to_server().contains_key(c),
{
}


/// Every client id that the map holds names a live local entity.
pub open spec fn mapped_live(map: &ServerEntityMap, entities: &Entities) -> bool {
    forall|s: u64| #[trigger]
        map.to_client().contains_key(s) ==> entities.live().contains(map.to_client()[s])
}

/// The client id that `server` translates to: the mapped one, or else `fresh`,
/// the id of the placeholder that translation spawns.
pub open spec fn translation(to_client: Map<u64, u64>, server: u64, fresh: u64) -> u64 {
    if to_client.contains_key(server) {
        to_client[server]
    } else {
        fresh
    }
}

/// Translates a server id to a client id. Without a mapping, spawns a local
/// placeholder entity and maps the server id to it at once, so later
/// references to the same server id resolve to the same entity.
pub fn translate(map: &mut ServerEntityMap, entities: &mut Entities, server: u64) -> (r: u64)
    requires
        old(map).wf(),
        old(entities).wf(),
        mapped_live(old(map), old(entities)),
        old(entities).next_id() < u64::MAX,
    ensures
        final(map).wf(),
        final(entities).wf(),
        mapped_live(final(map), final(entities)),
        r == translation(old(map).to_client(), server, old(entities).next_id()),
        old(map).to_client().contains_key(server) ==> {
            &&& *final(map) == *old(map)
            &&& *final(entities) == *old(entities)
        },
        !old(map).to_client().contains_key(server) ==> {
            &&& !old(entities).live().contains(r)
            &&& final(entities).live() == old(entities).live().insert(r)
            &&& final(entities).next_id() == r + 1
            &&& final(map).to_client() == old(map).to_client().insert(server, r)
            &&& final(map).to_server() == old(map).to_server().insert(r, server)
        },
{
    match map.get_by_server(server) {
        Some(c) => c,
        None => {
            let c = entities.spawn();
            proof {
                assert(!map.to_server().contains_key(c)) by {
                    if map.to_server().contains_key(c) {
                        let s2 = map.to_server()[c];
                        assert(map.to_client().contains_key(s2));
                    }
                }
                assert(unlink_client(map.to_client(), c) =~= map.to_client());
                assert(unlink_client(map.to_server(), server) =~= map.to_server());
            }
            map.insert(server, c);
            proof {
                assert(map.to_client() =~= old(map).to_client().insert(server, c));
                assert(map.to_server() =~= old(map).to_server().insert(c, server));
            }
            c
        },
    }
}

/// A server id translated twice in one pass yields one client id, and only the
/// first translation spawns an entity.
pub proof fn lemma_translate_reuses(
    m0: &ServerEntityMap,
    e0: &Entities,
    m1: &ServerEntityMap,
    e1: &Entities,
    m2: &ServerEntityMap,
    e2: &Entities,
    server: u64,
    first: u64,
    second: u64,
)
    requires
        m0.wf(),
        !m0.to_client().contains_key(server),
        first == translation(m0.to_client(), server, e0.next_id()),
        e1.live() == e0.live().insert(first),
        !e0.live().contains(first),
        m1.to_client() == m0.to_client().insert(server, first),
        second == translation(m1.to_client(), server, e1.next_id()),
        m1.to_client().contains_key(server) ==> (*m2 == *m1 && *e2 == *e1),
    ensures
        first == e0.next_id(),
        second == first,
        e2.live() == e0.live().insert(first),
        m2.to_client()[server] == first,
{
}

} // verus!

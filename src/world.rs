use crate::codec::ComponentValue;
use crate::entity_map::{mapped_live, Entities, ServerEntityMap};
use crate::tick::RepliconTick;
use std::collections::HashMap;
use std::collections::HashSet;
use vstd::prelude::*;

verus! {

broadcast use vstd::std_specs::hash::group_hash_axioms;

/// A stored value of one schema and the tick of the message that wrote it.
#[derive(Clone, Copy, Debug, PartialEq, Eq, Structural)]
pub struct ComponentSlot {
    pub value: ComponentValue,
    pub tick: RepliconTick,
}

/// One target entity as the appliers see it: its values by schema id and the
/// marker tags it carries.
pub struct EntityRecord {
    id: u64,
    components: HashMap<usize, ComponentSlot>,
    markers: HashSet<usize>,
}

impl EntityRecord {
    pub closed spec fn id_spec(&self) -> u64 {
        self.id
    }

    /// Stored values, by schema id.
    pub closed spec fn components(&self) -> Map<usize, ComponentSlot> {
        self.components@
    }

    /// Marker tags, by marker index.
    pub closed spec fn marker_tags(&self) -> Set<usize> {
        self.markers@
    }

    pub fn new(id: u64) -> (r: Self)
        ensures
            r.id_spec() == id,
            r.components() == Map::<usize, ComponentSlot>::empty(),
            r.marker_tags() == Set::<usize>::empty(),
    {
        EntityRecord { id, components: HashMap::new(), markers: HashSet::new() }
    }

    pub fn id(&self) -> (r: u64)
        ensures
            r == self.id_spec(),
    {
        self.id
    }

    pub fn get(&self, schema: usize) -> (r: Option<ComponentSlot>)
        ensures
            r == (if self.components().contains_key(schema) {
                Some(self.components()[schema])
            } else {
                None
            }),
    {
        match self.components.get(&schema) {
            Some(slot) => Some(*slot),
            None => None,
        }
    }

    pub fn contains(&self, schema: usize) -> (r: bool)
        ensures
            r == self.components().contains_key(schema),
    {
        self.components.contains_key(&schema)
    }

    pub fn insert(&mut self, schema: usize, slot: ComponentSlot)
        ensures
            final(self).components() == old(self).components().insert(schema, slot),
            final(self).marker_tags() == old(self).marker_tags(),
            final(self).id_spec() == old(self).id_spec(),
    {
        self.components.insert(schema, slot);
    }

    /// Removes the value of a schema; returns whether there was one.
    pub fn remove(&mut self, schema: usize) -> (r: bool)
        ensures
            r == old(self).components().contains_key(schema),
            final(self).components() == old(self).components().remove(schema),
            final(self).marker_tags() == old(self).marker_tags(),
            final(self).id_spec() == old(self).id_spec(),
    {
        self.components.remove(&schema).is_some()
    }

    pub fn add_marker(&mut self, marker: usize)
        ensures
            final(self).marker_tags() == old(self).marker_tags().insert(marker),
            final(self).components() == old(self).components(),
            final(self).id_spec() == old(self).id_spec(),
    {
        self.markers.insert(marker);
    }

    pub fn remove_marker(&mut self, marker: usize)
        ensures
            final(self).marker_tags() == old(self).marker_tags().remove(marker),
            final(self).components() == old(self).components(),
            final(self).id_spec() == old(self).id_spec(),
    {
        self.markers.remove(&marker);
    }

    pub fn marker_set(&self) -> (r: &HashSet<usize>)
        ensures
            r@ == self.marker_tags(),
    {
        &self.markers
    }
}

/// The client side's entity allocation and its server entity map, kept
/// consistent: every mapped client id is a live entity.
pub struct ClientWorld {
    pub entities: Entities,
    pub entity_map: ServerEntityMap,
}

impl ClientWorld {
    pub open spec fn wf(&self) -> bool {
        &&& self.entities.wf()
        &&& self.entity_map.wf()
        &&& mapped_live(&self.entity_map, &self.entities)
    }

    pub fn new() -> (r: Self)
        ensures
            r.wf(),
            r.entities.live() == Set::<u64>::empty(),
            r.entity_map.to_client() == Map::<u64, u64>::empty(),
    {
        ClientWorld { entities: Entities::new(), entity_map: ServerEntityMap::new() }
    }

    /// Spawns a local entity that no server id maps to yet.
    pub fn spawn(&mut self) -> (e: u64)
        requires
            old(self).wf(),
            old(self).entities.next_id() < u64::MAX,
        ensures
            final(self).wf(),
            !old(self).entities.live().contains(e),
            final(self).entities.live() == old(self).entities.live().insert(e),
            final(self).entity_map == old(self).entity_map,
    {
        self.entities.spawn()
    }

    /// Records that server entity `server` is local entity `client`.
    /// Returns false, changing nothing, when `client` is not live.
    pub fn map_entity(&mut self, server: u64, client: u64) -> (r: bool)
        requires
            old(self).wf(),
        ensures
            final(self).wf(),
            r == old(self).entities.live().contains(client),
            final(self).entities == old(self).entities,
            r ==> final(self).entity_map.to_client()[server] == client,
            r ==> final(self).entity_map.to_server()[client] == server,
            !r ==> final(self).entity_map == old(self).entity_map,
    {
        if !self.entities.contains(client) {
            return false;
        }
        self.entity_map.insert(server, client);
        true
    }
}

} // verus!

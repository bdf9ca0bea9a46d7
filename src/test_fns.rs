use crate::codec::{decode_effect, decoded, encode, in_domain};
use crate::registry::{despawned, removed, written, ApplyError, FnsInfo, ReplicationRegistry};
use crate::codec::DecodeError;
use crate::tick::RepliconTick;
use crate::world::{ClientWorld, ComponentSlot, EntityRecord};
use vstd::prelude::*;

verus! {

/// The marker flags of an entity with tags `tags`, for `n` registered markers.
pub open spec fn marker_flags(tags: Set<usize>, n: nat) -> Seq<bool> {
    Seq::new(n, |i: int| tags.contains(i as usize))
}

/// Calls the registered replication functions on one entity, reading its
/// markers afresh for each apply.
pub trait TestFnsEntityExt: Sized {
    spec fn entity_id(&self) -> u64;

    spec fn values(&self) -> Map<usize, ComponentSlot>;

    spec fn tags(&self) -> Set<usize>;

    /// The entity's value of the entry's schema, serialized with the entry's codec.
    fn serialize(&self, registry: &ReplicationRegistry, fns_info: FnsInfo) -> (r: Vec<u8>)
        requires
            registry.valid_info(fns_info),
            self.values().contains_key(fns_info.schema_id.id),
            in_domain(
                registry.rule_of(fns_info),
                self.values()[fns_info.schema_id.id as usize].value,
            ),
        ensures
            r@ == encode(self.values()[fns_info.schema_id.id as usize].value),
    ;

    /// Decodes `data` and writes it with the applier that the entity's markers select.
    fn apply_write(
        &mut self,
        registry: &ReplicationRegistry,
        world: &mut ClientWorld,
        data: &[u8],
        fns_info: FnsInfo,
        message_tick: RepliconTick,
    ) -> (r: Result<(), ApplyError>)
        requires
            old(world).wf(),
            old(world).entities.next_id() < u64::MAX,
        ensures
            final(world).wf(),
            final(self).entity_id() == old(self).entity_id(),
            final(self).tags() == old(self).tags(),
            !registry.valid_info(fns_info) ==> {
                &&& r == Err::<(), ApplyError>(ApplyError::UnknownFns)
                &&& *final(world) == *old(world)
                &&& final(self).values() == old(self).values()
            },
            registry.valid_info(fns_info) ==> match decoded(
                registry.rule_of(fns_info),
                data@,
                old(world).entity_map.to_client(),
                old(world).entities.next_id(),
            ) {
                None => {
                    &&& r == Err::<(), ApplyError>(ApplyError::Malformed(DecodeError::WrongLength))
                    &&& *final(world) == *old(world)
                    &&& final(self).values() == old(self).values()
                },
                Some(v) => {
                    &&& r == Ok::<(), ApplyError>(())
                    &&& decode_effect(
                        registry.rule_of(fns_info),
                        data@,
                        old(world).entity_map,
                        old(world).entities,
                        final(world).entity_map,
                        final(world).entities,
                    )
                    &&& final(self).values() == written(
                        registry.dispatch(
                            fns_info.schema_id,
                            marker_flags(old(self).tags(), registry.marker_priorities().len()),
                        ).write,
                        old(self).values(),
                        fns_info.schema_id.id,
                        v,
                        message_tick,
                    )
                },
            },
    ;

    /// Removes the schema's value with the applier that the entity's markers select.
    fn apply_remove(
        &mut self,
        registry: &ReplicationRegistry,
        fns_info: FnsInfo,
        message_tick: RepliconTick,
    ) -> (r: Result<(), ApplyError>)
        ensures
            final(self).entity_id() == old(self).entity_id(),
            final(self).tags() == old(self).tags(),
            !registry.valid_info(fns_info) ==> {
                &&& r == Err::<(), ApplyError>(ApplyError::UnknownFns)
                &&& final(self).values() == old(self).values()
            },
            registry.valid_info(fns_info) ==> {
                &&& r == Ok::<(), ApplyError>(())
                &&& final(self).values() == removed(
                    registry.dispatch(
                        fns_info.schema_id,
                        marker_flags(old(self).tags(), registry.marker_priorities().len()),
                    ).remove,
                    old(self).values(),
                    fns_info.schema_id.id,
                )
            },
    ;

    /// Despawns the entity through the registry.
    fn apply_despawn(
        self,
        registry: &ReplicationRegistry,
        world: &mut ClientWorld,
        message_tick: RepliconTick,
    )
        requires
            old(world).wf(),
        ensures
            final(world).wf(),
            despawned(*old(world), *final(world), self.entity_id()),
    ;
}

impl TestFnsEntityExt for EntityRecord {
    open spec fn entity_id(&self) -> u64 {
        self.id_spec()
    }

    open spec fn values(&self) -> Map<usize, ComponentSlot> {
        self.components()
    }

    open spec fn tags(&self) -> Set<usize> {
        self.marker_tags()
    }

    fn serialize(&self, registry: &ReplicationRegistry, fns_info: FnsInfo) -> (r: Vec<u8>) {
        let mut sink: Vec<u8> = Vec::new();
        match self.get(fns_info.schema_id.id) {
            Some(slot) => {
                registry.serialize(fns_info, &slot.value, &mut sink);
            },
            None => {},
        }
        assert(sink@ =~= encode(self.values()[fns_info.schema_id.id as usize].value));
        sink
    }

    fn apply_write(
        &mut self,
        registry: &ReplicationRegistry,
        world: &mut ClientWorld,
        data: &[u8],
        fns_info: FnsInfo,
        message_tick: RepliconTick,
    ) -> (r: Result<(), ApplyError>) {
        let markers = registry.entity_markers(self);
        assert(markers@ =~= marker_flags(self.tags(), registry.marker_priorities().len()));
        registry.apply_write(world, fns_info, &markers, self, data, message_tick)
    }

    fn apply_remove(
        &mut self,
        registry: &ReplicationRegistry,
        fns_info: FnsInfo,
        message_tick: RepliconTick,
    ) -> (r: Result<(), ApplyError>) {
        let markers = registry.entity_markers(self);
        assert(markers@ =~= marker_flags(self.tags(), registry.marker_priorities().len()));
        registry.apply_remove(fns_info, &markers, self, message_tick)
    }

    fn apply_despawn(
        self,
        registry: &ReplicationRegistry,
        world: &mut ClientWorld,
        message_tick: RepliconTick,
    ) {
        registry.despawn(world, self.id(), message_tick);
    }
}

} // verus!

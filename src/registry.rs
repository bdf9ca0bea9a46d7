use crate::codec::{
    decode_effect, decoded, encode, in_domain, ComponentValue, DecodeError, RuleFns,
};
use crate::command_markers::{
    resolved, strictly_increasing, CommandFns, CommandMarkers, CommandTable, EntityMarkers,
    MarkerError, MarkerId, RemoveFn, WriteFn, CommandEntry,
};
use crate::tick::{admits, newer_than, should_apply, RepliconTick};
use crate::world::{ClientWorld, ComponentSlot, EntityRecord};
use vstd::prelude::*;

verus! {

/// Identifies one replicated data shape.
#[derive(Clone, Copy, Debug, PartialEq, Eq, Structural)]
pub struct SchemaId {
    pub id: usize,
}

/// Identifies an entry of the registry's function table.
#[derive(Clone, Copy, Debug, PartialEq, Eq, Structural)]
pub struct FnsId {
    pub index: usize,
}

/// The function-table entry that produced a payload and the schema it decodes to.
#[derive(Clone, Copy, Debug, PartialEq, Eq, Structural)]
pub struct FnsInfo {
    pub fns_id: FnsId,
    pub schema_id: SchemaId,
}

impl FnsInfo {
    pub fn fns_id(&self) -> (r: FnsId)
        ensures
            r == self.fns_id,
    {
        self.fns_id
    }

    pub fn component_id(&self) -> (r: SchemaId)
        ensures
            r == self.schema_id,
    {
        self.schema_id
    }
}

/// One function-table entry: a schema and its codec.
#[derive(Clone, Copy, Debug, PartialEq, Eq, Structural)]
pub struct ComponentFns {
    pub schema: SchemaId,
    pub rule_fns: RuleFns,
}

/// Why a payload could not be applied.
#[derive(Clone, Copy, Debug, PartialEq, Eq, Structural)]
pub enum ApplyError {
    /// The function-table entry was never registered here, or belongs to
    /// another schema.
    UnknownFns,
    /// The payload is malformed for the schema.
    Malformed(DecodeError),
}

/// A scalar multiplied by `k` (wrapping); any other value unchanged.
pub open spec fn scaled(v: ComponentValue, k: u64) -> ComponentValue {
    match v {
        ComponentValue::Scalar(n) => ComponentValue::Scalar(n.wrapping_mul(k)),
        _ => v,
    }
}

/// The tick of the stored value of `schema`, if any.
pub open spec fn stored_tick(comps: Map<usize, ComponentSlot>, schema: usize) -> Option<RepliconTick> {
    if comps.contains_key(schema) {
        Some(comps[schema].tick)
    } else {
        None
    }
}

/// The target's values after write applier `f` handles decoded value `v`.
pub open spec fn written(
    f: WriteFn,
    comps: Map<usize, ComponentSlot>,
    schema: usize,
    v: ComponentValue,
    tick: RepliconTick,
) -> Map<usize, ComponentSlot> {
    match f {
        WriteFn::Insert => comps.insert(schema, ComponentSlot { value: v, tick }),
        WriteFn::InsertIfNewer => if admits(stored_tick(comps, schema), tick) {
            comps.insert(schema, ComponentSlot { value: v, tick })
        } else {
            comps
        },
        WriteFn::Ignore => comps,
        WriteFn::Scale(k) => comps.insert(schema, ComponentSlot { value: scaled(v, k), tick }),
        WriteFn::InsertAs(other) => comps.insert(other.id, ComponentSlot { value: v, tick }),
    }
}

/// The target's values after remove applier `f`.
pub open spec fn removed(f: RemoveFn, comps: Map<usize, ComponentSlot>, schema: usize) -> Map<
    usize,
    ComponentSlot,
> {
    match f {
        RemoveFn::Remove => comps.remove(schema),
        RemoveFn::Ignore => comps,
        RemoveFn::RemoveAs(other) => comps.remove(other.id),
    }
}

/// How despawning `e` changes the client world: `e` is no longer live, and the
/// entity-map pair that held `e`, if any, is gone from both directions.
pub open spec fn despawned(w0: ClientWorld, w1: ClientWorld, e: u64) -> bool {
    &&& w1.entities.live() == w0.entities.live().remove(e)
    &&& w1.entities.next_id() == w0.entities.next_id()
    &&& w1.entity_map.to_server() == w0.entity_map.to_server().remove(e)
    &&& w1.entity_map.to_client() == (if w0.entity_map.to_server().contains_key(e) {
        w0.entity_map.to_client().remove(w0.entity_map.to_server()[e])
    } else {
        w0.entity_map.to_client()
    })
}

/// Removing a value the target lacks changes nothing.
pub proof fn lemma_remove_absent_is_noop(f: RemoveFn, comps: Map<usize, ComponentSlot>, schema: usize)
    requires
        !comps.contains_key(schema),
        match f {
            RemoveFn::RemoveAs(other) => !comps.contains_key(other.id),
            _ => true,
        },
    ensures
        removed(f, comps, schema) == comps,
{
    assert(comps.remove(schema) =~= comps);
    match f {
        RemoveFn::RemoveAs(other) => assert(comps.remove(other.id) =~= comps),
        _ => {},
    }
}

/// Despawning an entity that is not live changes neither the live entities
/// nor the entity map.
pub proof fn lemma_despawn_dead_is_noop(w0: ClientWorld, w1: ClientWorld, e: u64)
    requires
        w0.wf(),
        !w0.entities.live().contains(e),
        despawned(w0, w1, e),
    ensures
        w1.entities.live() == w0.entities.live(),
        w1.entities.next_id() == w0.entities.next_id(),
        w1.entity_map.to_client() == w0.entity_map.to_client(),
        w1.entity_map.to_server() == w0.entity_map.to_server(),
{
    assert(!w0.entity_map.to_server().contains_key(e)) by {
        if w0.entity_map.to_server().contains_key(e) {
            assert(w0.entity_map.to_client().contains_key(w0.entity_map.to_server()[e]));
        }
    }
    assert(w1.entities.live() =~= w0.entities.live());
    assert(w1.entity_map.to_server() =~= w0.entity_map.to_server());
}

/// Last write wins: a write stamped with a tick that is not newer than the
/// stored value's tick leaves the target as it is; a newer one stores the
/// value and its tick.
pub proof fn lemma_last_write_wins(
    comps: Map<usize, ComponentSlot>,
    schema: usize,
    v: ComponentValue,
    tick: RepliconTick,
)
    ensures
        comps.contains_key(schema) && !newer_than(tick, comps[schema].tick) ==> written(
            WriteFn::InsertIfNewer,
            comps,
            schema,
            v,
            tick,
        ) == comps,
        (!comps.contains_key(schema) || newer_than(tick, comps[schema].tick)) ==> written(
            WriteFn::InsertIfNewer,
            comps,
            schema,
            v,
            tick,
        )[schema] == (ComponentSlot { value: v, tick }),
{
}

/// Owns the function table, the registered markers and the applier table.
pub struct ReplicationRegistry {
    fns: Vec<ComponentFns>,
    markers: CommandMarkers,
    commands: CommandTable,
}

impl ReplicationRegistry {
    pub closed spec fn fns_table(&self) -> Seq<ComponentFns> {
        self.fns@
    }

    pub closed spec fn marker_priorities(&self) -> Seq<u64> {
        self.markers@
    }

    pub closed spec fn command_entries(&self) -> Seq<CommandEntry> {
        self.commands@
    }

    pub closed spec fn wf(&self) -> bool {
        strictly_increasing(self.markers@)
    }

    /// The entry `info` names exists and belongs to `info`'s schema.
    pub open spec fn valid_info(&self, info: FnsInfo) -> bool {
        &&& info.fns_id.index < self.fns_table().len()
        &&& self.fns_table()[info.fns_id.index as int].schema == info.schema_id
    }

    pub open spec fn rule_of(&self, info: FnsInfo) -> RuleFns {
        self.fns_table()[info.fns_id.index as int].rule_fns
    }

    /// The appliers that dispatch picks for `schema` on an entity with markers `p`.
    pub open spec fn dispatch(&self, schema: SchemaId, p: Seq<bool>) -> CommandFns {
        resolved(self.command_entries(), p, schema)
    }

    pub fn new() -> (r: Self)
        ensures
            r.wf(),
            r.fns_table() == Seq::<ComponentFns>::empty(),
            r.marker_priorities() == Seq::<u64>::empty(),
            r.command_entries() == Seq::<CommandEntry>::empty(),
    {
        ReplicationRegistry {
            fns: Vec::new(),
            markers: CommandMarkers::new(),
            commands: CommandTable::new(),
        }
    }

    /// Adds a function-table entry for `schema` with its codec. Earlier entries
    /// stay valid.
    pub fn register_rule_fns(&mut self, schema: SchemaId, rule_fns: RuleFns) -> (r: FnsInfo)
        requires
            old(self).wf(),
        ensures
            final(self).wf(),
            r == (FnsInfo {
                fns_id: FnsId { index: old(self).fns_table().len() as usize },
                schema_id: schema,
            }),
            final(self).fns_table() == old(self).fns_table().push(ComponentFns { schema, rule_fns }),
            final(self).marker_priorities() == old(self).marker_priorities(),
            final(self).command_entries() == old(self).command_entries(),
            final(self).valid_info(r),
    {
        let index = self.fns.len();
        self.fns.push(ComponentFns { schema, rule_fns });
        FnsInfo { fns_id: FnsId { index }, schema_id: schema }
    }

    /// The entry of an id that this registry issued.
    pub fn get(&self, fns_id: FnsId) -> (r: ComponentFns)
        requires
            fns_id.index < self.fns_table().len(),
        ensures
            r == self.fns_table()[fns_id.index as int],
    {
        self.fns[fns_id.index]
    }

    /// Whether `info` names an entry of this registry for its schema.
    pub fn is_valid(&self, info: FnsInfo) -> (r: bool)
        ensures
            r == self.valid_info(info),
    {
        info.fns_id.index < self.fns.len() && self.fns[info.fns_id.index].schema == info.schema_id
    }

    /// Registers a marker with a priority above every earlier one.
    pub fn register_marker(&mut self, priority: u64) -> (r: Result<MarkerId, MarkerError>)
        requires
            old(self).wf(),
        ensures
            final(self).wf(),
            final(self).fns_table() == old(self).fns_table(),
            final(self).command_entries() == old(self).command_entries(),
            ({
                let p = old(self).marker_priorities();
                if p.len() == 0 || p.last() < priority {
                    &&& r == Ok::<MarkerId, MarkerError>(MarkerId { index: p.len() as usize })
                    &&& final(self).marker_priorities() == p.push(priority)
                } else {
                    &&& r == Err::<MarkerId, MarkerError>(MarkerError::PriorityNotIncreasing)
                    &&& final(self).marker_priorities() == p
                }
            }),
    {
        self.markers.insert(priority)
    }

    /// Sets the appliers that entities carrying `marker` get for `schema`.
    pub fn set_marker_fns(&mut self, schema: SchemaId, marker: MarkerId, fns: CommandFns) -> (r:
        Result<(), MarkerError>)
        requires
            old(self).wf(),
        ensures
            final(self).wf(),
            final(self).fns_table() == old(self).fns_table(),
            final(self).marker_priorities() == old(self).marker_priorities(),
            marker.index < old(self).marker_priorities().len() ==> {
                &&& r == Ok::<(), MarkerError>(())
                &&& final(self).command_entries() == old(self).command_entries().push(
                    CommandEntry { schema, marker: Some(marker), fns },
                )
            },
            marker.index >= old(self).marker_priorities().len() ==> {
                &&& r == Err::<(), MarkerError>(MarkerError::UnknownMarker)
                &&& final(self).command_entries() == old(self).command_entries()
            },
    {
        if marker.index >= self.markers.len() {
            return Err(MarkerError::UnknownMarker);
        }
        self.commands.set(schema, Some(marker), fns);
        Ok(())
    }

    /// Sets the default appliers of `schema`.
    pub fn set_command_fns(&mut self, schema: SchemaId, fns: CommandFns)
        requires
            old(self).wf(),
        ensures
            final(self).wf(),
            final(self).fns_table() == old(self).fns_table(),
            final(self).marker_priorities() == old(self).marker_priorities(),
            final(self).command_entries() == old(self).command_entries().push(
                CommandEntry { schema, marker: None, fns },
            ),
    {
        self.commands.set(schema, None, fns);
    }

    /// The registered markers that an entity with these tags carries.
    pub fn entity_markers(&self, target: &EntityRecord) -> (r: EntityMarkers)
        ensures
            r@.len() == self.marker_priorities().len(),
            forall|i: int|
                0 <= i < r@.len() ==> r@[i] == target.marker_tags().contains(i as usize),
    {
        EntityMarkers::read(&self.markers, target.marker_set())
    }

    pub fn resolve_write(&self, schema: SchemaId, markers: &EntityMarkers) -> (r: WriteFn)
        ensures
            r == self.dispatch(schema, markers@).write,
    {
        self.commands.resolve(schema, markers).write
    }

    pub fn resolve_remove(&self, schema: SchemaId, markers: &EntityMarkers) -> (r: RemoveFn)
        ensures
            r == self.dispatch(schema, markers@).remove,
    {
        self.commands.resolve(schema, markers).remove
    }

    /// Appends the wire form of a value of the entry's schema to `sink`.
    pub fn serialize(&self, info: FnsInfo, value: &ComponentValue, sink: &mut Vec<u8>)
        requires
            self.valid_info(info),
            in_domain(self.rule_of(info), *value),
        ensures
            final(sink)@ == old(sink)@ + encode(*value),
    {
        let entry = self.fns[info.fns_id.index];
        entry.rule_fns.serialize(value, sink);
    }

    /// Decodes `data` with the entry's codec, translating an entity reference
    /// through the entity map, then lets the applier that dispatch picks for the
    /// target's markers change the target. A malformed payload or an unknown
    /// entry changes nothing.
    pub fn apply_write(
        &self,
        world: &mut ClientWorld,
        info: FnsInfo,
        markers: &EntityMarkers,
        target: &mut EntityRecord,
        data: &[u8],
        message_tick: RepliconTick,
    ) -> (r: Result<(), ApplyError>)
        requires
            old(world).wf(),
            old(world).entities.next_id() < u64::MAX,
        ensures
            final(world).wf(),
            final(target).id_spec() == old(target).id_spec(),
            final(target).marker_tags() == old(target).marker_tags(),
            !self.valid_info(info) ==> {
                &&& r == Err::<(), ApplyError>(ApplyError::UnknownFns)
                &&& *final(world) == *old(world)
                &&& final(target).components() == old(target).components()
            },
            self.valid_info(info) ==> match decoded(
                self.rule_of(info),
                data@,
                old(world).entity_map.to_client(),
                old(world).entities.next_id(),
            ) {
                None => {
                    &&& r == Err::<(), ApplyError>(ApplyError::Malformed(DecodeError::WrongLength))
                    &&& *final(world) == *old(world)
                    &&& final(target).components() == old(target).components()
                },
                Some(v) => {
                    &&& r == Ok::<(), ApplyError>(())
                    &&& decode_effect(
                        self.rule_of(info),
                        data@,
                        old(world).entity_map,
                        old(world).entities,
                        final(world).entity_map,
                        final(world).entities,
                    )
                    &&& final(target).components() == written(
                        self.dispatch(info.schema_id, markers@).write,
                        old(target).components(),
                        info.schema_id.id,
                        v,
                        message_tick,
                    )
                },
            },
    {
        if !self.is_valid(info) {
            return Err(ApplyError::UnknownFns);
        }
        let entry = self.fns[info.fns_id.index];
        let write = self.resolve_write(info.schema_id, markers);
        let value = match entry.rule_fns.deserialize(
            data,
            &mut world.entity_map,
            &mut world.entities,
        ) {
            Ok(v) => v,
            Err(e) => {
                return Err(ApplyError::Malformed(e));
            },
        };
        let schema = info.schema_id.id;
        match write {
            WriteFn::Insert => {
                target.insert(schema, ComponentSlot { value, tick: message_tick });
            },
            WriteFn::InsertIfNewer => {
                let last = match target.get(schema) {
                    Some(slot) => Some(slot.tick),
                    None => None,
                };
                if should_apply(last, message_tick) {
                    target.insert(schema, ComponentSlot { value, tick: message_tick });
                }
            },
            WriteFn::Ignore => {},
            WriteFn::Scale(k) => {
                let v = match value {
                    ComponentValue::Scalar(n) => ComponentValue::Scalar(n.wrapping_mul(k)),
                    other => other,
                };
                target.insert(schema, ComponentSlot { value: v, tick: message_tick });
            },
            WriteFn::InsertAs(other) => {
                target.insert(other.id, ComponentSlot { value, tick: message_tick });
            },
        }
        Ok(())
    }

    /// Lets the remove applier that dispatch picks for the target's markers
    /// strip the schema's value. Removing an absent value changes nothing.
    pub fn apply_remove(
        &self,
        info: FnsInfo,
        markers: &EntityMarkers,
        target: &mut EntityRecord,
        _message_tick: RepliconTick,
    ) -> (r: Result<(), ApplyError>)
        ensures
            final(target).id_spec() == old(target).id_spec(),
            final(target).marker_tags() == old(target).marker_tags(),
            !self.valid_info(info) ==> {
                &&& r == Err::<(), ApplyError>(ApplyError::UnknownFns)
                &&& final(target).components() == old(target).components()
            },
            self.valid_info(info) ==> {
                &&& r == Ok::<(), ApplyError>(())
                &&& final(target).components() == removed(
                    self.dispatch(info.schema_id, markers@).remove,
                    old(target).components(),
                    info.schema_id.id,
                )
            },
    {
        if !self.is_valid(info) {
            return Err(ApplyError::UnknownFns);
        }
        match self.resolve_remove(info.schema_id, markers) {
            RemoveFn::Remove => {
                target.remove(info.schema_id.id);
            },
            RemoveFn::Ignore => {},
            RemoveFn::RemoveAs(other) => {
                target.remove(other.id);
            },
        }
        Ok(())
    }

    /// Despawns a local entity and drops its entity-map pair in the same step.
    /// An entity that is not live is left as it is.
    pub fn despawn(&self, world: &mut ClientWorld, entity: u64, _message_tick: RepliconTick)
        requires
            old(world).wf(),
        ensures
            final(world).wf(),
            despawned(*old(world), *final(world), entity),
    {
        world.entity_map.remove_by_client(entity);
        world.entities.despawn(entity);
        proof {
            let m = world.entity_map.to_client();
            assert forall|s: u64| #[trigger] m.contains_key(s) implies world.entities.live().contains(
                m[s],
            ) by {
                assert(world.entity_map.to_server().contains_key(m[s]));
            }
        }
    }
}

} // verus!

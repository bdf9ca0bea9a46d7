use replicon::codec::{read_u64_le, write_u64_le, ComponentValue, DecodeError, RuleFns};
use replicon::command_markers::{CommandFns, CommandMarkers, MarkerError, RemoveFn, WriteFn};
use replicon::entity_map::{translate, Entities, ServerEntityMap};
use replicon::registry::{ApplyError, FnsId, FnsInfo, ReplicationRegistry, SchemaId};
use replicon::test_fns::TestFnsEntityExt;
use replicon::tick::{should_apply, RepliconTick};
use replicon::world::{ClientWorld, ComponentSlot, EntityRecord};

const S: SchemaId = SchemaId { id: 4 };

fn scalar_of(entity: &EntityRecord, schema: SchemaId) -> Option<u64> {
    match entity.get(schema.id) {
        Some(ComponentSlot { value: ComponentValue::Scalar(n), .. }) => Some(n),
        _ => None,
    }
}

#[test]
fn scalar_encoding_is_little_endian() {
    let mut sink = vec![0xAA];
    RuleFns::Scalar.serialize(&ComponentValue::Scalar(0x0102_0304_0506_0708), &mut sink);
    assert_eq!(sink, vec![0xAA, 8, 7, 6, 5, 4, 3, 2, 1]);

    let mut tag = Vec::new();
    RuleFns::Tag.serialize(&ComponentValue::Tag, &mut tag);
    assert!(tag.is_empty());

    let mut raw = Vec::new();
    write_u64_le(u64::MAX - 1, &mut raw);
    assert_eq!(raw, vec![0xFE, 0xFF, 0xFF, 0xFF, 0xFF, 0xFF, 0xFF, 0xFF]);
    assert_eq!(read_u64_le(&[1, 0, 0, 0, 0, 0, 0, 0x80]), 0x8000_0000_0000_0001);
}

#[test]
fn round_trip_every_codec() {
    let mut registry = ReplicationRegistry::new();
    let tag = registry.register_rule_fns(SchemaId { id: 0 }, RuleFns::Tag);
    let scalar = registry.register_rule_fns(SchemaId { id: 1 }, RuleFns::Scalar);
    let reference = registry.register_rule_fns(SchemaId { id: 2 }, RuleFns::EntityRef);
    let mut world = ClientWorld::new();
    let local = world.spawn();
    assert!(world.map_entity(40, local));

    let cases = [
        (tag, RuleFns::Tag, ComponentValue::Tag, ComponentValue::Tag),
        (scalar, RuleFns::Scalar, ComponentValue::Scalar(0), ComponentValue::Scalar(0)),
        (scalar, RuleFns::Scalar, ComponentValue::Scalar(u64::MAX), ComponentValue::Scalar(u64::MAX)),
        (reference, RuleFns::EntityRef, ComponentValue::Entity(40), ComponentValue::Entity(local)),
    ];
    for (info, rule, value, expected) in cases {
        let mut sink = Vec::new();
        registry.serialize(info, &value, &mut sink);
        let decoded = rule.deserialize(&sink, &mut world.entity_map, &mut world.entities);
        assert_eq!(decoded, Ok(expected));
    }
}

#[test]
fn malformed_payload_changes_nothing() {
    let mut registry = ReplicationRegistry::new();
    let info = registry.register_rule_fns(S, RuleFns::EntityRef);
    let mut world = ClientWorld::new();
    let mut entity = EntityRecord::new(world.spawn());

    let r = entity.apply_write(&registry, &mut world, &[1, 2, 3, 4, 5, 6, 7], info, RepliconTick::new(1));
    assert_eq!(r, Err(ApplyError::Malformed(DecodeError::WrongLength)));
    assert!(!entity.contains(S.id));
    assert_eq!(world.entities.len(), 1);
    assert_eq!(world.entity_map.len(), 0);

    let tag = registry.register_rule_fns(SchemaId { id: 9 }, RuleFns::Tag);
    let r = entity.apply_write(&registry, &mut world, &[0], tag, RepliconTick::new(1));
    assert_eq!(r, Err(ApplyError::Malformed(DecodeError::WrongLength)));
}

#[test]
fn unknown_fns_is_rejected() {
    let mut registry = ReplicationRegistry::new();
    let info = registry.register_rule_fns(S, RuleFns::Scalar);
    let mut world = ClientWorld::new();
    let mut entity = EntityRecord::new(world.spawn());

    let never_issued = FnsInfo { fns_id: FnsId { index: 5 }, schema_id: S };
    let data = 1u64.to_le_bytes();
    let r = entity.apply_write(&registry, &mut world, &data, never_issued, RepliconTick::new(1));
    assert_eq!(r, Err(ApplyError::UnknownFns));
    let wrong_schema = FnsInfo { fns_id: info.fns_id(), schema_id: SchemaId { id: 99 } };
    assert_eq!(entity.apply_remove(&registry, wrong_schema, RepliconTick::new(1)), Err(ApplyError::UnknownFns));
    assert!(!entity.contains(S.id));
}

#[test]
fn marker_registration_errors() {
    let mut registry = ReplicationRegistry::new();
    let first = registry.register_marker(5).unwrap();
    assert_eq!(first.index, 0);
    assert_eq!(registry.register_marker(5), Err(MarkerError::PriorityNotIncreasing));
    assert_eq!(registry.register_marker(3), Err(MarkerError::PriorityNotIncreasing));
    assert_eq!(registry.register_marker(6).unwrap().index, 1);

    let ignore = CommandFns { write: WriteFn::Ignore, remove: RemoveFn::Ignore };
    let unknown = replicon::command_markers::MarkerId { index: 2 };
    assert_eq!(registry.set_marker_fns(S, unknown, ignore), Err(MarkerError::UnknownMarker));

    let mut markers = CommandMarkers::new();
    assert_eq!(markers.insert(0).unwrap().index, 0);
    assert_eq!(markers.len(), 1);
}

#[test]
fn higher_priority_marker_wins() {
    let mut registry = ReplicationRegistry::new();
    let m1 = registry.register_marker(1).unwrap();
    let m2 = registry.register_marker(2).unwrap();
    let info = registry.register_rule_fns(S, RuleFns::Scalar);
    let noop = CommandFns { write: WriteFn::Ignore, remove: RemoveFn::Remove };
    let double = CommandFns { write: WriteFn::Scale(2), remove: RemoveFn::Remove };
    assert_eq!(registry.set_marker_fns(S, m1, noop), Ok(()));
    assert_eq!(registry.set_marker_fns(S, m2, double), Ok(()));

    let mut world = ClientWorld::new();
    let mut a = EntityRecord::new(world.spawn());
    a.add_marker(m1.index);
    let mut b = EntityRecord::new(world.spawn());
    b.add_marker(m1.index);
    b.add_marker(m2.index);

    let data = 5u64.to_le_bytes();
    assert_eq!(a.apply_write(&registry, &mut world, &data, info, RepliconTick::new(1)), Ok(()));
    assert_eq!(b.apply_write(&registry, &mut world, &data, info, RepliconTick::new(1)), Ok(()));
    assert_eq!(scalar_of(&a, S), None);
    assert_eq!(scalar_of(&b, S), Some(10));

    let mut c = EntityRecord::new(world.spawn());
    assert_eq!(c.apply_write(&registry, &mut world, &data, info, RepliconTick::new(1)), Ok(()));
    assert_eq!(scalar_of(&c, S), Some(5));
}

#[test]
fn scale_wraps() {
    let mut registry = ReplicationRegistry::new();
    let info = registry.register_rule_fns(S, RuleFns::Scalar);
    registry.set_command_fns(S, CommandFns { write: WriteFn::Scale(2), remove: RemoveFn::Remove });
    let mut world = ClientWorld::new();
    let mut e = EntityRecord::new(world.spawn());
    let data = u64::MAX.to_le_bytes();
    assert_eq!(e.apply_write(&registry, &mut world, &data, info, RepliconTick::new(1)), Ok(()));
    assert_eq!(scalar_of(&e, S), Some(u64::MAX - 1));
}

#[test]
fn dispatch_is_deterministic() {
    let mut registry = ReplicationRegistry::new();
    let m1 = registry.register_marker(1).unwrap();
    let m2 = registry.register_marker(2).unwrap();
    let other = SchemaId { id: 8 };
    let ignore = CommandFns { write: WriteFn::Ignore, remove: RemoveFn::Ignore };
    let last_wins = CommandFns { write: WriteFn::InsertIfNewer, remove: RemoveFn::Remove };
    assert_eq!(registry.set_marker_fns(S, m1, ignore), Ok(()));
    assert_eq!(registry.set_marker_fns(other, m2, last_wins), Ok(()));

    let mut e = EntityRecord::new(0);
    e.add_marker(m1.index);
    e.add_marker(m2.index);
    let markers = registry.entity_markers(&e);
    let first = registry.resolve_write(S, &markers);
    assert_eq!(registry.resolve_write(other, &markers), WriteFn::InsertIfNewer);
    assert_eq!(registry.resolve_remove(S, &markers), RemoveFn::Ignore);
    assert_eq!(registry.resolve_write(S, &markers), first);
    assert_eq!(first, WriteFn::Ignore);

    let bare = registry.entity_markers(&EntityRecord::new(1));
    assert_eq!(registry.resolve_write(S, &bare), WriteFn::Insert);
    assert_eq!(registry.resolve_remove(S, &bare), RemoveFn::Remove);
}

#[test]
fn remove_when_absent_is_noop() {
    let mut registry = ReplicationRegistry::new();
    let info = registry.register_rule_fns(S, RuleFns::Scalar);
    let keep = registry.register_rule_fns(SchemaId { id: 1 }, RuleFns::Tag);
    let mut world = ClientWorld::new();
    let mut e = EntityRecord::new(world.spawn());
    assert_eq!(e.apply_write(&registry, &mut world, &[], keep, RepliconTick::new(1)), Ok(()));

    assert_eq!(e.apply_remove(&registry, info, RepliconTick::new(2)), Ok(()));
    assert_eq!(e.apply_remove(&registry, info, RepliconTick::new(3)), Ok(()));
    assert!(e.contains(1));
    assert!(!e.contains(S.id));
    assert_eq!(e.get(1), Some(ComponentSlot { value: ComponentValue::Tag, tick: RepliconTick::new(1) }));
}

#[test]
fn repeated_reference_reuses_placeholder() {
    let mut map = ServerEntityMap::new();
    let mut entities = Entities::new();
    let first = translate(&mut map, &mut entities, 77);
    let second = translate(&mut map, &mut entities, 77);
    assert_eq!(first, second);
    assert_eq!(entities.len(), 1);
    assert_eq!(map.len(), 1);

    let mut registry = ReplicationRegistry::new();
    let info = registry.register_rule_fns(S, RuleFns::EntityRef);
    let mut world = ClientWorld::new();
    let mut a = EntityRecord::new(world.spawn());
    let mut b = EntityRecord::new(world.spawn());
    let data = 500u64.to_le_bytes();
    assert_eq!(a.apply_write(&registry, &mut world, &data, info, RepliconTick::new(1)), Ok(()));
    assert_eq!(b.apply_write(&registry, &mut world, &data, info, RepliconTick::new(1)), Ok(()));
    assert_eq!(world.entities.len(), 3);
    assert_eq!(a.get(S.id), b.get(S.id));
    assert_eq!(a.get(S.id).unwrap().value, ComponentValue::Entity(2));
}

#[test]
fn stale_tick_is_rejected() {
    let mut registry = ReplicationRegistry::new();
    let info = registry.register_rule_fns(S, RuleFns::Scalar);
    registry.set_command_fns(S, CommandFns { write: WriteFn::InsertIfNewer, remove: RemoveFn::Remove });
    let mut world = ClientWorld::new();
    let mut e = EntityRecord::new(world.spawn());

    let w = |n: u64| n.to_le_bytes();
    assert_eq!(e.apply_write(&registry, &mut world, &w(1), info, RepliconTick::new(10)), Ok(()));
    assert_eq!(e.apply_write(&registry, &mut world, &w(2), info, RepliconTick::new(7)), Ok(()));
    assert_eq!(e.get(S.id), Some(ComponentSlot { value: ComponentValue::Scalar(1), tick: RepliconTick::new(10) }));
    assert_eq!(e.apply_write(&registry, &mut world, &w(3), info, RepliconTick::new(12)), Ok(()));
    assert_eq!(e.get(S.id), Some(ComponentSlot { value: ComponentValue::Scalar(3), tick: RepliconTick::new(12) }));
    assert_eq!(e.apply_write(&registry, &mut world, &w(4), info, RepliconTick::new(12)), Ok(()));
    assert_eq!(scalar_of(&e, S), Some(3));
}

#[test]
fn tick_order_wraps_around() {
    let max = RepliconTick::new(u32::MAX);
    let one = RepliconTick::new(1);
    assert!(one.is_newer_than(max));
    assert!(!max.is_newer_than(one));
    assert!(!one.is_newer_than(one));
    assert!(RepliconTick::new(12).is_newer_than(RepliconTick::new(10)));
    assert!(!RepliconTick::new(7).is_newer_than(RepliconTick::new(10)));
    assert!(!RepliconTick::new(0x8000_0000).is_newer_than(RepliconTick::new(0)));
    assert!(RepliconTick::new(0x7FFF_FFFF).is_newer_than(RepliconTick::new(0)));
    assert_eq!(max.increment(), RepliconTick::new(0));
    assert_eq!(one.increment().get(), 2);
    assert!(should_apply(None, one));
    assert!(!should_apply(Some(RepliconTick::new(10)), RepliconTick::new(7)));
    assert!(should_apply(Some(RepliconTick::new(10)), RepliconTick::new(12)));
}

#[test]
fn entity_map_stays_bijective() {
    let mut map = ServerEntityMap::new();
    map.insert(1, 10);
    map.insert(2, 20);
    assert_eq!(map.get_by_server(1), Some(10));
    assert_eq!(map.get_by_client(10), Some(1));

    map.insert(1, 30);
    assert_eq!(map.get_by_server(1), Some(30));
    assert_eq!(map.get_by_client(10), None);
    assert_eq!(map.get_by_client(30), Some(1));

    map.insert(3, 20);
    assert_eq!(map.get_by_server(2), None);
    assert_eq!(map.get_by_client(20), Some(3));
    assert_eq!(map.len(), 2);

    assert_eq!(map.remove_by_server(1), Some(30));
    assert_eq!(map.get_by_server(1), None);
    assert_eq!(map.get_by_client(30), None);
    assert_eq!(map.remove_by_client(20), Some(3));
    assert_eq!(map.remove_by_server(3), None);
    assert_eq!(map.len(), 0);
}

#[test]
fn map_entity_requires_live_client() {
    let mut world = ClientWorld::new();
    assert!(!world.map_entity(1, 0));
    let e = world.spawn();
    assert!(world.map_entity(1, e));
    assert_eq!(world.entity_map.get_by_server(1), Some(e));
    assert!(world.entities.can_spawn());
}

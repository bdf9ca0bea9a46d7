use replicon::codec::{ComponentValue, RuleFns};
use replicon::command_markers::{CommandFns, RemoveFn, WriteFn};
use replicon::registry::{ReplicationRegistry, SchemaId};
use replicon::test_fns::TestFnsEntityExt;
use replicon::tick::RepliconTick;
use replicon::world::{ClientWorld, EntityRecord};

const TABLE: SchemaId = SchemaId { id: 0 };
const MAPPED: SchemaId = SchemaId { id: 1 };
const INCOMING: SchemaId = SchemaId { id: 2 };
const REPLACED: SchemaId = SchemaId { id: 3 };

fn tick() -> RepliconTick {
    RepliconTick::new(1)
}

fn replace_fns() -> CommandFns {
    CommandFns {
        write: WriteFn::InsertAs(REPLACED),
        remove: RemoveFn::RemoveAs(REPLACED),
    }
}

#[test]
fn table_storage() {
    let mut registry = ReplicationRegistry::new();
    let info = registry.register_rule_fns(TABLE, RuleFns::Tag);
    let mut world = ClientWorld::new();
    let e = world.spawn();
    let mut entity = EntityRecord::new(e);

    assert_eq!(entity.apply_write(&registry, &mut world, &[], info, tick()), Ok(()));
    assert!(entity.contains(TABLE.id));
    assert_eq!(entity.get(TABLE.id).unwrap().value, ComponentValue::Tag);
}

#[test]
fn mapped_existing_entity() {
    let mut registry = ReplicationRegistry::new();
    let info = registry.register_rule_fns(MAPPED, RuleFns::EntityRef);
    let mut world = ClientWorld::new();
    let target = world.spawn();
    let client_map_entity = world.spawn();
    let server_map_entity: u64 = 7;
    assert!(world.map_entity(server_map_entity, client_map_entity));

    let mut entity = EntityRecord::new(target);
    let data = server_map_entity.to_le_bytes();
    assert_eq!(entity.apply_write(&registry, &mut world, &data, info, tick()), Ok(()));

    assert_eq!(
        entity.get(MAPPED.id).unwrap().value,
        ComponentValue::Entity(client_map_entity)
    );
    assert_eq!(world.entities.len(), 2);
}

#[test]
fn mapped_new_entity() {
    let mut registry = ReplicationRegistry::new();
    let info = registry.register_rule_fns(MAPPED, RuleFns::EntityRef);
    let mut world = ClientWorld::new();
    let target = world.spawn();
    let server_map_entity: u64 = 9;

    let mut entity = EntityRecord::new(target);
    let data = server_map_entity.to_le_bytes();
    assert_eq!(entity.apply_write(&registry, &mut world, &data, info, tick()), Ok(()));

    let mapped = match entity.get(MAPPED.id).unwrap().value {
        ComponentValue::Entity(e) => e,
        other => panic!("unexpected value {:?}", other),
    };
    assert!(world.entities.contains(mapped));
    assert_eq!(world.entities.len(), 2);
    assert_eq!(world.entity_map.get_by_server(server_map_entity), Some(mapped));
    assert_eq!(world.entity_map.get_by_client(mapped), Some(server_map_entity));
}

#[test]
fn command_fns() {
    let mut registry = ReplicationRegistry::new();
    let info = registry.register_rule_fns(INCOMING, RuleFns::Tag);
    registry.set_command_fns(INCOMING, replace_fns());
    let mut world = ClientWorld::new();
    let mut entity = EntityRecord::new(world.spawn());

    assert_eq!(entity.apply_write(&registry, &mut world, &[], info, tick()), Ok(()));
    assert!(entity.contains(REPLACED.id));
    assert!(!entity.contains(INCOMING.id));

    assert_eq!(entity.apply_remove(&registry, info, tick()), Ok(()));
    assert!(!entity.contains(REPLACED.id));
}

#[test]
fn marker() {
    let mut registry = ReplicationRegistry::new();
    let replace_marker = registry.register_marker(0).unwrap();
    let info = registry.register_rule_fns(INCOMING, RuleFns::Tag);
    assert_eq!(registry.set_marker_fns(INCOMING, replace_marker, replace_fns()), Ok(()));

    let mut world = ClientWorld::new();
    let mut entity = EntityRecord::new(world.spawn());
    entity.add_marker(replace_marker.index);
    assert_eq!(entity.apply_write(&registry, &mut world, &[], info, tick()), Ok(()));

    assert!(!entity.contains(INCOMING.id));
    assert!(entity.contains(REPLACED.id));
}

#[test]
fn after_removal() {
    let mut registry = ReplicationRegistry::new();
    let info = registry.register_rule_fns(TABLE, RuleFns::Tag);
    let mut world = ClientWorld::new();
    let mut entity = EntityRecord::new(world.spawn());
    assert_eq!(entity.apply_write(&registry, &mut world, &[], info, tick()), Ok(()));

    // Removal and insertion in the same batch.
    assert_eq!(entity.apply_remove(&registry, info, tick()), Ok(()));
    assert_eq!(entity.apply_write(&registry, &mut world, &[], info, tick()), Ok(()));
    assert!(entity.contains(TABLE.id));
}

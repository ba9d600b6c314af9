use bevy::ecs::entity::Entity;
use bevy::ecs::world::World;
use bevy::hierarchy::{Children, Parent};
use bevy_compose::compose::{flex, Compose};
use bevy_compose::host::{Host, HostCommand};
use bevy_compose::scene::{Applied, NodeTable};

fn parent_of(world: &World, entity: u64) -> Option<u64> {
    world.get::<Parent>(Entity::from_bits(entity)).map(|p| p.get().to_bits())
}

fn children_of(world: &World, entity: u64) -> Vec<u64> {
    match world.get::<Children>(Entity::from_bits(entity)) {
        Some(children) => children.iter().map(|c| c.to_bits()).collect(),
        None => Vec::new(),
    }
}

fn alive(world: &World, entity: u64) -> bool {
    world.get_entity(Entity::from_bits(entity)).is_some()
}

#[test]
fn spawn_creates_a_new_entity_per_node() {
    let mut world = World::new();
    let already = world.spawn_empty().id().to_bits();
    let mut table = NodeTable::new();
    let first = table.apply(&mut world, &HostCommand::Spawn { node: 0, parent: None, text: None });
    let second = table.apply(
        &mut world,
        &HostCommand::Spawn { node: 1, parent: None, text: Some(String::from("t")) },
    );
    let (a, b) = match (first, second) {
        (
            Applied::Spawned { entity: a, parent: None, text: None },
            Applied::Spawned { entity: b, parent: None, text: Some(t) },
        ) => {
            assert_eq!(t, "t");
            (a, b)
        }
        other => panic!("unexpected outcome {:?}", other),
    };
    assert_ne!(a, b);
    assert_ne!(a, already);
    assert_ne!(b, already);
    assert!(alive(&world, a) && alive(&world, b) && alive(&world, already));
    assert_eq!(table.len(), 2);
    assert_eq!(table.entity_of(0), Some(a));
    assert_eq!(table.entity_of(1), Some(b));
    assert_eq!(table.entity_of(2), None);
    assert_eq!(world.entities().len(), 3);
}

#[test]
fn spawn_below_a_parent_sets_the_parent() {
    let mut world = World::new();
    let mut table = NodeTable::new();
    let mut host = Host::<u32>::new();
    flex((String::from("a"), String::from("b"))).build(&mut host, None);
    let outcomes = table.apply_all(&mut world, &host.take_commands());
    assert_eq!(outcomes.len(), 3);
    let root = table.entity_of(0).unwrap();
    let a = table.entity_of(1).unwrap();
    let b = table.entity_of(2).unwrap();
    assert_eq!(
        outcomes,
        vec![
            Applied::Spawned { entity: root, parent: None, text: None },
            Applied::Spawned { entity: a, parent: Some(root), text: Some(String::from("a")) },
            Applied::Spawned { entity: b, parent: Some(root), text: Some(String::from("b")) },
        ]
    );
    assert_eq!(parent_of(&world, root), None);
    assert_eq!(parent_of(&world, a), Some(root));
    assert_eq!(parent_of(&world, b), Some(root));
    assert_eq!(children_of(&world, root), vec![a, b]);
}

#[test]
fn spawn_out_of_order_is_refused() {
    let mut world = World::new();
    let mut table = NodeTable::new();
    let outcome = table.apply(&mut world, &HostCommand::Spawn { node: 1, parent: None, text: None });
    assert_eq!(outcome, Applied::OutOfOrder { node: 1 });
    assert_eq!(table.len(), 0);
    assert_eq!(world.entities().len(), 0);
}

#[test]
fn spawn_below_a_missing_parent_spawns_nothing() {
    let mut world = World::new();
    let mut table = NodeTable::new();
    let outcome =
        table.apply(&mut world, &HostCommand::Spawn { node: 0, parent: Some(5), text: None });
    assert_eq!(outcome, Applied::Missing { node: 5 });
    assert_eq!(world.entities().len(), 0);
    assert_eq!(table.len(), 1);
    assert_eq!(table.entity_of(0), None);
    let outcome =
        table.apply(&mut world, &HostCommand::SetText { node: 0, content: String::from("x") });
    assert_eq!(outcome, Applied::Missing { node: 0 });
}

#[test]
fn set_text_resolves_the_node() {
    let mut world = World::new();
    let mut table = NodeTable::new();
    table.apply(&mut world, &HostCommand::Spawn { node: 0, parent: None, text: None });
    let entity = table.entity_of(0).unwrap();
    let outcome =
        table.apply(&mut world, &HostCommand::SetText { node: 0, content: String::from("x") });
    assert_eq!(outcome, Applied::TextSet { entity, content: String::from("x") });
    assert_eq!(table.resolve(&world, 0), Some(entity));
    let outcome =
        table.apply(&mut world, &HostCommand::SetText { node: 1, content: String::from("x") });
    assert_eq!(outcome, Applied::Missing { node: 1 });
}

#[test]
fn despawn_removes_the_entity_and_forgets_the_node() {
    let mut world = World::new();
    let mut table = NodeTable::new();
    table.apply(&mut world, &HostCommand::Spawn { node: 0, parent: None, text: None });
    table.apply(&mut world, &HostCommand::Spawn { node: 1, parent: None, text: None });
    let first = table.entity_of(0).unwrap();
    let second = table.entity_of(1).unwrap();
    let outcome = table.apply(&mut world, &HostCommand::Despawn { node: 0 });
    assert_eq!(outcome, Applied::Despawned { entity: first });
    assert!(!alive(&world, first));
    assert!(alive(&world, second));
    assert_eq!(table.entity_of(0), None);
    assert_eq!(table.entity_of(1), Some(second));
    assert_eq!(table.len(), 2);
    let outcome = table.apply(&mut world, &HostCommand::Despawn { node: 0 });
    assert_eq!(outcome, Applied::Missing { node: 0 });
}

#[test]
fn vanished_entity_is_reported_and_the_world_is_left_alone() {
    let mut world = World::new();
    let mut table = NodeTable::new();
    table.apply(&mut world, &HostCommand::Spawn { node: 0, parent: None, text: None });
    let entity = table.entity_of(0).unwrap();
    assert!(world.despawn(Entity::from_bits(entity)));
    assert_eq!(table.entity_of(0), Some(entity));
    assert_eq!(table.resolve(&world, 0), None);
    assert_eq!(
        table.apply(&mut world, &HostCommand::SetText { node: 0, content: String::from("x") }),
        Applied::Missing { node: 0 }
    );
    assert_eq!(
        table.apply(&mut world, &HostCommand::Spawn { node: 1, parent: Some(0), text: None }),
        Applied::Missing { node: 0 }
    );
    assert_eq!(
        table.apply(&mut world, &HostCommand::Despawn { node: 0 }),
        Applied::Missing { node: 0 }
    );
    assert_eq!(world.entities().len(), 0);
}

#[test]
fn table_entry_with_bits_that_name_no_entity_resolves_to_nothing() {
    let mut world = World::new();
    let mut other = World::new();
    let mut table = NodeTable::new();
    other.spawn_empty();
    other.spawn_empty();
    table.apply(&mut other, &HostCommand::Spawn { node: 0, parent: None, text: None });
    assert!(table.resolve(&other, 0).is_some());
    assert_eq!(table.resolve(&world, 0), None);
    assert_eq!(
        table.apply(&mut world, &HostCommand::Despawn { node: 0 }),
        Applied::Missing { node: 0 }
    );
}

#[test]
fn apply_all_commits_a_whole_pass_in_order() {
    let mut world = World::new();
    let mut table = NodeTable::new();
    let mut host = Host::<u32>::new();
    let mut state = Some(String::from("a")).build(&mut host, None);
    assert_eq!(None::<String>.rebuild(&mut state, &mut host), Ok(()));
    assert_eq!(Some(String::from("b")).rebuild(&mut state, &mut host), Ok(()));
    assert_eq!(Some(String::from("c")).rebuild(&mut state, &mut host), Ok(()));
    let outcomes = table.apply_all(&mut world, &host.take_commands());
    let first = match &outcomes[0] {
        Applied::Spawned { entity, .. } => *entity,
        other => panic!("unexpected outcome {:?}", other),
    };
    let second = table.entity_of(1).unwrap();
    assert_eq!(
        outcomes,
        vec![
            Applied::Spawned { entity: first, parent: None, text: Some(String::from("a")) },
            Applied::Despawned { entity: first },
            Applied::Spawned { entity: second, parent: None, text: Some(String::from("b")) },
            Applied::TextSet { entity: second, content: String::from("c") },
        ]
    );
    assert_ne!(first, second);
    assert!(!alive(&world, first));
    assert!(alive(&world, second));
    assert_eq!(table.apply_all(&mut world, &Vec::new()), vec![]);
}

#[test]
fn node_of_finds_the_node_of_an_entity() {
    let mut world = World::new();
    let mut table = NodeTable::new();
    table.apply(&mut world, &HostCommand::Spawn { node: 0, parent: None, text: None });
    table.apply(&mut world, &HostCommand::Spawn { node: 1, parent: Some(9), text: None });
    table.apply(&mut world, &HostCommand::Spawn { node: 2, parent: None, text: None });
    let first = table.entity_of(0).unwrap();
    let third = table.entity_of(2).unwrap();
    assert_eq!(table.node_of(first), Some(0));
    assert_eq!(table.node_of(third), Some(2));
    assert_eq!(table.node_of(world.spawn_empty().id().to_bits()), None);
    table.apply(&mut world, &HostCommand::Despawn { node: 0 });
    assert_eq!(table.node_of(first), None);
}

//! Committing recorded patches to a Bevy `World`.
//!
//! The engine names nodes by its own handles. This module keeps the table
//! from handles to the entities that stand for them, spawns, parents and
//! despawns those entities, and reports for every patch what became of it.
//! It looks every entity up before it touches it: a node whose entity has
//! vanished is reported as missing, and the world is left alone.

use crate::host::HostCommand;
use bevy::ecs::entity::Entity;
use bevy::ecs::world::World;
use bevy::hierarchy::BuildWorldChildren;
use vstd::prelude::*;

verus! {

/// Bevy's `World`, of which nothing is known here but what the two spec
/// functions below name.
#[verifier::external_type_specification]
#[verifier::external_body]
pub struct ExWorld(bevy::ecs::world::World);

/// The entities that a world can look up, each as the bits of its identifier.
pub uninterp spec fn world_entities(world: World) -> Set<u64>;

/// The parent of every entity that has one, child and parent each as the
/// bits of its identifier.
pub uninterp spec fn world_parents(world: World) -> Map<u64, u64>;

/// Whether every entity that `pre` can look up, except `gone`, can still be
/// looked up in `post`.
pub open spec fn keeps_entities(pre: World, post: World, gone: Set<u64>) -> bool {
    forall|e: u64|
        world_entities(pre).contains(e) && !gone.contains(e) ==> #[trigger] world_entities(
            post,
        ).contains(e)
}

/// `World::spawn_empty`, then `EntityWorldMut::id` and `Entity::to_bits`.
/// Claims that the entity that comes back could not be looked up before and
/// can be now, that no other entity is lost, and that no parent changes.
#[verifier::external_body]
fn spawn_entity(world: &mut World) -> (entity: u64)
    ensures
        !world_entities(*old(world)).contains(entity),
        world_entities(*final(world)).contains(entity),
        keeps_entities(*old(world), *final(world), Set::empty()),
        world_parents(*final(world)) == world_parents(*old(world)),
{
    world.spawn_empty().id().to_bits()
}

/// `Entity::try_from_bits` and `World::get_entity`. Claims that the answer
/// is whether the world can look the entity up; bits that are no identifier
/// name no entity.
#[verifier::external_body]
fn entity_exists(world: &World, entity: u64) -> (found: bool)
    ensures
        found == world_entities(*world).contains(entity),
{
    match Entity::try_from_bits(entity) {
        Ok(e) => world.get_entity(e).is_some(),
        Err(_) => false,
    }
}

/// `World::entity_mut` and `BuildWorldChildren::set_parent`, which panic
/// where one of the two entities does not exist or the two are the same.
/// Claims that no entity is lost, that `parent` is now the parent of
/// `child`, and that no other entity's parent changes.
#[verifier::external_body]
fn set_parent(world: &mut World, child: u64, parent: u64)
    requires
        world_entities(*old(world)).contains(child),
        world_entities(*old(world)).contains(parent),
        child != parent,
    ensures
        keeps_entities(*old(world), *final(world), Set::empty()),
        world_parents(*final(world)) == world_parents(*old(world)).insert(child, parent),
{
    world.entity_mut(Entity::from_bits(child)).set_parent(Entity::from_bits(parent));
}

/// `World::despawn`. Claims that the entity can no longer be looked up, that
/// no other entity is lost, and that the entity no longer has a parent while
/// every other entity keeps its own, also those that were its children.
#[verifier::external_body]
fn despawn_entity(world: &mut World, entity: u64)
    requires
        world_entities(*old(world)).contains(entity),
    ensures
        !world_entities(*final(world)).contains(entity),
        keeps_entities(*old(world), *final(world), set![entity]),
        world_parents(*final(world)) == world_parents(*old(world)).remove(entity),
{
    world.despawn(Entity::from_bits(entity));
}

/// What became of one patch.
#[derive(Debug, PartialEq, Eq)]
pub enum Applied {
    /// The node was spawned as `entity`, below `parent` if there is one. The
    /// text, if any, is for the text backend to show.
    Spawned { entity: u64, parent: Option<u64>, text: Option<String> },
    /// The node stands for `entity`, whose text is to be replaced.
    TextSet { entity: u64, content: String },
    /// The node's entity was despawned.
    Despawned { entity: u64 },
    /// Nothing was done, because `node` has no entity in the world: it was
    /// never spawned, was removed, or has vanished.
    Missing { node: usize },
    /// Nothing was done, because the patch spawns `node` although the table
    /// expects another handle next.
    OutOfOrder { node: usize },
}

/// The entity that stands for `node`, if the table knows one and the world
/// can look it up.
pub open spec fn resolved(table: Seq<Option<u64>>, world: World, node: usize) -> Option<u64> {
    if node < table.len() && table[node as int] is Some && world_entities(world).contains(
        table[node as int]->0,
    ) {
        table[node as int]
    } else {
        None
    }
}

/// What [`NodeTable::apply`] does with a patch that spawns the node that the
/// table expects next.
pub open spec fn applies_spawn(
    pre: World,
    table: Seq<Option<u64>>,
    parent: Option<usize>,
    text: Option<String>,
    applied: Applied,
    post: World,
    post_table: Seq<Option<u64>>,
) -> bool {
    if parent is Some && resolved(table, pre, parent->0) is None {
        &&& applied == Applied::Missing { node: parent->0 }
        &&& post == pre
        &&& post_table == table.push(None)
    } else {
        &&& applied matches Applied::Spawned { entity, parent: above, text: shown }
        &&& above == if parent is Some {
            resolved(table, pre, parent->0)
        } else {
            None
        }
        &&& shown == text
        &&& !world_entities(pre).contains(entity)
        &&& world_entities(post).contains(entity)
        &&& keeps_entities(pre, post, Set::empty())
        &&& world_parents(post) == if above is Some {
            world_parents(pre).insert(entity, above->0)
        } else {
            world_parents(pre)
        }
        &&& post_table == table.push(Some(entity))
    }
}

/// What [`NodeTable::apply`] does: the outcome `applied`, the world `post`
/// and the table `post_table` that one patch leaves.
pub open spec fn applies(
    pre: World,
    table: Seq<Option<u64>>,
    command: HostCommand,
    applied: Applied,
    post: World,
    post_table: Seq<Option<u64>>,
) -> bool {
    match command {
        HostCommand::Spawn { node, parent, text } => {
            if node != table.len() {
                &&& applied == Applied::OutOfOrder { node }
                &&& post == pre
                &&& post_table == table
            } else {
                applies_spawn(pre, table, parent, text, applied, post, post_table)
            }
        },
        HostCommand::SetText { node, content } => {
            &&& post == pre
            &&& post_table == table
            &&& applied == match resolved(table, pre, node) {
                Some(entity) => Applied::TextSet { entity, content },
                None => Applied::Missing { node },
            }
        },
        HostCommand::Despawn { node } => match resolved(table, pre, node) {
            Some(entity) => {
                &&& applied == Applied::Despawned { entity }
                &&& !world_entities(post).contains(entity)
                &&& keeps_entities(pre, post, set![entity])
                &&& world_parents(post) == world_parents(pre).remove(entity)
                &&& post_table == table.update(node as int, None)
            },
            None => {
                &&& applied == Applied::Missing { node }
                &&& post == pre
                &&& post_table == table
            },
        },
    }
}

/// The table from node handles to entities.
pub struct NodeTable {
    entities: Vec<Option<u64>>,
}

impl View for NodeTable {
    type V = Seq<Option<u64>>;

    closed spec fn view(&self) -> Seq<Option<u64>> {
        self.entities@
    }
}

impl NodeTable {
    /// A table that knows no node.
    pub fn new() -> (table: NodeTable)
        ensures
            table@ == Seq::<Option<u64>>::empty(),
    {
        NodeTable { entities: Vec::new() }
    }

    /// The number of handles that the table has seen spawned.
    pub fn len(&self) -> (len: usize)
        ensures
            len == self@.len(),
    {
        self.entities.len()
    }

    /// The entity that the table holds for `node`, whether or not it is
    /// still in any world.
    pub fn entity_of(&self, node: usize) -> (entity: Option<u64>)
        ensures
            entity == if node < self@.len() {
                self@[node as int]
            } else {
                None
            },
    {
        if node < self.entities.len() {
            self.entities[node]
        } else {
            None
        }
    }

    /// The first node that the table holds `entity` for.
    pub fn node_of(&self, entity: u64) -> (node: Option<usize>)
        ensures
            match node {
                Some(n) => {
                    &&& n < self@.len()
                    &&& self@[n as int] == Some(entity)
                    &&& forall|k: int| 0 <= k < n ==> self@[k] != Some(entity)
                },
                None => forall|k: int| 0 <= k < self@.len() ==> self@[k] != Some(entity),
            },
    {
        let mut n: usize = 0;
        while n < self.entities.len()
            invariant
                n <= self@.len(),
                forall|k: int| 0 <= k < n ==> self@[k] != Some(entity),
            decreases self@.len() - n,
        {
            match self.entities[n] {
                Some(e) => {
                    if e == entity {
                        return Some(n);
                    }
                },
                None => {},
            }
            n = n + 1;
        }
        None
    }

    /// The entity that stands for `node` in `world`, if there is one.
    pub fn resolve(&self, world: &World, node: usize) -> (entity: Option<u64>)
        ensures
            entity == resolved(self@, *world, node),
    {
        match self.entity_of(node) {
            Some(e) => {
                if entity_exists(world, e) {
                    Some(e)
                } else {
                    None
                }
            },
            None => None,
        }
    }

    /// Commits one patch to `world`. Every entity is looked up before it is
    /// touched, so that a patch for a node without an entity changes nothing
    /// in the world and is reported as [`Applied::Missing`].
    pub fn apply(&mut self, world: &mut World, command: &HostCommand) -> (applied: Applied)
        ensures
            applies(*old(world), old(self)@, *command, applied, *final(world), final(self)@),
    {
        match command {
            HostCommand::Spawn { node, parent, text } => {
                if *node != self.entities.len() {
                    return Applied::OutOfOrder { node: *node };
                }
                let above = match parent {
                    Some(p) => {
                        let found = self.resolve(world, *p);
                        if found.is_none() {
                            self.entities.push(None);
                            return Applied::Missing { node: *p };
                        }
                        found
                    },
                    None => None,
                };
                let entity = spawn_entity(world);
                match above {
                    Some(parent_entity) => {
                        set_parent(world, entity, parent_entity);
                    },
                    None => {},
                }
                self.entities.push(Some(entity));
                Applied::Spawned { entity, parent: above, text: text.clone() }
            },
            HostCommand::SetText { node, content } => {
                match self.resolve(world, *node) {
                    Some(entity) => Applied::TextSet { entity, content: content.clone() },
                    None => Applied::Missing { node: *node },
                }
            },
            HostCommand::Despawn { node } => {
                match self.resolve(world, *node) {
                    Some(entity) => {
                        despawn_entity(world, entity);
                        self.entities[*node] = None;
                        Applied::Despawned { entity }
                    },
                    None => Applied::Missing { node: *node },
                }
            },
        }
    }

    /// Commits a list of patches in order and reports the outcome of each:
    /// patch `i` is applied to the world and the table that patch `i - 1`
    /// left.
    pub fn apply_all(&mut self, world: &mut World, commands: &Vec<HostCommand>) -> (outcomes: Vec<
        Applied,
    >)
        ensures
            outcomes@.len() == commands@.len(),
            exists|worlds: Seq<World>, tables: Seq<Seq<Option<u64>>>|
                {
                    &&& worlds.len() == commands@.len() + 1
                    &&& tables.len() == commands@.len() + 1
                    &&& worlds[0] == *old(world)
                    &&& tables[0] == old(self)@
                    &&& worlds[commands@.len() as int] == *final(world)
                    &&& tables[commands@.len() as int] == final(self)@
                    &&& forall|i: int|
                        0 <= i < commands@.len() ==> applies(
                            #[trigger] worlds[i],
                            tables[i],
                            commands@[i],
                            outcomes@[i],
                            worlds[i + 1],
                            tables[i + 1],
                        )
                },
    {
        let mut outcomes: Vec<Applied> = Vec::new();
        let ghost mut worlds: Seq<World> = seq![*world];
        let ghost mut tables: Seq<Seq<Option<u64>>> = seq![self@];
        let mut i: usize = 0;
        while i < commands.len()
            invariant
                i <= commands@.len(),
                outcomes@.len() == i,
                worlds.len() == i + 1,
                tables.len() == i + 1,
                worlds[0] == *old(world),
                tables[0] == old(self)@,
                worlds[i as int] == *world,
                tables[i as int] == self@,
                forall|j: int|
                    0 <= j < i ==> applies(
                        #[trigger] worlds[j],
                        tables[j],
                        commands@[j],
                        outcomes@[j],
                        worlds[j + 1],
                        tables[j + 1],
                    ),
            decreases commands@.len() - i,
        {
            let applied = self.apply(world, &commands[i]);
            outcomes.push(applied);
            proof {
                worlds = worlds.push(*world);
                tables = tables.push(self@);
            }
            i = i + 1;
        }
        outcomes
    }
}

} // verus!

use vstd::prelude::*;

use crate::collision_groups::{
    CollisionGroups, COLLISION_CHARACTER, COLLISION_NO_PHYSICS, COLLISION_PROJECTILES, COLLISION_TREES,
    COLLISION_WORLD,
};
use crate::entity::EntityId;
use crate::geometry::{Vec3, UNIT};
use crate::health::{ApplyHealthEvent, Health, HealthRoot};
use crate::inventory::Item;
use crate::item_pickups::SpawnItemEvent;

verus! {

/// Health of a tree trunk.
pub const TREE_HEALTH: i32 = 6;

/// A new tree trunk's health.
pub fn trunk_health() -> (r: Health)
    ensures
        r.current == TREE_HEALTH && r.max == TREE_HEALTH,
{
    Health::new(TREE_HEALTH)
}

/// The trunk's collider: among trees and the world, meeting projectiles,
/// the world and characters.
pub fn trunk_groups() -> (r: CollisionGroups)
    ensures
        r == (CollisionGroups {
            memberships: COLLISION_TREES | COLLISION_WORLD,
            filters: COLLISION_PROJECTILES | COLLISION_WORLD | COLLISION_CHARACTER,
        }),
{
    CollisionGroups {
        memberships: COLLISION_TREES | COLLISION_WORLD,
        filters: COLLISION_PROJECTILES | COLLISION_WORLD | COLLISION_CHARACTER,
    }
}

/// The trunk's wider hitbox, which only projectiles meet; hits on it go to
/// the trunk's health.
pub fn trunk_hitbox(trunk: EntityId) -> (r: (HealthRoot, CollisionGroups))
    ensures
        r.0 == (HealthRoot { entity: trunk }),
        r.1 == (CollisionGroups { memberships: COLLISION_NO_PHYSICS, filters: COLLISION_PROJECTILES }),
{
    (HealthRoot { entity: trunk }, CollisionGroups { memberships: COLLISION_NO_PHYSICS, filters: COLLISION_PROJECTILES })
}

/// Damage dealt by someone else shakes the tree it hits.
pub fn shakes_tree(event: &ApplyHealthEvent) -> (r: bool)
    ensures
        r == (event.amount < 0 && event.target_entity != event.caster_entity),
{
    event.amount < 0 && event.target_entity != event.caster_entity
}

/// Where `id` stands according to `table` (its last entry), if anywhere.
pub open spec fn position_of(table: Seq<(EntityId, Vec3)>, id: EntityId) -> Option<Vec3>
    decreases table.len(),
{
    if table.len() == 0 {
        None
    } else if table.last().0 == id {
        Some(table.last().1)
    } else {
        position_of(table.drop_last(), id)
    }
}

fn find_position(table: &Vec<(EntityId, Vec3)>, id: EntityId) -> (r: Option<Vec3>)
    ensures
        r == position_of(table@, id),
{
    let mut i: usize = table.len();
    assert(table@.take(i as int) =~= table@);
    while i > 0
        invariant
            0 <= i <= table.len(),
            position_of(table@, id) == position_of(table@.take(i as int), id),
        decreases i,
    {
        assert(table@.take(i as int).drop_last() =~= table@.take(i - 1));
        if table[i - 1].0 == id {
            return Some(table[i - 1].1);
        }
        i = i - 1;
    }
    None
}

/// A log just above the target of each event whose target stands somewhere,
/// in event order.
pub open spec fn log_drops(events: Seq<ApplyHealthEvent>, table: Seq<(EntityId, Vec3)>) -> Seq<SpawnItemEvent>
    decreases events.len(),
{
    if events.len() == 0 {
        Seq::empty()
    } else {
        let rest = log_drops(events.drop_last(), table);
        match position_of(table, events.last().target_entity) {
            Some(p) => rest.push(
                SpawnItemEvent { item: Item::Log, pos: Vec3 { x: p.x, y: (p.y + UNIT) as i64, z: p.z } },
            ),
            None => rest,
        }
    }
}

/// Every hit drops a log just above the entity it hits, where that entity
/// stands; `positions` tells where entities stand.
pub fn spawn_log_on_health(events: &Vec<ApplyHealthEvent>, positions: &Vec<(EntityId, Vec3)>) -> (r: Vec<SpawnItemEvent>)
    requires
        crate::targeting::all_wf(positions@),
    ensures
        r@ == log_drops(events@, positions@),
{
    let mut out: Vec<SpawnItemEvent> = Vec::new();
    let mut i: usize = 0;
    while i < events.len()
        invariant
            0 <= i <= events.len(),
            crate::targeting::all_wf(positions@),
            out@ == log_drops(events@.take(i as int), positions@),
        decreases events.len() - i,
    {
        assert(events@.take(i + 1).drop_last() =~= events@.take(i as int));
        if let Some(p) = find_position(positions, events[i].target_entity) {
            proof {
                lemma_position_of_in(positions@, events[i as int].target_entity);
            }
            out.push(SpawnItemEvent { item: Item::Log, pos: Vec3 { x: p.x, y: p.y + UNIT, z: p.z } });
        }
        i = i + 1;
    }
    assert(events@.take(events.len() as int) =~= events@);
    out
}

proof fn lemma_position_of_in(table: Seq<(EntityId, Vec3)>, id: EntityId)
    requires
        crate::targeting::all_wf(table),
    ensures
        position_of(table, id) matches Some(p) ==> p.wf(),
    decreases table.len(),
{
    if table.len() > 0 {
        assert(table.last() == table[table.len() - 1]);
        lemma_position_of_in(table.drop_last(), id);
    }
}

} // verus!

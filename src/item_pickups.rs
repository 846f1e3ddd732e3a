use vstd::prelude::*;

use crate::geometry::Vec3;
use crate::inventory::{Inventory, Item};
use crate::random::{chance, random_in};

verus! {

/// How long a dropped item stays before it vanishes, in milliseconds.
pub const ITEM_LIFETIME: u32 = 20_000;

/// Asks to drop an item into the world.
#[derive(Clone, Copy, Debug, PartialEq, Eq, Structural)]
pub struct SpawnItemEvent {
    pub item: Item,
    pub pos: Vec3,
}

/// Drops an item every so often; times in milliseconds.
#[derive(Clone, Copy, Debug, PartialEq, Eq, Structural)]
pub struct SpawnItemEvery {
    /// Shortest wait between two drops.
    pub min_wait: u64,
    /// Longest wait between two drops (excluded).
    pub max_wait: u64,
    pub item: Item,
    /// When the next drop is due.
    pub next: u64,
}

/// Time left before an entity vanishes, in milliseconds.
#[derive(Clone, Copy, Debug, PartialEq, Eq, Structural)]
pub struct DespawnAfter(pub i64);

/// Counts down by `delta`; returns whether the entity is to vanish.
pub fn despawn_after(d: &mut DespawnAfter, delta: u32) -> (r: bool)
    requires
        old(d).0 - delta >= i64::MIN,
    ensures
        final(d).0 == old(d).0 - delta,
        r == (final(d).0 <= 0),
{
    d.0 = d.0 - delta as i64;
    d.0 <= 0
}

/// Drops the item when it is due at `now`, the next drop then waiting `wait`
/// milliseconds.
pub fn spawn_item_due(spawn: &mut SpawnItemEvery, pos: &Vec3, now: u64, wait: u64) -> (r: Option<SpawnItemEvent>)
    requires
        now + wait <= u64::MAX,
    ensures
        now >= old(spawn).next ==> r == Some(SpawnItemEvent { item: old(spawn).item, pos: *pos })
            && *final(spawn) == (SpawnItemEvery { next: (now + wait) as u64, ..*old(spawn) }),
        now < old(spawn).next ==> r is None && *final(spawn) == *old(spawn),
{
    if now >= spawn.next {
        spawn.next = now + wait;
        Some(SpawnItemEvent { item: spawn.item, pos: *pos })
    } else {
        None
    }
}

/// Drops the item when it is due at `now`, the next drop then waiting a
/// random time between the spawner's bounds.
pub fn spawn_item_every(spawn: &mut SpawnItemEvery, pos: &Vec3, now: u64) -> (r: Option<SpawnItemEvent>)
    requires
        old(spawn).min_wait < old(spawn).max_wait <= i64::MAX,
        now <= i64::MAX,
    ensures
        now >= old(spawn).next ==> r == Some(SpawnItemEvent { item: old(spawn).item, pos: *pos })
            && final(spawn).min_wait == old(spawn).min_wait && final(spawn).max_wait == old(spawn).max_wait
            && final(spawn).item == old(spawn).item
            && now + old(spawn).min_wait <= final(spawn).next < now + old(spawn).max_wait,
        now < old(spawn).next ==> r is None && *final(spawn) == *old(spawn),
{
    if now < spawn.next {
        return None;
    }
    let wait = random_in(spawn.min_wait as i64, spawn.max_wait as i64) as u64;
    spawn_item_due(spawn, pos, now, wait)
}

/// A picked-up item goes into the receiver's inventory.
pub fn perform_pickup(inventory: &mut Inventory, item: Item)
    requires
        old(inventory).wf(),
        old(inventory).count(item) < u32::MAX,
    ensures
        final(inventory).wf(),
        final(inventory).count(item) == old(inventory).count(item) + 1,
        forall|i: Item| i != item ==> final(inventory).count(i) == old(inventory).count(i),
{
    inventory.add_item(item, 1);
}

/// The fruit a new tree bears: an apple one time in ten, else bananas.
pub fn tree_fruit(apple: bool) -> (r: Item)
    ensures
        r == if apple { Item::Apple } else { Item::Banana },
{
    if apple {
        Item::Apple
    } else {
        Item::Banana
    }
}

/// The fruit dropper of a tree planted at `now`: a random fruit, dropped
/// every 5 to 20 seconds, the first after 5 to 120 seconds.
pub fn tree_fruit_spawner(now: u64) -> (r: SpawnItemEvery)
    requires
        now <= u64::MAX - 120_000,
    ensures
        r.item == Item::Apple || r.item == Item::Banana,
        r.min_wait == 5_000 && r.max_wait == 20_000,
        now + 5_000 <= r.next < now + 120_000,
{
    let item = tree_fruit(chance(1, 10));
    let first = random_in(5_000, 120_000) as u64;
    SpawnItemEvery { min_wait: 5_000, max_wait: 20_000, item, next: now + first }
}

} // verus!

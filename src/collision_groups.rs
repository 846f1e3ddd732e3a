use vstd::prelude::*;

verus! {

/// Collision layers, one bit each.
pub const COLLISION_CHARACTER: u32 = 1;

pub const COLLISION_WORLD: u32 = 2;

pub const COLLISION_NO_PHYSICS: u32 = 4;

pub const COLLISION_ITEM_PICKUP: u32 = 8;

pub const COLLISION_PROJECTILES: u32 = 16;

/// Things that the player can point at with the cursor.
pub const COLLISION_POINTER: u32 = 32;

pub const COLLISION_TREES: u32 = 64;

pub const COLLISION_BORDER: u32 = 128;

/// The layers a collider belongs to, and the layers it collides with.
#[derive(Clone, Copy, Debug, PartialEq, Eq, Structural)]
pub struct CollisionGroups {
    pub memberships: u32,
    pub filters: u32,
}

} // verus!

use vstd::prelude::*;

use crate::entity::EntityId;
use crate::geometry::{Vec3, UNIT};
use crate::inventory::Item;

verus! {

/// Time a pickup takes to fly to its receiver, in milliseconds.
pub const TIME_TO_FLY: u32 = 400;

/// Height of the hop a pickup makes on its way, in fixed-point units.
pub const FLY_HOP: i64 = 3 * UNIT;

/// Asks to hand a pickup to its receiver.
#[derive(Clone, Copy, Debug, PartialEq, Eq, Structural)]
pub struct OnPickedUpEvent {
    pub pickup_entity: EntityId,
    pub receiver_entity: EntityId,
}

/// A pickup on its way to an entity.
#[derive(Clone, Copy, Debug, PartialEq, Eq, Structural)]
pub struct FlyToEntity {
    pub entity: EntityId,
    pub initial_pos: Vec3,
    /// Time flown so far, in milliseconds.
    pub progress: u32,
}

/// What one side of a collision is: a magnet of some entity, a pickup, or neither.
#[derive(Clone, Copy, Debug, PartialEq, Eq, Structural)]
pub struct CollisionSide {
    pub entity: EntityId,
    /// The entity that the side's magnet pulls pickups to, if it is a magnet.
    pub magnet_root: Option<EntityId>,
    pub is_pickup: bool,
}

/// A collision sets a pickup flying when one side is a magnet and the other
/// a pickup (either way round, but not both ways); the result names the
/// entity it flies to and the pickup.
pub fn detect_pickup(a: &CollisionSide, b: &CollisionSide) -> (r: Option<(EntityId, EntityId)>)
    ensures
        r == if a.magnet_root is Some && b.is_pickup && !(b.magnet_root is Some) && !a.is_pickup {
            Some((a.magnet_root->0, b.entity))
        } else if !(a.magnet_root is Some) && !b.is_pickup && b.magnet_root is Some && a.is_pickup {
            Some((b.magnet_root->0, a.entity))
        } else {
            None
        },
{
    match (a.magnet_root, b.is_pickup, b.magnet_root, a.is_pickup) {
        (Some(m), true, None, false) => Some((m, b.entity)),
        (None, false, Some(m), true) => Some((m, a.entity)),
        _ => None,
    }
}

/// Share of the flight done, in thousandths, at most one whole.
pub open spec fn flight_done(progress: int) -> int {
    if progress >= TIME_TO_FLY {
        1000
    } else {
        progress * 1000 / TIME_TO_FLY as int
    }
}

/// The point `done` thousandths of the way from `a` to `b`, rounded towards `a`.
pub open spec fn lerp(a: int, b: int, done: int) -> int {
    if b >= a {
        a + (b - a) * done / 1000
    } else {
        a - (a - b) * done / 1000
    }
}

fn lerp_exec(a: i64, b: i64, done: i64) -> (r: i64)
    requires
        crate::geometry::coord_ok(a as int),
        crate::geometry::coord_ok(b as int),
        0 <= done <= 1000,
    ensures
        r == lerp(a as int, b as int, done as int),
        crate::geometry::coord_ok(r as int),
{
    let l = 2 * crate::geometry::COORD_LIMIT;
    if b >= a {
        proof {
            assert(0 <= (b - a) * done <= (b - a) * 1000) by (nonlinear_arith)
                requires
                    0 <= done <= 1000,
                    0 <= b - a,
            ;
            assert((b - a) * done / 1000 <= b - a) by (nonlinear_arith)
                requires
                    0 <= (b - a) * done <= (b - a) * 1000,
            ;
        }
        a + (b - a) * done / 1000
    } else {
        proof {
            assert(0 <= (a - b) * done <= (a - b) * 1000) by (nonlinear_arith)
                requires
                    0 <= done <= 1000,
                    0 <= a - b,
            ;
            assert((a - b) * done / 1000 <= a - b) by (nonlinear_arith)
                requires
                    0 <= (a - b) * done <= (a - b) * 1000,
            ;
        }
        a - (a - b) * done / 1000
    }
}

/// Height of the hop, in thousandths of `FLY_HOP`: rising over the first
/// quarter of the flight, then sinking, to half a hop below the straight
/// path at arrival.
pub open spec fn hop(done: int) -> int {
    if 2 * done - 500 > 0 {
        done - (2 * done - 500)
    } else {
        done
    }
}

/// Advances a flying pickup by `delta` milliseconds towards `target`.
/// Returns where it now is and whether it has arrived.
pub fn fly_to_target(fly: &mut FlyToEntity, target: &Vec3, delta: u32) -> (r: (Vec3, bool))
    requires
        old(fly).initial_pos.wf(),
        target.wf(),
    ensures
        final(fly).entity == old(fly).entity,
        final(fly).initial_pos == old(fly).initial_pos,
        final(fly).progress == if old(fly).progress + delta > TIME_TO_FLY as int {
            TIME_TO_FLY as int
        } else {
            old(fly).progress + delta
        },
        ({
            let done = flight_done(final(fly).progress as int);
            let s = old(fly).initial_pos;
            &&& r.0.x == lerp(s.x as int, target.x as int, done)
            &&& r.0.y == lerp(s.y as int, target.y as int, done) + FLY_HOP * hop(done) / 1000
            &&& r.0.z == lerp(s.z as int, target.z as int, done)
            &&& r.1 == (done >= 1000)
        }),
{
    let p = fly.progress as u64 + delta as u64;
    fly.progress = if p > TIME_TO_FLY as u64 {
        TIME_TO_FLY
    } else {
        p as u32
    };
    let done: i64 = if fly.progress >= TIME_TO_FLY {
        1000
    } else {
        fly.progress as i64 * 1000 / TIME_TO_FLY as i64
    };
    let s = fly.initial_pos;
    let h = if 2 * done - 500 > 0 {
        done - (2 * done - 500)
    } else {
        done
    };
    proof {
        assert(0 <= done <= 1000);
        assert(-500 <= h <= 500);
        assert(FLY_HOP * h / 1000 == 3 * h);
    }
    let x = lerp_exec(s.x, target.x, done);
    let y = lerp_exec(s.y, target.y, done) + FLY_HOP * h / 1000;
    let z = lerp_exec(s.z, target.z, done);
    (Vec3 { x, y, z }, done >= 1000)
}

/// A pickup whose receiver is gone falls back to the ground as a log
/// where it was.
pub fn orphaned_pickup(pos: &Vec3) -> (r: (Item, Vec3))
    ensures
        r == (Item::Log, *pos),
{
    (Item::Log, *pos)
}

} // verus!

use vstd::prelude::*;

use crate::entity::EntityId;
use crate::geometry::{dist_sq_xz, Vec3, UNIT};
use crate::targeting::all_wf;
use crate::weapon::{TryCastWeaponEvent, WeaponCooldown, WeaponStats, WeaponType, ProjectileId};

verus! {

/// How far a tower reaches, horizontally, in fixed-point units.
pub const TOWER_RANGE: i64 = 8 * UNIT;

/// Distance assumed for a target that is no longer an enemy.
pub const LOST_TARGET_DISTANCE: i64 = 10000 * UNIT;

/// A defence tower as it is built: its bow, a first shot delayed by two
/// seconds, plain modifiers, and no target.
#[derive(Clone, Copy, Debug, PartialEq, Eq, Structural)]
pub struct TowerSpawn {
    pub pos: Vec3,
    pub weapon_type: WeaponType,
    pub cooldown: WeaponCooldown,
    pub stats: WeaponStats,
}

/// Horizontal squared distance of the `i`-th enemy from the tower.
pub open spec fn enemy_dist(enemies: Seq<(EntityId, Vec3)>, tower: Vec3, i: int) -> int {
    dist_sq_xz(enemies[i].1, tower)
}

/// `i` is the first entry of `id` among the enemies.
pub open spec fn first_entry(enemies: Seq<(EntityId, Vec3)>, id: EntityId, i: int) -> bool {
    &&& 0 <= i < enemies.len()
    &&& enemies[i].0 == id
    &&& forall|j: int| 0 <= j < i ==> (#[trigger] enemies[j]).0 != id
}

/// The `i`-th enemy is at least as close as every other.
pub open spec fn closest(enemies: Seq<(EntityId, Vec3)>, tower: Vec3, i: int) -> bool {
    0 <= i < enemies.len() && forall|j: int|
        0 <= j < enemies.len() ==> enemy_dist(enemies, tower, i) <= #[trigger] enemy_dist(enemies, tower, j)
}

/// The `i`-th enemy is the first of the closest.
pub open spec fn first_closest(enemies: Seq<(EntityId, Vec3)>, tower: Vec3, i: int) -> bool {
    closest(enemies, tower, i) && forall|j: int|
        0 <= j < i ==> #[trigger] enemy_dist(enemies, tower, j) > enemy_dist(enemies, tower, i)
}

/// The current target is still an enemy and none is closer.
pub open spec fn keeps_target(enemies: Seq<(EntityId, Vec3)>, tower: Vec3, current: Option<EntityId>) -> bool {
    exists|i: int| #[trigger] first_entry(enemies, current->0, i) && current is Some && closest(enemies, tower, i)
}

/// Picks the tower's target: the closest enemy within range, keeping the
/// current target while none is strictly closer, else the first closest
/// one met; none when no enemy is in range.
pub fn tower_target(current: Option<EntityId>, tower_pos: &Vec3, enemies: &Vec<(EntityId, Vec3)>) -> (r:
    Option<EntityId>)
    requires
        tower_pos.wf(),
        all_wf(enemies@),
    ensures
        r is None == forall|i: int|
            0 <= i < enemies@.len() ==> #[trigger] enemy_dist(enemies@, *tower_pos, i) > TOWER_RANGE * TOWER_RANGE,
        r matches Some(e) ==> (keeps_target(enemies@, *tower_pos, current) ==> r == current),
        r matches Some(e) ==> (!keeps_target(enemies@, *tower_pos, current) ==> exists|k: int|
            first_closest(enemies@, *tower_pos, k) && #[trigger] enemies@[k].0 == e),
{
    let ghost es = enemies@;
    let ghost tp = *tower_pos;
    let big: i64 = LOST_TARGET_DISTANCE * LOST_TARGET_DISTANCE;
    let mut init: i64 = big;
    let ghost mut found: Option<int> = None;
    if let Some(c) = current {
        let mut i: usize = 0;
        while i < enemies.len()
            invariant_except_break
                forall|j: int| 0 <= j < i ==> (#[trigger] es[j]).0 != c,
                init == big,
                found is None,
            invariant
                0 <= i <= enemies.len(),
                es == enemies@,
                tower_pos.wf(),
                all_wf(es),
                tp == *tower_pos,
            ensures
                found is None ==> forall|j: int| 0 <= j < es.len() ==> (#[trigger] es[j]).0 != c,
                found matches Some(k) ==> first_entry(es, c, k) && init == enemy_dist(es, tp, k),
                found is None ==> init == big,
            decreases enemies.len() - i,
        {
            if enemies[i].0 == c {
                init = enemies[i].1.dist_sq_xz(tower_pos);
                proof {
                    found = Some(i as int);
                }
                break;
            }
            i = i + 1;
        }
    }
    let mut best = current;
    let mut curr = init;
    let ghost mut switched: Option<int> = None;
    let mut i: usize = 0;
    while i < enemies.len()
        invariant
            0 <= i <= enemies.len(),
            es == enemies@,
            tp == *tower_pos,
            tower_pos.wf(),
            all_wf(es),
            curr <= init,
            forall|j: int| 0 <= j < i ==> curr <= #[trigger] enemy_dist(es, tp, j),
            switched is None ==> curr == init && best == current,
            switched matches Some(k) ==> 0 <= k < i && curr == enemy_dist(es, tp, k) && best == Some(es[k].0)
                && curr < init && forall|j: int| 0 <= j < k ==> #[trigger] enemy_dist(es, tp, j) > curr,
        decreases enemies.len() - i,
    {
        let d = enemies[i].1.dist_sq_xz(tower_pos);
        if d < curr {
            best = Some(enemies[i].0);
            curr = d;
            proof {
                switched = Some(i as int);
            }
        }
        i = i + 1;
    }
    proof {
        if current is None {
            assert(found is None);
        }
        if found is None {
            if current is Some {
                assert forall|j: int| 0 <= j < es.len() implies !first_entry(es, current->0, j) by {
                    assert(es[j].0 != current->0);
                }
            }
            assert(!keeps_target(es, tp, current));
        }
        if let Some(k) = switched {
            assert(first_closest(es, tp, k));
            if keeps_target(es, tp, current) {
                let ic = choose|ic: int| #[trigger] first_entry(es, current->0, ic) && current is Some
                    && closest(es, tp, ic);
                if let Some(f) = found {
                    assert(forall|j: int| 0 <= j < f ==> (#[trigger] es[j]).0 != current->0);
                    if ic < f {
                        assert(es[ic].0 == current->0);
                    } else if f < ic {
                        assert(es[f].0 == current->0);
                    }
                    assert(enemy_dist(es, tp, ic) <= enemy_dist(es, tp, k));
                }
                assert(false);
            }
        } else {
            if let Some(f) = found {
                assert(closest(es, tp, f));
                assert(keeps_target(es, tp, current));
            }
        }
    }
    if curr > TOWER_RANGE * TOWER_RANGE {
        None
    } else {
        best
    }
}

/// A tower with a target shoots at it; `target_pos` is where the target is,
/// if it still exists.
pub fn tower_shoot(tower: EntityId, target: Option<EntityId>, tower_pos: &Vec3, target_pos: Option<Vec3>) -> (r:
    Option<TryCastWeaponEvent>)
    requires
        tower_pos.wf(),
        target_pos matches Some(p) ==> p.wf(),
    ensures
        r == match (target, target_pos) {
            (Some(t), Some(p)) => Some(
                TryCastWeaponEvent {
                    caster_entity: tower,
                    target_entity: Some(t),
                    dir: Vec3 { x: (p.x - tower_pos.x) as i64, y: (p.y - tower_pos.y) as i64, z: (p.z - tower_pos.z) as i64 },
                },
            ),
            _ => None,
        },
{
    match (target, target_pos) {
        (Some(t), Some(p)) => Some(
            TryCastWeaponEvent { caster_entity: tower, target_entity: Some(t), dir: tower_pos.offset_to(&p) },
        ),
        _ => None,
    }
}

/// A tower built at `pos`: raised five units up, armed with the given
/// projectile, its first shot two seconds away.
pub fn tower_spawn(pos: &Vec3, projectile: ProjectileId) -> (r: TowerSpawn)
    ensures
        r.pos == (Vec3 { x: pos.x, y: (5 * UNIT) as i64, z: pos.z }),
        r.weapon_type == WeaponType::Bow(projectile),
        r.cooldown.time_left == 2 * UNIT,
        r.stats.cooldown_mul == crate::weapon::PERMILLE,
        r.stats.damage_add == 0,
{
    TowerSpawn {
        pos: Vec3 { x: pos.x, y: 5 * UNIT, z: pos.z },
        weapon_type: WeaponType::Bow(projectile),
        cooldown: WeaponCooldown { time_left: 2 * UNIT },
        stats: WeaponStats::default(),
    }
}

} // verus!

use vstd::prelude::*;

use crate::entity::EntityId;
use crate::geometry::Vec3;
use crate::health::ApplyHealthEvent;
use crate::weapon::{CastWeaponEvent, ProjectileId, WeaponStats, WeaponType};

verus! {

/// A projectile definition, in fixed-point units.
#[derive(Clone, Debug)]
pub struct ProjectileAsset {
    /// Launch speed, units per second.
    pub speed: i64,
    /// Downward acceleration, units per second squared.
    pub gravity: i64,
    /// Random deviation of the launch direction.
    pub spread: i64,
    pub damage: i32,
    /// Hits until the projectile is removed.
    pub max_hits: i32,
    /// Path of the projectile's model.
    pub model: String,
}

/// Asks to launch a projectile.
#[derive(Clone, Copy, Debug, PartialEq, Eq, Structural)]
pub struct SpawnProjectileEvent {
    pub caster_entity: EntityId,
    pub target_entity: Option<EntityId>,
    pub pos: Vec3,
    pub dir: Vec3,
    pub projectile_asset: ProjectileId,
    pub additional_damage: i32,
}

/// A projectile in flight: where it is, where it flies and how fast, what
/// it has hit so far and whom it belongs to. Its velocity is `speed` along
/// `dir`.
#[derive(Clone, Copy, Debug, PartialEq, Eq, Structural)]
pub struct Projectile {
    pub pos: Vec3,
    /// Direction of flight, of any non-zero length.
    pub dir: Vec3,
    /// Speed along `dir`, units per second.
    pub speed: i64,
    /// Downward acceleration, units per second squared.
    pub gravity: i64,
    /// How many things this projectile has hit.
    pub hits: i32,
    pub caster_entity: EntityId,
    pub target_entity: Option<EntityId>,
    pub asset: ProjectileId,
    pub additional_damage: i32,
}

/// One entity that a projectile's travel segment crossed.
#[derive(Clone, Copy, Debug, PartialEq, Eq, Structural)]
pub struct RayHit {
    pub entity: EntityId,
    /// Whether the entity carries health itself.
    pub has_health: bool,
    /// The entity that owns the health, for a hitbox that only forwards hits.
    pub health_root: Option<EntityId>,
}

/// A bow cast launches a projectile from the caster; other casts are not
/// this function's to resolve.
pub fn cast_projectiles(event: &CastWeaponEvent, caster_pos: &Vec3, stats: &WeaponStats) -> (r:
    Option<SpawnProjectileEvent>)
    ensures
        r == (match event.weapon_type {
            WeaponType::Bow(id) => Some(
                SpawnProjectileEvent {
                    caster_entity: event.caster_entity,
                    target_entity: event.target_entity,
                    pos: *caster_pos,
                    dir: event.dir,
                    projectile_asset: id,
                    additional_damage: stats.damage_add,
                },
            ),
            _ => None,
        }),
{
    match event.weapon_type {
        WeaponType::Bow(id) => Some(
            SpawnProjectileEvent {
                caster_entity: event.caster_entity,
                target_entity: event.target_entity,
                pos: *caster_pos,
                dir: event.dir,
                projectile_asset: id,
                additional_damage: stats.damage_add,
            },
        ),
        _ => None,
    }
}

/// The projectile that a launch request starts, with no hits yet: from the
/// caster's position, along the requested direction at the definition's
/// speed, with its gravity. Nothing is launched while the definition is not
/// loaded.
pub fn spawn_projectile(event: &SpawnProjectileEvent, asset: Option<&ProjectileAsset>) -> (r: Option<Projectile>)
    ensures
        asset is None ==> r is None,
        asset matches Some(a) ==> r == Some(
            Projectile {
                pos: event.pos,
                dir: event.dir,
                speed: a.speed,
                gravity: a.gravity,
                hits: 0,
                caster_entity: event.caster_entity,
                target_entity: event.target_entity,
                asset: event.projectile_asset,
                additional_damage: event.additional_damage,
            },
        ),
{
    match asset {
        Some(a) => Some(
            Projectile {
                pos: event.pos,
                dir: event.dir,
                speed: a.speed,
                gravity: a.gravity,
                hits: 0,
                caster_entity: event.caster_entity,
                target_entity: event.target_entity,
                asset: event.projectile_asset,
                additional_damage: event.additional_damage,
            },
        ),
        None => None,
    }
}

/// A projectile with a target turns towards it, where the target still
/// stands (`target_pos`), keeping its speed; at the target's very position,
/// or without a target, it keeps its course.
pub fn projectile_aim(projectile: &mut Projectile, target_pos: Option<Vec3>)
    requires
        old(projectile).pos.wf(),
        target_pos matches Some(t) ==> t.wf(),
    ensures
        ({
            let p = *old(projectile);
            match target_pos {
                Some(t) => if t == p.pos || p.target_entity is None {
                    *final(projectile) == p
                } else {
                    *final(projectile) == (Projectile {
                        dir: Vec3 { x: (t.x - p.pos.x) as i64, y: (t.y - p.pos.y) as i64, z: (t.z - p.pos.z) as i64 },
                        ..p
                    })
                },
                None => *final(projectile) == p,
            }
        }),
{
    if let Some(t) = target_pos {
        if projectile.target_entity.is_some() && t != projectile.pos {
            projectile.dir = projectile.pos.offset_to(&t);
        }
    }
}

/// The entity whose health a ray hit harms: the hit entity when it carries
/// health, the entity it forwards to when it is a bare hitbox, none otherwise.
pub open spec fn health_target(h: RayHit) -> Option<EntityId> {
    if h.has_health && h.health_root is None {
        Some(h.entity)
    } else if !h.has_health && h.health_root is Some {
        h.health_root
    } else {
        None
    }
}

/// Every entity harmed by the ray hits, in order, before any budget applies;
/// the caster is never harmed.
pub open spec fn ray_targets(caster: EntityId, hits: Seq<RayHit>) -> Seq<EntityId>
    decreases hits.len(),
{
    if hits.len() == 0 {
        Seq::empty()
    } else {
        let rest = ray_targets(caster, hits.drop_last());
        match health_target(hits.last()) {
            Some(t) => if t != caster {
                rest.push(t)
            } else {
                rest
            },
            None => rest,
        }
    }
}

/// How many more hits the projectile may make before it is removed
/// (always at least one).
pub open spec fn hit_budget(p: Projectile, max_hits: i32) -> int {
    if max_hits - p.hits >= 1 {
        max_hits - p.hits
    } else {
        1
    }
}

pub open spec fn min(a: int, b: int) -> int {
    if a <= b {
        a
    } else {
        b
    }
}

pub open spec fn projectile_damage_event(p: Projectile, damage: i32, t: EntityId) -> ApplyHealthEvent {
    ApplyHealthEvent {
        amount: (-damage - p.additional_damage) as i32,
        target_entity: t,
        caster_entity: p.caster_entity,
    }
}

proof fn lemma_ray_targets_prefix(caster: EntityId, hits: Seq<RayHit>, i: int)
    requires
        0 <= i <= hits.len(),
    ensures
        ray_targets(caster, hits.take(i)).len() <= ray_targets(caster, hits).len(),
        ray_targets(caster, hits.take(i)) =~= ray_targets(caster, hits).take(
            ray_targets(caster, hits.take(i)).len() as int,
        ),
    decreases hits.len(),
{
    if i < hits.len() {
        assert(hits.drop_last().take(i) =~= hits.take(i));
        lemma_ray_targets_prefix(caster, hits.drop_last(), i);
    } else {
        assert(hits.take(i) =~= hits);
    }
}

/// Resolves the entities that a projectile's travel segment crossed, in the
/// order the ray met them: each harmed entity takes the projectile's damage
/// plus its caster's bonus, until the hit budget is spent. Returns the health
/// events and whether the projectile is used up and goes away.
pub fn resolve_projectile_hits(
    projectile: &mut Projectile,
    damage: i32,
    max_hits: i32,
    hits: &Vec<RayHit>,
) -> (r: (Vec<ApplyHealthEvent>, bool))
    requires
        old(projectile).hits < i32::MAX,
        i32::MIN <= -damage - old(projectile).additional_damage <= i32::MAX,
    ensures
        ({
            let t = ray_targets(old(projectile).caster_entity, hits@);
            let n = min(t.len() as int, hit_budget(*old(projectile), max_hits));
            &&& r.0@ == t.take(n).map_values(
                |e: EntityId| projectile_damage_event(*old(projectile), damage, e),
            )
            &&& r.1 == (t.len() >= hit_budget(*old(projectile), max_hits))
            &&& *final(projectile) == (Projectile { hits: (old(projectile).hits + n) as i32, ..*old(projectile) })
        }),
{
    let ghost orig = *projectile;
    let ghost all = hits@;
    let budget: i64 = if max_hits as i64 - projectile.hits as i64 >= 1 {
        max_hits as i64 - projectile.hits as i64
    } else {
        1
    };
    let amount = (-(damage as i64) - projectile.additional_damage as i64) as i32;
    let mut out: Vec<ApplyHealthEvent> = Vec::new();
    let ghost seen: Seq<EntityId> = Seq::empty();
    let mut used = false;
    let mut i: usize = 0;
    while i < hits.len()
        invariant_except_break
            (out@.len() as int) < budget,
            !used,
        invariant
            0 <= i <= hits.len(),
            all == hits@,
            budget == hit_budget(orig, max_hits),
            amount == -damage - orig.additional_damage,
            orig.hits < i32::MAX,
            seen == ray_targets(orig.caster_entity, all.take(i as int)),
            out@ == seen.map_values(|e: EntityId| projectile_damage_event(orig, damage, e)),
            *projectile == (Projectile { hits: (orig.hits + out@.len()) as i32, ..orig }),
        ensures
            seen == ray_targets(orig.caster_entity, all.take(i as int)),
            out@ == seen.map_values(|e: EntityId| projectile_damage_event(orig, damage, e)),
            *projectile == (Projectile { hits: (orig.hits + out@.len()) as i32, ..orig }),
            out@.len() <= budget,
            used == (out@.len() == budget),
            used || i == all.len(),
        decreases hits.len() - i,
    {
        let h = hits[i];
        assert(all.take(i + 1).drop_last() =~= all.take(i as int));
        assert(all.take(i + 1).last() == h);
        let target = if h.has_health && h.health_root.is_none() {
            Some(h.entity)
        } else if !h.has_health && h.health_root.is_some() {
            h.health_root
        } else {
            None
        };
        i = i + 1;
        if let Some(t) = target {
            if t != projectile.caster_entity {
                out.push(ApplyHealthEvent { amount, target_entity: t, caster_entity: projectile.caster_entity });
                proof {
                    seen = seen.push(t);
                    assert(out@ =~= seen.map_values(|e: EntityId| projectile_damage_event(orig, damage, e)));
                }
                projectile.hits = projectile.hits + 1;
                if out.len() as i64 >= budget {
                    used = true;
                    break;
                }
            }
        }
    }
    proof {
        lemma_ray_targets_prefix(orig.caster_entity, all, i as int);
        if i == all.len() {
            assert(all.take(i as int) =~= all);
        }
        let t = ray_targets(orig.caster_entity, all);
        assert(seen =~= t.take(min(t.len() as int, budget as int)));
    }
    (out, used)
}

} // verus!

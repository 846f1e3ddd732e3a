use vstd::prelude::*;

use crate::entity::EntityId;
use crate::geometry::{in_cone, in_cone_exec, Vec3, UNIT};
use crate::health::ApplyHealthEvent;

verus! {

/// Least time between two sound cues of a melee weapon, in milliseconds.
pub const AXE_SFX_COOLDOWN: u64 = 110;

/// Least time between two cast sound cues, in milliseconds.
pub const PROJ_SFX_COOLDOWN: u64 = 300;

/// Least time between two sound cues of the sledgehammer, in milliseconds.
pub const SLEDGEHAMMER_SFX_COOLDOWN: u64 = 600;

/// Radius of the melee swing, in fixed-point units.
pub const MELEE_RANGE: i64 = 2600;

/// A melee swing reaches targets whose direction has a cosine of at least
/// `MELEE_CONE_NUM / MELEE_CONE_DEN` with the swing direction.
pub const MELEE_CONE_NUM: i64 = 3;

pub const MELEE_CONE_DEN: i64 = 10;

/// Most targets a single swing can hurt.
pub const MAX_HIT: usize = 2;

pub const AXE_DAMAGE: i32 = 1;

pub const SLEDGEHAMMER_DAMAGE: i32 = 6;

/// One thousandth: the unit of `WeaponStats::cooldown_mul`.
pub const PERMILLE: u32 = 1000;

/// Modifiers of a weapon collected over the game.
#[derive(Clone, Copy, Debug, PartialEq, Eq, Structural)]
pub struct WeaponStats {
    /// Multiplier of the cooldown, in thousandths.
    pub cooldown_mul: u32,
    /// Added to the weapon's damage.
    pub damage_add: i32,
}

impl Default for WeaponStats {
    fn default() -> (r: WeaponStats)
        ensures
            r.cooldown_mul == PERMILLE,
            r.damage_add == 0,
    {
        WeaponStats { cooldown_mul: PERMILLE, damage_add: 0 }
    }
}

/// Refers to one loaded projectile definition.
#[derive(Clone, Copy, Debug, PartialEq, Eq, Structural, Hash)]
pub struct ProjectileId(pub u32);

#[derive(Clone, Copy, Debug, PartialEq, Eq, Structural)]
pub enum WeaponType {
    Axe,
    Bow(ProjectileId),
    SledgeHammer,
}

pub open spec fn base_cooldown(w: WeaponType) -> int {
    match w {
        WeaponType::Axe => 400,
        WeaponType::Bow(_) => 600,
        WeaponType::SledgeHammer => 1400,
    }
}

impl WeaponType {
    /// The sound played on a cast, and its volume in percent.
    pub fn sound_effect(&self) -> (r: (&'static str, u32))
        ensures
            r.0@ == (match *self {
                WeaponType::Axe => "sounds/axe-projectile.ogg"@,
                WeaponType::Bow(_) => "sounds/bow-projectile.ogg"@,
                WeaponType::SledgeHammer => "sounds/sledgehammer-projectile.ogg"@,
            }),
            r.1 == (match *self {
                WeaponType::Axe => 50int,
                WeaponType::Bow(_) => 90,
                WeaponType::SledgeHammer => 100,
            }),
    {
        match self {
            WeaponType::Axe => ("sounds/axe-projectile.ogg", 50),
            WeaponType::Bow(_) => ("sounds/bow-projectile.ogg", 90),
            WeaponType::SledgeHammer => ("sounds/sledgehammer-projectile.ogg", 100),
        }
    }

    /// Time between two casts before modifiers, in milliseconds.
    pub fn cooldown(&self) -> (r: u32)
        ensures
            r == base_cooldown(*self),
    {
        match self {
            WeaponType::Axe => 400,
            WeaponType::Bow(_) => 600,
            WeaponType::SledgeHammer => 1400,
        }
    }
}

/// Time until the weapon can be cast again, in milliseconds; ready at or below zero.
#[derive(Clone, Copy, Debug, PartialEq, Eq, Structural)]
pub struct WeaponCooldown {
    pub time_left: i64,
}

/// A request to cast; honoured only when the weapon is ready.
#[derive(Clone, Copy, Debug, PartialEq, Eq, Structural)]
pub struct TryCastWeaponEvent {
    pub caster_entity: EntityId,
    pub target_entity: Option<EntityId>,
    pub dir: Vec3,
}

/// A cast that takes place, whatever the cooldown.
#[derive(Clone, Copy, Debug, PartialEq, Eq, Structural)]
pub struct CastWeaponEvent {
    pub caster_entity: EntityId,
    pub target_entity: Option<EntityId>,
    pub weapon_type: WeaponType,
    pub dir: Vec3,
}

/// The result of a cast attempt that went through.
#[derive(Clone, Copy, Debug, PartialEq, Eq, Structural)]
pub struct CastOutcome {
    pub event: CastWeaponEvent,
    /// Whether the cast's sound cue plays.
    pub play_sound: bool,
}

/// The direction a cast goes in: as asked, or straight along `+z` when none was given.
pub open spec fn cast_dir(d: Vec3) -> Vec3 {
    if crate::geometry::is_zero(d) {
        Vec3 { x: 0, y: 0, z: UNIT }
    } else {
        d
    }
}

/// The cooldown that a cast starts.
pub open spec fn cast_cooldown(w: WeaponType, stats: WeaponStats) -> int {
    base_cooldown(w) * stats.cooldown_mul / PERMILLE as int
}

/// Advances the sound timer and every weapon cooldown by the elapsed time.
pub fn update_cooldown(cooldowns: &mut Vec<WeaponCooldown>, sfx_timer: &mut u64, delta: u32)
    requires
        *old(sfx_timer) + delta <= u64::MAX,
        forall|i: int|
            0 <= i < old(cooldowns)@.len() ==> i64::MIN <= #[trigger] old(cooldowns)@[i].time_left
                - delta,
    ensures
        *final(sfx_timer) == *old(sfx_timer) + delta,
        final(cooldowns)@.len() == old(cooldowns)@.len(),
        forall|i: int|
            0 <= i < final(cooldowns)@.len() ==> #[trigger] final(cooldowns)@[i].time_left
                == old(cooldowns)@[i].time_left - delta,
{
    *sfx_timer = *sfx_timer + delta as u64;
    let ghost orig = cooldowns@;
    let mut i: usize = 0;
    while i < cooldowns.len()
        invariant
            0 <= i <= cooldowns.len(),
            cooldowns@.len() == orig.len(),
            forall|j: int| 0 <= j < orig.len() ==> i64::MIN <= #[trigger] orig[j].time_left - delta,
            forall|j: int| 0 <= j < i ==> #[trigger] cooldowns@[j].time_left == orig[j].time_left - delta,
            forall|j: int| i <= j < orig.len() ==> #[trigger] cooldowns@[j] == orig[j],
        decreases cooldowns.len() - i,
    {
        let t = cooldowns[i].time_left;
        cooldowns.set(i, WeaponCooldown { time_left: t - delta as i64 });
        i = i + 1;
    }
}

/// Lets a cast attempt through when the weapon is ready: the cooldown then
/// restarts at the weapon's base cooldown times its multiplier, and a cast
/// event goes out. While the cooldown runs the attempt is dropped and nothing
/// changes. The sound cue plays when the caster is the monkey or the sound
/// timer has run its course, which then restarts.
pub fn promote_try_cast(
    event: &TryCastWeaponEvent,
    cooldown: &mut WeaponCooldown,
    weapon_type: &WeaponType,
    stats: &WeaponStats,
    sfx_timer: &mut u64,
    cast_by_monkey: bool,
) -> (r: Option<CastOutcome>)
    ensures
        old(cooldown).time_left > 0 ==> r is None && *final(cooldown) == *old(cooldown)
            && *final(sfx_timer) == *old(sfx_timer),
        old(cooldown).time_left <= 0 ==> r is Some,
        r matches Some(o) ==> {
            &&& o.event == (CastWeaponEvent {
                caster_entity: event.caster_entity,
                target_entity: event.target_entity,
                weapon_type: *weapon_type,
                dir: cast_dir(event.dir),
            })
            &&& final(cooldown).time_left == cast_cooldown(*weapon_type, *stats)
            &&& o.play_sound == (*old(sfx_timer) >= PROJ_SFX_COOLDOWN || cast_by_monkey)
            &&& *final(sfx_timer) == if o.play_sound { 0 } else { *old(sfx_timer) }
        },
{
    if cooldown.time_left > 0 {
        return None;
    }
    let play_sound = *sfx_timer >= PROJ_SFX_COOLDOWN || cast_by_monkey;
    if play_sound {
        *sfx_timer = 0;
    }
    let base = weapon_type.cooldown() as u64;
    proof {
        assert(base * stats.cooldown_mul <= 1400 * u32::MAX) by (nonlinear_arith)
            requires
                base <= 1400,
        ;
    }
    let t = base * stats.cooldown_mul as u64 / PERMILLE as u64;
    cooldown.time_left = t as i64;
    let dir = if event.dir.is_zero() {
        Vec3 { x: 0, y: 0, z: UNIT }
    } else {
        event.dir
    };
    Some(
        CastOutcome {
            event: CastWeaponEvent {
                caster_entity: event.caster_entity,
                target_entity: event.target_entity,
                weapon_type: *weapon_type,
                dir,
            },
            play_sound,
        },
    )
}

/// What a physics shape query around the caster returned.
#[derive(Clone, Copy, Debug, PartialEq, Eq, Structural)]
pub struct MeleeCandidate {
    pub entity: EntityId,
    pub pos: Vec3,
    /// Whether the entity carries health.
    pub has_health: bool,
}

/// A candidate is hit when it carries health, lies in the swing's cone and
/// is not the caster.
pub open spec fn melee_hits_candidate(
    caster: EntityId,
    caster_pos: Vec3,
    dir: Vec3,
    c: MeleeCandidate,
) -> bool {
    &&& c.has_health
    &&& in_cone(dir, caster_pos, c.pos, MELEE_CONE_NUM as int, MELEE_CONE_DEN as int)
    &&& c.entity != caster
}

/// Every candidate that the swing would hit, in query order, before the cap.
pub open spec fn melee_reachable(
    caster: EntityId,
    caster_pos: Vec3,
    dir: Vec3,
    cands: Seq<MeleeCandidate>,
) -> Seq<EntityId>
    decreases cands.len(),
{
    if cands.len() == 0 {
        Seq::empty()
    } else {
        let rest = melee_reachable(caster, caster_pos, dir, cands.drop_last());
        if melee_hits_candidate(caster, caster_pos, dir, cands.last()) {
            rest.push(cands.last().entity)
        } else {
            rest
        }
    }
}

/// The targets of a swing: the first `MAX_HIT` reachable candidates.
pub open spec fn melee_targets(
    caster: EntityId,
    caster_pos: Vec3,
    dir: Vec3,
    cands: Seq<MeleeCandidate>,
) -> Seq<EntityId> {
    let all = melee_reachable(caster, caster_pos, dir, cands);
    if all.len() <= MAX_HIT {
        all
    } else {
        all.take(MAX_HIT as int)
    }
}

pub open spec fn damage_event(caster: EntityId, damage: int, target: EntityId) -> ApplyHealthEvent {
    ApplyHealthEvent { amount: (-damage) as i32, target_entity: target, caster_entity: caster }
}

proof fn lemma_reachable_prefix(
    caster: EntityId,
    caster_pos: Vec3,
    dir: Vec3,
    cands: Seq<MeleeCandidate>,
    i: int,
)
    requires
        0 <= i <= cands.len(),
    ensures
        melee_reachable(caster, caster_pos, dir, cands.take(i)).len() <= melee_reachable(
            caster,
            caster_pos,
            dir,
            cands,
        ).len(),
        melee_reachable(caster, caster_pos, dir, cands.take(i)) =~= melee_reachable(
            caster,
            caster_pos,
            dir,
            cands,
        ).take(melee_reachable(caster, caster_pos, dir, cands.take(i)).len() as int),
    decreases cands.len(),
{
    if i < cands.len() {
        assert(cands.drop_last().take(i) =~= cands.take(i));
        lemma_reachable_prefix(caster, caster_pos, dir, cands.drop_last(), i);
    } else {
        assert(cands.take(i) =~= cands);
    }
}

/// Resolves one melee swing against the entities that the shape query found,
/// in the order found: each hit candidate, up to `MAX_HIT`, takes
/// `damage` points of damage.
pub fn resolve_melee(
    caster: EntityId,
    caster_pos: &Vec3,
    dir: &Vec3,
    damage: i32,
    candidates: &Vec<MeleeCandidate>,
) -> (r: Vec<ApplyHealthEvent>)
    requires
        caster_pos.wf(),
        dir.offset_ok(),
        forall|i: int| 0 <= i < candidates@.len() ==> (#[trigger] candidates@[i]).pos.wf(),
        damage > i32::MIN,
    ensures
        r@ == melee_targets(caster, *caster_pos, *dir, candidates@).map_values(
            |t: EntityId| damage_event(caster, damage as int, t),
        ),
{
    let ghost cands = candidates@;
    let mut out: Vec<ApplyHealthEvent> = Vec::new();
    let ghost hit: Seq<EntityId> = Seq::empty();
    let mut i: usize = 0;
    while i < candidates.len()
        invariant_except_break
            out@.len() < MAX_HIT,
        invariant
            0 <= i <= candidates.len(),
            cands == candidates@,
            caster_pos.wf(),
            dir.offset_ok(),
            forall|j: int| 0 <= j < cands.len() ==> (#[trigger] cands[j]).pos.wf(),
            damage > i32::MIN,
            hit == melee_reachable(caster, *caster_pos, *dir, cands.take(i as int)),
            out@ == hit.map_values(|t: EntityId| damage_event(caster, damage as int, t)),
        ensures
            out@.len() <= MAX_HIT,
            hit == melee_reachable(caster, *caster_pos, *dir, cands.take(i as int)),
            out@ == hit.map_values(|t: EntityId| damage_event(caster, damage as int, t)),
            out@.len() == MAX_HIT || i == cands.len(),
        decreases candidates.len() - i,
    {
        let c = candidates[i];
        assert(cands.take(i + 1).drop_last() =~= cands.take(i as int));
        assert(cands.take(i + 1).last() == c);
        if c.has_health && in_cone_exec(dir, caster_pos, &c.pos, MELEE_CONE_NUM, MELEE_CONE_DEN)
            && c.entity != caster {
            out.push(ApplyHealthEvent { amount: -damage, target_entity: c.entity, caster_entity: caster });
            proof {
                hit = hit.push(c.entity);
                assert(out@ =~= hit.map_values(|t: EntityId| damage_event(caster, damage as int, t)));
            }
        }
        i = i + 1;
        if out.len() >= MAX_HIT {
            break;
        }
    }
    proof {
        lemma_reachable_prefix(caster, *caster_pos, *dir, cands, i as int);
        if i == cands.len() {
            assert(cands.take(i as int) =~= cands);
        }
        assert(melee_targets(caster, *caster_pos, *dir, cands) =~= hit);
    }
    out
}

/// An axe swing: `AXE_DAMAGE` plus the caster's bonus to each target hit.
/// Casts of other weapons are not this function's to resolve.
pub fn cast_axes(
    event: &CastWeaponEvent,
    caster_pos: &Vec3,
    stats: &WeaponStats,
    candidates: &Vec<MeleeCandidate>,
) -> (r: Vec<ApplyHealthEvent>)
    requires
        caster_pos.wf(),
        event.dir.offset_ok(),
        forall|i: int| 0 <= i < candidates@.len() ==> (#[trigger] candidates@[i]).pos.wf(),
        i32::MIN < stats.damage_add + AXE_DAMAGE <= i32::MAX,
    ensures
        event.weapon_type == WeaponType::Axe ==> r@ == melee_targets(
            event.caster_entity,
            *caster_pos,
            event.dir,
            candidates@,
        ).map_values(
            |t: EntityId| damage_event(event.caster_entity, stats.damage_add + AXE_DAMAGE, t),
        ),
        event.weapon_type != WeaponType::Axe ==> r@.len() == 0,
{
    match event.weapon_type {
        WeaponType::Axe => resolve_melee(
            event.caster_entity,
            caster_pos,
            &event.dir,
            stats.damage_add + AXE_DAMAGE,
            candidates,
        ),
        _ => Vec::new(),
    }
}

/// A sledgehammer swing: `SLEDGEHAMMER_DAMAGE` plus the caster's bonus to
/// each target hit. Casts of other weapons are not this function's to resolve.
pub fn cast_sledgehammer(
    event: &CastWeaponEvent,
    caster_pos: &Vec3,
    stats: &WeaponStats,
    candidates: &Vec<MeleeCandidate>,
) -> (r: Vec<ApplyHealthEvent>)
    requires
        caster_pos.wf(),
        event.dir.offset_ok(),
        forall|i: int| 0 <= i < candidates@.len() ==> (#[trigger] candidates@[i]).pos.wf(),
        i32::MIN < stats.damage_add + SLEDGEHAMMER_DAMAGE <= i32::MAX,
    ensures
        event.weapon_type == WeaponType::SledgeHammer ==> r@ == melee_targets(
            event.caster_entity,
            *caster_pos,
            event.dir,
            candidates@,
        ).map_values(
            |t: EntityId| damage_event(event.caster_entity, stats.damage_add + SLEDGEHAMMER_DAMAGE, t),
        ),
        event.weapon_type != WeaponType::SledgeHammer ==> r@.len() == 0,
{
    match event.weapon_type {
        WeaponType::SledgeHammer => resolve_melee(
            event.caster_entity,
            caster_pos,
            &event.dir,
            stats.damage_add + SLEDGEHAMMER_DAMAGE,
            candidates,
        ),
        _ => Vec::new(),
    }
}

/// A swing never reaches a candidate straight behind the caster, and always
/// reaches one straight ahead that carries health and is not the caster.
pub proof fn lemma_melee_cone_front_back(
    caster: EntityId,
    caster_pos: Vec3,
    dir: Vec3,
    ahead: MeleeCandidate,
    behind: MeleeCandidate,
    k: int,
)
    requires
        !crate::geometry::is_zero(dir),
        k > 0,
        ahead.pos.x - caster_pos.x == k * dir.x,
        ahead.pos.y - caster_pos.y == k * dir.y,
        ahead.pos.z - caster_pos.z == k * dir.z,
        behind.pos.x - caster_pos.x == -k * dir.x,
        behind.pos.y - caster_pos.y == -k * dir.y,
        behind.pos.z - caster_pos.z == -k * dir.z,
        ahead.has_health,
        ahead.entity != caster,
    ensures
        melee_hits_candidate(caster, caster_pos, dir, ahead),
        !melee_hits_candidate(caster, caster_pos, dir, behind),
{
    let l = crate::geometry::len_sq(dir);
    assert(l > 0) by (nonlinear_arith)
        requires
            l == dir.x * dir.x + dir.y * dir.y + dir.z * dir.z,
            !(dir.x == 0 && dir.y == 0 && dir.z == 0),
    ;
    let ka = crate::geometry::dot_offset(dir, caster_pos, ahead.pos);
    let kb = crate::geometry::dot_offset(dir, caster_pos, behind.pos);
    assert(ka == k * l) by (nonlinear_arith)
        requires
            ka == dir.x * (ahead.pos.x - caster_pos.x) + dir.y * (ahead.pos.y - caster_pos.y)
                + dir.z * (ahead.pos.z - caster_pos.z),
            ahead.pos.x - caster_pos.x == k * dir.x,
            ahead.pos.y - caster_pos.y == k * dir.y,
            ahead.pos.z - caster_pos.z == k * dir.z,
            l == dir.x * dir.x + dir.y * dir.y + dir.z * dir.z,
    ;
    assert(kb == -k * l) by (nonlinear_arith)
        requires
            kb == dir.x * (behind.pos.x - caster_pos.x) + dir.y * (behind.pos.y - caster_pos.y)
                + dir.z * (behind.pos.z - caster_pos.z),
            behind.pos.x - caster_pos.x == -k * dir.x,
            behind.pos.y - caster_pos.y == -k * dir.y,
            behind.pos.z - caster_pos.z == -k * dir.z,
            l == dir.x * dir.x + dir.y * dir.y + dir.z * dir.z,
    ;
    let da = crate::geometry::dist_sq(caster_pos, ahead.pos);
    assert(da == k * k * l) by (nonlinear_arith)
        requires
            da == (caster_pos.x - ahead.pos.x) * (caster_pos.x - ahead.pos.x) + (caster_pos.y
                - ahead.pos.y) * (caster_pos.y - ahead.pos.y) + (caster_pos.z - ahead.pos.z) * (
            caster_pos.z - ahead.pos.z),
            ahead.pos.x - caster_pos.x == k * dir.x,
            ahead.pos.y - caster_pos.y == k * dir.y,
            ahead.pos.z - caster_pos.z == k * dir.z,
            l == dir.x * dir.x + dir.y * dir.y + dir.z * dir.z,
    ;
    assert(kb < 0) by (nonlinear_arith)
        requires
            kb == -k * l,
            k > 0,
            l > 0,
    ;
    assert(ka >= 0) by (nonlinear_arith)
        requires
            ka == k * l,
            k > 0,
            l > 0,
    ;
    assert(10 * 10 * ka * ka >= 3 * 3 * l * da) by (nonlinear_arith)
        requires
            ka == k * l,
            da == k * k * l,
            l > 0,
    ;
}

/// A rate-limited sound cue: plays when the timer has reached `threshold`,
/// which restarts it; otherwise the timer advances by `delta`.
pub fn sfx_gate(timer: &mut u64, threshold: u64, delta: u32) -> (r: bool)
    requires
        *old(timer) + delta <= u64::MAX,
    ensures
        r == (*old(timer) >= threshold),
        r ==> *final(timer) == 0,
        !r ==> *final(timer) == *old(timer) + delta,
{
    if *timer >= threshold {
        *timer = 0;
        true
    } else {
        *timer = *timer + delta as u64;
        false
    }
}

} // verus!

use no_communication::entity::EntityId;
use no_communication::geometry::Vec3;
use no_communication::weapon::{
    cast_axes, cast_sledgehammer, promote_try_cast, sfx_gate, update_cooldown, CastWeaponEvent,
    MeleeCandidate, ProjectileId, TryCastWeaponEvent, WeaponCooldown, WeaponStats, WeaponType,
};

const CASTER: EntityId = EntityId(1);

fn try_cast(dir: Vec3) -> TryCastWeaponEvent {
    TryCastWeaponEvent { caster_entity: CASTER, target_entity: None, dir }
}

#[test]
fn cast_on_cooldown_is_dropped() {
    let mut cd = WeaponCooldown { time_left: 200 };
    let mut sfx = 1000;
    let r = promote_try_cast(&try_cast(Vec3::new(1000, 0, 0)), &mut cd, &WeaponType::Axe, &WeaponStats::default(), &mut sfx, true);
    assert!(r.is_none());
    assert_eq!(cd.time_left, 200);
    assert_eq!(sfx, 1000);
    let mut cds = vec![cd];
    update_cooldown(&mut cds, &mut sfx, 16);
    assert_eq!(cds[0].time_left, 184);
    assert_eq!(sfx, 1016);
}

#[test]
fn ready_cast_restarts_cooldown() {
    let mut cd = WeaponCooldown { time_left: -5 };
    let mut sfx = 100;
    let stats = WeaponStats { cooldown_mul: 800, damage_add: 0 };
    let r = promote_try_cast(&try_cast(Vec3::new(0, 0, 0)), &mut cd, &WeaponType::SledgeHammer, &stats, &mut sfx, false).unwrap();
    assert_eq!(cd.time_left, 1120);
    assert!(!r.play_sound);
    assert_eq!(sfx, 100);
    assert_eq!(r.event.dir, Vec3::new(0, 0, 1000));
    assert_eq!(r.event.weapon_type, WeaponType::SledgeHammer);
    assert_eq!(r.event.caster_entity, CASTER);
}

#[test]
fn cast_sound_is_rate_limited() {
    let mut cd = WeaponCooldown { time_left: 0 };
    let mut sfx = 300;
    let bow = WeaponType::Bow(ProjectileId(0));
    let r = promote_try_cast(&try_cast(Vec3::new(0, 0, 5)), &mut cd, &bow, &WeaponStats::default(), &mut sfx, false).unwrap();
    assert!(r.play_sound);
    assert_eq!(sfx, 0);
    assert_eq!(cd.time_left, 600);
    assert_eq!(r.event.dir, Vec3::new(0, 0, 5));
}

#[test]
fn weapon_constants() {
    assert_eq!(WeaponType::Axe.cooldown(), 400);
    assert_eq!(WeaponType::Bow(ProjectileId(3)).cooldown(), 600);
    assert_eq!(WeaponType::SledgeHammer.cooldown(), 1400);
    assert_eq!(WeaponType::Axe.sound_effect(), ("sounds/axe-projectile.ogg", 50));
    assert_eq!(WeaponType::Bow(ProjectileId(0)).sound_effect(), ("sounds/bow-projectile.ogg", 90));
}

fn cand(id: u64, x: i64, z: i64, has_health: bool) -> MeleeCandidate {
    MeleeCandidate { entity: EntityId(id), pos: Vec3::new(x, 0, z), has_health }
}

fn axe_cast(dir: Vec3) -> CastWeaponEvent {
    CastWeaponEvent { caster_entity: CASTER, target_entity: None, weapon_type: WeaponType::Axe, dir }
}

#[test]
fn melee_excludes_target_behind_and_hits_ahead() {
    let origin = Vec3::new(0, 0, 0);
    let stats = WeaponStats::default();
    let behind = vec![cand(7, -1000, 0, true)];
    assert!(cast_axes(&axe_cast(Vec3::new(1000, 0, 0)), &origin, &stats, &behind).is_empty());
    let ahead = vec![cand(8, 1500, 0, true)];
    let hits = cast_axes(&axe_cast(Vec3::new(1000, 0, 0)), &origin, &stats, &ahead);
    assert_eq!(hits.len(), 1);
    assert_eq!(hits[0].target_entity, EntityId(8));
    assert_eq!(hits[0].amount, -1);
    assert_eq!(hits[0].caster_entity, CASTER);
}

#[test]
fn melee_cone_edge() {
    let origin = Vec3::new(0, 0, 0);
    let stats = WeaponStats::default();
    let dir = Vec3::new(1000, 0, 0);
    // cosine about 0.29: outside
    let outside = vec![cand(6, 300, 985, true)];
    assert!(cast_axes(&axe_cast(dir), &origin, &stats, &outside).is_empty());
    // cosine about 0.32: inside
    let inside = vec![cand(6, 300, 900, true)];
    assert_eq!(cast_axes(&axe_cast(dir), &origin, &stats, &inside).len(), 1);
}

#[test]
fn melee_caps_hits_and_skips_self_and_scenery() {
    let origin = Vec3::new(0, 0, 0);
    let stats = WeaponStats { cooldown_mul: 1000, damage_add: 2 };
    let cands = vec![
        cand(1, 0, 0, true),
        cand(2, 0, 1000, false),
        cand(3, 0, 1200, true),
        cand(4, 100, 1300, true),
        cand(5, 0, 900, true),
    ];
    let hits = cast_axes(&axe_cast(Vec3::new(0, 0, 1000)), &origin, &stats, &cands);
    let ids: Vec<EntityId> = hits.iter().map(|h| h.target_entity).collect();
    assert_eq!(ids, vec![EntityId(3), EntityId(4)]);
    assert!(hits.iter().all(|h| h.amount == -3));
}

#[test]
fn sledgehammer_deals_its_damage_only_for_its_casts() {
    let origin = Vec3::new(0, 0, 0);
    let stats = WeaponStats { cooldown_mul: 1000, damage_add: 1 };
    let cands = vec![cand(9, 0, 2000, true)];
    let ev = CastWeaponEvent { caster_entity: CASTER, target_entity: None, weapon_type: WeaponType::SledgeHammer, dir: Vec3::new(0, 0, 1) };
    let hits = cast_sledgehammer(&ev, &origin, &stats, &cands);
    assert_eq!(hits.len(), 1);
    assert_eq!(hits[0].amount, -7);
    assert!(cast_axes(&ev, &origin, &stats, &cands).is_empty());
    assert!(cast_sledgehammer(&axe_cast(Vec3::new(0, 0, 1)), &origin, &stats, &cands).is_empty());
}

#[test]
fn sound_gate_restarts_when_due() {
    let mut t = 50;
    assert!(!sfx_gate(&mut t, 110, 30));
    assert_eq!(t, 80);
    assert!(!sfx_gate(&mut t, 110, 30));
    assert_eq!(t, 110);
    assert!(sfx_gate(&mut t, 110, 30));
    assert_eq!(t, 0);
}

use no_communication::entity::EntityId;
use no_communication::geometry::Vec3;
use no_communication::projectile::{cast_projectiles, projectile_aim, resolve_projectile_hits, spawn_projectile, Projectile, ProjectileAsset, RayHit};
use no_communication::weapon::{CastWeaponEvent, ProjectileId, WeaponStats, WeaponType};

const CASTER: EntityId = EntityId(1);

fn bow_asset() -> ProjectileAsset {
    ProjectileAsset { speed: 30_000, gravity: 2_000, spread: 0, damage: 2, max_hits: 1, model: String::from("models/arrow.gltf#Scene0") }
}

fn arrow() -> Projectile {
    let ev = cast_projectiles(
        &CastWeaponEvent { caster_entity: CASTER, target_entity: Some(EntityId(4)), weapon_type: WeaponType::Bow(ProjectileId(2)), dir: Vec3::new(0, 0, 1000) },
        &Vec3::new(10, 20, 30),
        &WeaponStats { cooldown_mul: 1000, damage_add: 1 },
    )
    .unwrap();
    assert_eq!(ev.pos, Vec3::new(10, 20, 30));
    assert_eq!(ev.projectile_asset, ProjectileId(2));
    assert_eq!(ev.additional_damage, 1);
    spawn_projectile(&ev, Some(&bow_asset())).unwrap()
}

fn hit(id: u64, has_health: bool, root: Option<u64>) -> RayHit {
    RayHit { entity: EntityId(id), has_health, health_root: root.map(EntityId) }
}

#[test]
fn only_bows_launch_projectiles() {
    let ev = CastWeaponEvent { caster_entity: CASTER, target_entity: None, weapon_type: WeaponType::Axe, dir: Vec3::new(0, 0, 1) };
    assert!(cast_projectiles(&ev, &Vec3::new(0, 0, 0), &WeaponStats::default()).is_none());
}

#[test]
fn projectile_hits_through_health_roots_until_spent() {
    let mut p = arrow();
    assert_eq!(p.hits, 0);
    let hits = vec![
        hit(1, true, None),
        hit(2, false, None),
        hit(3, false, Some(30)),
        hit(5, true, Some(6)),
        hit(7, true, None),
        hit(8, true, None),
    ];
    let (events, gone) = resolve_projectile_hits(&mut p, 2, 2, &hits);
    let targets: Vec<EntityId> = events.iter().map(|e| e.target_entity).collect();
    assert_eq!(targets, vec![EntityId(30), EntityId(7)]);
    assert!(events.iter().all(|e| e.amount == -3 && e.caster_entity == CASTER));
    assert!(gone);
    assert_eq!(p.hits, 2);
}

#[test]
fn projectile_keeps_flying_with_budget_left() {
    let mut p = arrow();
    let (events, gone) = resolve_projectile_hits(&mut p, 1, 3, &vec![hit(9, true, None)]);
    assert_eq!(events.len(), 1);
    assert!(!gone);
    assert_eq!(p.hits, 1);
    let (events, gone) = resolve_projectile_hits(&mut p, 1, 3, &vec![]);
    assert!(events.is_empty());
    assert!(!gone);
}

#[test]
fn projectile_starts_at_caster_along_cast() {
    let p = arrow();
    assert_eq!(p.pos, Vec3::new(10, 20, 30));
    assert_eq!(p.dir, Vec3::new(0, 0, 1000));
    assert_eq!(p.speed, 30_000);
    assert_eq!(p.gravity, 2_000);
    assert_eq!(p.target_entity, Some(EntityId(4)));
    assert_eq!(p.additional_damage, 1);
}

#[test]
fn unloaded_definition_launches_nothing() {
    let ev = cast_projectiles(
        &CastWeaponEvent { caster_entity: CASTER, target_entity: None, weapon_type: WeaponType::Bow(ProjectileId(2)), dir: Vec3::new(0, 0, 1000) },
        &Vec3::new(0, 0, 0),
        &WeaponStats::default(),
    )
    .unwrap();
    assert!(spawn_projectile(&ev, None).is_none());
}

#[test]
fn homing_turns_towards_target_keeping_speed() {
    let mut p = arrow();
    projectile_aim(&mut p, Some(Vec3::new(1010, 20, 30)));
    assert_eq!(p.dir, Vec3::new(1000, 0, 0));
    assert_eq!(p.speed, 30_000);
    projectile_aim(&mut p, None);
    assert_eq!(p.dir, Vec3::new(1000, 0, 0));
    p.target_entity = None;
    projectile_aim(&mut p, Some(Vec3::new(10, 520, 30)));
    assert_eq!(p.dir, Vec3::new(1000, 0, 0));
}

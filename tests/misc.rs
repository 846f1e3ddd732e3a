use no_communication::ui_util::{update_button_color, ButtonLook, Interaction};
use no_communication::player::pickup_magnet_groups;
use no_communication::collision_groups::{COLLISION_BORDER, COLLISION_CHARACTER, COLLISION_ITEM_PICKUP};
use no_communication::notification::{despawn_notifications, NotificationStep};
use no_communication::entity::EntityId;
use no_communication::geometry::Vec3;
use no_communication::health::ApplyHealthEvent;
use no_communication::inventory::{Inventory, Item};
use no_communication::item_pickups::{despawn_after, perform_pickup, spawn_item_every, tree_fruit_spawner, DespawnAfter, SpawnItemEvery};
use no_communication::tree::{shakes_tree, spawn_log_on_health, trunk_health};
use no_communication::pickup::{detect_pickup, fly_to_target, CollisionSide, FlyToEntity};
use no_communication::player::{apply_attack, attack_input, farmer_animation, Attack, Body, FarmerAnimation, FarmerAnimator, PlayerInput, PointerTarget};
use no_communication::utils::movement_axis;

#[test]
fn axis_from_two_keys() {
    assert_eq!(movement_axis(true, false), 1);
    assert_eq!(movement_axis(false, true), -1);
    assert_eq!(movement_axis(true, true), 0);
    assert_eq!(movement_axis(false, false), 0);
}

#[test]
fn body_stats() {
    assert_eq!(Body::Boss.health().max, 100);
    assert_eq!(Body::FastRobot.health().current, 6);
    assert_eq!(Body::FastRobot.weapon_stats().cooldown_mul, 800);
    assert_eq!(Body::Robot.weapon_stats().damage_add, 1);
    assert_eq!(Body::Monkey.movement_speed(), 20000);
    assert!(!Body::Monkey.is_hostile());
    assert!(Body::Boss.is_hostile());
}

#[test]
fn pointer_attack() {
    let me = EntityId(1);
    let pos = Vec3::new(0, 0, 0);
    let on = Some(PointerTarget { entity: EntityId(2), wpos: Vec3::new(10, 0, -20) });
    assert_eq!(attack_input(me, &pos, true, on), Some(Attack { dir: Vec3::new(10, 0, -20), target: Some(EntityId(2)) }));
    assert_eq!(attack_input(me, &pos, false, on), None);
    let self_on = Some(PointerTarget { entity: me, wpos: Vec3::new(1, 1, 1) });
    assert_eq!(attack_input(me, &pos, true, self_on), None);
    let input = PlayerInput { movement: Vec3::new(0, 0, 0), jump: false, attack: attack_input(me, &pos, true, on) };
    let ev = apply_attack(me, &input).unwrap();
    assert_eq!(ev.target_entity, Some(EntityId(2)));
    assert_eq!(farmer_animation(&input), FarmerAnimation::Attack);
    assert_eq!(farmer_animation(&PlayerInput::new()), FarmerAnimation::Idle);
}

#[test]
fn animator_switches() {
    let mut a = FarmerAnimator { idle: EntityId(1), run: EntityId(2), attack: EntityId(3), next_anim: None };
    a.play(FarmerAnimation::Run);
    assert_eq!(a.next_anim, Some(FarmerAnimation::Run));
    assert_eq!(a.model_of(FarmerAnimation::Attack), EntityId(3));
    assert_eq!(a.model_entities(), [EntityId(1), EntityId(2), EntityId(3)]);
}

#[test]
fn pickup_needs_magnet_and_pickup() {
    let magnet = CollisionSide { entity: EntityId(1), magnet_root: Some(EntityId(10)), is_pickup: false };
    let item = CollisionSide { entity: EntityId(2), magnet_root: None, is_pickup: true };
    let wall = CollisionSide { entity: EntityId(3), magnet_root: None, is_pickup: false };
    assert_eq!(detect_pickup(&magnet, &item), Some((EntityId(10), EntityId(2))));
    assert_eq!(detect_pickup(&item, &magnet), Some((EntityId(10), EntityId(2))));
    assert_eq!(detect_pickup(&magnet, &wall), None);
}

#[test]
fn pickup_flies_with_a_hop() {
    let mut fly = FlyToEntity { entity: EntityId(1), initial_pos: Vec3::new(0, 0, 0), progress: 0 };
    let target = Vec3::new(4000, 0, -4000);
    let (p, arrived) = fly_to_target(&mut fly, &target, 100);
    assert_eq!(p, Vec3::new(1000, 750, -1000));
    assert!(!arrived);
    let (p, arrived) = fly_to_target(&mut fly, &target, 500);
    assert_eq!(fly.progress, 400);
    assert_eq!(p, Vec3::new(4000, -1500, -4000));
    assert!(arrived);
}

#[test]
fn timers_and_drops() {
    let mut d = DespawnAfter(20);
    assert!(!despawn_after(&mut d, 10));
    assert!(despawn_after(&mut d, 10));
    let mut s = SpawnItemEvery { min_wait: 5000, max_wait: 20000, item: Item::Banana, next: 1000 };
    assert!(spawn_item_every(&mut s, &Vec3::new(0, 0, 0), 999).is_none());
    let ev = spawn_item_every(&mut s, &Vec3::new(1, 2, 3), 1000).unwrap();
    assert_eq!(ev.item, Item::Banana);
    assert!(s.next >= 6000 && s.next < 21000);
    let t = tree_fruit_spawner(0);
    assert!(t.item == Item::Apple || t.item == Item::Banana);
    assert!(t.next >= 5000 && t.next < 120000);
    let mut inv = Inventory::new();
    perform_pickup(&mut inv, Item::Log);
    assert_eq!(inv.get_item_count(Item::Log), 1);
    let events = vec![
        ApplyHealthEvent { amount: -1, target_entity: EntityId(5), caster_entity: EntityId(1) },
        ApplyHealthEvent { amount: -1, target_entity: EntityId(6), caster_entity: EntityId(1) },
    ];
    let drops = spawn_log_on_health(&events, &vec![(EntityId(5), Vec3::new(1, 2, 3)), (EntityId(7), Vec3::new(0, 0, 0))]);
    assert_eq!(drops.len(), 1);
    assert_eq!(drops[0].pos, Vec3::new(1, 1002, 3));
    assert_eq!(drops[0].item, Item::Log);
}

#[test]
fn notifications_fade_out() {
    let mut t: i64 = 1000;
    assert_eq!(despawn_notifications(&mut t, 100), NotificationStep::Show(1000));
    assert_eq!(despawn_notifications(&mut t, 600), NotificationStep::Show(875));
    assert_eq!(despawn_notifications(&mut t, 300), NotificationStep::Vanish);
    assert_eq!(t, 0);
}

#[test]
fn collision_layers() {
    assert_eq!(Body::Monkey.collision_groups().filters & COLLISION_BORDER, COLLISION_BORDER);
    assert_eq!(Body::Robot.collision_groups().filters & COLLISION_BORDER, 0);
    assert_eq!(Body::Boss.collision_groups().memberships, COLLISION_CHARACTER);
    assert_eq!(pickup_magnet_groups().filters, COLLISION_ITEM_PICKUP);
}

#[test]
fn trees_shake_on_foreign_damage() {
    let hit = ApplyHealthEvent { amount: -2, target_entity: EntityId(5), caster_entity: EntityId(1) };
    assert!(shakes_tree(&hit));
    let heal = ApplyHealthEvent { amount: 2, target_entity: EntityId(5), caster_entity: EntityId(1) };
    assert!(!shakes_tree(&heal));
    let own = ApplyHealthEvent { amount: -2, target_entity: EntityId(5), caster_entity: EntityId(5) };
    assert!(!shakes_tree(&own));
    assert_eq!(trunk_health().max, 6);
}

#[test]
fn release_over_button_is_a_click() {
    assert_eq!(update_button_color(Interaction::Hovered, Some(Interaction::Pressed)), (ButtonLook::Hovered, true));
    assert_eq!(update_button_color(Interaction::Hovered, Some(Interaction::Idle)), (ButtonLook::Hovered, false));
    assert_eq!(update_button_color(Interaction::Pressed, None), (ButtonLook::Pressed, false));
    assert_eq!(update_button_color(Interaction::Idle, Some(Interaction::Pressed)), (ButtonLook::Rest, false));
}

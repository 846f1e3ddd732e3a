use no_communication::entity::EntityId;
use no_communication::health::{apply_health_events, despawn_dead, ApplyHealthEvent, Health};

#[test]
fn heal_is_clamped_at_max() {
    let mut h = Health::new(10);
    h.sub_assign(4);
    assert_eq!(h.current, 6);
    h.add_assign(3);
    assert_eq!(h.current, 9);
    h.add_assign(5);
    assert_eq!(h.current, 10);
    h.add_assign(1);
    assert_eq!(h.current, 10);
    assert_eq!(h.max, 10);
}

#[test]
fn damage_has_no_floor() {
    let h = Health::new(5);
    let h = h.add(-8);
    assert_eq!(h.current, -3);
    assert!(h.is_dead());
    let h = h.sub(2);
    assert_eq!(h.current, -5);
}

#[test]
fn zero_health_is_dead() {
    let h = Health::new(3).sub(3);
    assert!(h.is_dead());
    assert!(!Health::new(1).is_dead());
}

#[test]
fn percent_is_clamped() {
    assert_eq!(Health::new(20).percent(), 100);
    assert_eq!(Health::new(20).sub(5).percent(), 75);
    assert_eq!(Health::new(3).sub(2).percent(), 33);
    assert_eq!(Health::new(20).sub(25).percent(), 0);
}

#[test]
fn events_apply_in_order_and_skip_missing_targets() {
    let a = EntityId(1);
    let b = EntityId(2);
    let ghost_target = EntityId(9);
    let mut table = vec![(a, Health::new(10)), (b, Health::new(6))];
    let events = vec![
        ApplyHealthEvent { amount: -4, target_entity: a, caster_entity: b },
        ApplyHealthEvent { amount: -1, target_entity: ghost_target, caster_entity: b },
        ApplyHealthEvent { amount: 7, target_entity: a, caster_entity: a },
        ApplyHealthEvent { amount: -6, target_entity: b, caster_entity: a },
    ];
    apply_health_events(&mut table, &events);
    assert_eq!(table[0].1.current, 10);
    assert_eq!(table[1].1.current, 0);
    assert_eq!(despawn_dead(&table), vec![b]);
}

#[test]
fn nobody_dead_nobody_despawned() {
    let table = vec![(EntityId(1), Health::new(1)), (EntityId(2), Health::new(2))];
    assert!(despawn_dead(&table).is_empty());
}

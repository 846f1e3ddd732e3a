use no_communication::entity::EntityId;
use no_communication::geometry::Vec3;
use no_communication::player::{robot_ai, robot_decide, Attack, PlayerInput, PositionCheck, RobotController};
use no_communication::targeting::nearest;
use no_communication::tower::{tower_shoot, tower_spawn, tower_target};
use no_communication::weapon::{ProjectileId, WeaponType};

fn at(id: u64, x: i64, z: i64) -> (EntityId, Vec3) {
    (EntityId(id), Vec3::new(x, 0, z))
}

#[test]
fn nearest_takes_first_of_equals() {
    let cands = vec![at(1, 5000, 0), at(2, 0, 3000), at(3, 3000, 0)];
    assert_eq!(nearest(&cands, &Vec3::new(0, 0, 0)), Some(1));
    assert_eq!(nearest(&vec![], &Vec3::new(0, 0, 0)), None);
}

#[test]
fn tower_keeps_target_until_strictly_closer() {
    let tower = Vec3::new(0, 5000, 0);
    let enemies = vec![at(1, 4000, 0), at(2, 0, 4000), at(3, 6000, 0)];
    assert_eq!(tower_target(Some(EntityId(2)), &tower, &enemies), Some(EntityId(2)));
    assert_eq!(tower_target(Some(EntityId(3)), &tower, &enemies), Some(EntityId(1)));
    assert_eq!(tower_target(None, &tower, &enemies), Some(EntityId(1)));
}

#[test]
fn tower_ignores_enemies_out_of_range() {
    let tower = Vec3::new(0, 5000, 0);
    assert_eq!(tower_target(Some(EntityId(1)), &tower, &vec![at(1, 8001, 0)]), None);
    assert_eq!(tower_target(None, &tower, &vec![at(1, 8000, 0)]), Some(EntityId(1)));
    assert_eq!(tower_target(Some(EntityId(4)), &tower, &vec![]), None);
}

#[test]
fn tower_shoots_at_its_target() {
    let built = tower_spawn(&Vec3::new(1000, 0, 2000), ProjectileId(1));
    assert_eq!(built.pos, Vec3::new(1000, 5000, 2000));
    assert_eq!(built.weapon_type, WeaponType::Bow(ProjectileId(1)));
    assert_eq!(built.cooldown.time_left, 2000);
    let shot = tower_shoot(EntityId(9), Some(EntityId(3)), &built.pos, Some(Vec3::new(4000, 0, 2000))).unwrap();
    assert_eq!(shot.dir, Vec3::new(3000, -5000, 0));
    assert_eq!(shot.target_entity, Some(EntityId(3)));
    assert!(tower_shoot(EntityId(9), None, &built.pos, None).is_none());
}

fn fresh() -> (RobotController, PlayerInput) {
    (RobotController::new(), PlayerInput::new())
}

#[test]
fn robot_notices_monkey_in_range() {
    let (mut c, mut input) = fresh();
    let monkeys = vec![at(50, 3000, 0)];
    let trees = vec![at(60, 1000, 0)];
    robot_decide(&mut c, &mut input, &Vec3::new(0, 0, 0), 10000, 0, &monkeys, &trees, &vec![], None, false, false);
    assert_eq!(c.target, Some(EntityId(50)));
    assert_eq!(c.last_position_check, Some(PositionCheck { time: 0, pos: Vec3::new(0, 0, 0) }));
    assert_eq!(input.attack, None);
}

#[test]
fn robot_chases_and_attacks_its_monkey() {
    let (mut c, mut input) = fresh();
    c.target = Some(EntityId(50));
    let monkeys = vec![at(50, 6000, 8000)];
    robot_decide(&mut c, &mut input, &Vec3::new(0, 0, 0), 10000, 0, &monkeys, &vec![], &vec![], Some(Vec3::new(6000, 0, 8000)), true, false);
    assert_eq!(input.movement, Vec3::new(6000, 0, 8000));
    assert_eq!(input.attack, None);
    let close = vec![at(50, 1000, 1000)];
    robot_decide(&mut c, &mut input, &Vec3::new(0, 0, 0), 10000, 50, &close, &vec![], &vec![], Some(Vec3::new(1000, 0, 1000)), true, false);
    assert_eq!(input.attack, Some(Attack { dir: Vec3::new(1000, 0, 1000), target: None }));
    assert_eq!(c.target, Some(EntityId(50)));
}

#[test]
fn robot_falls_back_to_nearest_structure() {
    let (mut c, mut input) = fresh();
    c.target = Some(EntityId(70));
    let trees = vec![at(60, 9000, 0), at(61, 7000, 0)];
    let spawners = vec![at(80, 20000, 0)];
    robot_decide(&mut c, &mut input, &Vec3::new(0, 0, 0), 10000, 0, &vec![], &trees, &spawners, None, false, false);
    assert_eq!(c.target, Some(EntityId(61)));
    let (mut c2, mut input2) = fresh();
    robot_decide(&mut c2, &mut input2, &Vec3::new(0, 0, 0), 10000, 0, &vec![], &trees, &spawners, None, false, true);
    assert_eq!(c2.target, Some(EntityId(80)));
    let (mut c3, mut input3) = fresh();
    robot_decide(&mut c3, &mut input3, &Vec3::new(0, 0, 0), 10000, 0, &vec![], &vec![], &vec![], None, false, false);
    assert_eq!(c3.target, None);
}

#[test]
fn stuck_robot_attacks_in_place() {
    let (mut c, mut input) = fresh();
    c.target = Some(EntityId(60));
    c.last_position_check = Some(PositionCheck { time: 1000, pos: Vec3::new(0, 0, 0) });
    input.movement = Vec3::new(0, 0, 5000);
    let trees = vec![at(60, 0, 9000)];
    robot_decide(&mut c, &mut input, &Vec3::new(0, 0, 100), 10000, 1100, &vec![], &trees, &vec![], Some(Vec3::new(0, 0, 9000)), true, false);
    assert_eq!(input.attack, Some(Attack { dir: Vec3::new(0, 0, 5000), target: None }));
    assert_eq!(input.movement, Vec3::new(0, 0, 8900));
    assert_eq!(c.last_position_check, Some(PositionCheck { time: 1100, pos: Vec3::new(0, 0, 100) }));
    assert_eq!(c.target, Some(EntityId(60)));
}

#[test]
fn robot_ai_picks_some_structure() {
    let (mut c, mut input) = fresh();
    let trees = vec![at(60, 9000, 0)];
    let spawners = vec![at(80, 20000, 0)];
    robot_ai(&mut c, &mut input, &Vec3::new(0, 0, 0), 10000, 0, &vec![], &trees, &spawners, None, false);
    assert!(c.target == Some(EntityId(60)) || c.target == Some(EntityId(80)));
}

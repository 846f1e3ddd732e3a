use vstd::prelude::*;

use crate::collision_groups::{
    CollisionGroups, COLLISION_BORDER, COLLISION_CHARACTER, COLLISION_ITEM_PICKUP, COLLISION_POINTER,
    COLLISION_PROJECTILES, COLLISION_WORLD,
};
use crate::entity::EntityId;
use crate::geometry::{dist_sq, is_zero, Vec3, COORD_LIMIT, UNIT};
use crate::health::Health;
use crate::random::chance;
use crate::targeting::{all_wf, nearest, nearest_index};
use crate::weapon::{TryCastWeaponEvent, WeaponStats, WeaponType, PERMILLE};

verus! {

pub const PLAYER_HEALTH: i32 = 20;

pub const ROBOT_HEALTH: i32 = 10;

pub const BOSS_HEALTH: i32 = 100;

pub const FAST_ROBOT_HEALTH: i32 = 6;

/// Radius within which the player draws pickups in, in fixed-point units.
pub const PLAYER_PICKUP_RADIUS: i64 = 3000;

/// The kind of character an actor is.
#[derive(Clone, Copy, Debug, PartialEq, Eq, Structural, Hash)]
pub enum Body {
    Monkey,
    Robot,
    FastRobot,
    Boss,
}

/// Whether the body belongs to the hostile faction.
pub open spec fn is_hostile(b: Body) -> bool {
    b != Body::Monkey
}

impl Body {
    pub fn is_hostile(&self) -> (r: bool)
        ensures
            r == is_hostile(*self),
    {
        match self {
            Body::Monkey => false,
            _ => true,
        }
    }

    /// Movement speed, in fixed-point units per second.
    pub fn movement_speed(&self) -> (r: i64)
        ensures
            r == (match *self {
                Body::Monkey => 20 * UNIT,
                Body::Robot => 10 * UNIT,
                Body::FastRobot => 14 * UNIT,
                Body::Boss => 7500,
            }),
    {
        match self {
            Body::Monkey => 20 * UNIT,
            Body::Robot => 10 * UNIT,
            Body::FastRobot => 14 * UNIT,
            Body::Boss => 7500,
        }
    }

    /// The health an actor of this body starts with.
    pub fn health(&self) -> (r: Health)
        ensures
            r.current == r.max,
            r.max == (match *self {
                Body::Monkey => PLAYER_HEALTH,
                Body::Robot => ROBOT_HEALTH,
                Body::FastRobot => FAST_ROBOT_HEALTH,
                Body::Boss => BOSS_HEALTH,
            }),
    {
        match self {
            Body::Monkey => Health::new(PLAYER_HEALTH),
            Body::Robot => Health::new(ROBOT_HEALTH),
            Body::FastRobot => Health::new(FAST_ROBOT_HEALTH),
            Body::Boss => Health::new(BOSS_HEALTH),
        }
    }

    /// The collision layers of the actor's body: the monkey also meets the
    /// field's border, which robots pass through.
    pub fn collision_groups(&self) -> (r: CollisionGroups)
        ensures
            r.memberships == COLLISION_CHARACTER,
            r.filters == if *self == Body::Monkey {
                COLLISION_CHARACTER | COLLISION_WORLD | COLLISION_PROJECTILES | COLLISION_BORDER
            } else {
                COLLISION_CHARACTER | COLLISION_WORLD | COLLISION_PROJECTILES
            },
    {
        match self {
            Body::Monkey => CollisionGroups {
                memberships: COLLISION_CHARACTER,
                filters: COLLISION_CHARACTER | COLLISION_WORLD | COLLISION_PROJECTILES | COLLISION_BORDER,
            },
            _ => CollisionGroups {
                memberships: COLLISION_CHARACTER,
                filters: COLLISION_CHARACTER | COLLISION_WORLD | COLLISION_PROJECTILES,
            },
        }
    }

    /// The weapon modifiers an actor of this body starts with.
    pub fn weapon_stats(&self) -> (r: WeaponStats)
        ensures
            r == (match *self {
                Body::Monkey => WeaponStats { cooldown_mul: PERMILLE, damage_add: 0 },
                Body::Robot => WeaponStats { cooldown_mul: PERMILLE, damage_add: 1 },
                Body::FastRobot => WeaponStats { cooldown_mul: 800, damage_add: 0 },
                Body::Boss => WeaponStats { cooldown_mul: PERMILLE, damage_add: 1 },
            }),
    {
        match self {
            Body::Monkey => WeaponStats { cooldown_mul: PERMILLE, damage_add: 0 },
            Body::Robot => WeaponStats { cooldown_mul: PERMILLE, damage_add: 1 },
            Body::FastRobot => WeaponStats { cooldown_mul: 800, damage_add: 0 },
            Body::Boss => WeaponStats { cooldown_mul: PERMILLE, damage_add: 1 },
        }
    }
}

/// The collider that draws pickups to an actor: in every layer, meeting
/// item pickups only.
pub fn pickup_magnet_groups() -> (r: CollisionGroups)
    ensures
        r == (CollisionGroups { memberships: u32::MAX, filters: COLLISION_ITEM_PICKUP }),
{
    CollisionGroups { memberships: u32::MAX, filters: COLLISION_ITEM_PICKUP }
}

/// The hitbox by which a robot can be pointed at.
pub fn pointer_hitbox_groups() -> (r: CollisionGroups)
    ensures
        r == (CollisionGroups { memberships: COLLISION_POINTER, filters: COLLISION_POINTER }),
{
    CollisionGroups { memberships: COLLISION_POINTER, filters: COLLISION_POINTER }
}

/// Asks to bring a new actor into the world.
#[derive(Clone, Copy, Debug, PartialEq, Eq, Structural)]
pub struct SpawnPlayerEvent {
    pub pos: Vec3,
    /// Whether the actor is the one the human controls.
    pub is_main: bool,
    pub body: Body,
    pub weapon_type: WeaponType,
}

/// What the pointer rests on: an entity and the point hit, in world space.
#[derive(Clone, Copy, Debug, PartialEq, Eq, Structural)]
pub struct PointerTarget {
    pub entity: EntityId,
    pub wpos: Vec3,
}

/// The human's attack intent: while the button is held, an attack towards
/// what the pointer rests on, unless that is the player itself.
pub fn attack_input(player: EntityId, pos: &Vec3, pressed: bool, pointer_on: Option<PointerTarget>) -> (r:
    Option<Attack>)
    requires
        pos.wf(),
        pointer_on matches Some(p) ==> p.wpos.wf(),
    ensures
        r == if pressed && pointer_on is Some && pointer_on->0.entity != player {
            Some(
                Attack {
                    dir: Vec3 {
                        x: (pointer_on->0.wpos.x - pos.x) as i64,
                        y: (pointer_on->0.wpos.y - pos.y) as i64,
                        z: (pointer_on->0.wpos.z - pos.z) as i64,
                    },
                    target: Some(pointer_on->0.entity),
                },
            )
        } else {
            None
        },
{
    if !pressed {
        return None;
    }
    match pointer_on {
        Some(p) => if p.entity == player {
            None
        } else {
            Some(Attack { dir: pos.offset_to(&p.wpos), target: Some(p.entity) })
        },
        None => None,
    }
}

/// An actor that wants to attack tries to cast its weapon.
pub fn apply_attack(entity: EntityId, input: &PlayerInput) -> (r: Option<TryCastWeaponEvent>)
    ensures
        r == match input.attack {
            Some(a) => Some(TryCastWeaponEvent { caster_entity: entity, target_entity: a.target, dir: a.dir }),
            None => None,
        },
{
    match input.attack {
        Some(a) => Some(TryCastWeaponEvent { caster_entity: entity, target_entity: a.target, dir: a.dir }),
        None => None,
    }
}

/// An animation of the farmer model.
#[derive(Clone, Copy, Debug, PartialEq, Eq, Structural)]
pub enum FarmerAnimation {
    Idle,
    Run,
    Attack,
}

/// The farmer's three animated models and the animation to switch to.
#[derive(Clone, Copy, Debug, PartialEq, Eq, Structural)]
pub struct FarmerAnimator {
    pub idle: EntityId,
    pub run: EntityId,
    pub attack: EntityId,
    pub next_anim: Option<FarmerAnimation>,
}

impl FarmerAnimator {
    pub fn play(&mut self, anim: FarmerAnimation)
        ensures
            *final(self) == (FarmerAnimator { next_anim: Some(anim), ..*old(self) }),
    {
        self.next_anim = Some(anim);
    }

    /// The model entity that shows `anim`.
    pub fn model_of(&self, anim: FarmerAnimation) -> (r: EntityId)
        ensures
            r == match anim {
                FarmerAnimation::Idle => self.idle,
                FarmerAnimation::Run => self.run,
                FarmerAnimation::Attack => self.attack,
            },
    {
        match anim {
            FarmerAnimation::Idle => self.idle,
            FarmerAnimation::Run => self.run,
            FarmerAnimation::Attack => self.attack,
        }
    }

    pub fn model_entities(&self) -> (r: [EntityId; 3])
        ensures
            r@ == seq![self.idle, self.run, self.attack],
    {
        [self.idle, self.run, self.attack]
    }
}

/// The animation that the player's intent calls for: attacking wins over
/// running, running over standing still.
pub fn farmer_animation(input: &PlayerInput) -> (r: FarmerAnimation)
    ensures
        r == if input.attack is Some {
            FarmerAnimation::Attack
        } else if !is_zero(input.movement) {
            FarmerAnimation::Run
        } else {
            FarmerAnimation::Idle
        },
{
    if input.attack.is_some() {
        FarmerAnimation::Attack
    } else if !input.movement.is_zero() {
        FarmerAnimation::Run
    } else {
        FarmerAnimation::Idle
    }
}

/// How often a robot checks whether it is stuck, in milliseconds.
pub const STUCK_CHECK_INTERVAL: u64 = 100;

/// A robot closer than this to its target attacks it, in fixed-point units.
pub const ATTACK_DISTANCE: i64 = 2 * UNIT;

/// Range within which a robot notices the monkey, in fixed-point units.
pub const ATTACK_MONKEY_RANGE: i64 = 5 * UNIT;

/// Chance, out of `SPAWNER_CHANCE_DEN`, that a robot goes for a tree
/// spawner before a tree.
pub const SPAWNER_CHANCE_NUM: u32 = 1;

pub const SPAWNER_CHANCE_DEN: u32 = 10;

/// What an actor wants to do this frame, set by the human's input or by the AI.
#[derive(Clone, Copy, Debug, PartialEq, Eq, Structural)]
pub struct PlayerInput {
    pub movement: Vec3,
    pub jump: bool,
    pub attack: Option<Attack>,
}

/// An attack an actor wants to make: its direction, and the entity aimed
/// at, if any.
#[derive(Clone, Copy, Debug, PartialEq, Eq, Structural)]
pub struct Attack {
    pub dir: Vec3,
    pub target: Option<EntityId>,
}

/// When, in milliseconds, and where a robot checked whether it is stuck.
#[derive(Clone, Copy, Debug, PartialEq, Eq, Structural)]
pub struct PositionCheck {
    pub time: u64,
    pub pos: Vec3,
}

impl PlayerInput {
    pub fn new() -> (r: PlayerInput)
        ensures
            r == (PlayerInput { movement: Vec3 { x: 0, y: 0, z: 0 }, jump: false, attack: None }),
    {
        PlayerInput { movement: Vec3 { x: 0, y: 0, z: 0 }, jump: false, attack: None }
    }
}

/// The memory of a robot.
#[derive(Clone, Copy, Debug, PartialEq, Eq, Structural)]
pub struct RobotController {
    pub target: Option<EntityId>,
    /// Distance within which the robot notices the monkey, in fixed-point units.
    pub attack_monkey_range: i64,
    /// When and where the robot last checked whether it is stuck.
    pub last_position_check: Option<PositionCheck>,
}

impl RobotController {
    pub fn new() -> (r: RobotController)
        ensures
            r == (RobotController {
                target: None,
                attack_monkey_range: ATTACK_MONKEY_RANGE,
                last_position_check: None,
            }),
    {
        RobotController { target: None, attack_monkey_range: ATTACK_MONKEY_RANGE, last_position_check: None }
    }
}

/// Least distance a robot must cover between two checks not to count as
/// stuck, in fixed-point units.
pub open spec fn min_move(speed: int) -> int {
    speed * (STUCK_CHECK_INTERVAL as int) / 5000int
}

/// A check is due once the interval has passed since the last one.
pub open spec fn check_due(t: u64, now: u64) -> bool {
    now >= t + STUCK_CHECK_INTERVAL
}

/// The robot wanted to move but has barely moved since its last check.
pub open spec fn is_stuck(c: RobotController, input: PlayerInput, pos: Vec3, speed: int, now: u64) -> bool {
    match c.last_position_check {
        Some(k) => check_due(k.time, now) && dist_sq(k.pos, pos) <= min_move(speed) * min_move(speed)
            && !is_zero(input.movement),
        None => false,
    }
}

/// The check record after this frame.
pub open spec fn next_check(c: RobotController, pos: Vec3, now: u64) -> Option<PositionCheck> {
    match c.last_position_check {
        Some(k) => if check_due(k.time, now) {
            Some(PositionCheck { time: now, pos })
        } else {
            c.last_position_check
        },
        None => Some(PositionCheck { time: now, pos }),
    }
}

/// Goes for a target at `t`: attack it when close, else walk towards it on
/// the ground.
pub open spec fn approach(input: PlayerInput, pos: Vec3, t: Vec3) -> PlayerInput {
    if dist_sq(pos, t) < ATTACK_DISTANCE * ATTACK_DISTANCE {
        PlayerInput {
            attack: Some(
                Attack {
                    dir: Vec3 { x: (t.x - pos.x) as i64, y: (t.y - pos.y) as i64, z: (t.z - pos.z) as i64 },
                    target: None,
                },
            ),
            ..input
        }
    } else {
        PlayerInput { movement: Vec3 { x: (t.x - pos.x) as i64, y: 0, z: (t.z - pos.z) as i64 }, ..input }
    }
}

/// Index of the first entry of `id` among `cands`.
pub open spec fn entry_of(cands: Seq<(EntityId, Vec3)>, id: EntityId) -> Option<int> {
    if exists|i: int| 0 <= i < cands.len() && cands[i].0 == id {
        Some(
            choose|i: int|
                0 <= i < cands.len() && cands[i].0 == id && forall|j: int|
                    0 <= j < i ==> (#[trigger] cands[j]).0 != id,
        )
    } else {
        None
    }
}

/// The structure a robot turns to: the nearest tree, or the nearest tree
/// spawner when it prefers one; the other kind when the first is missing.
pub open spec fn structure_target(
    trees: Seq<(EntityId, Vec3)>,
    spawners: Seq<(EntityId, Vec3)>,
    pos: Vec3,
    prefer_spawner: bool,
) -> Option<EntityId> {
    let t = match nearest_index(trees, pos) {
        Some(i) => Some(trees[i].0),
        None => None,
    };
    let s = match nearest_index(spawners, pos) {
        Some(i) => Some(spawners[i].0),
        None => None,
    };
    if prefer_spawner {
        if s is Some { s } else { t }
    } else {
        if t is Some { t } else { s }
    }
}

/// One decision of a robot. It first checks whether it is stuck, and then
/// attacks in place. A monkey it targets, it chases; else a monkey in range
/// becomes its target; else it chases its current target where that still
/// stands. A target that is gone or has no health left (a monkey always
/// has) gives way to the nearest structure.
pub open spec fn robot_step(
    c: RobotController,
    input: PlayerInput,
    pos: Vec3,
    speed: int,
    now: u64,
    monkeys: Seq<(EntityId, Vec3)>,
    trees: Seq<(EntityId, Vec3)>,
    spawners: Seq<(EntityId, Vec3)>,
    target_pos: Option<Vec3>,
    target_alive: bool,
    prefer_spawner: bool,
) -> (RobotController, PlayerInput) {
    let input0 = PlayerInput {
        attack: if is_stuck(c, input, pos, speed, now) {
            Some(Attack { dir: input.movement, target: None })
        } else {
            None
        },
        ..input
    };
    let c0 = RobotController { last_position_check: next_check(c, pos, now), ..c };
    let chased = match c.target {
        Some(t) => entry_of(monkeys, t),
        None => None,
    };
    let (c1, input1, alive) = if chased is Some {
        (c0, approach(input0, pos, monkeys[chased->0].1), target_alive)
    } else if monkeys.len() > 0 && dist_sq(monkeys[nearest_index(monkeys, pos)->0].1, pos) < c.attack_monkey_range
        * c.attack_monkey_range {
        (RobotController { target: Some(monkeys[nearest_index(monkeys, pos)->0].0), ..c0 }, input0, true)
    } else if c.target is Some && target_pos is Some {
        (c0, approach(input0, pos, target_pos->0), target_alive)
    } else {
        (c0, input0, target_alive)
    };
    if c1.target is Some && alive {
        (c1, input1)
    } else {
        (RobotController { target: structure_target(trees, spawners, pos, prefer_spawner), ..c1 }, input1)
    }
}

fn approach_exec(input: &mut PlayerInput, pos: &Vec3, t: &Vec3)
    requires
        pos.wf(),
        t.wf(),
    ensures
        *final(input) == approach(*old(input), *pos, *t),
{
    let d = pos.dist_sq(t);
    let diff = pos.offset_to(t);
    if d < ATTACK_DISTANCE * ATTACK_DISTANCE {
        input.attack = Some(Attack { dir: diff, target: None });
    } else {
        input.movement = Vec3 { x: diff.x, y: 0, z: diff.z };
    }
}

fn entry_of_exec(cands: &Vec<(EntityId, Vec3)>, id: EntityId) -> (r: Option<usize>)
    ensures
        r matches Some(i) ==> i < cands@.len() && entry_of(cands@, id) == Some(i as int),
        r is None ==> entry_of(cands@, id) is None,
{
    let mut i: usize = 0;
    while i < cands.len()
        invariant
            0 <= i <= cands.len(),
            forall|j: int| 0 <= j < i ==> (#[trigger] cands@[j]).0 != id,
        decreases cands.len() - i,
    {
        if cands[i].0 == id {
            proof {
                let k = choose|k: int|
                    0 <= k < cands@.len() && cands@[k].0 == id && forall|j: int|
                        0 <= j < k ==> (#[trigger] cands@[j]).0 != id;
                if k < i {
                } else if i < k {
                    assert(cands@[i as int].0 != id);
                }
            }
            return Some(i);
        }
        i = i + 1;
    }
    None
}

fn structure_target_exec(
    trees: &Vec<(EntityId, Vec3)>,
    spawners: &Vec<(EntityId, Vec3)>,
    pos: &Vec3,
    prefer_spawner: bool,
) -> (r: Option<EntityId>)
    requires
        all_wf(trees@),
        all_wf(spawners@),
        pos.wf(),
    ensures
        r == structure_target(trees@, spawners@, *pos, prefer_spawner),
{
    let t = match nearest(trees, pos) {
        Some(i) => Some(trees[i].0),
        None => None,
    };
    let s = match nearest(spawners, pos) {
        Some(i) => Some(spawners[i].0),
        None => None,
    };
    if prefer_spawner {
        if s.is_some() { s } else { t }
    } else {
        if t.is_some() { t } else { s }
    }
}

/// One decision of a robot, for a given outcome of the draw that makes it
/// prefer a tree spawner. `target_pos` is where its current target stands,
/// if it still does, and `target_alive` whether that target carries health.
pub fn robot_decide(
    controller: &mut RobotController,
    input: &mut PlayerInput,
    pos: &Vec3,
    speed: i64,
    now: u64,
    monkeys: &Vec<(EntityId, Vec3)>,
    trees: &Vec<(EntityId, Vec3)>,
    spawners: &Vec<(EntityId, Vec3)>,
    target_pos: Option<Vec3>,
    target_alive: bool,
    prefer_spawner: bool,
)
    requires
        pos.wf(),
        0 <= speed <= COORD_LIMIT,
        0 <= old(controller).attack_monkey_range <= COORD_LIMIT,
        old(controller).last_position_check matches Some(k) ==> k.pos.wf(),
        target_pos matches Some(p) ==> p.wf(),
        all_wf(monkeys@),
        all_wf(trees@),
        all_wf(spawners@),
    ensures
        (*final(controller), *final(input)) == robot_step(
            *old(controller),
            *old(input),
            *pos,
            speed as int,
            now,
            monkeys@,
            trees@,
            spawners@,
            target_pos,
            target_alive,
            prefer_spawner,
        ),
{
    let c = *controller;
    let mm = speed * STUCK_CHECK_INTERVAL as i64 / (5 * 1000);
    proof {
        assert(0 <= mm <= COORD_LIMIT);
        assert(mm * mm <= COORD_LIMIT * COORD_LIMIT) by (nonlinear_arith)
            requires
                0 <= mm <= COORD_LIMIT,
        ;
        assert(0 <= mm * mm) by (nonlinear_arith);
        assert(c.attack_monkey_range * c.attack_monkey_range <= COORD_LIMIT * COORD_LIMIT) by (nonlinear_arith)
            requires
                0 <= c.attack_monkey_range <= COORD_LIMIT,
        ;
    }
    let mut stuck = false;
    match c.last_position_check {
        Some(k) => {
            if now >= k.time && now - k.time >= STUCK_CHECK_INTERVAL {
                if k.pos.dist_sq(pos) <= mm * mm && !input.movement.is_zero() {
                    stuck = true;
                }
                controller.last_position_check = Some(PositionCheck { time: now, pos: *pos });
            }
        },
        None => {
            controller.last_position_check = Some(PositionCheck { time: now, pos: *pos });
        },
    }
    input.attack = if stuck {
        Some(Attack { dir: input.movement, target: None })
    } else {
        None
    };
    let chased = match c.target {
        Some(t) => entry_of_exec(monkeys, t),
        None => None,
    };
    let mut alive = target_alive;
    match chased {
        Some(i) => {
            assert(monkeys@[i as int].1.wf());
            approach_exec(input, pos, &monkeys[i].1);
        },
        None => {
            let near = nearest(monkeys, pos);
            let mut noticed = false;
            if let Some(k) = near {
                if monkeys[k].1.dist_sq(pos) < c.attack_monkey_range * c.attack_monkey_range {
                    controller.target = Some(monkeys[k].0);
                    alive = true;
                    noticed = true;
                }
            }
            if !noticed {
                if let (Some(_), Some(tp)) = (c.target, target_pos) {
                    approach_exec(input, pos, &tp);
                }
            }
        },
    }
    if controller.target.is_some() && alive {
        return;
    }
    controller.target = structure_target_exec(trees, spawners, pos, prefer_spawner);
}

/// One decision of a robot: like `robot_decide`, with the preference for a
/// tree spawner drawn at random, one time in ten.
pub fn robot_ai(
    controller: &mut RobotController,
    input: &mut PlayerInput,
    pos: &Vec3,
    speed: i64,
    now: u64,
    monkeys: &Vec<(EntityId, Vec3)>,
    trees: &Vec<(EntityId, Vec3)>,
    spawners: &Vec<(EntityId, Vec3)>,
    target_pos: Option<Vec3>,
    target_alive: bool,
)
    requires
        pos.wf(),
        0 <= speed <= COORD_LIMIT,
        0 <= old(controller).attack_monkey_range <= COORD_LIMIT,
        old(controller).last_position_check matches Some(k) ==> k.pos.wf(),
        target_pos matches Some(p) ==> p.wf(),
        all_wf(monkeys@),
        all_wf(trees@),
        all_wf(spawners@),
    ensures
        ({
            let step = |prefer: bool|
                robot_step(
                    *old(controller),
                    *old(input),
                    *pos,
                    speed as int,
                    now,
                    monkeys@,
                    trees@,
                    spawners@,
                    target_pos,
                    target_alive,
                    prefer,
                );
            (*final(controller), *final(input)) == step(true) || (*final(controller), *final(input))
                == step(false)
        }),
{
    let prefer = chance(SPAWNER_CHANCE_NUM, SPAWNER_CHANCE_DEN);
    robot_decide(
        controller,
        input,
        pos,
        speed,
        now,
        monkeys,
        trees,
        spawners,
        target_pos,
        target_alive,
        prefer,
    );
}

} // verus!

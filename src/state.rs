use vstd::prelude::*;

use crate::geometry::{Vec3, MAP_SIZE_HALF, UNIT};
use crate::inventory::Item;
use crate::notification::{
    intro_notifications, loss_notification, wave_notification, win_notification, NotificationColor,
    NotificationEvent,
};
use crate::shop::{same_offer, ShopItemData, ShopItemEffect};
use crate::text::decimal;
use crate::player::{is_hostile, Body, SpawnPlayerEvent};
use crate::random::{chance, random_in};
use crate::waves::WaveDescriptor;
use crate::weapon::{ProjectileId, WeaponType};

verus! {

/// Frames at startup during which no transition is considered.
pub const WARMUP_FRAMES: u64 = 3;

/// Where the game stands.
#[derive(Clone, Copy, Debug, PartialEq, Eq, Structural, Hash)]
pub enum AppState {
    Init,
    Wave(usize),
    Lost,
    Win,
}

/// A change of the game's state.
#[derive(Clone, Copy, Debug, PartialEq, Eq, Structural)]
pub enum Transition {
    Stay,
    Lose,
    Win,
    NextWave,
}

/// The transition taken at the end of a frame. Nothing happens during the
/// warm-up frames nor outside a wave. In a wave, a loss comes first; with
/// no hostile left the final wave is won and any other is followed by the
/// next one.
pub open spec fn transition(
    state: AppState,
    frame: u64,
    loss: bool,
    no_hostiles: bool,
    wave_count: nat,
) -> Transition {
    if frame <= WARMUP_FRAMES {
        Transition::Stay
    } else {
        match state {
            AppState::Wave(n) => if loss {
                Transition::Lose
            } else if no_hostiles && n + 1 == wave_count {
                Transition::Win
            } else if no_hostiles && n + 1 < wave_count {
                Transition::NextWave
            } else {
                Transition::Stay
            },
            _ => Transition::Stay,
        }
    }
}

/// No hostile actor is left.
pub open spec fn no_hostiles(bodies: Seq<Body>) -> bool {
    forall|i: int| 0 <= i < bodies.len() ==> !is_hostile(#[trigger] bodies[i])
}

/// The body of the `i`-th enemy (counting from 1) of a wave of `n`: the
/// last enemy of the final wave is the boss; past seven tenths of the wave
/// enemies are fast.
pub open spec fn enemy_body(i: int, n: int, final_wave: bool) -> Body {
    if final_wave && i == n {
        Body::Boss
    } else if 10 * i > 7 * n {
        Body::FastRobot
    } else {
        Body::Robot
    }
}

/// How many of the first `k` enemies of a wave of `n` are fast robots.
pub open spec fn fast_count(n: int, k: int, final_wave: bool) -> nat
    decreases k,
{
    if k <= 0 {
        0
    } else {
        fast_count(n, k - 1, final_wave) + if enemy_body(k, n, final_wave) == Body::FastRobot {
            1nat
        } else {
            0nat
        }
    }
}

/// In a wave other than the final one, exactly the enemies past seven
/// tenths of the batch are fast robots: `n - floor(7n / 10)` of the `n`,
/// about three in ten.
pub proof fn lemma_fast_share(n: int, k: int)
    requires
        0 <= k <= n,
    ensures
        fast_count(n, k, false) == if k > 7 * n / 10 {
            k - 7 * n / 10
        } else {
            0
        },
        k == n ==> fast_count(n, n, false) == n - 7 * n / 10,
    decreases k,
{
    let q = 7 * n / 10;
    vstd::arithmetic::div_mod::lemma_fundamental_div_mod(7 * n, 10);
    vstd::arithmetic::div_mod::lemma_mod_pos_bound(7 * n, 10);
    assert(10 * q <= 7 * n < 10 * q + 10);
    if k > 0 {
        lemma_fast_share(n, k - 1);
        if k > q {
            assert(10 * k > 7 * n);
        } else {
            assert(10 * k <= 7 * n);
        }
    }
}

/// A coordinate outside the field, between 6 and 26 units beyond its edge.
pub open spec fn outside_coord(c: int) -> bool {
    (MAP_SIZE_HALF + 6 * UNIT <= c < MAP_SIZE_HALF + 26 * UNIT) || (-(MAP_SIZE_HALF + 26 * UNIT)
        < c <= -(MAP_SIZE_HALF + 6 * UNIT))
}

/// Where and how an enemy of a wave enters.
pub open spec fn enemy_spawn_ok(e: SpawnPlayerEvent, i: int, n: int, final_wave: bool) -> bool {
    &&& e.body == enemy_body(i, n, final_wave)
    &&& !e.is_main
    &&& e.weapon_type == WeaponType::Axe
    &&& e.pos.y == 4 * UNIT
    &&& outside_coord(e.pos.x as int)
    &&& outside_coord(e.pos.z as int)
}

/// What starting the next wave brings.
#[derive(Clone, Debug)]
pub struct NextWave {
    /// Index of the wave that starts.
    pub wave: usize,
    pub enemies: Vec<SpawnPlayerEvent>,
    /// The offers the wave adds to the shop, in order.
    pub offers: Vec<ShopItemData>,
}

/// The outcome of one end-of-frame evaluation.
#[derive(Clone, Debug)]
pub struct StepOutcome {
    pub transition: Transition,
    pub next_wave: Option<NextWave>,
    /// What the players are told of the transition.
    pub notification: Option<NotificationEvent>,
}

/// "You Lost!", in red, for five seconds.
pub open spec fn loss_notice(e: NotificationEvent) -> bool {
    e.text@ == "You Lost!"@ && e.show_for == 5000 && e.color == NotificationColor::Red
}

/// "You Win!", in green, for a minute.
pub open spec fn win_notice(e: NotificationEvent) -> bool {
    e.text@ == "You Win!"@ && e.show_for == 60_000 && e.color == NotificationColor::Green
}

/// "Wave n!", in blue, for three seconds.
pub open spec fn wave_notice(e: NotificationEvent, wave: int) -> bool {
    e.text@ == "Wave "@ + decimal(wave as nat) + "!"@ && e.show_for == 3000 && e.color
        == NotificationColor::Blue
}

/// How a transition is announced.
pub open spec fn announces(n: Option<NotificationEvent>, t: Transition, wave: int) -> bool {
    match t {
        Transition::Stay => n is None,
        Transition::Lose => n matches Some(e) && loss_notice(e),
        Transition::Win => n matches Some(e) && win_notice(e),
        Transition::NextWave => n matches Some(e) && wave_notice(e, wave),
    }
}

/// The offers of a starting wave are those of its descriptor, in order.
pub open spec fn offers_of(offers: Seq<ShopItemData>, d: WaveDescriptor) -> bool {
    offers.len() == d.new_shop_items@.len() && forall|k: int|
        0 <= k < offers.len() ==> same_offer(#[trigger] offers[k], d.new_shop_items@[k])
}

/// Whether the final wave is the current one.
pub fn reached_max_wave(state: &AppState, wave_count: usize) -> (r: bool)
    ensures
        r == (match *state {
            AppState::Wave(w) => w + 1 == wave_count,
            _ => false,
        }),
{
    match state {
        AppState::Wave(w) => wave_count > 0 && *w == wave_count - 1,
        _ => false,
    }
}

/// Whether no hostile actor is left among `bodies`.
pub fn check_for_no_robots(bodies: &Vec<Body>) -> (r: bool)
    ensures
        r == no_hostiles(bodies@),
{
    let mut i: usize = 0;
    while i < bodies.len()
        invariant
            0 <= i <= bodies.len(),
            forall|j: int| 0 <= j < i ==> !is_hostile(#[trigger] bodies@[j]),
        decreases bodies.len() - i,
    {
        if bodies[i].is_hostile() {
            return false;
        }
        i = i + 1;
    }
    true
}

/// The game is lost once no tree or no player is left.
pub fn check_for_loss(trees: usize, players: usize) -> (r: bool)
    ensures
        r == (trees == 0 || players == 0),
{
    trees == 0 || players == 0
}

/// Decides the end-of-frame transition.
pub fn next_transition(
    state: &AppState,
    frame: u64,
    loss: bool,
    no_hostiles: bool,
    wave_count: usize,
) -> (r: Transition)
    ensures
        r == transition(*state, frame, loss, no_hostiles, wave_count as nat),
{
    if frame <= WARMUP_FRAMES {
        return Transition::Stay;
    }
    match state {
        AppState::Wave(n) => {
            if loss {
                Transition::Lose
            } else if no_hostiles && wave_count > 0 && *n == wave_count - 1 {
                Transition::Win
            } else if no_hostiles && wave_count > 0 && *n < wave_count - 1 {
                Transition::NextWave
            } else {
                Transition::Stay
            }
        },
        _ => Transition::Stay,
    }
}

/// The bodies of a wave of `n` enemies, in spawn order.
pub fn wave_bodies(n: usize, final_wave: bool) -> (r: Vec<Body>)
    ensures
        r@.len() == n,
        forall|k: int| 0 <= k < n ==> #[trigger] r@[k] == enemy_body(k + 1, n as int, final_wave),
{
    let mut out: Vec<Body> = Vec::new();
    let mut i: usize = 0;
    while i < n
        invariant
            0 <= i <= n,
            out@.len() == i,
            forall|k: int| 0 <= k < i ==> #[trigger] out@[k] == enemy_body(k + 1, n as int, final_wave),
        decreases n - i,
    {
        let idx = i as u128 + 1;
        let body = if final_wave && idx == n as u128 {
            Body::Boss
        } else if 10 * idx > 7 * n as u128 {
            Body::FastRobot
        } else {
            Body::Robot
        };
        out.push(body);
        i = i + 1;
    }
    out
}

/// A coordinate `offset` beyond the field's edge, on the side that
/// `positive` picks.
pub fn outside_offset(offset: i64, positive: bool) -> (r: i64)
    requires
        6 * UNIT <= offset < 26 * UNIT,
    ensures
        r == if positive {
            MAP_SIZE_HALF + offset
        } else {
            -(MAP_SIZE_HALF + offset)
        },
        outside_coord(r as int),
{
    if positive {
        MAP_SIZE_HALF + offset
    } else {
        -(MAP_SIZE_HALF + offset)
    }
}

/// Starts the next wave: the state moves on to it, its enemies are spawned
/// at random places around the field, its offers join the shop, and it is
/// announced.
pub fn handle_next_wave(state: &mut AppState, descriptors: &Vec<WaveDescriptor>) -> (r: (
    NextWave,
    NotificationEvent,
))
    requires
        match *old(state) {
            AppState::Wave(w) => w + 1 < descriptors@.len(),
            _ => false,
        },
    ensures
        *old(state) matches AppState::Wave(w) && {
            let n = descriptors@[w + 1].nb_enemies as int;
            let final_wave = w + 2 == descriptors@.len();
            &&& *final(state) == AppState::Wave((w + 1) as usize)
            &&& r.0.wave == w + 1
            &&& r.0.enemies@.len() == n
            &&& forall|k: int|
                0 <= k < n ==> enemy_spawn_ok(#[trigger] r.0.enemies@[k], k + 1, n, final_wave)
            &&& offers_of(r.0.offers@, descriptors@[w + 1])
            &&& wave_notice(r.1, w + 1)
        },
{
    let w = match *state {
        AppState::Wave(w) => w,
        _ => 0,
    };
    let count = descriptors.len();
    let wave = w + 1;
    *state = AppState::Wave(wave);
    let final_wave = count - 1 == wave;
    let n = descriptors[wave].nb_enemies;
    let bodies = wave_bodies(n, final_wave);
    let mut enemies: Vec<SpawnPlayerEvent> = Vec::new();
    let mut i: usize = 0;
    while i < n
        invariant
            0 <= i <= n,
            bodies@.len() == n,
            forall|k: int| 0 <= k < n ==> #[trigger] bodies@[k] == enemy_body(k + 1, n as int, final_wave),
            enemies@.len() == i,
            forall|k: int| 0 <= k < i ==> enemy_spawn_ok(#[trigger] enemies@[k], k + 1, n as int, final_wave),
        decreases n - i,
    {
        let x = outside_offset(random_in(6 * UNIT, 26 * UNIT), chance(1, 2));
        let z = outside_offset(random_in(6 * UNIT, 26 * UNIT), chance(1, 2));
        enemies.push(
            SpawnPlayerEvent {
                pos: Vec3 { x, y: 4 * UNIT, z },
                is_main: false,
                body: bodies[i],
                weapon_type: WeaponType::Axe,
            },
        );
        i = i + 1;
    }
    let items = &descriptors[wave].new_shop_items;
    let mut offers: Vec<ShopItemData> = Vec::new();
    let mut j: usize = 0;
    while j < items.len()
        invariant
            0 <= j <= items.len(),
            offers@.len() == j,
            forall|k: int| 0 <= k < j ==> same_offer(#[trigger] offers@[k], items@[k]),
        decreases items.len() - j,
    {
        offers.push(items[j].duplicate());
        j = j + 1;
    }
    (NextWave { wave, enemies, offers }, wave_notification(wave))
}

/// Ends a running wave in a win, announced; any other state stays as it is.
pub fn handle_win(state: &mut AppState) -> (r: Option<NotificationEvent>)
    ensures
        *final(state) == match *old(state) {
            AppState::Wave(_) => AppState::Win,
            s => s,
        },
        *old(state) is Wave ==> (r matches Some(e) && win_notice(e)),
        !(*old(state) is Wave) ==> r is None,
{
    if let AppState::Wave(_) = state {
        *state = AppState::Win;
        Some(win_notification())
    } else {
        None
    }
}

/// Ends a running wave in a loss, announced; any other state stays as it
/// is, a won game included.
pub fn handle_loss(state: &mut AppState) -> (r: Option<NotificationEvent>)
    ensures
        *final(state) == match *old(state) {
            AppState::Wave(_) => AppState::Lost,
            s => s,
        },
        *old(state) is Wave ==> (r matches Some(e) && loss_notice(e)),
        !(*old(state) is Wave) ==> r is None,
{
    if let AppState::Wave(_) = state {
        *state = AppState::Lost;
        Some(loss_notification())
    } else {
        None
    }
}

/// Evaluates the end of a frame: decides the transition from the counts of
/// trees and players and the bodies still standing, and carries it out.
pub fn advance(
    state: &mut AppState,
    frame: u64,
    trees: usize,
    players: usize,
    bodies: &Vec<Body>,
    descriptors: &Vec<WaveDescriptor>,
) -> (r: StepOutcome)
    ensures
        r.transition == transition(
            *old(state),
            frame,
            trees == 0 || players == 0,
            no_hostiles(bodies@),
            descriptors@.len(),
        ),
        announces(
            r.notification,
            r.transition,
            match *final(state) {
                AppState::Wave(w) => w as int,
                _ => 0,
            },
        ),
        r.transition == Transition::Stay ==> *final(state) == *old(state) && r.next_wave is None,
        r.transition == Transition::Lose ==> *final(state) == AppState::Lost && r.next_wave is None,
        r.transition == Transition::Win ==> *final(state) == AppState::Win && r.next_wave is None,
        r.transition == Transition::NextWave ==> (*old(state) matches AppState::Wave(w) && {
            let n = descriptors@[w + 1].nb_enemies as int;
            let final_wave = w + 2 == descriptors@.len();
            &&& *final(state) == AppState::Wave((w + 1) as usize)
            &&& (r.next_wave matches Some(nw) && nw.wave == w + 1 && nw.enemies@.len() == n
                && (forall|k: int|
                0 <= k < n ==> enemy_spawn_ok(#[trigger] nw.enemies@[k], k + 1, n, final_wave))
                && offers_of(nw.offers@, descriptors@[w + 1]))
        }),
{
    let loss = check_for_loss(trees, players);
    let none_left = check_for_no_robots(bodies);
    let t = next_transition(state, frame, loss, none_left, descriptors.len());
    match t {
        Transition::Stay => StepOutcome { transition: t, next_wave: None, notification: None },
        Transition::Lose => {
            let note = handle_loss(state);
            StepOutcome { transition: t, next_wave: None, notification: note }
        },
        Transition::Win => {
            let note = handle_win(state);
            StepOutcome { transition: t, next_wave: None, notification: note }
        },
        Transition::NextWave => {
            let (nw, note) = handle_next_wave(state, descriptors);
            StepOutcome { transition: t, next_wave: Some(nw), notification: Some(note) }
        },
    }
}

/// Where the game starts from.
#[derive(Clone, Debug)]
pub struct GameStart {
    pub state: AppState,
    /// The monkey, somewhere on the field.
    pub player: SpawnPlayerEvent,
    /// A first robot, outside the field.
    pub robot: SpawnPlayerEvent,
    /// The offers the shop opens with.
    pub offers: Vec<ShopItemData>,
    pub notifications: Vec<NotificationEvent>,
}

/// A coordinate between 10 and 20 units beyond the field's edge.
pub open spec fn first_robot_coord(c: int) -> bool {
    (MAP_SIZE_HALF + 10 * UNIT <= c < MAP_SIZE_HALF + 20 * UNIT) || (-(MAP_SIZE_HALF + 20 * UNIT)
        < c <= -(MAP_SIZE_HALF + 10 * UNIT))
}

/// Sets the game up: the first wave runs, the monkey (armed with the bow
/// `bow`) stands at a random place of the field, one robot waits outside it,
/// and the shop offers a tree for a log and a heal for two apples, for good.
pub fn setup(bow: ProjectileId) -> (r: GameStart)
    ensures
        r.state == AppState::Wave(0),
        r.player.is_main && r.player.body == Body::Monkey && r.player.weapon_type == WeaponType::Bow(bow),
        -MAP_SIZE_HALF <= r.player.pos.x < MAP_SIZE_HALF && r.player.pos.y == UNIT && -MAP_SIZE_HALF
            <= r.player.pos.z < MAP_SIZE_HALF,
        !r.robot.is_main && r.robot.body == Body::Robot && r.robot.weapon_type == WeaponType::Axe,
        r.robot.pos.y == 4 * UNIT && first_robot_coord(r.robot.pos.x as int) && first_robot_coord(
            r.robot.pos.z as int,
        ),
        r.offers@.len() == 2,
        r.offers@[0].cost@ == seq![(Item::Log, 1u32)],
        r.offers@[0].effects@ == seq![ShopItemEffect::PlantTree],
        r.offers@[0].permanent,
        r.offers@[1].cost@ == seq![(Item::Apple, 2u32)],
        r.offers@[1].effects@ == seq![ShopItemEffect::Heal(10)],
        r.offers@[1].permanent,
        r.notifications@.len() == 2,
        r.notifications@[0].text@ == "Protect The Trees!"@,
        r.notifications@[1].text@ == "Wave 1!"@,
{
    let player = SpawnPlayerEvent {
        pos: Vec3 {
            x: random_in(-MAP_SIZE_HALF, MAP_SIZE_HALF),
            y: UNIT,
            z: random_in(-MAP_SIZE_HALF, MAP_SIZE_HALF),
        },
        is_main: true,
        body: Body::Monkey,
        weapon_type: WeaponType::Bow(bow),
    };
    let ox = random_in(10 * UNIT, 20 * UNIT);
    let x = if chance(1, 2) {
        MAP_SIZE_HALF + ox
    } else {
        -(MAP_SIZE_HALF + ox)
    };
    let oz = random_in(10 * UNIT, 20 * UNIT);
    let z = if chance(1, 2) {
        MAP_SIZE_HALF + oz
    } else {
        -(MAP_SIZE_HALF + oz)
    };
    let robot = SpawnPlayerEvent {
        pos: Vec3 { x, y: 4 * UNIT, z },
        is_main: false,
        body: Body::Robot,
        weapon_type: WeaponType::Axe,
    };
    let offers = vec![
        ShopItemData { cost: vec![(Item::Log, 1)], effects: vec![ShopItemEffect::PlantTree], permanent: true },
        ShopItemData { cost: vec![(Item::Apple, 2)], effects: vec![ShopItemEffect::Heal(10)], permanent: true },
    ];
    GameStart { state: AppState::Wave(0), player, robot, offers, notifications: intro_notifications() }
}

} // verus!

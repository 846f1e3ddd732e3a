use no_communication::weapon::ProjectileId;
use no_communication::shop::ShopItemEffect;
use no_communication::inventory::Item;
use no_communication::player::Body;
use no_communication::state::{advance, check_for_loss, check_for_no_robots, handle_loss, handle_next_wave, handle_win, reached_max_wave, AppState, Transition};
use no_communication::shop::ShopItemData;
use no_communication::waves::WaveDescriptor;
use no_communication::weapon::WeaponType;

fn campaign(counts: &[usize]) -> Vec<WaveDescriptor> {
    counts.iter().map(|&n| WaveDescriptor { nb_enemies: n, new_shop_items: vec![] }).collect()
}

fn outside(c: i64) -> bool {
    (26_000..46_000).contains(&c) || (-46_000 + 1..=-26_000).contains(&c)
}

#[test]
fn cleared_wave_starts_next_with_fast_share() {
    let waves = campaign(&[1, 2, 3, 10, 12]);
    let mut state = AppState::Wave(2);
    let out = advance(&mut state, 10, 5, 1, &vec![Body::Monkey], &waves);
    assert_eq!(out.transition, Transition::NextWave);
    assert_eq!(state, AppState::Wave(3));
    let next = out.next_wave.unwrap();
    assert_eq!(next.wave, 3);
    assert_eq!(next.enemies.len(), 10);
    let fast = next.enemies.iter().filter(|e| e.body == Body::FastRobot).count();
    assert_eq!(fast, 3);
    for (k, e) in next.enemies.iter().enumerate() {
        let expected = if k >= 7 { Body::FastRobot } else { Body::Robot };
        assert_eq!(e.body, expected);
        assert!(!e.is_main);
        assert_eq!(e.weapon_type, WeaponType::Axe);
        assert_eq!(e.pos.y, 4000);
        assert!(outside(e.pos.x) && outside(e.pos.z));
    }
}

#[test]
fn cleared_final_wave_is_won() {
    let waves = campaign(&[1, 2, 3, 4, 5]);
    let mut state = AppState::Wave(4);
    let out = advance(&mut state, 10, 5, 1, &vec![], &waves);
    assert_eq!(out.transition, Transition::Win);
    assert_eq!(state, AppState::Win);
    assert!(out.next_wave.is_none());
    assert!(reached_max_wave(&AppState::Wave(4), 5));
}

#[test]
fn final_wave_ends_with_a_boss() {
    let waves = campaign(&[1, 4]);
    let mut state = AppState::Wave(0);
    let (next, _) = handle_next_wave(&mut state, &waves);
    assert_eq!(state, AppState::Wave(1));
    let bodies: Vec<Body> = next.enemies.iter().map(|e| e.body).collect();
    assert_eq!(bodies, vec![Body::Robot, Body::Robot, Body::FastRobot, Body::Boss]);
}

#[test]
fn loss_comes_first_and_ends_transitions() {
    let waves = campaign(&[1, 2]);
    let mut state = AppState::Wave(1);
    let out = advance(&mut state, 10, 0, 1, &vec![], &waves);
    assert_eq!(out.transition, Transition::Lose);
    assert_eq!(state, AppState::Lost);
    let out = advance(&mut state, 11, 0, 0, &vec![], &waves);
    assert_eq!(out.transition, Transition::Stay);
    assert_eq!(state, AppState::Lost);
    let mut won = AppState::Win;
    assert_eq!(advance(&mut won, 12, 0, 0, &vec![], &waves).transition, Transition::Stay);
    assert_eq!(won, AppState::Win);
}

#[test]
fn nothing_happens_during_warmup_or_with_hostiles() {
    let waves = campaign(&[1, 2]);
    let mut state = AppState::Wave(0);
    assert_eq!(advance(&mut state, 3, 0, 0, &vec![], &waves).transition, Transition::Stay);
    assert_eq!(state, AppState::Wave(0));
    let out = advance(&mut state, 4, 3, 1, &vec![Body::Monkey, Body::Boss], &waves);
    assert_eq!(out.transition, Transition::Stay);
    assert_eq!(state, AppState::Wave(0));
}

#[test]
fn predicates() {
    assert!(check_for_no_robots(&vec![Body::Monkey]));
    assert!(!check_for_no_robots(&vec![Body::Monkey, Body::FastRobot]));
    assert!(check_for_loss(0, 1));
    assert!(check_for_loss(3, 0));
    assert!(!check_for_loss(3, 1));
    assert!(!reached_max_wave(&AppState::Wave(2), 4));
    assert!(!reached_max_wave(&AppState::Init, 1));
}

#[test]
fn wave_notifications_name_the_wave() {
    let waves = campaign(&[1, 1, 1]);
    let mut state = AppState::Wave(0);
    let out = advance(&mut state, 10, 1, 1, &vec![], &waves);
    assert_eq!(out.notification.unwrap().text, "Wave 1!");
    let mut state = AppState::Wave(2);
    assert_eq!(advance(&mut state, 10, 1, 1, &vec![], &waves).notification.unwrap().text, "You Win!");
    let mut state = AppState::Wave(1);
    assert_eq!(advance(&mut state, 10, 0, 1, &vec![], &waves).notification.unwrap().text, "You Lost!");
    let big = campaign(&[0; 13]);
    let mut state = AppState::Wave(11);
    assert_eq!(advance(&mut state, 10, 1, 1, &vec![], &big).notification.unwrap().text, "Wave 12!");
}

#[test]
fn game_starts_in_first_wave() {
    let start = no_communication::state::setup(ProjectileId(7));
    assert_eq!(start.state, AppState::Wave(0));
    assert!(start.player.is_main);
    assert_eq!(start.player.weapon_type, WeaponType::Bow(ProjectileId(7)));
    assert!(start.player.pos.x >= -20_000 && start.player.pos.x < 20_000);
    assert_eq!(start.player.pos.y, 1000);
    let rx = start.robot.pos.x.abs();
    assert!((30_000..40_000).contains(&rx) || rx == 40_000);
    assert_eq!(start.robot.body, Body::Robot);
    assert_eq!(start.offers.len(), 2);
    assert_eq!(start.offers[0].cost, vec![(Item::Log, 1)]);
    assert_eq!(start.offers[1].effects, vec![ShopItemEffect::Heal(10)]);
    assert_eq!(start.notifications[0].text, "Protect The Trees!");
    assert_eq!(start.notifications[1].text, "Wave 1!");
}

#[test]
fn batch_of_twenty_has_six_fast() {
    let waves = campaign(&[1, 20, 5]);
    let mut state = AppState::Wave(0);
    let (next, _) = handle_next_wave(&mut state, &waves);
    assert_eq!(next.enemies.iter().filter(|e| e.body == Body::FastRobot).count(), 6);
    assert_eq!(next.enemies.iter().filter(|e| e.body == Body::Boss).count(), 0);
}

#[test]
fn won_game_is_not_lost() {
    let mut state = AppState::Win;
    assert!(handle_loss(&mut state).is_none());
    assert_eq!(state, AppState::Win);
    let mut state = AppState::Wave(3);
    let note = handle_loss(&mut state).unwrap();
    assert_eq!(state, AppState::Lost);
    assert_eq!((note.text.as_str(), note.show_for), ("You Lost!", 5000));
    let mut lost = AppState::Lost;
    assert!(handle_win(&mut lost).is_none());
    assert_eq!(lost, AppState::Lost);
}

#[test]
fn win_is_announced() {
    let mut state = AppState::Wave(4);
    let note = handle_win(&mut state).unwrap();
    assert_eq!(state, AppState::Win);
    assert_eq!((note.text.as_str(), note.show_for), ("You Win!", 60_000));
}

#[test]
fn next_wave_brings_its_offers_and_notice() {
    let mut waves = campaign(&[1, 2, 3]);
    waves[1].new_shop_items = vec![
        ShopItemData { cost: vec![(Item::Log, 3)], effects: vec![ShopItemEffect::BuildTower], permanent: false },
        ShopItemData { cost: vec![(Item::Banana, 2)], effects: vec![ShopItemEffect::IncreaseDamage(1)], permanent: true },
    ];
    let mut state = AppState::Wave(0);
    let (next, note) = handle_next_wave(&mut state, &waves);
    assert_eq!(note.text, "Wave 1!");
    assert_eq!(note.show_for, 3000);
    assert_eq!(next.offers.len(), 2);
    assert_eq!(next.offers[0].cost, vec![(Item::Log, 3)]);
    assert_eq!(next.offers[1].effects, vec![ShopItemEffect::IncreaseDamage(1)]);
    assert!(next.offers[1].permanent && !next.offers[0].permanent);
}

use no_communication::entity::EntityId;
use no_communication::geometry::Vec3;
use no_communication::health::ApplyHealthEvent;
use no_communication::inventory::{Inventory, Item};
use no_communication::shop::{buy_item, handle_shop_item_click, BuyEvent, ShopAction, ShopColor, ShopItemData, ShopItemEffect};
use no_communication::weapon::WeaponStats;

const BUYER: EntityId = EntityId(1);

fn offer(cost: Vec<(Item, u32)>, effects: Vec<ShopItemEffect>, permanent: bool) -> ShopItemData {
    ShopItemData { cost, effects, permanent }
}

#[test]
fn purchase_pays_then_applies_effects() {
    let mut inv = Inventory::new();
    inv.add_item(Item::Log, 3);
    let mut stats = Some(WeaponStats::default());
    let item = offer(
        vec![(Item::Log, 2)],
        vec![ShopItemEffect::IncreaseDamage(2), ShopItemEffect::MultiplyCooldown(800), ShopItemEffect::Heal(5), ShopItemEffect::BuildTower],
        false,
    );
    let p = buy_item(&mut inv, &item, BUYER, Some(Vec3::new(100, 200, 300)), &mut stats).unwrap();
    assert!(p.remove_offer);
    assert_eq!(inv.get_item_count(Item::Log), 1);
    assert_eq!(stats, Some(WeaponStats { cooldown_mul: 800, damage_add: 2 }));
    assert_eq!(
        p.actions,
        vec![
            ShopAction::Heal(ApplyHealthEvent { amount: 5, target_entity: BUYER, caster_entity: BUYER }),
            ShopAction::SpawnTower(Vec3::new(100, 0, 300)),
        ]
    );
}

#[test]
fn unaffordable_purchase_changes_nothing() {
    let mut inv = Inventory::new();
    inv.add_item(Item::Apple, 1);
    let mut stats = Some(WeaponStats::default());
    let item = offer(vec![(Item::Apple, 2)], vec![ShopItemEffect::Heal(10)], true);
    assert!(buy_item(&mut inv, &item, BUYER, None, &mut stats).is_none());
    assert_eq!(inv.get_item_count(Item::Apple), 1);
    assert_eq!(stats, Some(WeaponStats::default()));
}

#[test]
fn permanent_offer_stays() {
    let mut inv = Inventory::new();
    inv.add_item(Item::Log, 1);
    let mut stats = None;
    let item = offer(vec![(Item::Log, 1)], vec![ShopItemEffect::PlantTree], true);
    let p = buy_item(&mut inv, &item, BUYER, Some(Vec3::new(5, 6, 7)), &mut stats).unwrap();
    assert!(!p.remove_offer);
    assert_eq!(p.actions, vec![ShopAction::SpawnTree(Vec3::new(5, 0, 7))]);
    assert!(inv.is_empty());
}

#[test]
fn offer_label_and_color() {
    let item = offer(
        vec![],
        vec![ShopItemEffect::IncreaseDamage(12), ShopItemEffect::MultiplyCooldown(800), ShopItemEffect::MultiplyCooldown(1250), ShopItemEffect::Heal(10), ShopItemEffect::PlantTree],
        false,
    );
    assert_eq!(
        item.name(),
        "> Increase damage (+12)\n> Decrease cooldown (x0.8)\n> Decrease cooldown (x1.25)\n> Heal (+10)\n> Plant tree\n"
    );
    assert_eq!(item.color(), ShopColor::Purple);
    let tower = offer(vec![], vec![ShopItemEffect::BuildTower, ShopItemEffect::BuildTreeSpawner], false);
    assert_eq!(tower.name(), "> Build defense tower\n> Build tree spawner\n");
    assert_eq!(tower.color(), ShopColor::Gold);
}

#[test]
fn negative_bonus_is_written_with_sign() {
    let item = offer(vec![], vec![ShopItemEffect::IncreaseDamage(-3), ShopItemEffect::MultiplyCooldown(2000), ShopItemEffect::MultiplyCooldown(1005)], false);
    assert_eq!(item.name(), "> Increase damage (+-3)\n> Decrease cooldown (x2)\n> Decrease cooldown (x1.005)\n");
    assert_eq!(item.color(), ShopColor::Purple);
}

#[test]
fn clicks_become_purchases_of_the_player() {
    use_clicks();
}

fn use_clicks() {
    let clicked = vec![EntityId(20), EntityId(21)];
    let events = handle_shop_item_click(Some(BUYER), &clicked);
    assert_eq!(events, vec![BuyEvent { buyer: BUYER, item: EntityId(20) }, BuyEvent { buyer: BUYER, item: EntityId(21) }]);
    assert!(handle_shop_item_click(None, &clicked).is_empty());
}

#[test]
fn cost_lines() {
    let item = offer(vec![(Item::Log, 3), (Item::Apple, 12)], vec![ShopItemEffect::PlantTree], false);
    assert_eq!(item.cost_text(), vec![String::from("3x Log"), String::from("12x Apple")]);
}

use no_communication::inventory::{Inventory, Item};

fn stocked(log: u32, apple: u32) -> Inventory {
    let mut inv = Inventory::new();
    inv.add_item(Item::Log, log);
    inv.add_item(Item::Apple, apple);
    inv
}

#[test]
fn spend_items_fails_atomically() {
    let mut inv = stocked(2, 1);
    assert!(!inv.spend_items(&vec![(Item::Log, 3)]));
    assert_eq!(inv.get_item_count(Item::Log), 2);
    assert_eq!(inv.get_item_count(Item::Apple), 1);
}

#[test]
fn spend_items_partial_batch_leaves_everything() {
    let mut inv = stocked(2, 1);
    assert!(!inv.spend_items(&vec![(Item::Log, 1), (Item::Apple, 2)]));
    assert_eq!(inv.get_item_count(Item::Log), 2);
    assert_eq!(inv.get_item_count(Item::Apple), 1);
}

#[test]
fn spend_items_exact_batch_empties_inventory() {
    let mut inv = stocked(2, 1);
    assert!(inv.spend_items(&vec![(Item::Log, 2), (Item::Apple, 1)]));
    assert_eq!(inv.get_item_count(Item::Log), 0);
    assert_eq!(inv.get_item_count(Item::Apple), 0);
    assert!(inv.is_empty());
}

#[test]
fn spend_items_counts_repeated_kinds_together() {
    let mut inv = stocked(2, 0);
    assert!(!inv.spend_items(&vec![(Item::Log, 1), (Item::Log, 2)]));
    assert_eq!(inv.get_item_count(Item::Log), 2);
    assert!(inv.spend_items(&vec![(Item::Log, 1), (Item::Log, 1)]));
    assert!(inv.is_empty());
}

#[test]
fn spend_items_needs_each_named_kind_held() {
    let mut inv = stocked(2, 0);
    assert!(!inv.spend_items(&vec![(Item::Banana, 0)]));
    assert!(inv.spend_items(&vec![]));
    assert_eq!(inv.get_item_count(Item::Log), 2);
}

#[test]
fn spend_item_deducts_and_prunes() {
    let mut inv = stocked(3, 0);
    assert!(inv.spend_item(Item::Log, 1));
    assert_eq!(inv.get_item_count(Item::Log), 2);
    assert!(!inv.spend_item(Item::Log, 5));
    assert_eq!(inv.get_item_count(Item::Log), 2);
    assert!(inv.spend_item(Item::Log, 2));
    assert!(inv.is_empty());
    assert!(!inv.spend_item(Item::Apple, 0));
}

#[test]
fn add_item_accumulates() {
    let mut inv = Inventory::new();
    inv.add_item(Item::Banana, 2);
    inv.add_item(Item::Banana, 3);
    inv.add_item(Item::Apple, 0);
    assert_eq!(inv.get_item_count(Item::Banana), 5);
    assert_eq!(inv.get_item_count(Item::Apple), 0);
    assert!(!inv.is_empty());
}

#[test]
fn item_names_and_order() {
    let names: Vec<&str> = Item::all().iter().map(|i| i.name()).collect();
    assert_eq!(names, vec!["Log", "Banana", "Apple"]);
}

#[test]
fn labels_show_held_items_only() {
    let mut inv = Inventory::new();
    inv.add_item(Item::Banana, 12);
    assert_eq!(inv.label(Item::Banana), Some(String::from("Banana: 12")));
    assert_eq!(inv.label(Item::Log), None);
}

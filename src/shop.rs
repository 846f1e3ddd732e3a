use vstd::prelude::*;
use vstd::string::*;

use crate::entity::EntityId;
use crate::geometry::Vec3;
use crate::health::ApplyHealthEvent;
use crate::inventory::{requested, Inventory, Item};
use crate::inventory::item_name;
use crate::text::{decimal, decimal_text, int_text, permille_str, permille_text, signed_decimal};
use crate::weapon::{WeaponStats, PERMILLE};

verus! {

/// What buying an offer does for the buyer.
#[derive(Clone, Copy, Debug, PartialEq, Eq, Structural)]
pub enum ShopItemEffect {
    PlantTree,
    IncreaseDamage(i32),
    /// Multiplies the weapon cooldown, in thousandths.
    MultiplyCooldown(u32),
    Heal(i32),
    BuildTower,
    BuildTreeSpawner,
}

/// An offer of the shop.
#[derive(Clone, Debug)]
pub struct ShopItemData {
    pub cost: Vec<(Item, u32)>,
    pub effects: Vec<ShopItemEffect>,
    /// A permanent offer stays in the shop after a purchase.
    pub permanent: bool,
}

/// The colour family an offer is shown in.
#[derive(Clone, Copy, Debug, PartialEq, Eq, Structural)]
pub enum ShopColor {
    Gold,
    Red,
    Purple,
    Beige,
    Teal,
}

pub open spec fn effect_color(e: ShopItemEffect) -> ShopColor {
    match e {
        ShopItemEffect::BuildTower => ShopColor::Gold,
        ShopItemEffect::Heal(_) => ShopColor::Red,
        ShopItemEffect::IncreaseDamage(_) => ShopColor::Purple,
        ShopItemEffect::MultiplyCooldown(_) => ShopColor::Purple,
        ShopItemEffect::PlantTree => ShopColor::Beige,
        ShopItemEffect::BuildTreeSpawner => ShopColor::Teal,
    }
}

/// How an effect is described in the shop.
pub open spec fn effect_text(e: ShopItemEffect) -> Seq<char> {
    match e {
        ShopItemEffect::PlantTree => "Plant tree"@,
        ShopItemEffect::IncreaseDamage(d) => "Increase damage (+"@ + signed_decimal(d as int) + ")"@,
        ShopItemEffect::MultiplyCooldown(m) => "Decrease cooldown (x"@ + permille_text(m as nat) + ")"@,
        ShopItemEffect::Heal(h) => "Heal (+"@ + signed_decimal(h as int) + ")"@,
        ShopItemEffect::BuildTower => "Build defense tower"@,
        ShopItemEffect::BuildTreeSpawner => "Build tree spawner"@,
    }
}

/// One line per effect, each marked with `> `.
pub open spec fn offer_name(effects: Seq<ShopItemEffect>) -> Seq<char>
    decreases effects.len(),
{
    if effects.len() == 0 {
        Seq::empty()
    } else {
        offer_name(effects.drop_last()) + "> "@ + effect_text(effects.last()) + "\n"@
    }
}

fn append_effect_text(s: &mut String, e: &ShopItemEffect)
    ensures
        final(s)@ == old(s)@ + effect_text(*e),
{
    match e {
        ShopItemEffect::PlantTree => s.append("Plant tree"),
        ShopItemEffect::IncreaseDamage(d) => {
            s.append("Increase damage (+");
            s.append(int_text(*d as i64).as_str());
            s.append(")");
        },
        ShopItemEffect::MultiplyCooldown(m) => {
            s.append("Decrease cooldown (x");
            s.append(permille_str(*m).as_str());
            s.append(")");
        },
        ShopItemEffect::Heal(h) => {
            s.append("Heal (+");
            s.append(int_text(*h as i64).as_str());
            s.append(")");
        },
        ShopItemEffect::BuildTower => s.append("Build defense tower"),
        ShopItemEffect::BuildTreeSpawner => s.append("Build tree spawner"),
    }
    assert(s@ =~= old(s)@ + effect_text(*e));
}

/// Two offers ask the same cost for the same effects, and are alike permanent or not.
pub open spec fn same_offer(a: ShopItemData, b: ShopItemData) -> bool {
    a.cost@ == b.cost@ && a.effects@ == b.effects@ && a.permanent == b.permanent
}

impl ShopItemData {
    /// One line per cost entry: the amount, then `x ` and the item's name.
    pub fn cost_text(&self) -> (r: Vec<String>)
        ensures
            r@.len() == self.cost@.len(),
            forall|k: int|
                0 <= k < r@.len() ==> (#[trigger] r@[k])@ == decimal(self.cost@[k].1 as nat) + "x "@
                    + item_name(self.cost@[k].0)@,
    {
        let mut out: Vec<String> = Vec::new();
        let mut i: usize = 0;
        while i < self.cost.len()
            invariant
                0 <= i <= self.cost.len(),
                out@.len() == i,
                forall|k: int|
                    0 <= k < i ==> (#[trigger] out@[k])@ == decimal(self.cost@[k].1 as nat) + "x "@
                        + item_name(self.cost@[k].0)@,
            decreases self.cost.len() - i,
        {
            let (item, amount) = self.cost[i];
            let mut line = decimal_text(amount as u64);
            line.append("x ");
            line.append(item.name());
            out.push(line);
            i = i + 1;
        }
        out
    }

    /// A copy of the offer.
    pub fn duplicate(&self) -> (r: ShopItemData)
        ensures
            same_offer(r, *self),
    {
        let mut cost: Vec<(Item, u32)> = Vec::new();
        let mut i: usize = 0;
        while i < self.cost.len()
            invariant
                0 <= i <= self.cost.len(),
                cost@ == self.cost@.take(i as int),
            decreases self.cost.len() - i,
        {
            cost.push(self.cost[i]);
            assert(cost@ =~= self.cost@.take(i + 1));
            i = i + 1;
        }
        let mut effects: Vec<ShopItemEffect> = Vec::new();
        let mut j: usize = 0;
        while j < self.effects.len()
            invariant
                0 <= j <= self.effects.len(),
                effects@ == self.effects@.take(j as int),
            decreases self.effects.len() - j,
        {
            effects.push(self.effects[j]);
            assert(effects@ =~= self.effects@.take(j + 1));
            j = j + 1;
        }
        assert(cost@ =~= self.cost@);
        assert(effects@ =~= self.effects@);
        ShopItemData { cost, effects, permanent: self.permanent }
    }

    /// The offer's label: one line per effect.
    pub fn name(&self) -> (r: String)
        ensures
            r@ == offer_name(self.effects@),
    {
        let mut s = String::new();
        let mut i: usize = 0;
        while i < self.effects.len()
            invariant
                0 <= i <= self.effects.len(),
                s@ == offer_name(self.effects@.take(i as int)),
            decreases self.effects.len() - i,
        {
            assert(self.effects@.take(i + 1).drop_last() =~= self.effects@.take(i as int));
            s.append("> ");
            append_effect_text(&mut s, &self.effects[i]);
            s.append("\n");
            assert(s@ =~= offer_name(self.effects@.take(i + 1)));
            i = i + 1;
        }
        assert(self.effects@.take(self.effects.len() as int) =~= self.effects@);
        s
    }

    /// The colour of the offer, chosen by its first effect.
    pub fn color(&self) -> (r: ShopColor)
        requires
            self.effects@.len() > 0,
        ensures
            r == effect_color(self.effects@[0]),
    {
        match self.effects[0] {
            ShopItemEffect::BuildTower => ShopColor::Gold,
            ShopItemEffect::Heal(_) => ShopColor::Red,
            ShopItemEffect::IncreaseDamage(_) => ShopColor::Purple,
            ShopItemEffect::MultiplyCooldown(_) => ShopColor::Purple,
            ShopItemEffect::PlantTree => ShopColor::Beige,
            ShopItemEffect::BuildTreeSpawner => ShopColor::Teal,
        }
    }
}

/// A player's attempt to buy the offer shown by a shop button.
#[derive(Clone, Copy, Debug, PartialEq, Eq, Structural)]
pub struct BuyEvent {
    pub buyer: EntityId,
    pub item: EntityId,
}

/// Every clicked shop button is an attempt of the player to buy its offer;
/// without a player nobody buys.
pub fn handle_shop_item_click(player: Option<EntityId>, clicked: &Vec<EntityId>) -> (r: Vec<BuyEvent>)
    ensures
        player is None ==> r@.len() == 0,
        player matches Some(p) ==> r@ == clicked@.map_values(|e: EntityId| BuyEvent { buyer: p, item: e }),
{
    let mut out: Vec<BuyEvent> = Vec::new();
    if let Some(p) = player {
        let mut i: usize = 0;
        while i < clicked.len()
            invariant
                0 <= i <= clicked.len(),
                out@ == clicked@.take(i as int).map_values(|e: EntityId| BuyEvent { buyer: p, item: e }),
            decreases clicked.len() - i,
        {
            out.push(BuyEvent { buyer: p, item: clicked[i] });
            assert(out@ =~= clicked@.take(i + 1).map_values(|e: EntityId| BuyEvent { buyer: p, item: e }));
            i = i + 1;
        }
        assert(clicked@.take(clicked.len() as int) =~= clicked@);
    }
    out
}

/// Something a purchase asks the world to do.
#[derive(Clone, Copy, Debug, PartialEq, Eq, Structural)]
pub enum ShopAction {
    SpawnTree(Vec3),
    SpawnTower(Vec3),
    SpawnTreeSpawner(Vec3),
    Heal(ApplyHealthEvent),
}

/// The same position, brought down to the ground.
pub open spec fn grounded(p: Vec3) -> Vec3 {
    Vec3 { x: p.x, y: 0, z: p.z }
}

pub open spec fn clamp_i32(v: int) -> i32 {
    if v > i32::MAX {
        i32::MAX
    } else if v < i32::MIN {
        i32::MIN
    } else {
        v as i32
    }
}

/// The weapon modifiers after one effect; values saturate at the type's bounds.
pub open spec fn boosted(s: WeaponStats, e: ShopItemEffect) -> WeaponStats {
    match e {
        ShopItemEffect::IncreaseDamage(a) => WeaponStats {
            damage_add: clamp_i32(s.damage_add + a),
            ..s
        },
        ShopItemEffect::MultiplyCooldown(m) => WeaponStats {
            cooldown_mul: if s.cooldown_mul * m / PERMILLE as int > u32::MAX {
                u32::MAX
            } else {
                (s.cooldown_mul * m / PERMILLE as int) as u32
            },
            ..s
        },
        _ => s,
    }
}

/// What one effect asks of the world, for a buyer at `pos` (if it has a place).
pub open spec fn effect_action(e: ShopItemEffect, buyer: EntityId, pos: Option<Vec3>) -> Option<
    ShopAction,
> {
    match e {
        ShopItemEffect::Heal(a) => Some(
            ShopAction::Heal(ApplyHealthEvent { amount: a, target_entity: buyer, caster_entity: buyer }),
        ),
        ShopItemEffect::PlantTree => match pos {
            Some(p) => Some(ShopAction::SpawnTree(grounded(p))),
            None => None,
        },
        ShopItemEffect::BuildTower => match pos {
            Some(p) => Some(ShopAction::SpawnTower(grounded(p))),
            None => None,
        },
        ShopItemEffect::BuildTreeSpawner => match pos {
            Some(p) => Some(ShopAction::SpawnTreeSpawner(grounded(p))),
            None => None,
        },
        _ => None,
    }
}

/// The buyer's weapon modifiers after all `effects`, in order.
pub open spec fn boosted_all(s: Option<WeaponStats>, effects: Seq<ShopItemEffect>) -> Option<
    WeaponStats,
>
    decreases effects.len(),
{
    if effects.len() == 0 {
        s
    } else {
        match boosted_all(s, effects.drop_last()) {
            Some(t) => Some(boosted(t, effects.last())),
            None => None,
        }
    }
}

/// Everything that `effects` ask of the world, in order.
pub open spec fn effect_actions(
    effects: Seq<ShopItemEffect>,
    buyer: EntityId,
    pos: Option<Vec3>,
) -> Seq<ShopAction>
    decreases effects.len(),
{
    if effects.len() == 0 {
        Seq::empty()
    } else {
        let rest = effect_actions(effects.drop_last(), buyer, pos);
        match effect_action(effects.last(), buyer, pos) {
            Some(a) => rest.push(a),
            None => rest,
        }
    }
}

/// Applies one effect: weapon boosts change `stats` (when the buyer has a
/// weapon); other effects come back as an action for the world.
pub fn apply_effect(
    effect: &ShopItemEffect,
    buyer: EntityId,
    buyer_pos: Option<Vec3>,
    stats: &mut Option<WeaponStats>,
) -> (r: Option<ShopAction>)
    ensures
        r == effect_action(*effect, buyer, buyer_pos),
        *final(stats) == match *old(stats) {
            Some(s) => Some(boosted(s, *effect)),
            None => None,
        },
{
    match effect {
        ShopItemEffect::IncreaseDamage(a) => {
            if let Some(s) = stats {
                let v = s.damage_add as i64 + *a as i64;
                s.damage_add = if v > i32::MAX as i64 {
                    i32::MAX
                } else if v < i32::MIN as i64 {
                    i32::MIN
                } else {
                    v as i32
                };
            }
            None
        },
        ShopItemEffect::MultiplyCooldown(m) => {
            if let Some(s) = stats {
                let a = s.cooldown_mul as u64;
                let b = *m as u64;
                proof {
                    assert(a * b <= u32::MAX * u32::MAX) by (nonlinear_arith)
                        requires
                            a <= u32::MAX,
                            b <= u32::MAX,
                    ;
                }
                let v = a * b / PERMILLE as u64;
                s.cooldown_mul = if v > u32::MAX as u64 {
                    u32::MAX
                } else {
                    v as u32
                };
            }
            None
        },
        ShopItemEffect::Heal(a) => Some(
            ShopAction::Heal(ApplyHealthEvent { amount: *a, target_entity: buyer, caster_entity: buyer }),
        ),
        ShopItemEffect::PlantTree => match buyer_pos {
            Some(p) => Some(ShopAction::SpawnTree(Vec3 { x: p.x, y: 0, z: p.z })),
            None => None,
        },
        ShopItemEffect::BuildTower => match buyer_pos {
            Some(p) => Some(ShopAction::SpawnTower(Vec3 { x: p.x, y: 0, z: p.z })),
            None => None,
        },
        ShopItemEffect::BuildTreeSpawner => match buyer_pos {
            Some(p) => Some(ShopAction::SpawnTreeSpawner(Vec3 { x: p.x, y: 0, z: p.z })),
            None => None,
        },
    }
}

/// The outcome of a purchase that went through.
#[derive(Debug)]
pub struct Purchase {
    /// Whether the offer leaves the shop.
    pub remove_offer: bool,
    /// What the offer's effects ask of the world, in order.
    pub actions: Vec<ShopAction>,
}

/// Buys `offer`: the buyer pays its whole cost or nothing; only once paid
/// are its effects applied, in order, and a non-permanent offer leaves the
/// shop. Returns `None`, with nothing changed, when the buyer cannot pay.
pub fn buy_item(
    inventory: &mut Inventory,
    offer: &ShopItemData,
    buyer: EntityId,
    buyer_pos: Option<Vec3>,
    stats: &mut Option<WeaponStats>,
) -> (r: Option<Purchase>)
    requires
        old(inventory).wf(),
    ensures
        final(inventory).wf(),
        r is Some == old(inventory).can_pay(offer.cost@),
        r is None ==> *final(inventory) == *old(inventory) && *final(stats) == *old(stats),
        r matches Some(p) ==> {
            &&& forall|i: Item|
                #![trigger final(inventory).count(i)]
                final(inventory).count(i) == old(inventory).count(i) - requested(offer.cost@, i)
            &&& p.remove_offer == !offer.permanent
            &&& *final(stats) == boosted_all(*old(stats), offer.effects@)
            &&& p.actions@ == effect_actions(offer.effects@, buyer, buyer_pos)
        },
{
    if !inventory.spend_items(&offer.cost) {
        return None;
    }
    let ghost orig_stats = *stats;
    let mut actions: Vec<ShopAction> = Vec::new();
    let mut i: usize = 0;
    while i < offer.effects.len()
        invariant
            0 <= i <= offer.effects.len(),
            *stats == boosted_all(orig_stats, offer.effects@.take(i as int)),
            actions@ == effect_actions(offer.effects@.take(i as int), buyer, buyer_pos),
        decreases offer.effects.len() - i,
    {
        assert(offer.effects@.take(i + 1).drop_last() =~= offer.effects@.take(i as int));
        if let Some(a) = apply_effect(&offer.effects[i], buyer, buyer_pos, stats) {
            actions.push(a);
        }
        i = i + 1;
    }
    assert(offer.effects@.take(offer.effects.len() as int) =~= offer.effects@);
    Some(Purchase { remove_offer: !offer.permanent, actions })
}

} // verus!

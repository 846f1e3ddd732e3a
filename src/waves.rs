use vstd::prelude::*;

use crate::shop::ShopItemData;

verus! {

/// One wave of the campaign: how many enemies come, and which offers it
/// adds to the shop.
#[derive(Clone, Debug)]
pub struct WaveDescriptor {
    pub nb_enemies: usize,
    pub new_shop_items: Vec<ShopItemData>,
}

} // verus!

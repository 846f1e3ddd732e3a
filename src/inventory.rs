use vstd::prelude::*;
use vstd::string::*;

use crate::text::{decimal, decimal_text};

verus! {

/// A kind of item that can be carried and spent.
#[derive(Clone, Copy, Debug, PartialEq, Eq, Structural, Hash)]
pub enum Item {
    Log,
    Banana,
    Apple,
}

impl Item {
    /// Every item kind, in display order.
    pub fn all() -> (r: Vec<Item>)
        ensures
            r@ == seq![Item::Log, Item::Banana, Item::Apple],
    {
        vec![Item::Log, Item::Banana, Item::Apple]
    }

    /// The item's display name.
    pub fn name(&self) -> (r: &'static str)
        ensures
            r@ == item_name(*self)@,
    {
        match self {
            Item::Log => "Log",
            Item::Banana => "Banana",
            Item::Apple => "Apple",
        }
    }
}

pub open spec fn item_name(i: Item) -> &'static str {
    match i {
        Item::Log => "Log",
        Item::Banana => "Banana",
        Item::Apple => "Apple",
    }
}

/// Count of `item` among `entries` (the last entry for it, zero without one).
pub open spec fn entry_count(entries: Seq<(Item, u32)>, item: Item) -> nat
    decreases entries.len(),
{
    if entries.len() == 0 {
        0
    } else if entries.last().0 == item {
        entries.last().1 as nat
    } else {
        entry_count(entries.drop_last(), item)
    }
}

/// Total count of `item` that `batch` asks for.
pub open spec fn requested(batch: Seq<(Item, u32)>, item: Item) -> nat
    decreases batch.len(),
{
    if batch.len() == 0 {
        0
    } else {
        requested(batch.drop_last(), item) + if batch.last().0 == item {
            batch.last().1 as nat
        } else {
            0
        }
    }
}

/// A collection of items, counted per kind.
#[derive(Clone, Debug)]
pub struct Inventory {
    items: Vec<(Item, u32)>,
}

impl View for Inventory {
    type V = Map<Item, nat>;

    /// The kinds held with a positive count, and their counts.
    open spec fn view(&self) -> Map<Item, nat> {
        Map::new(|i: Item| self.count(i) > 0, |i: Item| self.count(i))
    }
}

impl Inventory {
    pub closed spec fn count(self, item: Item) -> nat {
        entry_count(self.items@, item)
    }

    /// Each kind appears at most once and never with a count of zero.
    pub closed spec fn wf(self) -> bool {
        &&& forall|i: int, j: int|
            0 <= i < j < self.items@.len() ==> self.items@[i].0 != self.items@[j].0
        &&& forall|i: int| 0 <= i < self.items@.len() ==> self.items@[i].1 > 0
    }

    /// Whether `batch` can be paid in full: each kind it names is held, and in
    /// at least the total amount that the batch asks for it.
    pub open spec fn can_pay(self, batch: Seq<(Item, u32)>) -> bool {
        forall|k: int|
            0 <= k < batch.len() ==> self.count(#[trigger] batch[k].0) > 0 && requested(
                batch,
                batch[k].0,
            ) <= self.count(batch[k].0)
    }

    pub fn new() -> (r: Inventory)
        ensures
            r.wf(),
            forall|i: Item| r.count(i) == 0,
    {
        Inventory { items: Vec::new() }
    }

    proof fn lemma_count_index(self, k: int)
        requires
            self.wf(),
            0 <= k < self.items@.len(),
        ensures
            self.count(self.items@[k].0) == self.items@[k].1,
        decreases self.items@.len(),
    {
        lemma_count_unique(self.items@, k);
    }

    /// Position of the entry for `item`, if any.
    fn find(&self, item: Item) -> (r: Option<usize>)
        requires
            self.wf(),
        ensures
            r is None ==> self.count(item) == 0,
            r is None ==> forall|k: int| 0 <= k < self.items@.len() ==> self.items@[k].0 != item,
            r matches Some(k) ==> k < self.items@.len() && self.items@[k as int].0 == item
                && self.count(item) == self.items@[k as int].1,
    {
        let mut k: usize = 0;
        while k < self.items.len()
            invariant
                0 <= k <= self.items.len(),
                self.wf(),
                forall|j: int| 0 <= j < k ==> self.items@[j].0 != item,
            decreases self.items.len() - k,
        {
            if self.items[k].0 == item {
                proof {
                    self.lemma_count_index(k as int);
                }
                return Some(k);
            }
            k = k + 1;
        }
        proof {
            lemma_count_absent(self.items@, item);
        }
        None
    }

    /// How many of `item` are held.
    pub fn get_item_count(&self, item: Item) -> (r: u32)
        requires
            self.wf(),
        ensures
            r == self.count(item),
    {
        match self.find(item) {
            Some(k) => self.items[k].1,
            None => 0,
        }
    }

    /// Whether nothing at all is held.
    pub fn is_empty(&self) -> (r: bool)
        requires
            self.wf(),
        ensures
            r == (forall|i: Item| self.count(i) == 0),
    {
        if self.items.len() == 0 {
            proof {
                assert forall|i: Item| self.count(i) == 0 by {
                    lemma_count_absent(self.items@, i);
                }
            }
            true
        } else {
            proof {
                self.lemma_count_index(0);
            }
            false
        }
    }

    /// The inventory line for `item`: its name and count, shown only while
    /// some is held.
    pub fn label(&self, item: Item) -> (r: Option<String>)
        requires
            self.wf(),
        ensures
            self.count(item) == 0 ==> r is None,
            self.count(item) > 0 ==> (r matches Some(s) && s@ == item_name(item)@ + ": "@ + decimal(
                self.count(item),
            )),
    {
        let c = self.get_item_count(item);
        if c == 0 {
            return None;
        }
        let mut s = String::from_str(item.name());
        s.append(": ");
        s.append(decimal_text(c as u64).as_str());
        Some(s)
    }

    /// Adds `count` of `item`.
    pub fn add_item(&mut self, item: Item, count: u32)
        requires
            old(self).wf(),
            old(self).count(item) + count <= u32::MAX,
        ensures
            final(self).wf(),
            final(self).count(item) == old(self).count(item) + count,
            forall|i: Item| i != item ==> final(self).count(i) == old(self).count(i),
    {
        if count == 0 {
            return;
        }
        match self.find(item) {
            Some(k) => {
                let c = self.items[k].1;
                let ghost before = self.items@;
                self.items.set(k, (item, c + count));
                proof {
                    assert(self.items@ == before.update(k as int, (item, (c + count) as u32)));
                    assert forall|i: Item| i != item implies self.count(i) == entry_count(before, i) by {
                        lemma_count_update_other(before, k as int, (item, (c + count) as u32), i);
                    }
                    lemma_count_unique(self.items@, k as int);
                }
            },
            None => {
                let ghost before = self.items@;
                self.items.push((item, count));
                proof {
                    assert(self.items@.drop_last() =~= before);
                    lemma_count_unique(self.items@, before.len() as int);
                }
            },
        }
    }

    /// Takes away `count` of `item`, which must be held in at least that amount.
    fn deduct(&mut self, item: Item, count: u32)
        requires
            old(self).wf(),
            count <= old(self).count(item),
        ensures
            final(self).wf(),
            final(self).count(item) == old(self).count(item) - count,
            forall|i: Item| i != item ==> final(self).count(i) == old(self).count(i),
    {
        if count == 0 {
            return;
        }
        match self.find(item) {
            Some(k) => {
                let c = self.items[k].1;
                let ghost before = self.items@;
                if c == count {
                    self.items.remove(k);
                    proof {
                        assert(self.items@ == before.remove(k as int));
                        assert forall|i: Item| i != item implies self.count(i) == entry_count(before, i) by {
                            lemma_count_remove_other(before, k as int, i);
                        }
                        lemma_count_absent(self.items@, item);
                    }
                } else {
                    self.items.set(k, (item, c - count));
                    proof {
                        assert(self.items@ == before.update(k as int, (item, (c - count) as u32)));
                        assert forall|i: Item| i != item implies self.count(i) == entry_count(before, i) by {
                            lemma_count_update_other(before, k as int, (item, (c - count) as u32), i);
                        }
                        lemma_count_unique(self.items@, k as int);
                    }
                }
            },
            None => {},
        }
    }

    /// Spends `count` of `item` if it is held in at least that amount;
    /// returns whether it was.
    pub fn spend_item(&mut self, item: Item, count: u32) -> (r: bool)
        requires
            old(self).wf(),
        ensures
            final(self).wf(),
            r == (old(self).count(item) > 0 && count <= old(self).count(item)),
            r ==> final(self).count(item) == old(self).count(item) - count,
            r ==> forall|i: Item| i != item ==> final(self).count(i) == old(self).count(i),
            !r ==> *final(self) == *old(self),
    {
        let have = self.get_item_count(item);
        if have > 0 && count <= have {
            self.deduct(item, count);
            true
        } else {
            false
        }
    }

    /// Whether the batch's total request for `item` is at most `available`.
    fn requested_within(batch: &Vec<(Item, u32)>, item: Item, available: u32) -> (r: bool)
        ensures
            r == (requested(batch@, item) <= available),
    {
        let mut total: u64 = 0;
        let mut k: usize = 0;
        while k < batch.len()
            invariant
                0 <= k <= batch.len(),
                total == requested(batch@.take(k as int), item),
                total <= available,
            decreases batch.len() - k,
        {
            assert(batch@.take(k + 1).drop_last() =~= batch@.take(k as int));
            if batch[k].0 == item {
                total = total + batch[k].1 as u64;
            }
            if total > available as u64 {
                proof {
                    lemma_requested_prefix(batch@, item, k + 1);
                }
                return false;
            }
            k = k + 1;
        }
        assert(batch@.take(batch.len() as int) =~= batch@);
        true
    }

    /// Spends a whole batch of `(item, count)` pairs, or nothing: either every
    /// kind it names is held in the total amount asked for and all of it is
    /// deducted, or the inventory is left as it was. Returns whether it paid.
    pub fn spend_items(&mut self, batch: &Vec<(Item, u32)>) -> (r: bool)
        requires
            old(self).wf(),
        ensures
            final(self).wf(),
            r == old(self).can_pay(batch@),
            r ==> forall|i: Item|
                #![trigger final(self).count(i)]
                final(self).count(i) == old(self).count(i) - requested(batch@, i),
            !r ==> *final(self) == *old(self),
    {
        let mut k: usize = 0;
        while k < batch.len()
            invariant
                0 <= k <= batch.len(),
                self.wf(),
                forall|j: int|
                    0 <= j < k ==> self.count(#[trigger] batch@[j].0) > 0 && requested(
                        batch@,
                        batch@[j].0,
                    ) <= self.count(batch@[j].0),
            decreases batch.len() - k,
        {
            let item = batch[k].0;
            let have = self.get_item_count(item);
            if have == 0 || !Self::requested_within(batch, item, have) {
                return false;
            }
            k = k + 1;
        }
        let ghost orig = *self;
        let mut k: usize = 0;
        while k < batch.len()
            invariant
                0 <= k <= batch.len(),
                self.wf(),
                orig.can_pay(batch@),
                spent_prefix(*self, orig, batch@, k as int),
            decreases batch.len() - k,
        {
            let (item, count) = batch[k];
            let ghost mid = *self;
            proof {
                lemma_spend_bound(orig, mid, batch@, k as int);
            }
            self.deduct(item, count);
            proof {
                lemma_spend_step(orig, mid, *self, batch@, k as int);
            }
            k = k + 1;
        }
        proof {
            assert(batch@.take(batch.len() as int) =~= batch@);
        }
        true
    }
}

proof fn lemma_spend_bound(orig: Inventory, mid: Inventory, batch: Seq<(Item, u32)>, k: int)
    requires
        0 <= k < batch.len(),
        orig.can_pay(batch),
        spent_prefix(mid, orig, batch, k),
    ensures
        batch[k].1 <= mid.count(batch[k].0),
{
    let item = batch[k].0;
    assert(batch.take(k + 1).drop_last() =~= batch.take(k));
    assert(batch.take(k + 1).last() == batch[k]);
    lemma_requested_prefix(batch, item, k + 1);
    assert(requested(batch, item) <= orig.count(item));
    assert(mid.count(item) == orig.count(item) - requested(batch.take(k), item));
}

proof fn lemma_spend_step(
    orig: Inventory,
    mid: Inventory,
    now: Inventory,
    batch: Seq<(Item, u32)>,
    k: int,
)
    requires
        0 <= k < batch.len(),
        orig.can_pay(batch),
        spent_prefix(mid, orig, batch, k),
        now.count(batch[k].0) == mid.count(batch[k].0) - batch[k].1,
        forall|i: Item| i != batch[k].0 ==> now.count(i) == mid.count(i),
    ensures
        spent_prefix(now, orig, batch, k + 1),
{
    let item = batch[k].0;
    assert(batch.take(k + 1).drop_last() =~= batch.take(k));
    assert(batch.take(k + 1).last() == batch[k]);
    assert forall|i: Item| #[trigger] now.count(i) == orig.count(i) - requested(batch.take(k + 1), i) by {
        assert(mid.count(i) == orig.count(i) - requested(batch.take(k), i));
    }
    assert forall|i: Item| #[trigger] requested(batch.take(k + 1), i) <= orig.count(i) by {
        assert(mid.count(i) == orig.count(i) - requested(batch.take(k), i));
        if i == item {
            lemma_requested_prefix(batch, i, k + 1);
            assert(requested(batch, item) <= orig.count(item));
        }
    }
}

/// After paying the first `k` pairs of `batch`, `inv` holds what `orig` held
/// less what those pairs asked for.
spec fn spent_prefix(inv: Inventory, orig: Inventory, batch: Seq<(Item, u32)>, k: int) -> bool {
    &&& forall|i: Item| #[trigger] inv.count(i) == orig.count(i) - requested(batch.take(k), i)
    &&& forall|i: Item| #[trigger] requested(batch.take(k), i) <= orig.count(i)
}

proof fn lemma_count_absent(entries: Seq<(Item, u32)>, item: Item)
    requires
        forall|k: int| 0 <= k < entries.len() ==> entries[k].0 != item,
    ensures
        entry_count(entries, item) == 0,
    decreases entries.len(),
{
    if entries.len() > 0 {
        lemma_count_absent(entries.drop_last(), item);
    }
}

proof fn lemma_count_unique(entries: Seq<(Item, u32)>, k: int)
    requires
        forall|i: int, j: int| 0 <= i < j < entries.len() ==> entries[i].0 != entries[j].0,
        0 <= k < entries.len(),
    ensures
        entry_count(entries, entries[k].0) == entries[k].1,
    decreases entries.len(),
{
    if k < entries.len() - 1 {
        lemma_count_unique(entries.drop_last(), k);
    }
}

proof fn lemma_count_update_other(entries: Seq<(Item, u32)>, k: int, e: (Item, u32), i: Item)
    requires
        0 <= k < entries.len(),
        entries[k].0 == e.0,
        i != e.0,
    ensures
        entry_count(entries.update(k, e), i) == entry_count(entries, i),
    decreases entries.len(),
{
    let u = entries.update(k, e);
    if k < entries.len() - 1 {
        assert(u.drop_last() =~= entries.drop_last().update(k, e));
        lemma_count_update_other(entries.drop_last(), k, e, i);
    } else {
        assert(u.drop_last() =~= entries.drop_last());
    }
}

proof fn lemma_count_remove_other(entries: Seq<(Item, u32)>, k: int, i: Item)
    requires
        0 <= k < entries.len(),
        i != entries[k].0,
    ensures
        entry_count(entries.remove(k), i) == entry_count(entries, i),
    decreases entries.len(),
{
    let r = entries.remove(k);
    if k < entries.len() - 1 {
        assert(r.drop_last() =~= entries.drop_last().remove(k));
        assert(r.last() == entries.last());
        lemma_count_remove_other(entries.drop_last(), k, i);
    } else {
        assert(r =~= entries.drop_last());
    }
}

proof fn lemma_requested_prefix(batch: Seq<(Item, u32)>, item: Item, k: int)
    requires
        0 <= k <= batch.len(),
    ensures
        requested(batch.take(k), item) <= requested(batch, item),
    decreases batch.len(),
{
    if k < batch.len() {
        assert(batch.drop_last().take(k) =~= batch.take(k));
        lemma_requested_prefix(batch.drop_last(), item, k);
    } else {
        assert(batch.take(k) =~= batch);
    }
}

} // verus!

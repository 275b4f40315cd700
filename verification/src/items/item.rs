use vstd::prelude::*;

use crate::components::{lemma_concat_contains, Rarity};

verus! {

/// What a level-up can offer: the weight of each rarity, and for each rarity (by its index)
/// the keys of the items that exist in it.
pub struct LootTable {
    pub weighted_rarity: Vec<(Rarity, u32)>,
    pub item_by_rarity: Vec<Vec<String>>,
}

impl LootTable {
    /// The table has one item list per rarity.
    pub open spec fn wf(&self) -> bool {
        self.item_by_rarity@.len() == 7
    }

    /// The keys of the items offered in rarity `r`.
    pub open spec fn items_of(&self, r: Rarity) -> Seq<String> {
        self.item_by_rarity@[r.spec_index() as int]@
    }
}

/// `key` once for each time `r` occurs in `rarities`.
pub open spec fn key_copies(key: String, rarities: Seq<Rarity>, r: Rarity) -> Seq<String>
    decreases rarities.len(),
{
    if rarities.len() == 0 {
        Seq::empty()
    } else {
        key_copies(key, rarities.drop_last(), r) + (if rarities.last() == r {
            seq![key]
        } else {
            Seq::empty()
        })
    }
}

/// The keys of the items that exist in rarity `r`, in the order the items are given.
pub open spec fn rarity_keys(items: Seq<(String, Vec<Rarity>)>, r: Rarity) -> Seq<String>
    decreases items.len(),
{
    if items.len() == 0 {
        Seq::empty()
    } else {
        rarity_keys(items.drop_last(), r) + key_copies(items.last().0, items.last().1@, r)
    }
}

/// The keys of the items that exist in rarity `r`.
fn keys_with_rarity(items: &Vec<(String, Vec<Rarity>)>, r: Rarity) -> (keys: Vec<String>)
    ensures
        keys@ == rarity_keys(items@, r),
{
    let mut keys: Vec<String> = Vec::new();
    let mut i: usize = 0;
    while i < items.len()
        invariant
            0 <= i <= items.len(),
            keys@ == rarity_keys(items@.take(i as int), r),
        decreases items.len() - i,
    {
        let ghost before = keys@;
        let mut j: usize = 0;
        while j < items[i].1.len()
            invariant
                0 <= i < items.len(),
                0 <= j <= items@[i as int].1@.len(),
                keys@ == before + key_copies(items@[i as int].0, items@[i as int].1@.take(j as int), r),
            decreases items@[i as int].1@.len() - j,
        {
            proof {
                assert(items@[i as int].1@.take(j + 1).drop_last() =~= items@[i as int].1@.take(
                    j as int,
                ));
            }
            if items[i].1[j] == r {
                keys.push(items[i].0.clone());
            }
            j = j + 1;
            assert(keys@ =~= before + key_copies(
                items@[i as int].0,
                items@[i as int].1@.take(j as int),
                r,
            ));
        }
        proof {
            assert(items@[i as int].1@.take(j as int) =~= items@[i as int].1@);
            assert(items@.take(i + 1).drop_last() =~= items@.take(i as int));
        }
        i = i + 1;
    }
    assert(items@.take(i as int) =~= items@);
    keys
}

/// Builds the loot table from the rarity weights and, for each item, its key and the rarities
/// it exists in. Each rarity's list holds the keys of its items in the order they are given.
pub fn setup_loot_table(weighted_rarity: Vec<(Rarity, u32)>, items: &Vec<(String, Vec<Rarity>)>) -> (r:
    LootTable)
    ensures
        r.wf(),
        r.weighted_rarity@ == weighted_rarity@,
        forall|rarity: Rarity| #[trigger] r.items_of(rarity) == rarity_keys(items@, rarity),
{
    let item_by_rarity = vec![
        keys_with_rarity(items, Rarity::Common),
        keys_with_rarity(items, Rarity::Uncommon),
        keys_with_rarity(items, Rarity::Rare),
        keys_with_rarity(items, Rarity::Epic),
        keys_with_rarity(items, Rarity::Legendary),
        keys_with_rarity(items, Rarity::Cursed),
        keys_with_rarity(items, Rarity::Unique),
    ];
    let r = LootTable { weighted_rarity, item_by_rarity };
    assert forall|rarity: Rarity| #[trigger] r.items_of(rarity) == rarity_keys(items@, rarity) by {
        match rarity {
            Rarity::Common => {},
            Rarity::Uncommon => {},
            Rarity::Rare => {},
            Rarity::Epic => {},
            Rarity::Legendary => {},
            Rarity::Cursed => {},
            Rarity::Unique => {},
        }
    }
    r
}

/// `key_copies` holds `key` and nothing else, and holds it exactly when `r` is among the rarities.
pub proof fn lemma_key_copies(key: String, rarities: Seq<Rarity>, r: Rarity, k: String)
    ensures
        key_copies(key, rarities, r).contains(k) <==> (k == key && rarities.contains(r)),
    decreases rarities.len(),
{
    if rarities.len() > 0 {
        let rest = rarities.drop_last();
        lemma_key_copies(key, rest, r, k);
        let before = key_copies(key, rest, r);
        let tail: Seq<String> = if rarities.last() == r {
            seq![key]
        } else {
            Seq::empty()
        };
        lemma_concat_contains(before, tail, k);
        if rest.contains(r) {
            let j = choose|j: int| 0 <= j < rest.len() && rest[j] == r;
            assert(rarities[j] == r);
        }
        if rarities.contains(r) {
            let j = choose|j: int| 0 <= j < rarities.len() && rarities[j] == r;
            if j < rarities.len() - 1 {
                assert(rest[j] == r);
            }
        }
        if tail.contains(k) {
            assert(tail[0] == k);
        }
        if k == key && rarities.last() == r {
            assert(tail[0] == k);
        }
    }
}

/// The loot table of a rarity lists an item key exactly when some item with that key exists in
/// that rarity.
pub proof fn lemma_rarity_keys_membership(items: Seq<(String, Vec<Rarity>)>, r: Rarity, k: String)
    ensures
        rarity_keys(items, r).contains(k) <==> exists|i: int|
            0 <= i < items.len() && #[trigger] items[i].0 == k && items[i].1@.contains(r),
    decreases items.len(),
{
    if items.len() > 0 {
        let rest = items.drop_last();
        let last = items.last();
        lemma_rarity_keys_membership(rest, r, k);
        lemma_key_copies(last.0, last.1@, r, k);
        lemma_concat_contains(rarity_keys(rest, r), key_copies(last.0, last.1@, r), k);
        if exists|i: int| 0 <= i < rest.len() && #[trigger] rest[i].0 == k && rest[i].1@.contains(r) {
            let i = choose|i: int| 0 <= i < rest.len() && #[trigger] rest[i].0 == k && rest[i].1@.contains(r);
            assert(items[i] == rest[i]);
        }
        if exists|i: int| 0 <= i < items.len() && #[trigger] items[i].0 == k && items[i].1@.contains(r) {
            let i = choose|i: int| 0 <= i < items.len() && #[trigger] items[i].0 == k && items[i].1@.contains(r);
            if i < items.len() - 1 {
                assert(rest[i] == items[i]);
            } else {
                assert(items[i] == last);
            }
        }
        if last.0 == k && last.1@.contains(r) {
            assert(items[items.len() - 1] == last);
        }
    }
}

} // verus!

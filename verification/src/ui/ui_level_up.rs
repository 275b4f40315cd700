use vstd::prelude::*;

use crate::components::{ButtonItemUpgrade, Rarity};
use crate::items::item::LootTable;
use crate::random::{choose_one, sample_weighted_index, total_weight};

verus! {

/// The position of the cursed rarity in the loot table's weights.
pub const CURSED_RARITY_SLOT: usize = 5;

/// The weights of a loot table, in order.
pub open spec fn rarity_weights(weighted_rarity: Seq<(Rarity, u32)>) -> Seq<u32> {
    weighted_rarity.map_values(|p: (Rarity, u32)| p.1)
}

/// The rarity a level-up draw offers: the rarity at the drawn weight index, or the rarity in
/// the cursed slot when the cursed roll came up.
pub open spec fn spec_level_up_rarity(weighted_rarity: Seq<(Rarity, u32)>, drawn: int, cursed: bool) -> Rarity {
    if cursed {
        weighted_rarity[CURSED_RARITY_SLOT as int].0
    } else {
        weighted_rarity[drawn].0
    }
}

/// The rarity offered after the weighted draw gave `drawn` and the cursed roll gave `cursed`.
pub fn level_up_rarity(loot_table: &LootTable, drawn: usize, cursed: bool) -> (r: Rarity)
    requires
        drawn < loot_table.weighted_rarity@.len(),
        cursed ==> loot_table.weighted_rarity@.len() > CURSED_RARITY_SLOT,
    ensures
        r == spec_level_up_rarity(loot_table.weighted_rarity@, drawn as int, cursed),
{
    if cursed {
        loot_table.weighted_rarity[CURSED_RARITY_SLOT].0
    } else {
        loot_table.weighted_rarity[drawn].0
    }
}

/// What a draw of the level-up screen may give: for some index of positive weight, the offered
/// rarity is the one `spec_level_up_rarity` picks; the draw gives nothing exactly when that
/// rarity has no item, and otherwise a card of that rarity holding one of its items.
pub open spec fn is_level_up_draw(loot_table: LootTable, cursed: bool, r: Option<ButtonItemUpgrade>) -> bool {
    exists|i: int|
        0 <= i < loot_table.weighted_rarity@.len() && #[trigger] loot_table.weighted_rarity@[i].1 > 0
            && ({
            let rarity = spec_level_up_rarity(loot_table.weighted_rarity@, i, cursed);
            &&& (r is None <==> loot_table.items_of(rarity).len() == 0)
            &&& r matches Some(offer) ==> offer.rarity == rarity && loot_table.items_of(
                rarity,
            ).contains(offer.item_key)
        })
}

/// The loot tables a level-up screen can draw from.
pub open spec fn can_draw(loot_table: LootTable, cursed: bool) -> bool {
    &&& loot_table.wf()
    &&& loot_table.weighted_rarity@.len() > 0
    &&& 0 < total_weight(rarity_weights(loot_table.weighted_rarity@)) <= u32::MAX
    &&& cursed ==> loot_table.weighted_rarity@.len() > CURSED_RARITY_SLOT
}

/// One draw of the level-up screen: a rarity is picked by weight (or, when the cursed roll
/// came up, the rarity in the cursed slot), then an item of that rarity at random. `None`
/// when that rarity has no item: the screen then draws again.
pub fn draw_level_up_offer(loot_table: &LootTable, cursed: bool) -> (r: Option<ButtonItemUpgrade>)
    requires
        can_draw(*loot_table, cursed),
    ensures
        is_level_up_draw(*loot_table, cursed, r),
{
    let mut weights: Vec<u32> = Vec::new();
    let mut k: usize = 0;
    while k < loot_table.weighted_rarity.len()
        invariant
            0 <= k <= loot_table.weighted_rarity@.len(),
            weights@ == rarity_weights(loot_table.weighted_rarity@.take(k as int)),
        decreases loot_table.weighted_rarity@.len() - k,
    {
        weights.push(loot_table.weighted_rarity[k].1);
        k = k + 1;
        assert(weights@ =~= rarity_weights(loot_table.weighted_rarity@.take(k as int)));
    }
    assert(loot_table.weighted_rarity@.take(k as int) =~= loot_table.weighted_rarity@);
    let i = sample_weighted_index(weights.as_slice());
    assert(loot_table.weighted_rarity@[i as int].1 == weights@[i as int]);
    let rarity = level_up_rarity(loot_table, i, cursed);
    let items = &loot_table.item_by_rarity[rarity.index()];
    let r = match choose_one(items.as_slice()) {
        None => None,
        Some(key) => Some(ButtonItemUpgrade { item_key: key.clone(), rarity }),
    };
    assert(loot_table.weighted_rarity@[i as int].1 > 0);
    r
}

/// Every rarity a draw can reach has at least one item: each rarity of positive weight, and the
/// rarity in the cursed slot.
pub open spec fn every_rarity_stocked(loot_table: LootTable) -> bool {
    &&& forall|i: int|
        0 <= i < loot_table.weighted_rarity@.len() && #[trigger] loot_table.weighted_rarity@[i].1 > 0
            ==> loot_table.items_of(loot_table.weighted_rarity@[i].0).len() > 0
    &&& loot_table.items_of(loot_table.weighted_rarity@[CURSED_RARITY_SLOT as int].0).len() > 0
}

/// `card` is one a level-up draw can give, with a cursed roll that `cursed_roll` can answer.
pub open spec fn is_screen_card<F: Fn() -> bool>(loot_table: LootTable, cursed_roll: F, card: ButtonItemUpgrade) -> bool {
    exists|cursed: bool|
        call_ensures(cursed_roll, (), cursed) && #[trigger] is_level_up_draw(
            loot_table,
            cursed,
            Some(card),
        )
}

/// On a table whose every reachable rarity has items, a draw always finds one.
pub proof fn lemma_stocked_draw_finds(loot_table: LootTable, cursed: bool, r: Option<ButtonItemUpgrade>)
    requires
        every_rarity_stocked(loot_table),
        is_level_up_draw(loot_table, cursed, r),
    ensures
        r is Some,
{
    let i = choose|i: int|
        0 <= i < loot_table.weighted_rarity@.len() && #[trigger] loot_table.weighted_rarity@[i].1 > 0
            && ({
            let rarity = spec_level_up_rarity(loot_table.weighted_rarity@, i, cursed);
            &&& (r is None <==> loot_table.items_of(rarity).len() == 0)
            &&& r matches Some(offer) ==> offer.rarity == rarity && loot_table.items_of(
                rarity,
            ).contains(offer.item_key)
        });
    assert(loot_table.weighted_rarity@[i].1 > 0);
}

/// The number of cards the level-up screen shows.
pub const LEVEL_UP_CARDS: u32 = 5;

/// The cards of the level-up screen as they are drawn: the cards so far and how many are
/// still to find.
pub struct LevelUpOffers {
    pub cards: Vec<ButtonItemUpgrade>,
    pub item_to_offer: u32,
}

impl LevelUpOffers {
    /// The cards found plus the cards still to find make the screen's five.
    pub open spec fn wf(&self) -> bool {
        self.cards@.len() + self.item_to_offer == LEVEL_UP_CARDS
    }

    /// An empty screen with five cards to find.
    pub fn new() -> (r: LevelUpOffers)
        ensures
            r.wf(),
            r.cards@.len() == 0,
            r.item_to_offer == LEVEL_UP_CARDS,
    {
        LevelUpOffers { cards: Vec::new(), item_to_offer: LEVEL_UP_CARDS }
    }

    /// Whether all five cards have been found.
    pub fn is_done(&self) -> (r: bool)
        ensures
            r == (self.item_to_offer == 0),
    {
        self.item_to_offer == 0
    }

    /// Records one draw: a draw that found an item becomes the next card; one that found none
    /// changes nothing, and the screen draws again.
    pub fn record_draw(&mut self, draw: Option<ButtonItemUpgrade>)
        requires
            old(self).item_to_offer > 0,
        ensures
            match draw {
                Some(card) => {
                    &&& final(self).cards@ == old(self).cards@.push(card)
                    &&& final(self).item_to_offer == old(self).item_to_offer - 1
                },
                None => {
                    &&& final(self).cards@ == old(self).cards@
                    &&& final(self).item_to_offer == old(self).item_to_offer
                },
            },
    {
        match draw {
            Some(card) => {
                self.cards.push(card);
                self.item_to_offer = self.item_to_offer - 1;
            },
            None => {},
        }
    }

    /// Draws once more for the screen and records the draw.
    pub fn draw_card(&mut self, loot_table: &LootTable, cursed: bool)
        requires
            old(self).item_to_offer > 0,
            can_draw(*loot_table, cursed),
        ensures
            exists|draw: Option<ButtonItemUpgrade>|
                #[trigger] is_level_up_draw(*loot_table, cursed, draw) && match draw {
                    Some(card) => {
                        &&& final(self).cards@ == old(self).cards@.push(card)
                        &&& final(self).item_to_offer == old(self).item_to_offer - 1
                    },
                    None => {
                        &&& final(self).cards@ == old(self).cards@
                        &&& final(self).item_to_offer == old(self).item_to_offer
                    },
                },
    {
        let draw = draw_level_up_offer(loot_table, cursed);
        let ghost g = draw;
        self.record_draw(draw);
        assert(is_level_up_draw(*loot_table, cursed, g));
    }

    /// Draws until all five cards are found, or until `max_draws` draws have been made. Before
    /// each draw `cursed_roll` says whether that draw comes from the cursed rarity. A draw that
    /// finds no item is made again; when every rarity the draws can reach has items, each draw
    /// finds one and the screen is full after as many draws as cards were missing. Returns how
    /// many draws were made.
    pub fn fill<F: Fn() -> bool>(&mut self, loot_table: &LootTable, cursed_roll: F, max_draws: u64) -> (draws: u64)
        requires
            old(self).wf(),
            can_draw(*loot_table, true),
            call_requires(cursed_roll, ()),
        ensures
            final(self).wf(),
            final(self).item_to_offer == 0 || draws == max_draws,
            draws <= max_draws,
            final(self).cards@.take(old(self).cards@.len() as int) == old(self).cards@,
            forall|k: int|
                old(self).cards@.len() <= k < final(self).cards@.len() ==> #[trigger] is_screen_card(
                    *loot_table,
                    cursed_roll,
                    final(self).cards@[k],
                ),
            every_rarity_stocked(*loot_table) && old(self).item_to_offer <= max_draws ==> {
                &&& final(self).item_to_offer == 0
                &&& draws == old(self).item_to_offer
            },
    {
        let ghost start = self.cards@;
        let ghost missing = self.item_to_offer;
        let mut draws: u64 = 0;
        while !self.is_done() && draws < max_draws
            invariant
                self.wf(),
                can_draw(*loot_table, true),
                call_requires(cursed_roll, ()),
                draws <= max_draws,
                missing <= LEVEL_UP_CARDS,
                self.cards@.len() >= start.len(),
                self.cards@.take(start.len() as int) == start,
                forall|k: int|
                    start.len() <= k < self.cards@.len() ==> #[trigger] is_screen_card(
                        *loot_table,
                        cursed_roll,
                        self.cards@[k],
                    ),
                every_rarity_stocked(*loot_table) ==> draws + self.item_to_offer == missing,
            decreases max_draws - draws,
        {
            let cursed = cursed_roll();
            let ghost before = self.cards@;
            self.draw_card(loot_table, cursed);
            proof {
                let draw = choose|draw: Option<ButtonItemUpgrade>|
                    #[trigger] is_level_up_draw(*loot_table, cursed, draw) && match draw {
                        Some(card) => {
                            &&& self.cards@ == before.push(card)
                            &&& self.item_to_offer == LEVEL_UP_CARDS - before.len() - 1
                        },
                        None => {
                            &&& self.cards@ == before
                            &&& self.item_to_offer == LEVEL_UP_CARDS - before.len()
                        },
                    };
                match draw {
                    Some(card) => {
                        assert(self.cards@.take(start.len() as int) =~= before.take(start.len() as int));
                        assert(is_screen_card(*loot_table, cursed_roll, card));
                        assert forall|k: int|
                            start.len() <= k < self.cards@.len() implies #[trigger] is_screen_card(
                            *loot_table,
                            cursed_roll,
                            self.cards@[k],
                        ) by {
                            if k < before.len() {
                                assert(self.cards@[k] == before[k]);
                            }
                        }
                    },
                    None => {
                        if every_rarity_stocked(*loot_table) {
                            lemma_stocked_draw_finds(*loot_table, cursed, draw);
                        }
                    },
                }
            }
            draws = draws + 1;
        }
        draws
    }
}

/// The background picture of an item card, by rarity.
pub open spec fn spec_card_background(rarity: Rarity) -> Seq<char> {
    match rarity {
        Rarity::Common => "item_ui_background_common.png"@,
        Rarity::Uncommon => "item_ui_background_uncommon.png"@,
        Rarity::Rare => "item_ui_background_rare.png"@,
        Rarity::Epic => "item_ui_background_epic.png"@,
        Rarity::Legendary => "item_ui_background_legendary.png"@,
        Rarity::Cursed => "item_ui_background_curse.png"@,
        Rarity::Unique => "item_ui_background_unique.png"@,
    }
}

pub fn card_background(rarity: Rarity) -> (r: &'static str)
    ensures
        r@ == spec_card_background(rarity),
{
    match rarity {
        Rarity::Common => "item_ui_background_common.png",
        Rarity::Uncommon => "item_ui_background_uncommon.png",
        Rarity::Rare => "item_ui_background_rare.png",
        Rarity::Epic => "item_ui_background_epic.png",
        Rarity::Legendary => "item_ui_background_legendary.png",
        Rarity::Cursed => "item_ui_background_curse.png",
        Rarity::Unique => "item_ui_background_unique.png",
    }
}

/// The named colours the rarity label of an item card is printed in.
#[derive(Debug, Clone, Copy, PartialEq, Eq, Structural)]
pub enum RarityTextColor {
    Maroon,
    YellowGreen,
    MidnightBlue,
    Fuchsia,
    Gold,
    Crimson,
    Black,
}

/// The colour of the rarity label, by rarity.
pub open spec fn spec_rarity_text_color(rarity: Rarity) -> RarityTextColor {
    match rarity {
        Rarity::Common => RarityTextColor::Maroon,
        Rarity::Uncommon => RarityTextColor::YellowGreen,
        Rarity::Rare => RarityTextColor::MidnightBlue,
        Rarity::Epic => RarityTextColor::Fuchsia,
        Rarity::Legendary => RarityTextColor::Gold,
        Rarity::Cursed => RarityTextColor::Crimson,
        Rarity::Unique => RarityTextColor::Black,
    }
}

pub fn rarity_text_color(rarity: Rarity) -> (r: RarityTextColor)
    ensures
        r == spec_rarity_text_color(rarity),
{
    match rarity {
        Rarity::Common => RarityTextColor::Maroon,
        Rarity::Uncommon => RarityTextColor::YellowGreen,
        Rarity::Rare => RarityTextColor::MidnightBlue,
        Rarity::Epic => RarityTextColor::Fuchsia,
        Rarity::Legendary => RarityTextColor::Gold,
        Rarity::Cursed => RarityTextColor::Crimson,
        Rarity::Unique => RarityTextColor::Black,
    }
}

} // verus!

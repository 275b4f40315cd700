use vstd::prelude::*;

use crate::components::{
    lemma_upgrade_belongs_to_one_weapon, PlayerUpgradeWeapons, PlayerWeapons, WeaponsTypes,
    WeaponsUpgradesTypes,
};
use crate::random::choose_one;

verus! {

/// The most upgrade cards the weapon-upgrade screen shows.
pub const UPGRADES_OFFERED: u32 = 3;

/// How many times in a row the screen may fail to find an upgrade before it gives up a card.
pub const UPGRADE_TRIES: i32 = 15;

/// Holds of the upgrades that the player does not own yet.
pub open spec fn not_owned(owned: Seq<WeaponsUpgradesTypes>) -> spec_fn(WeaponsUpgradesTypes) -> bool {
    |u: WeaponsUpgradesTypes| !owned.contains(u)
}

/// The upgrades of `weapon` that the player does not own yet, in the weapon's order.
pub open spec fn spec_available_upgrades(weapon: WeaponsTypes, owned: Seq<WeaponsUpgradesTypes>) -> Seq<
    WeaponsUpgradesTypes,
> {
    weapon.spec_upgrades().filter(not_owned(owned))
}

/// The upgrades of `weapon` that the player does not own yet.
pub fn available_upgrades(weapon: WeaponsTypes, owned: &PlayerUpgradeWeapons) -> (r: Vec<
    WeaponsUpgradesTypes,
>)
    ensures
        r@ == spec_available_upgrades(weapon, owned.upgrades@),
{
    let all = weapon.upgrades();
    let mut r: Vec<WeaponsUpgradesTypes> = Vec::new();
    let mut i: usize = 0;
    while i < all.len()
        invariant
            0 <= i <= all.len(),
            all@ == weapon.spec_upgrades(),
            r@ == all@.take(i as int).filter(not_owned(owned.upgrades@)),
        decreases all.len() - i,
    {
        let u = all[i];
        proof {
            assert(all@.take(i + 1) =~= all@.take(i as int).push(u));
            all@.take(i as int).lemma_filter_push(u, not_owned(owned.upgrades@));
        }
        if !owned.has(u) {
            r.push(u);
        }
        i = i + 1;
    }
    assert(all@.take(i as int) =~= all@);
    r
}

/// Each available upgrade belongs to the weapon and is not owned.
pub proof fn lemma_available_upgrade(
    weapon: WeaponsTypes,
    owned: Seq<WeaponsUpgradesTypes>,
    u: WeaponsUpgradesTypes,
)
    ensures
        spec_available_upgrades(weapon, owned).contains(u) <==> (u.spec_weapon() == weapon
            && !owned.contains(u)),
{
    let s = weapon.spec_upgrades();
    let p = not_owned(owned);
    lemma_upgrade_belongs_to_one_weapon(weapon, u);
    if s.contains(u) && p(u) {
        let k = choose|k: int| 0 <= k < s.len() && s[k] == u;
        s.lemma_filter_contains(p, k);
    }
    if s.filter(p).contains(u) {
        s.lemma_filter_contains_rev(p, u);
        let k = choose|k: int| 0 <= k < s.filter(p).len() && s.filter(p)[k] == u;
        s.lemma_filter_pred(p, k);
    }
}

/// The state of the weapon-upgrade screen while it picks: every pick so far (a found upgrade,
/// or none when the picked weapon had none left), the cards found, the cards still to find, and
/// the failed picks it may still make for free.
pub struct UpdateWeaponOffers {
    pub picks: Vec<Option<WeaponsUpgradesTypes>>,
    pub offers: Vec<WeaponsUpgradesTypes>,
    pub item_to_offer: u32,
    pub try_amount: i32,
}

/// The upgrades found by a run of picks, in order.
pub open spec fn found_picks(picks: Seq<Option<WeaponsUpgradesTypes>>) -> Seq<WeaponsUpgradesTypes>
    decreases picks.len(),
{
    if picks.len() == 0 {
        Seq::empty()
    } else {
        let before = found_picks(picks.drop_last());
        match picks.last() {
            Some(u) => before.push(u),
            None => before,
        }
    }
}

/// How many of a run of picks failed.
pub open spec fn failed_picks(picks: Seq<Option<WeaponsUpgradesTypes>>) -> nat
    decreases picks.len(),
{
    if picks.len() == 0 {
        0
    } else {
        let before = failed_picks(picks.drop_last());
        match picks.last() {
            Some(_) => before,
            None => before + 1,
        }
    }
}

/// The cards that `failed` failed picks give up: none for the first fourteen, one for each
/// failure from the fifteenth on.
pub open spec fn cards_given_up(failed: nat) -> nat {
    if failed < UPGRADE_TRIES {
        0
    } else {
        (failed - (UPGRADE_TRIES - 1)) as nat
    }
}

/// The free retries left after `failed` failed picks.
pub open spec fn retries_left(failed: nat) -> int {
    if failed < UPGRADE_TRIES {
        UPGRADE_TRIES - failed
    } else {
        0
    }
}

/// The screen's counters after one failed pick: a free retry while more than one is left;
/// otherwise the retries are spent and the failure gives up a card.
pub open spec fn after_failed_pick(item_to_offer: nat, try_amount: int) -> (nat, int) {
    if try_amount - 1 <= 0 {
        ((item_to_offer - 1) as nat, 0)
    } else {
        (item_to_offer, try_amount - 1)
    }
}

/// The screen's counters after `n` failed picks in a row.
pub open spec fn after_failed_picks(item_to_offer: nat, try_amount: int, n: nat) -> (nat, int)
    decreases n,
{
    if n == 0 {
        (item_to_offer, try_amount)
    } else {
        let (i, t) = after_failed_picks(item_to_offer, try_amount, (n - 1) as nat);
        after_failed_pick(i, t)
    }
}

impl UpdateWeaponOffers {
    /// The screen's state follows from its picks: the cards are the upgrades found, every
    /// found card and every card given up by failed picks is taken off the three to find, and
    /// the free retries are fifteen less the failures.
    pub open spec fn wf(&self) -> bool {
        &&& self.offers@ == found_picks(self.picks@)
        &&& self.item_to_offer + self.offers@.len() + cards_given_up(failed_picks(self.picks@))
            == UPGRADES_OFFERED
        &&& self.try_amount == retries_left(failed_picks(self.picks@))
    }

    /// A fresh screen: no card yet, three to find, fifteen retries.
    pub fn new() -> (r: UpdateWeaponOffers)
        ensures
            r.wf(),
            r.picks@.len() == 0,
            r.offers@.len() == 0,
            r.item_to_offer == UPGRADES_OFFERED,
            r.try_amount == UPGRADE_TRIES,
    {
        UpdateWeaponOffers {
            picks: Vec::new(),
            offers: Vec::new(),
            item_to_offer: UPGRADES_OFFERED,
            try_amount: UPGRADE_TRIES,
        }
    }

    /// Whether the screen has no card left to find.
    pub fn is_done(&self) -> (r: bool)
        ensures
            r == (self.item_to_offer == 0),
    {
        self.item_to_offer == 0
    }

    /// Records one pick: a found upgrade becomes the next card; a failed pick uses up a retry,
    /// or, once the retries are spent, gives up a card. Retries are never given back.
    pub fn record_pick(&mut self, pick: Option<WeaponsUpgradesTypes>)
        requires
            old(self).wf(),
            old(self).item_to_offer > 0,
        ensures
            final(self).wf(),
            final(self).picks@ == old(self).picks@.push(pick),
            match pick {
                Some(u) => {
                    &&& final(self).offers@ == old(self).offers@.push(u)
                    &&& final(self).item_to_offer == old(self).item_to_offer - 1
                    &&& final(self).try_amount == old(self).try_amount
                },
                None => {
                    &&& final(self).offers@ == old(self).offers@
                    &&& (final(self).item_to_offer as nat, final(self).try_amount as int)
                        == after_failed_pick(
                        old(self).item_to_offer as nat,
                        old(self).try_amount as int,
                    )
                },
            },
    {
        let ghost before = self.picks@;
        self.picks.push(pick);
        proof {
            assert(self.picks@.drop_last() =~= before);
        }
        match pick {
            Some(u) => {
                self.offers.push(u);
                self.item_to_offer = self.item_to_offer - 1;
            },
            None => {
                self.try_amount = self.try_amount - 1;
                if self.try_amount <= 0 {
                    self.item_to_offer = self.item_to_offer - 1;
                    self.try_amount = 0;
                }
            },
        }
    }
}

/// The retry budget of a fresh weapon-upgrade screen: fourteen failed picks give up no card,
/// the fifteenth gives up one, and each further failure gives up one more.
pub proof fn lemma_weapon_upgrade_retry_budget()
    ensures
        after_failed_picks(3, 15, 14) == (3nat, 1int),
        after_failed_picks(3, 15, 15) == (2nat, 0int),
        after_failed_picks(3, 15, 16) == (1nat, 0int),
        after_failed_picks(3, 15, 17) == (0nat, 0int),
{
    reveal_with_fuel(after_failed_picks, 18);
}

/// Runs the weapon-upgrade screen to its end. Up to three times, a weapon of the player is
/// picked at random and then one of its upgrades that the player does not own yet. When the
/// weapon has none left the pick fails: fourteen failures in all are retried for free, and from
/// the fifteenth on each failure gives up a card (see `UpdateWeaponOffers::wf`). The finished
/// screen holds every pick made and the cards found; a card can repeat an upgrade shown on
/// another card.
pub fn offer_weapon_upgrades(weapons: &PlayerWeapons, owned: &PlayerUpgradeWeapons) -> (screen:
    UpdateWeaponOffers)
    requires
        weapons.weapons@.len() > 0,
    ensures
        screen.wf(),
        screen.item_to_offer == 0,
        forall|i: int|
            0 <= i < screen.offers@.len() ==> !owned.upgrades@.contains(#[trigger] screen.offers@[i])
                && weapons.weapons@.contains(screen.offers@[i].spec_weapon()),
        (forall|w: WeaponsTypes| #[trigger] weapons.weapons@.contains(w) ==> spec_available_upgrades(
            w,
            owned.upgrades@,
        ).len() > 0) ==> screen.offers@.len() == UPGRADES_OFFERED,
        (forall|w: WeaponsTypes| #[trigger] weapons.weapons@.contains(w) ==> spec_available_upgrades(
            w,
            owned.upgrades@,
        ).len() == 0) ==> screen.offers@.len() == 0,
{
    let ghost all_have = forall|w: WeaponsTypes| #[trigger]
        weapons.weapons@.contains(w) ==> spec_available_upgrades(w, owned.upgrades@).len() > 0;
    let ghost none_have = forall|w: WeaponsTypes| #[trigger]
        weapons.weapons@.contains(w) ==> spec_available_upgrades(w, owned.upgrades@).len() == 0;
    let mut screen = UpdateWeaponOffers::new();
    while !screen.is_done()
        invariant
            weapons.weapons@.len() > 0,
            screen.wf(),
            all_have ==> screen.offers@.len() == UPGRADES_OFFERED - screen.item_to_offer,
            none_have ==> screen.offers@.len() == 0,
            all_have == (forall|w: WeaponsTypes| #[trigger]
                weapons.weapons@.contains(w) ==> spec_available_upgrades(w, owned.upgrades@).len()
                    > 0),
            none_have == (forall|w: WeaponsTypes| #[trigger]
                weapons.weapons@.contains(w) ==> spec_available_upgrades(w, owned.upgrades@).len()
                    == 0),
            forall|i: int|
                0 <= i < screen.offers@.len() ==> !owned.upgrades@.contains(#[trigger] screen.offers@[i])
                    && weapons.weapons@.contains(screen.offers@[i].spec_weapon()),
        decreases screen.item_to_offer, screen.try_amount,
    {
        let weapon = match choose_one(weapons.weapons.as_slice()) {
            Some(w) => *w,
            None => {
                return screen;
            },
        };
        let potential = available_upgrades(weapon, owned);
        let pick = match choose_one(potential.as_slice()) {
            None => None,
            Some(upgrade) => {
                let u = *upgrade;
                proof {
                    lemma_available_upgrade(weapon, owned.upgrades@, u);
                }
                Some(u)
            },
        };
        screen.record_pick(pick);
    }
    screen
}

/// Once picked, an upgrade is never offered again: after it is added to the owned upgrades, no
/// weapon has it among its available upgrades.
pub proof fn lemma_picked_upgrade_not_offered_again(
    weapon: WeaponsTypes,
    owned: Seq<WeaponsUpgradesTypes>,
    picked: WeaponsUpgradesTypes,
)
    ensures
        !spec_available_upgrades(weapon, owned.push(picked)).contains(picked),
{
    lemma_available_upgrade(weapon, owned.push(picked), picked);
    assert(owned.push(picked)[owned.len() as int] == picked);
}

} // verus!

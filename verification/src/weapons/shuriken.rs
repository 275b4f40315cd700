use vstd::prelude::*;

use crate::components::{AttackAmmo, PlayerUpgradeWeapons, WeaponsUpgradesTypes};

verus! {

/// The extra attacks the shuriken's extra-ammo upgrade adds.
pub const SHURIKEN_EXTRA_AMMO: u32 = 4;

/// One shuriken of a volley.
pub struct ShurikenShot {
    /// Its place in the ring around the player: slot `k` flies at `k / capacity` of a turn.
    pub slot: u32,
    /// Drawn half again as large (the `ShurikenExtraLarge` upgrade).
    pub extra_large: bool,
    /// Spirals out around the player instead of flying straight
    /// (the `ShurikenSpiralAroundPlayer` upgrade).
    pub spiral_around_player: bool,
}

/// Fires every attack left at once. The slots go from `amount - 1` down to 0, and every
/// shuriken of the volley is shaped by the owned upgrades.
pub fn spawn_shuriken_attack(ammo: &mut AttackAmmo, upgrades: &PlayerUpgradeWeapons) -> (shots:
    Vec<ShurikenShot>)
    ensures
        shots@.len() == old(ammo).amount,
        forall|i: int|
            0 <= i < shots@.len() ==> #[trigger] shots@[i].slot == old(ammo).amount - 1 - i,
        forall|i: int|
            0 <= i < shots@.len() ==> #[trigger] shots@[i].extra_large
                == upgrades.upgrades@.contains(WeaponsUpgradesTypes::ShurikenExtraLarge),
        forall|i: int|
            0 <= i < shots@.len() ==> #[trigger] shots@[i].spiral_around_player
                == upgrades.upgrades@.contains(WeaponsUpgradesTypes::ShurikenSpiralAroundPlayer),
        final(ammo).amount == 0,
        final(ammo).capacity == old(ammo).capacity,
        final(ammo).initial_capacity == old(ammo).initial_capacity,
{
    let look = shuriken_upgrades(upgrades);
    let mut shots: Vec<ShurikenShot> = Vec::new();
    while ammo.amount > 0
        invariant
            shots@.len() + ammo.amount == old(ammo).amount,
            ammo.capacity == old(ammo).capacity,
            ammo.initial_capacity == old(ammo).initial_capacity,
            look.extra_large == upgrades.upgrades@.contains(
                WeaponsUpgradesTypes::ShurikenExtraLarge,
            ),
            look.spiral_around_player == upgrades.upgrades@.contains(
                WeaponsUpgradesTypes::ShurikenSpiralAroundPlayer,
            ),
            forall|i: int|
                0 <= i < shots@.len() ==> #[trigger] shots@[i].slot == old(ammo).amount - 1 - i,
            forall|i: int|
                0 <= i < shots@.len() ==> #[trigger] shots@[i].extra_large == look.extra_large,
            forall|i: int|
                0 <= i < shots@.len() ==> #[trigger] shots@[i].spiral_around_player
                    == look.spiral_around_player,
        decreases ammo.amount,
    {
        ammo.consume_one();
        shots.push(
            ShurikenShot {
                slot: ammo.amount,
                extra_large: look.extra_large,
                spiral_around_player: look.spiral_around_player,
            },
        );
    }
    shots
}

/// The shuriken's extra-ammo upgrade: four more attacks per load.
pub fn handle_shuriken_extra_ammo_update(ammo: &mut AttackAmmo)
    requires
        old(ammo).capacity + SHURIKEN_EXTRA_AMMO <= u32::MAX,
        old(ammo).initial_capacity + SHURIKEN_EXTRA_AMMO <= u32::MAX,
    ensures
        final(ammo).capacity == old(ammo).capacity + SHURIKEN_EXTRA_AMMO,
        final(ammo).initial_capacity == old(ammo).initial_capacity + SHURIKEN_EXTRA_AMMO,
        final(ammo).amount == old(ammo).amount,
{
    ammo.add_capacity(SHURIKEN_EXTRA_AMMO);
}

/// How the shurikens of a volley look and move, by the owned upgrades.
pub struct ShurikenUpgrades {
    /// The shurikens are drawn half again as large.
    pub extra_large: bool,
    /// The shurikens spiral out around the player instead of flying straight.
    pub spiral_around_player: bool,
}

/// The shuriken upgrades that shape a volley: extra large with `ShurikenExtraLarge`, spiralling
/// around the player with `ShurikenSpiralAroundPlayer`.
pub fn shuriken_upgrades(upgrades: &PlayerUpgradeWeapons) -> (r: ShurikenUpgrades)
    ensures
        r.extra_large == upgrades.upgrades@.contains(WeaponsUpgradesTypes::ShurikenExtraLarge),
        r.spiral_around_player == upgrades.upgrades@.contains(
            WeaponsUpgradesTypes::ShurikenSpiralAroundPlayer,
        ),
{
    ShurikenUpgrades {
        extra_large: upgrades.has(WeaponsUpgradesTypes::ShurikenExtraLarge),
        spiral_around_player: upgrades.has(WeaponsUpgradesTypes::ShurikenSpiralAroundPlayer),
    }
}

} // verus!

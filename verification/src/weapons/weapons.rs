use vstd::prelude::*;

use crate::components::{PlayerUpgradeWeapons, WeaponsTypes, WeaponsUpgradesTypes};

verus! {

/// Adds the upgrades picked this frame to the player's upgrades, in order.
pub fn trigger_upgrade(player_upgrades: &mut PlayerUpgradeWeapons, picked: &Vec<WeaponsUpgradesTypes>)
    ensures
        final(player_upgrades).upgrades@ == old(player_upgrades).upgrades@ + picked@,
{
    let mut i: usize = 0;
    while i < picked.len()
        invariant
            0 <= i <= picked.len(),
            player_upgrades.upgrades@ == old(player_upgrades).upgrades@ + picked@.take(i as int),
        decreases picked.len() - i,
    {
        player_upgrades.upgrades.push(picked[i]);
        i = i + 1;
        assert(player_upgrades.upgrades@ =~= old(player_upgrades).upgrades@ + picked@.take(
            i as int,
        ));
    }
    assert(picked@.take(i as int) =~= picked@);
}

/// The attacks in the first load of each weapon's spawner; the fire area has no ammunition.
pub open spec fn spec_initial_ammo(weapon: WeaponsTypes) -> Option<u32> {
    match weapon {
        WeaponsTypes::Claw => Some(2),
        WeaponsTypes::FireArea => None,
        WeaponsTypes::ArcaneMissile => Some(3),
        WeaponsTypes::Shuriken => Some(4),
        WeaponsTypes::ChainLightning => Some(5),
        WeaponsTypes::SlowDome => Some(1),
        WeaponsTypes::BouncingBall => Some(1),
        WeaponsTypes::FireBoots => Some(12),
        WeaponsTypes::LightSwords => Some(3),
    }
}

pub fn initial_ammo(weapon: WeaponsTypes) -> (r: Option<u32>)
    ensures
        r == spec_initial_ammo(weapon),
{
    match weapon {
        WeaponsTypes::Claw => Some(2),
        WeaponsTypes::FireArea => None,
        WeaponsTypes::ArcaneMissile => Some(3),
        WeaponsTypes::Shuriken => Some(4),
        WeaponsTypes::ChainLightning => Some(5),
        WeaponsTypes::SlowDome => Some(1),
        WeaponsTypes::BouncingBall => Some(1),
        WeaponsTypes::FireBoots => Some(12),
        WeaponsTypes::LightSwords => Some(3),
    }
}

} // verus!

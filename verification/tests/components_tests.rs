use yet_another_vampire_survivor_clone::components::{
    contains_entity, GameState, PlayerUpgradeWeapons, PlayerWeapons, Rarity, WeaponsTypes,
    WeaponsUpgradesTypes,
};
use yet_another_vampire_survivor_clone::constants::{level_experience, MAP_LEVEL_EXPERIENCE};

#[test]
fn weapon_upgrades_lists() {
    assert_eq!(
        WeaponsTypes::ArcaneMissile.upgrades(),
        vec![
            WeaponsUpgradesTypes::ArcaneMissilePierce,
            WeaponsUpgradesTypes::ArcaneMissileSplit,
            WeaponsUpgradesTypes::ArcaneMissileExplosion,
            WeaponsUpgradesTypes::ArcaneMissileDamage,
        ]
    );
    assert_eq!(
        WeaponsTypes::ChainLightning.upgrades(),
        vec![
            WeaponsUpgradesTypes::ChainLightningStun,
            WeaponsUpgradesTypes::ChainLightningExtraAmmo,
            WeaponsUpgradesTypes::ChainLightningTriple,
        ]
    );
    assert_eq!(WeaponsTypes::Shuriken.upgrades().len(), 4);
    assert!(WeaponsTypes::Claw.upgrades().is_empty());
    assert!(WeaponsTypes::LightSwords.upgrades().is_empty());
}

#[test]
fn weapon_list_has_every_weapon_once() {
    let list = WeaponsTypes::list();
    assert_eq!(list.len(), 9);
    assert_eq!(list[0], WeaponsTypes::Claw);
    assert_eq!(list[8], WeaponsTypes::LightSwords);
    for (i, a) in list.iter().enumerate() {
        for (j, b) in list.iter().enumerate() {
            assert_eq!(i == j, a == b);
        }
    }
}

#[test]
fn weapon_names() {
    assert_eq!(WeaponsTypes::Claw.name(), "Claw");
    assert_eq!(WeaponsTypes::FireArea.name(), "Fire Area");
    assert_eq!(WeaponsTypes::ChainLightning.name(), "ChainLightning");
    assert_eq!(WeaponsTypes::LightSwords.name(), "Light Swords");
}

#[test]
fn upgrade_names() {
    assert_eq!(
        WeaponsUpgradesTypes::ShurikenSpiralAroundPlayer.name(),
        "Shuriken Spiral Around Player"
    );
    assert_eq!(WeaponsUpgradesTypes::ChainLightningStun.name(), "ChainLightning Stun");
    assert_eq!(WeaponsUpgradesTypes::ChainLightningTriple.name(), "Chain Lightning Triple");
}

#[test]
fn rarity_names_and_indices() {
    assert_eq!(Rarity::Common.name(), "COMMON");
    assert_eq!(Rarity::Legendary.name(), "LEGENDARY");
    assert_eq!(Rarity::Unique.name(), "UNIQUE");
    assert_eq!(Rarity::Cursed.index(), 5);
    assert_eq!(Rarity::Common.index(), 0);
}

#[test]
fn game_state_default_is_gameplay() {
    assert_eq!(GameState::default(), GameState::Gameplay);
}

#[test]
fn player_weapons_spawner_needed_only_once() {
    let mut weapons = PlayerWeapons::new();
    assert!(!weapons.needs_spawner(WeaponsTypes::Claw, false));
    weapons.weapons.push(WeaponsTypes::Claw);
    assert!(weapons.has(WeaponsTypes::Claw));
    assert!(weapons.needs_spawner(WeaponsTypes::Claw, false));
    assert!(!weapons.needs_spawner(WeaponsTypes::Claw, true));
    assert!(!weapons.needs_spawner(WeaponsTypes::Shuriken, false));
}

#[test]
fn player_upgrades_has() {
    let mut upgrades = PlayerUpgradeWeapons::new();
    assert!(!upgrades.has(WeaponsUpgradesTypes::ChainLightningStun));
    upgrades.upgrades.push(WeaponsUpgradesTypes::ChainLightningStun);
    assert!(upgrades.has(WeaponsUpgradesTypes::ChainLightningStun));
    assert!(!upgrades.has(WeaponsUpgradesTypes::ChainLightningTriple));
}

#[test]
fn entity_lookup() {
    assert!(contains_entity(&vec![3, 9, 12], 9));
    assert!(!contains_entity(&vec![3, 9, 12], 10));
    assert!(!contains_entity(&vec![], 0));
}

#[test]
fn level_experience_table() {
    // the table starts with the cost of reaching level 2
    assert_eq!(level_experience(1), 5);
    assert_eq!(level_experience(2), 7);
    assert_eq!(level_experience(25), 1500);
    assert_eq!(MAP_LEVEL_EXPERIENCE.len(), 25);
}

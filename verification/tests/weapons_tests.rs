use yet_another_vampire_survivor_clone::components::{
    AlreadyHitEnemies, AttackAmmo, Facing, PlayerUpgradeWeapons, PlayerWeapons,
    ProjectileBendLeftOrRight, Rarity, WeaponsTypes, WeaponsUpgradesTypes,
};
use yet_another_vampire_survivor_clone::items::item::setup_loot_table;
use yet_another_vampire_survivor_clone::ui::ui_level_up::draw_level_up_offer;
use yet_another_vampire_survivor_clone::ui::ui_update_weapon_up::{
    available_upgrades, offer_weapon_upgrades,
};
use yet_another_vampire_survivor_clone::weapons::arcane_missile::split_missile_target;
use yet_another_vampire_survivor_clone::weapons::chain_lightning::{
    handle_chain_lightning_extra_ammo_update, spawn_chain_lightning_attack,
};
use yet_another_vampire_survivor_clone::weapons::claw::{
    spawn_alternating_attack, spawn_claw_upgrade_attack, ClawSlot,
};
use yet_another_vampire_survivor_clone::weapons::light_sword::light_sword_direction;
use yet_another_vampire_survivor_clone::weapons::projectiles::{
    handle_projectile_colliding_with_enemy, split_projectile_count,
};
use yet_another_vampire_survivor_clone::weapons::shuriken::{
    handle_shuriken_extra_ammo_update, spawn_shuriken_attack,
};
use yet_another_vampire_survivor_clone::weapons::weapons::{initial_ammo, trigger_upgrade};

#[test]
fn new_spawner_ammo() {
    let ammo = AttackAmmo::new(4, 2);
    assert_eq!(ammo.capacity, 6);
    assert_eq!(ammo.initial_capacity, 4);
    assert_eq!(ammo.amount, 4);
}

#[test]
fn ammo_reload_cycle() {
    let mut ammo = AttackAmmo::new(2, 1);
    assert!(!ammo.start_reload_attack_spawner());
    ammo.consume_one();
    ammo.consume_one();
    assert!(ammo.start_reload_attack_spawner());
    ammo.reloading_attack_spawner();
    assert_eq!(ammo.amount, 3);
}

#[test]
fn ammo_update_stats_uses_initial_capacity() {
    let mut ammo = AttackAmmo::new(3, 0);
    ammo.weapons_update_stats(5);
    assert_eq!(ammo.capacity, 8);
    ammo.weapons_update_stats(5);
    assert_eq!(ammo.capacity, 8);
    assert_eq!(ammo.amount, 3);
}

#[test]
fn initial_ammo_per_weapon() {
    assert_eq!(initial_ammo(WeaponsTypes::Claw), Some(2));
    assert_eq!(initial_ammo(WeaponsTypes::FireArea), None);
    assert_eq!(initial_ammo(WeaponsTypes::FireBoots), Some(12));
    assert_eq!(initial_ammo(WeaponsTypes::ChainLightning), Some(5));
}

#[test]
fn claw_alternates_sides() {
    let mut ammo = AttackAmmo::new(2, 0);
    let mut side = ProjectileBendLeftOrRight(true);
    assert!(spawn_alternating_attack(&mut ammo, &mut side));
    assert!(!spawn_alternating_attack(&mut ammo, &mut side));
    assert_eq!(ammo.amount, 0);
    assert!(side.0);
}

#[test]
fn upgraded_claw_bursts_four() {
    let mut ammo = AttackAmmo::new(10, 0);
    let slots = spawn_claw_upgrade_attack(&mut ammo);
    assert_eq!(slots, vec![ClawSlot::Right, ClawSlot::Below, ClawSlot::Left, ClawSlot::Above]);
    assert_eq!(ammo.amount, 6);
    assert!(slots[1].is_flipped());
    assert!(!slots[0].is_flipped());
    let mut last = AttackAmmo { capacity: 10, initial_capacity: 10, amount: 2 };
    let slots = spawn_claw_upgrade_attack(&mut last);
    assert_eq!(slots, vec![ClawSlot::Right, ClawSlot::Below]);
    assert_eq!(last.amount, 0);
}

#[test]
fn shuriken_fires_whole_load() {
    let mut ammo = AttackAmmo::new(4, 0);
    let shots = spawn_shuriken_attack(&mut ammo, &PlayerUpgradeWeapons::new());
    let slots: Vec<u32> = shots.iter().map(|s| s.slot).collect();
    assert_eq!(slots, vec![3, 2, 1, 0]);
    assert!(shots.iter().all(|s| !s.extra_large && !s.spiral_around_player));
    assert_eq!(ammo.amount, 0);
    assert!(spawn_shuriken_attack(&mut ammo, &PlayerUpgradeWeapons::new()).is_empty());
}

#[test]
fn shuriken_extra_ammo() {
    let mut ammo = AttackAmmo::new(4, 1);
    handle_shuriken_extra_ammo_update(&mut ammo);
    assert_eq!(ammo.capacity, 9);
    assert_eq!(ammo.initial_capacity, 8);
    assert_eq!(ammo.amount, 4);
}

#[test]
fn chain_lightning_volley() {
    let mut ammo = AttackAmmo::new(5, 0);
    let mut upgrades = PlayerUpgradeWeapons::new();
    let volley = spawn_chain_lightning_attack(&mut ammo, &upgrades);
    assert_eq!((volley.chains, volley.jumps_per_chain), (1, 5));
    assert_eq!(ammo.amount, 0);
    ammo.reloading_attack_spawner();
    upgrades.upgrades.push(WeaponsUpgradesTypes::ChainLightningTriple);
    let volley = spawn_chain_lightning_attack(&mut ammo, &upgrades);
    assert_eq!((volley.chains, volley.jumps_per_chain), (3, 5));
}

#[test]
fn chain_lightning_extra_ammo() {
    let mut ammo = AttackAmmo::new(5, 0);
    handle_chain_lightning_extra_ammo_update(&mut ammo);
    assert_eq!(ammo.capacity, 10);
    assert_eq!(ammo.initial_capacity, 10);
}

#[test]
fn light_sword_flies_away_from_facing() {
    assert_eq!(light_sword_direction(Facing::Left), 1);
    assert_eq!(light_sword_direction(Facing::Right), -1);
}

#[test]
fn split_count() {
    assert_eq!(split_projectile_count(0), 2);
    assert_eq!(split_projectile_count(3), 5);
}

#[test]
fn split_missile_without_enemies_returns_to_hit_enemy() {
    let t = split_missile_target(&vec![], 7);
    assert_eq!(t.target, 7);
    assert!(t.already_hit.seen.is_empty());
}

#[test]
fn split_missile_picks_living_enemy() {
    let enemies = vec![11, 12, 13];
    for _ in 0..20 {
        let t = split_missile_target(&enemies, 7);
        assert!(enemies.contains(&t.target));
        assert_eq!(t.already_hit.seen, vec![7]);
    }
    let t = split_missile_target(&vec![42], 7);
    assert_eq!(t.target, 42);
}

#[test]
fn tracked_projectile_hits_each_enemy_once() {
    let mut seen = Some(AlreadyHitEnemies::new());
    let r = handle_projectile_colliding_with_enemy(&vec![1, 2, 1, 3], &mut seen, true, true);
    assert_eq!(r.hits, vec![1, 2, 3]);
    assert!(!r.delete_projectile);
    let r = handle_projectile_colliding_with_enemy(&vec![3, 4, 2], &mut seen, true, true);
    assert_eq!(r.hits, vec![4]);
    let r = handle_projectile_colliding_with_enemy(&vec![3, 4, 2], &mut seen, true, true);
    assert!(r.hits.is_empty());
    assert_eq!(seen.unwrap().seen, vec![1, 2, 3, 4]);
}

#[test]
fn untracked_projectile_hits_every_touched_enemy() {
    let mut none: Option<AlreadyHitEnemies> = None;
    let r = handle_projectile_colliding_with_enemy(&vec![5, 5], &mut none, false, true);
    assert_eq!(r.hits, vec![5, 5]);
    assert!(r.delete_projectile);
    assert!(none.is_none());
    let r = handle_projectile_colliding_with_enemy(&vec![], &mut none, false, true);
    assert!(r.hits.is_empty());
    assert!(!r.delete_projectile);
}

#[test]
fn trigger_upgrade_appends() {
    let mut upgrades = PlayerUpgradeWeapons::new();
    trigger_upgrade(&mut upgrades, &vec![WeaponsUpgradesTypes::ShurikenExtraAmmo]);
    trigger_upgrade(
        &mut upgrades,
        &vec![WeaponsUpgradesTypes::ChainLightningStun, WeaponsUpgradesTypes::ShurikenExtraLarge],
    );
    assert_eq!(
        upgrades.upgrades,
        vec![
            WeaponsUpgradesTypes::ShurikenExtraAmmo,
            WeaponsUpgradesTypes::ChainLightningStun,
            WeaponsUpgradesTypes::ShurikenExtraLarge,
        ]
    );
}

#[test]
fn available_upgrades_skip_owned() {
    let mut owned = PlayerUpgradeWeapons::new();
    owned.upgrades.push(WeaponsUpgradesTypes::ChainLightningExtraAmmo);
    assert_eq!(
        available_upgrades(WeaponsTypes::ChainLightning, &owned),
        vec![WeaponsUpgradesTypes::ChainLightningStun, WeaponsUpgradesTypes::ChainLightningTriple]
    );
    assert!(available_upgrades(WeaponsTypes::Claw, &owned).is_empty());
}

#[test]
fn weapon_upgrade_offers_three_new_upgrades() {
    let mut weapons = PlayerWeapons::new();
    weapons.weapons.push(WeaponsTypes::Shuriken);
    weapons.weapons.push(WeaponsTypes::ArcaneMissile);
    let mut owned = PlayerUpgradeWeapons::new();
    owned.upgrades.push(WeaponsUpgradesTypes::ShurikenExtraAmmo);
    for _ in 0..20 {
        let offers = offer_weapon_upgrades(&weapons, &owned).offers;
        assert_eq!(offers.len(), 3);
        for u in &offers {
            assert_ne!(*u, WeaponsUpgradesTypes::ShurikenExtraAmmo);
            assert!(
                WeaponsTypes::Shuriken.upgrades().contains(u)
                    || WeaponsTypes::ArcaneMissile.upgrades().contains(u)
            );
        }
    }
}

#[test]
fn weapon_upgrade_offers_nothing_without_upgradable_weapon() {
    let mut weapons = PlayerWeapons::new();
    weapons.weapons.push(WeaponsTypes::Claw);
    let screen = offer_weapon_upgrades(&weapons, &PlayerUpgradeWeapons::new());
    assert!(screen.offers.is_empty());
    assert_eq!(screen.picks, vec![None; 17]);
    assert_eq!((screen.item_to_offer, screen.try_amount), (0, 0));
}

fn sample_items() -> Vec<(String, Vec<Rarity>)> {
    vec![
        ("max_health".to_string(), vec![Rarity::Common, Rarity::Rare]),
        ("magnet".to_string(), vec![Rarity::Common]),
        ("curse".to_string(), vec![Rarity::Cursed]),
    ]
}

#[test]
fn loot_table_groups_items_by_rarity() {
    let table = setup_loot_table(vec![(Rarity::Common, 300), (Rarity::Rare, 30)], &sample_items());
    assert_eq!(table.item_by_rarity.len(), 7);
    assert_eq!(
        table.item_by_rarity[Rarity::Common.index()],
        vec!["max_health".to_string(), "magnet".to_string()]
    );
    assert_eq!(table.item_by_rarity[Rarity::Rare.index()], vec!["max_health".to_string()]);
    assert_eq!(table.item_by_rarity[Rarity::Cursed.index()], vec!["curse".to_string()]);
    assert!(table.item_by_rarity[Rarity::Epic.index()].is_empty());
    assert_eq!(table.weighted_rarity, vec![(Rarity::Common, 300), (Rarity::Rare, 30)]);
}

#[test]
fn level_up_draw_follows_weights() {
    let weights = vec![
        (Rarity::Common, 0),
        (Rarity::Uncommon, 0),
        (Rarity::Rare, 5),
        (Rarity::Epic, 0),
        (Rarity::Legendary, 0),
        (Rarity::Cursed, 0),
        (Rarity::Unique, 0),
    ];
    let table = setup_loot_table(weights, &sample_items());
    for _ in 0..20 {
        let offer = draw_level_up_offer(&table, false).unwrap();
        assert_eq!(offer.rarity, Rarity::Rare);
        assert_eq!(offer.item_key, "max_health");
    }
    let cursed = draw_level_up_offer(&table, true).unwrap();
    assert_eq!(cursed.rarity, Rarity::Cursed);
    assert_eq!(cursed.item_key, "curse");
}

#[test]
fn level_up_draw_of_empty_rarity_gives_nothing() {
    let weights = vec![(Rarity::Common, 0), (Rarity::Uncommon, 0), (Rarity::Rare, 0), (Rarity::Epic, 1)];
    let table = setup_loot_table(weights, &sample_items());
    assert!(draw_level_up_offer(&table, false).is_none());
}

use yet_another_vampire_survivor_clone::components::{
    AlreadyHitEnemies, AttackAmmo, ButtonItemUpgrade, EnemyTypes, PlayerUpgradeWeapons,
    ProjectileTypes, Rarity, WeaponsUpgradesTypes,
};
use yet_another_vampire_survivor_clone::enemies::enemy::enemy_experience_drop;
use yet_another_vampire_survivor_clone::items::item::setup_loot_table;
use yet_another_vampire_survivor_clone::ui::ui_level_up::{
    level_up_rarity, rarity_text_color, LevelUpOffers, RarityTextColor,
};
use yet_another_vampire_survivor_clone::ui::ui_update_weapon_up::UpdateWeaponOffers;
use yet_another_vampire_survivor_clone::waves::waves::setup_waves_map_1;
use yet_another_vampire_survivor_clone::weapons::arcane_missile::{
    arcane_missile_pierces, split_missile_target,
};
use yet_another_vampire_survivor_clone::weapons::chain_lightning::{
    chain_lightning_strikes, ChainJump, ChainLightningVolley, StrikeOrigin,
};
use yet_another_vampire_survivor_clone::weapons::on_hit::on_hit_effects;
use yet_another_vampire_survivor_clone::weapons::projectiles::handle_projectile_colliding_with_enemy;
use yet_another_vampire_survivor_clone::weapons::shuriken::{shuriken_upgrades, spawn_shuriken_attack};

fn owned(list: &[WeaponsUpgradesTypes]) -> PlayerUpgradeWeapons {
    let mut u = PlayerUpgradeWeapons::new();
    u.upgrades.extend_from_slice(list);
    u
}

#[test]
fn rarity_label_colours() {
    assert_eq!(rarity_text_color(Rarity::Common), RarityTextColor::Maroon);
    assert_eq!(rarity_text_color(Rarity::Uncommon), RarityTextColor::YellowGreen);
    assert_eq!(rarity_text_color(Rarity::Rare), RarityTextColor::MidnightBlue);
    assert_eq!(rarity_text_color(Rarity::Epic), RarityTextColor::Fuchsia);
    assert_eq!(rarity_text_color(Rarity::Legendary), RarityTextColor::Gold);
    assert_eq!(rarity_text_color(Rarity::Cursed), RarityTextColor::Crimson);
    assert_eq!(rarity_text_color(Rarity::Unique), RarityTextColor::Black);
}

#[test]
fn arcane_missile_pierces_with_upgrade_only() {
    assert!(!arcane_missile_pierces(&owned(&[])));
    assert!(!arcane_missile_pierces(&owned(&[WeaponsUpgradesTypes::ArcaneMissileSplit])));
    assert!(arcane_missile_pierces(&owned(&[WeaponsUpgradesTypes::ArcaneMissilePierce])));
}

#[test]
fn shuriken_upgrades_shape_the_volley() {
    let plain = shuriken_upgrades(&owned(&[]));
    assert!(!plain.extra_large && !plain.spiral_around_player);
    let both = shuriken_upgrades(&owned(&[
        WeaponsUpgradesTypes::ShurikenExtraLarge,
        WeaponsUpgradesTypes::ShurikenSpiralAroundPlayer,
    ]));
    assert!(both.extra_large && both.spiral_around_player);
    let large = shuriken_upgrades(&owned(&[WeaponsUpgradesTypes::ShurikenExtraLarge]));
    assert!(large.extra_large && !large.spiral_around_player);
}

#[test]
fn shuriken_volley_carries_the_upgrades() {
    let mut ammo = AttackAmmo { capacity: 3, initial_capacity: 3, amount: 3 };
    let shots = spawn_shuriken_attack(
        &mut ammo,
        &owned(&[WeaponsUpgradesTypes::ShurikenSpiralAroundPlayer]),
    );
    assert_eq!(shots.len(), 3);
    assert_eq!(shots.iter().map(|s| s.slot).collect::<Vec<u32>>(), vec![2, 1, 0]);
    assert!(shots.iter().all(|s| !s.extra_large && s.spiral_around_player));
    let mut ammo = AttackAmmo { capacity: 2, initial_capacity: 2, amount: 2 };
    let shots = spawn_shuriken_attack(
        &mut ammo,
        &owned(&[WeaponsUpgradesTypes::ShurikenExtraLarge, WeaponsUpgradesTypes::ShurikenSpiralAroundPlayer]),
    );
    assert!(shots.iter().all(|s| s.extra_large && s.spiral_around_player));
    assert_eq!(ammo.amount, 0);
}

#[test]
fn projectile_waits_for_its_damage_timer() {
    let mut seen = Some(AlreadyHitEnemies::new());
    let r = handle_projectile_colliding_with_enemy(&vec![1, 2], &mut seen, false, false);
    assert!(r.hits.is_empty());
    assert!(!r.delete_projectile);
    assert!(seen.as_ref().unwrap().seen.is_empty());
    let r = handle_projectile_colliding_with_enemy(&vec![1, 2], &mut seen, false, true);
    assert_eq!(r.hits, vec![1, 2]);
    assert!(r.delete_projectile);
    let mut none: Option<AlreadyHitEnemies> = None;
    let r = handle_projectile_colliding_with_enemy(&vec![5], &mut none, true, false);
    assert!(r.hits.is_empty());
    assert!(none.is_none());
}

#[test]
fn split_missile_prefers_another_enemy() {
    for _ in 0..30 {
        let t = split_missile_target(&vec![7, 12, 7], 7);
        assert_eq!(t.target, 12);
        assert_eq!(t.already_hit.seen, vec![7]);
    }
    let alone = split_missile_target(&vec![7], 7);
    assert_eq!(alone.target, 7);
    assert_eq!(alone.already_hit.seen, vec![7]);
    let nobody = split_missile_target(&vec![], 7);
    assert_eq!(nobody.target, 7);
    assert!(nobody.already_hit.seen.is_empty());
}

#[test]
fn only_arcane_missiles_split() {
    let u = owned(&[
        WeaponsUpgradesTypes::ArcaneMissileSplit,
        WeaponsUpgradesTypes::ArcaneMissileExplosion,
        WeaponsUpgradesTypes::ShurikenSpawnMiniShuriken,
        WeaponsUpgradesTypes::ChainLightningStun,
    ]);
    let missile = on_hit_effects(ProjectileTypes::ArcaneMissile, &u);
    assert!(missile.split_missiles && missile.explosion);
    let split = on_hit_effects(ProjectileTypes::ArcaneMissileSplit, &u);
    assert!(!split.split_missiles && split.explosion);
    let explosion = on_hit_effects(ProjectileTypes::ArcaneMissileExplosion, &u);
    assert!(!explosion.split_missiles && !explosion.explosion);
    assert!(on_hit_effects(ProjectileTypes::Shuriken, &u).mini_shuriken);
    assert!(!on_hit_effects(ProjectileTypes::ShurikenMini, &u).mini_shuriken);
    assert!(on_hit_effects(ProjectileTypes::BouncingBall, &owned(&[])).duplicate_balls);
    assert!(!on_hit_effects(ProjectileTypes::BouncingBallSplit, &owned(&[])).duplicate_balls);
    assert!(on_hit_effects(ProjectileTypes::ChainLightning, &u).stun);
    assert!(!on_hit_effects(ProjectileTypes::ChainLightning, &owned(&[])).stun);
    assert!(on_hit_effects(ProjectileTypes::SlowDome, &owned(&[])).slow);
    let none = on_hit_effects(ProjectileTypes::ArcaneMissile, &owned(&[]));
    assert!(!none.split_missiles && !none.explosion);
}

fn jump(from: StrikeOrigin, answer: Option<u64>, struck: Option<u64>) -> ChainJump {
    ChainJump { from, answer, struck }
}

#[test]
fn chain_lightning_never_strikes_twice() {
    // enemies 1..=4 in a row; the nearest unstruck enemy is the smallest id not yet struck
    let find = |_from: StrikeOrigin, seen: &Vec<u64>| (1..=4u64).find(|e| !seen.contains(e));
    let volley = ChainLightningVolley { chains: 3, jumps_per_chain: 2 };
    let jumps = chain_lightning_strikes(&volley, find);
    assert_eq!(
        jumps,
        vec![
            jump(StrikeOrigin::Player, Some(1), Some(1)),
            jump(StrikeOrigin::Enemy(1), Some(2), Some(2)),
            jump(StrikeOrigin::Player, Some(3), Some(3)),
            jump(StrikeOrigin::Enemy(3), Some(4), Some(4)),
            jump(StrikeOrigin::Player, None, None),
            jump(StrikeOrigin::Player, None, None),
        ]
    );
}

#[test]
fn chain_lightning_jumps_from_the_last_struck_enemy() {
    // the finder answers the enemy after the one the bolt starts from
    let find = |from: StrikeOrigin, _seen: &Vec<u64>| match from {
        StrikeOrigin::Player => Some(10),
        StrikeOrigin::Enemy(e) => Some(e + 1),
    };
    let jumps = chain_lightning_strikes(&ChainLightningVolley { chains: 1, jumps_per_chain: 3 }, find);
    assert_eq!(
        jumps,
        vec![
            jump(StrikeOrigin::Player, Some(10), Some(10)),
            jump(StrikeOrigin::Enemy(10), Some(11), Some(11)),
            jump(StrikeOrigin::Enemy(11), Some(12), Some(12)),
        ]
    );
}

#[test]
fn chain_lightning_skips_a_struck_candidate() {
    // a finder that keeps proposing the same enemy: it is struck once only
    let jumps = chain_lightning_strikes(
        &ChainLightningVolley { chains: 2, jumps_per_chain: 3 },
        |_from: StrikeOrigin, _seen: &Vec<u64>| Some(9),
    );
    assert_eq!(
        jumps,
        vec![
            jump(StrikeOrigin::Player, Some(9), Some(9)),
            jump(StrikeOrigin::Enemy(9), Some(9), None),
            jump(StrikeOrigin::Enemy(9), Some(9), None),
            jump(StrikeOrigin::Player, Some(9), None),
            jump(StrikeOrigin::Player, Some(9), None),
            jump(StrikeOrigin::Player, Some(9), None),
        ]
    );
    let none = chain_lightning_strikes(
        &ChainLightningVolley { chains: 1, jumps_per_chain: 5 },
        |_from: StrikeOrigin, _seen: &Vec<u64>| None,
    );
    assert_eq!(none, vec![jump(StrikeOrigin::Player, None, None); 5]);
    let empty = chain_lightning_strikes(
        &ChainLightningVolley { chains: 3, jumps_per_chain: 0 },
        |_from: StrikeOrigin, _seen: &Vec<u64>| Some(1),
    );
    assert!(empty.is_empty());
}

#[test]
fn weapon_upgrade_retry_budget() {
    let mut screen = UpdateWeaponOffers::new();
    for _ in 0..14 {
        screen.record_pick(None);
        assert_eq!(screen.item_to_offer, 3);
    }
    assert_eq!(screen.try_amount, 1);
    screen.record_pick(Some(WeaponsUpgradesTypes::ShurikenExtraAmmo));
    assert_eq!((screen.item_to_offer, screen.try_amount), (2, 1));
    screen.record_pick(None);
    assert_eq!((screen.item_to_offer, screen.try_amount), (1, 0));
    screen.record_pick(None);
    assert_eq!((screen.item_to_offer, screen.try_amount), (0, 0));
    assert!(screen.is_done());
    assert_eq!(screen.offers, vec![WeaponsUpgradesTypes::ShurikenExtraAmmo]);
    assert_eq!(screen.picks.len(), 17);
    assert_eq!(screen.picks[14], Some(WeaponsUpgradesTypes::ShurikenExtraAmmo));
}

#[test]
fn level_up_rarity_after_draw() {
    let table = setup_loot_table(
        vec![
            (Rarity::Common, 300),
            (Rarity::Uncommon, 100),
            (Rarity::Rare, 30),
            (Rarity::Epic, 10),
            (Rarity::Legendary, 2),
            (Rarity::Cursed, 0),
            (Rarity::Unique, 1),
        ],
        &vec![],
    );
    assert_eq!(level_up_rarity(&table, 2, false), Rarity::Rare);
    assert_eq!(level_up_rarity(&table, 2, true), Rarity::Cursed);
    assert_eq!(level_up_rarity(&table, 6, false), Rarity::Unique);
}

#[test]
fn level_up_screen_collects_five_cards() {
    let mut screen = LevelUpOffers::new();
    assert_eq!(screen.item_to_offer, 5);
    screen.record_draw(None);
    assert_eq!((screen.cards.len(), screen.item_to_offer), (0, 5));
    screen.record_draw(Some(ButtonItemUpgrade { item_key: "magnet".to_string(), rarity: Rarity::Common }));
    assert_eq!((screen.cards.len(), screen.item_to_offer), (1, 4));

    let table = setup_loot_table(
        vec![(Rarity::Common, 1), (Rarity::Uncommon, 1)],
        &vec![("magnet".to_string(), vec![Rarity::Common])],
    );
    let mut screen = LevelUpOffers::new();
    let mut draws = 0;
    while !screen.is_done() {
        screen.draw_card(&table, false);
        draws += 1;
        assert!(draws < 10_000);
    }
    assert_eq!(screen.cards.len(), 5);
    assert!(screen.cards.iter().all(|c| c.item_key == "magnet" && c.rarity == Rarity::Common));
}

fn seven_rarities(weights: [u32; 7]) -> Vec<(Rarity, u32)> {
    vec![
        (Rarity::Common, weights[0]),
        (Rarity::Uncommon, weights[1]),
        (Rarity::Rare, weights[2]),
        (Rarity::Epic, weights[3]),
        (Rarity::Legendary, weights[4]),
        (Rarity::Cursed, weights[5]),
        (Rarity::Unique, weights[6]),
    ]
}

#[test]
fn level_up_screen_fills_in_five_draws_when_stocked() {
    let table = setup_loot_table(
        seven_rarities([3, 1, 0, 0, 0, 0, 0]),
        &vec![
            ("magnet".to_string(), vec![Rarity::Common, Rarity::Uncommon]),
            ("curse".to_string(), vec![Rarity::Cursed]),
        ],
    );
    let mut screen = LevelUpOffers::new();
    let draws = screen.fill(&table, || false, u64::MAX);
    assert_eq!(draws, 5);
    assert!(screen.is_done());
    assert!(screen
        .cards
        .iter()
        .all(|c| c.item_key == "magnet" && (c.rarity == Rarity::Common || c.rarity == Rarity::Uncommon)));
    let mut cursed = LevelUpOffers::new();
    assert_eq!(cursed.fill(&table, || true, u64::MAX), 5);
    assert!(cursed.cards.iter().all(|c| c.item_key == "curse" && c.rarity == Rarity::Cursed));
}

#[test]
fn level_up_screen_stops_at_the_draw_cap() {
    // the only weighted rarity has no item: every draw finds nothing
    let table = setup_loot_table(
        seven_rarities([0, 0, 0, 0, 0, 0, 1]),
        &vec![("magnet".to_string(), vec![Rarity::Common])],
    );
    let mut screen = LevelUpOffers::new();
    assert_eq!(screen.fill(&table, || false, 40), 40);
    assert!(screen.cards.is_empty());
    assert_eq!(screen.item_to_offer, 5);
}

#[test]
fn first_map_waves() {
    let waves = setup_waves_map_1();
    assert_eq!(waves.len(), 2);
    assert_eq!(waves[0].len(), 4);
    assert_eq!(waves[0][0].enemy_type, EnemyTypes::Bat);
    assert_eq!(waves[0][0].amount_per_timer_trigger, 10);
    assert_eq!(waves[0][3].enemy_type, EnemyTypes::Rabbit);
    assert_eq!(waves[1][0].enemy_type, EnemyTypes::Skull);
    assert_eq!(waves[1][1].enemy_type, EnemyTypes::Golem);
}

#[test]
fn experience_drops() {
    assert_eq!(enemy_experience_drop(EnemyTypes::Bat), Some(1));
    assert_eq!(enemy_experience_drop(EnemyTypes::BossWolf), Some(0));
    assert_eq!(enemy_experience_drop(EnemyTypes::Golem), None);
}

use vstd::prelude::*;
use vstd::string::StringExecFns;

verus! {

/// The weapons a player can own.
#[derive(Debug, Clone, Copy, PartialEq, Eq, Structural)]
pub enum WeaponsTypes {
    Claw,
    FireArea,
    ArcaneMissile,
    Shuriken,
    ChainLightning,
    SlowDome,
    BouncingBall,
    FireBoots,
    LightSwords,
}

/// The upgrades a weapon can receive.
#[derive(Debug, Clone, Copy, PartialEq, Eq, Structural)]
pub enum WeaponsUpgradesTypes {
    ArcaneMissilePierce,
    ArcaneMissileSplit,
    ArcaneMissileExplosion,
    ArcaneMissileDamage,
    ShurikenSpiralAroundPlayer,
    ShurikenExtraAmmo,
    ShurikenSpawnMiniShuriken,
    ShurikenExtraLarge,
    ChainLightningStun,
    ChainLightningExtraAmmo,
    ChainLightningTriple,
}

impl WeaponsTypes {
    /// The upgrades that belong to this weapon, in the order they are offered.
    pub open spec fn spec_upgrades(self) -> Seq<WeaponsUpgradesTypes> {
        match self {
            WeaponsTypes::ArcaneMissile => seq![
                WeaponsUpgradesTypes::ArcaneMissilePierce,
                WeaponsUpgradesTypes::ArcaneMissileSplit,
                WeaponsUpgradesTypes::ArcaneMissileExplosion,
                WeaponsUpgradesTypes::ArcaneMissileDamage,
            ],
            WeaponsTypes::Shuriken => seq![
                WeaponsUpgradesTypes::ShurikenSpiralAroundPlayer,
                WeaponsUpgradesTypes::ShurikenExtraAmmo,
                WeaponsUpgradesTypes::ShurikenSpawnMiniShuriken,
                WeaponsUpgradesTypes::ShurikenExtraLarge,
            ],
            WeaponsTypes::ChainLightning => seq![
                WeaponsUpgradesTypes::ChainLightningStun,
                WeaponsUpgradesTypes::ChainLightningExtraAmmo,
                WeaponsUpgradesTypes::ChainLightningTriple,
            ],
            _ => Seq::empty(),
        }
    }

    pub fn upgrades(&self) -> (r: Vec<WeaponsUpgradesTypes>)
        ensures
            r@ == self.spec_upgrades(),
    {
        match self {
            WeaponsTypes::ArcaneMissile => vec![
                WeaponsUpgradesTypes::ArcaneMissilePierce,
                WeaponsUpgradesTypes::ArcaneMissileSplit,
                WeaponsUpgradesTypes::ArcaneMissileExplosion,
                WeaponsUpgradesTypes::ArcaneMissileDamage,
            ],
            WeaponsTypes::Shuriken => vec![
                WeaponsUpgradesTypes::ShurikenSpiralAroundPlayer,
                WeaponsUpgradesTypes::ShurikenExtraAmmo,
                WeaponsUpgradesTypes::ShurikenSpawnMiniShuriken,
                WeaponsUpgradesTypes::ShurikenExtraLarge,
            ],
            WeaponsTypes::ChainLightning => vec![
                WeaponsUpgradesTypes::ChainLightningStun,
                WeaponsUpgradesTypes::ChainLightningExtraAmmo,
                WeaponsUpgradesTypes::ChainLightningTriple,
            ],
            _ => vec![],
        }
    }

    /// Every weapon, in the order the game lists them.
    pub open spec fn spec_list() -> Seq<WeaponsTypes> {
        seq![
            WeaponsTypes::Claw,
            WeaponsTypes::FireArea,
            WeaponsTypes::ArcaneMissile,
            WeaponsTypes::Shuriken,
            WeaponsTypes::ChainLightning,
            WeaponsTypes::SlowDome,
            WeaponsTypes::BouncingBall,
            WeaponsTypes::FireBoots,
            WeaponsTypes::LightSwords,
        ]
    }

    pub fn list() -> (r: Vec<WeaponsTypes>)
        ensures
            r@ == Self::spec_list(),
    {
        vec![
            WeaponsTypes::Claw,
            WeaponsTypes::FireArea,
            WeaponsTypes::ArcaneMissile,
            WeaponsTypes::Shuriken,
            WeaponsTypes::ChainLightning,
            WeaponsTypes::SlowDome,
            WeaponsTypes::BouncingBall,
            WeaponsTypes::FireBoots,
            WeaponsTypes::LightSwords,
        ]
    }

    /// The name shown to the player.
    pub open spec fn spec_name(self) -> Seq<char> {
        match self {
            WeaponsTypes::Claw => "Claw"@,
            WeaponsTypes::FireArea => "Fire Area"@,
            WeaponsTypes::ArcaneMissile => "Arcane Missile"@,
            WeaponsTypes::Shuriken => "Shuriken"@,
            WeaponsTypes::ChainLightning => "ChainLightning"@,
            WeaponsTypes::SlowDome => "Slow Dome"@,
            WeaponsTypes::BouncingBall => "Bouncing Ball"@,
            WeaponsTypes::FireBoots => "Fire Boots"@,
            WeaponsTypes::LightSwords => "Light Swords"@,
        }
    }

    pub fn name(&self) -> (r: String)
        ensures
            r@ == self.spec_name(),
    {
        match self {
            WeaponsTypes::Claw => String::from_str("Claw"),
            WeaponsTypes::FireArea => String::from_str("Fire Area"),
            WeaponsTypes::ArcaneMissile => String::from_str("Arcane Missile"),
            WeaponsTypes::Shuriken => String::from_str("Shuriken"),
            WeaponsTypes::ChainLightning => String::from_str("ChainLightning"),
            WeaponsTypes::SlowDome => String::from_str("Slow Dome"),
            WeaponsTypes::BouncingBall => String::from_str("Bouncing Ball"),
            WeaponsTypes::FireBoots => String::from_str("Fire Boots"),
            WeaponsTypes::LightSwords => String::from_str("Light Swords"),
        }
    }
}


impl WeaponsUpgradesTypes {
    /// The name shown to the player.
    pub open spec fn spec_name(self) -> Seq<char> {
        match self {
            WeaponsUpgradesTypes::ArcaneMissilePierce => "Arcane Missile Pierce"@,
            WeaponsUpgradesTypes::ArcaneMissileSplit => "Arcane Missile Split"@,
            WeaponsUpgradesTypes::ArcaneMissileExplosion => "Arcane Missile Explosion"@,
            WeaponsUpgradesTypes::ArcaneMissileDamage => "Arcane Missile Damage"@,
            WeaponsUpgradesTypes::ShurikenSpiralAroundPlayer => "Shuriken Spiral Around Player"@,
            WeaponsUpgradesTypes::ShurikenExtraAmmo => "Shuriken Extra Ammo"@,
            WeaponsUpgradesTypes::ShurikenSpawnMiniShuriken => "Shuriken Spawn Mini Shuriken"@,
            WeaponsUpgradesTypes::ShurikenExtraLarge => "Shuriken Extra Large"@,
            WeaponsUpgradesTypes::ChainLightningStun => "ChainLightning Stun"@,
            WeaponsUpgradesTypes::ChainLightningExtraAmmo => "ChainLightning Extra Ammo"@,
            WeaponsUpgradesTypes::ChainLightningTriple => "Chain Lightning Triple"@,
        }
    }

    pub fn name(&self) -> (r: String)
        ensures
            r@ == self.spec_name(),
    {
        match self {
            WeaponsUpgradesTypes::ArcaneMissilePierce => String::from_str("Arcane Missile Pierce"),
            WeaponsUpgradesTypes::ArcaneMissileSplit => String::from_str("Arcane Missile Split"),
            WeaponsUpgradesTypes::ArcaneMissileExplosion => String::from_str(
                "Arcane Missile Explosion",
            ),
            WeaponsUpgradesTypes::ArcaneMissileDamage => String::from_str("Arcane Missile Damage"),
            WeaponsUpgradesTypes::ShurikenSpiralAroundPlayer => String::from_str(
                "Shuriken Spiral Around Player",
            ),
            WeaponsUpgradesTypes::ShurikenExtraAmmo => String::from_str("Shuriken Extra Ammo"),
            WeaponsUpgradesTypes::ShurikenSpawnMiniShuriken => String::from_str(
                "Shuriken Spawn Mini Shuriken",
            ),
            WeaponsUpgradesTypes::ShurikenExtraLarge => String::from_str("Shuriken Extra Large"),
            WeaponsUpgradesTypes::ChainLightningStun => String::from_str("ChainLightning Stun"),
            WeaponsUpgradesTypes::ChainLightningExtraAmmo => String::from_str(
                "ChainLightning Extra Ammo",
            ),
            WeaponsUpgradesTypes::ChainLightningTriple => String::from_str("Chain Lightning Triple"),
        }
    }

    /// The weapon whose upgrade list holds this upgrade.
    pub open spec fn spec_weapon(self) -> WeaponsTypes {
        match self {
            WeaponsUpgradesTypes::ArcaneMissilePierce => WeaponsTypes::ArcaneMissile,
            WeaponsUpgradesTypes::ArcaneMissileSplit => WeaponsTypes::ArcaneMissile,
            WeaponsUpgradesTypes::ArcaneMissileExplosion => WeaponsTypes::ArcaneMissile,
            WeaponsUpgradesTypes::ArcaneMissileDamage => WeaponsTypes::ArcaneMissile,
            WeaponsUpgradesTypes::ShurikenSpiralAroundPlayer => WeaponsTypes::Shuriken,
            WeaponsUpgradesTypes::ShurikenExtraAmmo => WeaponsTypes::Shuriken,
            WeaponsUpgradesTypes::ShurikenSpawnMiniShuriken => WeaponsTypes::Shuriken,
            WeaponsUpgradesTypes::ShurikenExtraLarge => WeaponsTypes::Shuriken,
            WeaponsUpgradesTypes::ChainLightningStun => WeaponsTypes::ChainLightning,
            WeaponsUpgradesTypes::ChainLightningExtraAmmo => WeaponsTypes::ChainLightning,
            WeaponsUpgradesTypes::ChainLightningTriple => WeaponsTypes::ChainLightning,
        }
    }
}

/// Each upgrade belongs to exactly one weapon: it occurs in the upgrade list of that weapon,
/// exactly once, and in the list of no other weapon.
pub proof fn lemma_upgrade_belongs_to_one_weapon(w: WeaponsTypes, u: WeaponsUpgradesTypes)
    ensures
        w.spec_upgrades().contains(u) <==> u.spec_weapon() == w,
        w.spec_upgrades().no_duplicates(),
{
    assert(w.spec_upgrades().contains(u) ==> u.spec_weapon() == w);
    if u.spec_weapon() == w {
        match u {
            WeaponsUpgradesTypes::ArcaneMissilePierce => assert(w.spec_upgrades()[0] == u),
            WeaponsUpgradesTypes::ArcaneMissileSplit => assert(w.spec_upgrades()[1] == u),
            WeaponsUpgradesTypes::ArcaneMissileExplosion => assert(w.spec_upgrades()[2] == u),
            WeaponsUpgradesTypes::ArcaneMissileDamage => assert(w.spec_upgrades()[3] == u),
            WeaponsUpgradesTypes::ShurikenSpiralAroundPlayer => assert(w.spec_upgrades()[0] == u),
            WeaponsUpgradesTypes::ShurikenExtraAmmo => assert(w.spec_upgrades()[1] == u),
            WeaponsUpgradesTypes::ShurikenSpawnMiniShuriken => assert(w.spec_upgrades()[2] == u),
            WeaponsUpgradesTypes::ShurikenExtraLarge => assert(w.spec_upgrades()[3] == u),
            WeaponsUpgradesTypes::ChainLightningStun => assert(w.spec_upgrades()[0] == u),
            WeaponsUpgradesTypes::ChainLightningExtraAmmo => assert(w.spec_upgrades()[1] == u),
            WeaponsUpgradesTypes::ChainLightningTriple => assert(w.spec_upgrades()[2] == u),
        }
    }
}

/// Every weapon occurs in the weapon list exactly once.
pub proof fn lemma_weapon_list_complete(w: WeaponsTypes)
    ensures
        WeaponsTypes::spec_list().contains(w),
        WeaponsTypes::spec_list().no_duplicates(),
        WeaponsTypes::spec_list().len() == 9,
{
    match w {
        WeaponsTypes::Claw => assert(WeaponsTypes::spec_list()[0] == w),
        WeaponsTypes::FireArea => assert(WeaponsTypes::spec_list()[1] == w),
        WeaponsTypes::ArcaneMissile => assert(WeaponsTypes::spec_list()[2] == w),
        WeaponsTypes::Shuriken => assert(WeaponsTypes::spec_list()[3] == w),
        WeaponsTypes::ChainLightning => assert(WeaponsTypes::spec_list()[4] == w),
        WeaponsTypes::SlowDome => assert(WeaponsTypes::spec_list()[5] == w),
        WeaponsTypes::BouncingBall => assert(WeaponsTypes::spec_list()[6] == w),
        WeaponsTypes::FireBoots => assert(WeaponsTypes::spec_list()[7] == w),
        WeaponsTypes::LightSwords => assert(WeaponsTypes::spec_list()[8] == w),
    }
}

/// The rarity of an item card.
#[derive(Debug, Clone, Copy, PartialEq, Eq, Hash, Structural)]
pub enum Rarity {
    Common,
    Uncommon,
    Rare,
    Epic,
    Legendary,
    Cursed,
    Unique,
}

impl Rarity {
    /// The label printed on an item card.
    pub open spec fn spec_name(self) -> Seq<char> {
        match self {
            Rarity::Common => "COMMON"@,
            Rarity::Uncommon => "UNCOMMON"@,
            Rarity::Rare => "RARE"@,
            Rarity::Epic => "EPIC"@,
            Rarity::Legendary => "LEGENDARY"@,
            Rarity::Cursed => "CURSED"@,
            Rarity::Unique => "UNIQUE"@,
        }
    }

    pub fn name(&self) -> (r: &'static str)
        ensures
            r@ == self.spec_name(),
    {
        match self {
            Rarity::Common => "COMMON",
            Rarity::Uncommon => "UNCOMMON",
            Rarity::Rare => "RARE",
            Rarity::Epic => "EPIC",
            Rarity::Legendary => "LEGENDARY",
            Rarity::Cursed => "CURSED",
            Rarity::Unique => "UNIQUE",
        }
    }

    /// The position of this rarity among the seven rarities.
    pub open spec fn spec_index(self) -> nat {
        match self {
            Rarity::Common => 0,
            Rarity::Uncommon => 1,
            Rarity::Rare => 2,
            Rarity::Epic => 3,
            Rarity::Legendary => 4,
            Rarity::Cursed => 5,
            Rarity::Unique => 6,
        }
    }

    pub fn index(&self) -> (r: usize)
        ensures
            r == self.spec_index(),
            r < 7,
    {
        match self {
            Rarity::Common => 0,
            Rarity::Uncommon => 1,
            Rarity::Rare => 2,
            Rarity::Epic => 3,
            Rarity::Legendary => 4,
            Rarity::Cursed => 5,
            Rarity::Unique => 6,
        }
    }
}

/// The states the game moves between.
#[derive(Debug, Clone, Copy, Default, PartialEq, Eq, Hash, Structural)]
pub enum GameState {
    #[default]
    Gameplay,
    MainMenu,
    GameOver,
    PlayerLevelUp,
    PlayerUpdateWeapon,
    PlayerChooseWeapon,
}

/// The kinds of enemies a wave can spawn.
#[derive(Debug, Clone, Copy, PartialEq, Eq, Structural)]
pub enum EnemyTypes {
    Bat,
    Bee,
    Golem,
    Rabbit,
    Skull,
    BossWolf,
}

/// The kinds of projectiles, used to tell which weapon hit an enemy.
#[derive(Debug, Clone, Copy, PartialEq, Eq, Structural)]
pub enum ProjectileTypes {
    Claw,
    FireArea,
    ArcaneMissile,
    ArcaneMissileSplit,
    ArcaneMissileExplosion,
    Shuriken,
    ShurikenMini,
    ChainLightning,
    SlowDome,
    BouncingBall,
    BouncingBallSplit,
    FireBoots,
    LightSwords,
}

/// The player statistics an item can raise.
#[derive(Debug, Clone, Copy, PartialEq, Eq, Structural)]
pub enum PlayerBaseStatsType {
    MaxHealth,
    Recovery,
    MoveSpeed,
    Magnet,
    Power,
    Area,
    Luck,
    Resistance,
    AttackSpeed,
    AttackReloadDuration,
    AttackDuration,
    AttackAmount,
    Experience,
    Greed,
    Curse,
    ExtraLife,
}

/// The side the player sprite looks to.
#[derive(Debug, Clone, Copy, PartialEq, Eq, Structural)]
pub enum Facing {
    Left,
    Right,
}

/// The player component.
pub struct Player {
    pub facing: Facing,
}


/// The weapons the player owns, in the order they were picked.
pub struct PlayerWeapons {
    pub weapons: Vec<WeaponsTypes>,
}

/// The weapon upgrades the player owns, in the order they were picked.
pub struct PlayerUpgradeWeapons {
    pub upgrades: Vec<WeaponsUpgradesTypes>,
}

/// Whether `weapon` occurs in `weapons`.
pub fn contains_weapon(weapons: &Vec<WeaponsTypes>, weapon: WeaponsTypes) -> (r: bool)
    ensures
        r == weapons@.contains(weapon),
{
    let mut i: usize = 0;
    while i < weapons.len()
        invariant
            0 <= i <= weapons.len(),
            forall|j: int| 0 <= j < i ==> weapons@[j] != weapon,
        decreases weapons.len() - i,
    {
        if weapons[i] == weapon {
            return true;
        }
        i = i + 1;
    }
    false
}

/// Whether `upgrade` occurs in `upgrades`.
pub fn contains_upgrade(upgrades: &Vec<WeaponsUpgradesTypes>, upgrade: WeaponsUpgradesTypes) -> (r:
    bool)
    ensures
        r == upgrades@.contains(upgrade),
{
    let mut i: usize = 0;
    while i < upgrades.len()
        invariant
            0 <= i <= upgrades.len(),
            forall|j: int| 0 <= j < i ==> upgrades@[j] != upgrade,
        decreases upgrades.len() - i,
    {
        if upgrades[i] == upgrade {
            return true;
        }
        i = i + 1;
    }
    false
}

/// Whether `entity` occurs in `entities`.
pub fn contains_entity(entities: &Vec<u64>, entity: u64) -> (r: bool)
    ensures
        r == entities@.contains(entity),
{
    let mut i: usize = 0;
    while i < entities.len()
        invariant
            0 <= i <= entities.len(),
            forall|j: int| 0 <= j < i ==> entities@[j] != entity,
        decreases entities.len() - i,
    {
        if entities[i] == entity {
            return true;
        }
        i = i + 1;
    }
    false
}

/// An element of a concatenation comes from one of its two parts.
pub proof fn lemma_concat_contains<A>(a: Seq<A>, b: Seq<A>, x: A)
    ensures
        (a + b).contains(x) <==> (a.contains(x) || b.contains(x)),
{
    if (a + b).contains(x) {
        let k = choose|k: int| 0 <= k < (a + b).len() && (a + b)[k] == x;
        if k >= a.len() {
            assert(b[k - a.len()] == x);
        }
    }
    if a.contains(x) {
        let k = choose|k: int| 0 <= k < a.len() && a[k] == x;
        assert((a + b)[k] == x);
    }
    if b.contains(x) {
        let k = choose|k: int| 0 <= k < b.len() && b[k] == x;
        assert((a + b)[k + a.len()] == x);
    }
}

impl PlayerWeapons {
    /// A player with no weapon.
    pub fn new() -> (r: PlayerWeapons)
        ensures
            r.weapons@ == Seq::<WeaponsTypes>::empty(),
    {
        PlayerWeapons { weapons: Vec::new() }
    }

    /// Whether the player owns `weapon`.
    pub fn has(&self, weapon: WeaponsTypes) -> (r: bool)
        ensures
            r == self.weapons@.contains(weapon),
    {
        contains_weapon(&self.weapons, weapon)
    }

    /// Whether the spawner of `weapon` must be created: the player owns the weapon and no
    /// spawner for it exists yet.
    pub fn needs_spawner(&self, weapon: WeaponsTypes, spawner_exists: bool) -> (r: bool)
        ensures
            r == (self.weapons@.contains(weapon) && !spawner_exists),
    {
        self.has(weapon) && !spawner_exists
    }
}

impl PlayerUpgradeWeapons {
    /// A player with no upgrade.
    pub fn new() -> (r: PlayerUpgradeWeapons)
        ensures
            r.upgrades@ == Seq::<WeaponsUpgradesTypes>::empty(),
    {
        PlayerUpgradeWeapons { upgrades: Vec::new() }
    }

    /// Whether the player owns `upgrade`.
    pub fn has(&self, upgrade: WeaponsUpgradesTypes) -> (r: bool)
        ensures
            r == self.upgrades@.contains(upgrade),
    {
        contains_upgrade(&self.upgrades, upgrade)
    }
}

/// The ammunition of a weapon spawner: how many attacks a full load holds, the load it was
/// created with before player bonuses, and how many attacks are left.
pub struct AttackAmmo {
    pub capacity: u32,
    pub initial_capacity: u32,
    pub amount: u32,
}

/// One card of the level-up screen: an item and the rarity it is offered in.
pub struct ButtonItemUpgrade {
    pub item_key: String,
    pub rarity: Rarity,
}

/// The enemies a projectile has already damaged, by entity id.
pub struct AlreadyHitEnemies {
    pub seen: Vec<u64>,
}

/// Which side the next attack of an alternating weapon comes from.
pub struct ProjectileBendLeftOrRight(pub bool);

/// An experience gem on the ground.
pub struct Gem {
    pub experience: u32,
}

/// The experience an enemy drops when it dies.
pub struct EnemyExperienceDrop(pub u32);

} // verus!

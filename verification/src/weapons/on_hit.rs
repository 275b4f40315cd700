use vstd::prelude::*;

use crate::components::{PlayerUpgradeWeapons, ProjectileTypes, WeaponsUpgradesTypes};

verus! {

/// What a hit on an enemy sets off, by the type of the projectile that hit.
pub struct OnHitEffects {
    /// Split arcane missiles fly off to other enemies.
    pub split_missiles: bool,
    /// An arcane explosion bursts where the missile hit.
    pub explosion: bool,
    /// A mini shuriken spins where the shuriken hit.
    pub mini_shuriken: bool,
    /// Duplicate bouncing balls fly off from the hit.
    pub duplicate_balls: bool,
    /// The enemy is stunned.
    pub stun: bool,
    /// The enemy is slowed.
    pub slow: bool,
}

/// The effects of a hit by a projectile of type `t`, with the player owning `upgrades`:
/// - arcane missiles split with `ArcaneMissileSplit` (split missiles do not split again);
/// - arcane missiles and split ones explode with `ArcaneMissileExplosion`;
/// - shurikens leave a mini shuriken with `ShurikenSpawnMiniShuriken`;
/// - bouncing balls always duplicate (their duplicates do not);
/// - chain lightning stuns with `ChainLightningStun`;
/// - the slow dome always slows.
pub open spec fn spec_on_hit_effects(t: ProjectileTypes, upgrades: Seq<WeaponsUpgradesTypes>) -> OnHitEffects {
    OnHitEffects {
        split_missiles: t == ProjectileTypes::ArcaneMissile && upgrades.contains(
            WeaponsUpgradesTypes::ArcaneMissileSplit,
        ),
        explosion: (t == ProjectileTypes::ArcaneMissile || t == ProjectileTypes::ArcaneMissileSplit)
            && upgrades.contains(WeaponsUpgradesTypes::ArcaneMissileExplosion),
        mini_shuriken: t == ProjectileTypes::Shuriken && upgrades.contains(
            WeaponsUpgradesTypes::ShurikenSpawnMiniShuriken,
        ),
        duplicate_balls: t == ProjectileTypes::BouncingBall,
        stun: t == ProjectileTypes::ChainLightning && upgrades.contains(
            WeaponsUpgradesTypes::ChainLightningStun,
        ),
        slow: t == ProjectileTypes::SlowDome,
    }
}

/// Decides what a hit by a projectile of type `t` sets off.
pub fn on_hit_effects(t: ProjectileTypes, upgrades: &PlayerUpgradeWeapons) -> (r: OnHitEffects)
    ensures
        r == spec_on_hit_effects(t, upgrades.upgrades@),
        r.split_missiles ==> upgrades.upgrades@.contains(WeaponsUpgradesTypes::ArcaneMissileSplit),
        r.explosion ==> upgrades.upgrades@.contains(WeaponsUpgradesTypes::ArcaneMissileExplosion),
        r.mini_shuriken ==> upgrades.upgrades@.contains(
            WeaponsUpgradesTypes::ShurikenSpawnMiniShuriken,
        ),
        r.stun ==> upgrades.upgrades@.contains(WeaponsUpgradesTypes::ChainLightningStun),
        r.split_missiles ==> t == ProjectileTypes::ArcaneMissile,
        r.mini_shuriken ==> t == ProjectileTypes::Shuriken,
        r.stun ==> t == ProjectileTypes::ChainLightning,
        r.duplicate_balls ==> t == ProjectileTypes::BouncingBall,
        r.slow ==> t == ProjectileTypes::SlowDome,
        t == ProjectileTypes::Shuriken && upgrades.upgrades@.contains(
            WeaponsUpgradesTypes::ShurikenSpawnMiniShuriken,
        ) ==> r.mini_shuriken,
        t == ProjectileTypes::ArcaneMissile && upgrades.upgrades@.contains(
            WeaponsUpgradesTypes::ArcaneMissileSplit,
        ) ==> r.split_missiles,
        t == ProjectileTypes::ChainLightning && upgrades.upgrades@.contains(
            WeaponsUpgradesTypes::ChainLightningStun,
        ) ==> r.stun,
        t == ProjectileTypes::BouncingBall ==> r.duplicate_balls,
        t == ProjectileTypes::SlowDome ==> r.slow,
{
    let is_missile = t == ProjectileTypes::ArcaneMissile;
    OnHitEffects {
        split_missiles: is_missile && upgrades.has(WeaponsUpgradesTypes::ArcaneMissileSplit),
        explosion: (is_missile || t == ProjectileTypes::ArcaneMissileSplit) && upgrades.has(
            WeaponsUpgradesTypes::ArcaneMissileExplosion,
        ),
        mini_shuriken: t == ProjectileTypes::Shuriken && upgrades.has(
            WeaponsUpgradesTypes::ShurikenSpawnMiniShuriken,
        ),
        duplicate_balls: t == ProjectileTypes::BouncingBall,
        stun: t == ProjectileTypes::ChainLightning && upgrades.has(
            WeaponsUpgradesTypes::ChainLightningStun,
        ),
        slow: t == ProjectileTypes::SlowDome,
    }
}

/// An effect that an upgrade unlocks never fires without that upgrade, and only on a hit by the
/// projectile it belongs to.
pub proof fn lemma_effects_need_their_upgrade(t: ProjectileTypes, upgrades: Seq<WeaponsUpgradesTypes>)
    ensures
        spec_on_hit_effects(t, upgrades).split_missiles ==> upgrades.contains(
            WeaponsUpgradesTypes::ArcaneMissileSplit,
        ) && t == ProjectileTypes::ArcaneMissile,
        spec_on_hit_effects(t, upgrades).explosion ==> upgrades.contains(
            WeaponsUpgradesTypes::ArcaneMissileExplosion,
        ) && (t == ProjectileTypes::ArcaneMissile || t == ProjectileTypes::ArcaneMissileSplit),
        spec_on_hit_effects(t, upgrades).mini_shuriken ==> upgrades.contains(
            WeaponsUpgradesTypes::ShurikenSpawnMiniShuriken,
        ) && t == ProjectileTypes::Shuriken,
        spec_on_hit_effects(t, upgrades).stun ==> upgrades.contains(
            WeaponsUpgradesTypes::ChainLightningStun,
        ) && t == ProjectileTypes::ChainLightning,
{
}

/// Owning an upgrade unlocks its effect on every hit by its projectile; the bouncing ball always
/// duplicates and the slow dome always slows.
pub proof fn lemma_upgrades_unlock_their_effects(upgrades: Seq<WeaponsUpgradesTypes>)
    ensures
        upgrades.contains(WeaponsUpgradesTypes::ArcaneMissileSplit) ==> spec_on_hit_effects(
            ProjectileTypes::ArcaneMissile,
            upgrades,
        ).split_missiles,
        upgrades.contains(WeaponsUpgradesTypes::ArcaneMissileExplosion) ==> spec_on_hit_effects(
            ProjectileTypes::ArcaneMissile,
            upgrades,
        ).explosion && spec_on_hit_effects(ProjectileTypes::ArcaneMissileSplit, upgrades).explosion,
        upgrades.contains(WeaponsUpgradesTypes::ShurikenSpawnMiniShuriken) ==> spec_on_hit_effects(
            ProjectileTypes::Shuriken,
            upgrades,
        ).mini_shuriken,
        upgrades.contains(WeaponsUpgradesTypes::ChainLightningStun) ==> spec_on_hit_effects(
            ProjectileTypes::ChainLightning,
            upgrades,
        ).stun,
        spec_on_hit_effects(ProjectileTypes::BouncingBall, upgrades).duplicate_balls,
        spec_on_hit_effects(ProjectileTypes::SlowDome, upgrades).slow,
{
}

/// Owning more upgrades never takes an effect away: whatever a hit sets off with `fewer`, it
/// also sets off with `more` when `more` holds every upgrade of `fewer`. Without any upgrade only
/// the bouncing ball's duplicates and the slow dome's slow remain.
pub proof fn lemma_effects_grow_with_upgrades(
    t: ProjectileTypes,
    fewer: Seq<WeaponsUpgradesTypes>,
    more: Seq<WeaponsUpgradesTypes>,
)
    requires
        forall|u: WeaponsUpgradesTypes| #[trigger] fewer.contains(u) ==> more.contains(u),
    ensures
        spec_on_hit_effects(t, fewer).split_missiles ==> spec_on_hit_effects(t, more).split_missiles,
        spec_on_hit_effects(t, fewer).explosion ==> spec_on_hit_effects(t, more).explosion,
        spec_on_hit_effects(t, fewer).mini_shuriken ==> spec_on_hit_effects(t, more).mini_shuriken,
        spec_on_hit_effects(t, fewer).duplicate_balls == spec_on_hit_effects(t, more).duplicate_balls,
        spec_on_hit_effects(t, fewer).stun ==> spec_on_hit_effects(t, more).stun,
        spec_on_hit_effects(t, fewer).slow == spec_on_hit_effects(t, more).slow,
        !spec_on_hit_effects(t, Seq::empty()).split_missiles,
        !spec_on_hit_effects(t, Seq::empty()).explosion,
        !spec_on_hit_effects(t, Seq::empty()).mini_shuriken,
        !spec_on_hit_effects(t, Seq::empty()).stun,
{
    if spec_on_hit_effects(t, fewer).split_missiles {
        assert(fewer.contains(WeaponsUpgradesTypes::ArcaneMissileSplit));
    }
    if spec_on_hit_effects(t, fewer).explosion {
        assert(fewer.contains(WeaponsUpgradesTypes::ArcaneMissileExplosion));
    }
    if spec_on_hit_effects(t, fewer).mini_shuriken {
        assert(fewer.contains(WeaponsUpgradesTypes::ShurikenSpawnMiniShuriken));
    }
    if spec_on_hit_effects(t, fewer).stun {
        assert(fewer.contains(WeaponsUpgradesTypes::ChainLightningStun));
    }
}

/// The types of the projectiles that a hit with these effects spawns.
pub open spec fn spawned_types(e: OnHitEffects) -> Set<ProjectileTypes> {
    Set::empty().union(
        if e.split_missiles {
            set![ProjectileTypes::ArcaneMissileSplit]
        } else {
            Set::empty()
        },
    ).union(
        if e.explosion {
            set![ProjectileTypes::ArcaneMissileExplosion]
        } else {
            Set::empty()
        },
    ).union(
        if e.mini_shuriken {
            set![ProjectileTypes::ShurikenMini]
        } else {
            Set::empty()
        },
    ).union(
        if e.duplicate_balls {
            set![ProjectileTypes::BouncingBallSplit]
        } else {
            Set::empty()
        },
    )
}

/// Chains of hits end: whatever a hit spawns, a hit by it spawns at most an explosion, and a
/// hit by an explosion spawns nothing. In particular a split missile never splits again and a
/// duplicated ball never duplicates.
pub proof fn lemma_on_hit_cascades_end(t: ProjectileTypes, upgrades: Seq<WeaponsUpgradesTypes>)
    ensures
        forall|s: ProjectileTypes| #[trigger]
            spawned_types(spec_on_hit_effects(t, upgrades)).contains(s) ==> spawned_types(
                spec_on_hit_effects(s, upgrades),
            ).subset_of(set![ProjectileTypes::ArcaneMissileExplosion]),
        spawned_types(spec_on_hit_effects(ProjectileTypes::ArcaneMissileExplosion, upgrades))
            == Set::<ProjectileTypes>::empty(),
        !spec_on_hit_effects(ProjectileTypes::ArcaneMissileSplit, upgrades).split_missiles,
        !spec_on_hit_effects(ProjectileTypes::BouncingBallSplit, upgrades).duplicate_balls,
        !spec_on_hit_effects(ProjectileTypes::ShurikenMini, upgrades).mini_shuriken,
{
    assert(spawned_types(spec_on_hit_effects(ProjectileTypes::ArcaneMissileExplosion, upgrades))
        =~= Set::<ProjectileTypes>::empty());
    assert forall|s: ProjectileTypes| #[trigger]
        spawned_types(spec_on_hit_effects(t, upgrades)).contains(s) implies spawned_types(
        spec_on_hit_effects(s, upgrades),
    ).subset_of(set![ProjectileTypes::ArcaneMissileExplosion]) by {
        assert(s == ProjectileTypes::ArcaneMissileSplit || s == ProjectileTypes::ArcaneMissileExplosion
            || s == ProjectileTypes::ShurikenMini || s == ProjectileTypes::BouncingBallSplit);
    }
}

} // verus!

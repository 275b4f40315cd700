use vstd::prelude::*;

use crate::components::{AlreadyHitEnemies, PlayerUpgradeWeapons, WeaponsUpgradesTypes};
use crate::random::choose_one;

verus! {

/// Whether arcane missiles, split ones included, pierce: exactly when the player owns
/// `ArcaneMissilePierce`.
pub fn arcane_missile_pierces(upgrades: &PlayerUpgradeWeapons) -> (r: bool)
    ensures
        r == upgrades.upgrades@.contains(WeaponsUpgradesTypes::ArcaneMissilePierce),
{
    upgrades.has(WeaponsUpgradesTypes::ArcaneMissilePierce)
}

/// Where a missile born from a split flies, and whom it must not hit.
pub struct SplitMissileTarget {
    pub target: u64,
    pub already_hit: AlreadyHitEnemies,
}

/// Whether some living enemy other than `hit_enemy` exists.
pub open spec fn has_other_enemy(enemies: Seq<u64>, hit_enemy: u64) -> bool {
    exists|j: int| 0 <= j < enemies.len() && #[trigger] enemies[j] != hit_enemy
}

/// Picks the target of one missile born when an arcane missile splits on `hit_enemy`: another
/// living enemy at random, when there is one; otherwise the missile falls back on `hit_enemy`.
/// Whenever some enemy is alive, the split missile counts `hit_enemy` as already hit, so it never
/// damages it; only with no enemy left at all does it fly back to `hit_enemy` free to hit it.
pub fn split_missile_target(enemies: &Vec<u64>, hit_enemy: u64) -> (r: SplitMissileTarget)
    ensures
        has_other_enemy(enemies@, hit_enemy) ==> {
            &&& enemies@.contains(r.target)
            &&& r.target != hit_enemy
            &&& r.already_hit.seen@ == seq![hit_enemy]
        },
        !has_other_enemy(enemies@, hit_enemy) ==> r.target == hit_enemy,
        !has_other_enemy(enemies@, hit_enemy) && enemies@.len() > 0 ==> r.already_hit.seen@ == seq![
            hit_enemy,
        ],
        enemies@.len() == 0 ==> r.already_hit.seen@ == Seq::<u64>::empty(),
{
    let mut others: Vec<u64> = Vec::new();
    let mut i: usize = 0;
    while i < enemies.len()
        invariant
            0 <= i <= enemies.len(),
            forall|k: int| 0 <= k < others@.len() ==> #[trigger] others@[k] != hit_enemy
                && enemies@.contains(others@[k]),
            (exists|j: int| 0 <= j < i && #[trigger] enemies@[j] != hit_enemy) ==> others@.len() > 0,
        decreases enemies.len() - i,
    {
        let e = enemies[i];
        if e != hit_enemy {
            others.push(e);
            assert(enemies@[i as int] == e);
            assert(others@[others@.len() - 1] == e);
        }
        i = i + 1;
    }
    let mut seen: Vec<u64> = Vec::new();
    if enemies.len() > 0 {
        seen.push(hit_enemy);
    }
    let target = match choose_one(others.as_slice()) {
        None => hit_enemy,
        Some(picked) => {
            let t = *picked;
            proof {
                let k = choose|k: int| 0 <= k < others@.len() && others@[k] == t;
                assert(others@[k] != hit_enemy);
            }
            t
        },
    };
    proof {
        if has_other_enemy(enemies@, hit_enemy) {
            let j = choose|j: int| 0 <= j < enemies@.len() && #[trigger] enemies@[j] != hit_enemy;
            assert(enemies@[j] != hit_enemy);
        }
    }
    SplitMissileTarget { target, already_hit: AlreadyHitEnemies { seen } }
}

} // verus!

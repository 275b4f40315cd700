use vstd::prelude::*;

use crate::animations::animation::AnimationIndices;
use crate::components::EnemyTypes;

verus! {

/// The frames of each enemy's walk or flight animation on its sprite sheet; the golem has no
/// sprite sheet yet.
pub open spec fn spec_enemy_animation(enemy: EnemyTypes) -> Option<(usize, usize)> {
    match enemy {
        EnemyTypes::Bat => Some((0, 3)),
        EnemyTypes::Bee => Some((8, 11)),
        EnemyTypes::Golem => None,
        EnemyTypes::Rabbit => Some((0, 5)),
        EnemyTypes::Skull => Some((0, 7)),
        EnemyTypes::BossWolf => Some((0, 5)),
    }
}

/// The looping animation an enemy is spawned with.
pub fn enemy_animation_indices(enemy: EnemyTypes) -> (r: Option<AnimationIndices>)
    ensures
        match spec_enemy_animation(enemy) {
            Some((first, last)) => r matches Some(a) && a.first == first && a.last == last
                && a.is_repeating,
            None => r is None,
        },
{
    match enemy {
        EnemyTypes::Bat => Some(AnimationIndices { first: 0, last: 3, is_repeating: true }),
        EnemyTypes::Bee => Some(AnimationIndices { first: 8, last: 11, is_repeating: true }),
        EnemyTypes::Golem => None,
        EnemyTypes::Rabbit => Some(AnimationIndices { first: 0, last: 5, is_repeating: true }),
        EnemyTypes::Skull => Some(AnimationIndices { first: 0, last: 7, is_repeating: true }),
        EnemyTypes::BossWolf => Some(AnimationIndices { first: 0, last: 5, is_repeating: true }),
    }
}

/// The experience an enemy drops when it dies: one for the common enemies, none for the boss
/// wolf (bosses drop a boss gem instead); the golem does not spawn yet.
pub fn enemy_experience_drop(enemy: EnemyTypes) -> (r: Option<u32>)
    ensures
        enemy == EnemyTypes::Golem ==> r is None,
        enemy == EnemyTypes::BossWolf ==> r == Some(0u32),
        enemy != EnemyTypes::Golem && enemy != EnemyTypes::BossWolf ==> r == Some(1u32),
{
    match enemy {
        EnemyTypes::Golem => None,
        EnemyTypes::BossWolf => Some(0),
        _ => Some(1),
    }
}

} // verus!

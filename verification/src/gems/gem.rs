use vstd::prelude::*;

use crate::components::{contains_entity, GameState, Gem};

verus! {

/// The gem an enemy leaves where it dies, holding the experience it dropped.
pub fn spawn_gem_on_enemy_death(experience: u32) -> (gem: Gem)
    ensures
        gem.experience == experience,
{
    Gem { experience }
}

/// A gem starts flying toward the player once the player's pickup radius touches it.
pub fn gem_hit_player_pickup_radius(colliding: &Vec<u64>, pickup_radius: u64) -> (attracted: bool)
    ensures
        attracted == colliding@.contains(pickup_radius),
{
    contains_entity(colliding, pickup_radius)
}

/// An attracted gem that touches the player is collected: it gives its experience.
pub fn gem_retrieve_by_user(gem: &Gem, colliding: &Vec<u64>, player: u64) -> (collected: Option<u32>)
    ensures
        collected == (if colliding@.contains(player) {
            Some(gem.experience)
        } else {
            None
        }),
{
    if contains_entity(colliding, player) {
        Some(gem.experience)
    } else {
        None
    }
}

/// A boss gem that touches the player opens the weapon-upgrade screen.
pub fn gem_boss_retrieve_by_user(colliding: &Vec<u64>, player: u64) -> (next_state: Option<GameState>)
    ensures
        next_state == (if colliding@.contains(player) {
            Some(GameState::PlayerUpdateWeapon)
        } else {
            None
        }),
{
    if contains_entity(colliding, player) {
        Some(GameState::PlayerUpdateWeapon)
    } else {
        None
    }
}

} // verus!

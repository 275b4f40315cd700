use vstd::prelude::*;

use crate::components::{Facing, GameState, Player};
use crate::constants::{level_experience, spec_level_threshold};

verus! {

/// The player's level and the experience gathered toward the next one.
pub struct PlayerExperience {
    pub level: u32,
    pub amount_experience: u32,
}

/// The sum of a run of experience gains.
pub open spec fn total_gain(gains: Seq<u32>) -> nat
    decreases gains.len(),
{
    if gains.len() == 0 {
        0
    } else {
        total_gain(gains.drop_last()) + gains.last() as nat
    }
}

impl PlayerExperience {
    /// A fresh player: level 1, no experience.
    pub fn new() -> (r: PlayerExperience)
        ensures
            r.level == 1,
            r.amount_experience == 0,
    {
        PlayerExperience { level: 1, amount_experience: 0 }
    }
}

/// Adds the experience collected this frame and checks for a level up.
///
/// All gains are added first; then, if the total reaches what leaving the current level costs,
/// the threshold is taken off, the level goes up by one and the game moves to the level-up
/// screen (returned as the next state). At most one level is gained per call.
pub fn compute_experience(experience: &mut PlayerExperience, collected: &Vec<u32>) -> (next_state:
    Option<GameState>)
    requires
        1 <= old(experience).level <= 25,
        old(experience).amount_experience + total_gain(collected@) <= u32::MAX,
    ensures
        ({
            let total = old(experience).amount_experience + total_gain(collected@);
            let threshold = spec_level_threshold(old(experience).level as nat);
            &&& (next_state is Some) == (total >= threshold)
            &&& total >= threshold ==> {
                &&& next_state == Some(GameState::PlayerLevelUp)
                &&& final(experience).level == old(experience).level + 1
                &&& final(experience).amount_experience == total - threshold
            }
            &&& total < threshold ==> {
                &&& final(experience).level == old(experience).level
                &&& final(experience).amount_experience == total
            }
            // nothing is lost: what is kept plus what was spent is what was there
            &&& final(experience).amount_experience + (if next_state is Some {
                threshold as int
            } else {
                0
            }) == total
        }),
{
    let mut i: usize = 0;
    while i < collected.len()
        invariant
            0 <= i <= collected.len(),
            experience.level == old(experience).level,
            experience.amount_experience == old(experience).amount_experience + total_gain(
                collected@.take(i as int),
            ),
            old(experience).amount_experience + total_gain(collected@) <= u32::MAX,
        decreases collected.len() - i,
    {
        proof {
            assert(collected@.take(i + 1).drop_last() =~= collected@.take(i as int));
            lemma_total_gain_prefix(collected@, i as int + 1);
        }
        experience.amount_experience = experience.amount_experience + collected[i];
        i = i + 1;
    }
    assert(collected@.take(i as int) =~= collected@);
    let threshold = level_experience(experience.level);
    if experience.amount_experience >= threshold {
        experience.amount_experience = experience.amount_experience - threshold;
        experience.level = experience.level + 1;
        Some(GameState::PlayerLevelUp)
    } else {
        None
    }
}

/// The gain of a prefix is at most the gain of the whole run.
pub proof fn lemma_total_gain_prefix(gains: Seq<u32>, n: int)
    requires
        0 <= n <= gains.len(),
    ensures
        total_gain(gains.take(n)) <= total_gain(gains),
    decreases gains.len(),
{
    if n < gains.len() {
        lemma_total_gain_prefix(gains.drop_last(), n);
        assert(gains.drop_last().take(n) =~= gains.take(n));
    } else {
        assert(gains.take(n) =~= gains);
    }
}

/// Where the arrow keys held this frame point: each axis is -1, 0 or 1.
pub struct MovementIntent {
    pub x: i8,
    pub y: i8,
}

/// Reads the arrow keys: up adds one to y, down takes one off, right adds one to x, left
/// takes one off.
pub fn movement_intent(up: bool, down: bool, left: bool, right: bool) -> (r: MovementIntent)
    ensures
        r.x == (if right { 1int } else { 0 }) - (if left { 1int } else { 0 }),
        r.y == (if up { 1int } else { 0 }) - (if down { 1int } else { 0 }),
{
    let mut x: i8 = 0;
    let mut y: i8 = 0;
    if up {
        y = y + 1;
    }
    if down {
        y = y - 1;
    }
    if left {
        x = x - 1;
    }
    if right {
        x = x + 1;
    }
    MovementIntent { x, y }
}

impl Player {
    /// Turns the player toward the horizontal move; a move with no horizontal part keeps the
    /// current facing.
    pub fn update_facing(&mut self, x: i8)
        ensures
            x < 0 ==> final(self).facing == Facing::Left,
            x > 0 ==> final(self).facing == Facing::Right,
            x == 0 ==> final(self).facing == old(self).facing,
    {
        if x != 0 {
            if x < 0 {
                self.facing = Facing::Left;
            } else {
                self.facing = Facing::Right;
            }
        }
    }
}

} // verus!

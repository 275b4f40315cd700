use vstd::prelude::*;

use crate::constants::{level_experience, spec_level_threshold};
use crate::players::player::PlayerExperience;

verus! {

/// How full the experience bar is: the experience gathered and the experience the current level
/// needs.
pub struct ExperienceBarProgress {
    pub gathered: u32,
    pub needed: u32,
}

/// The experience bar of the player UI: the gathered experience against what the current level
/// needs.
pub fn player_experience_bar_progress(experience: &PlayerExperience) -> (r: ExperienceBarProgress)
    requires
        1 <= experience.level <= 25,
    ensures
        r.gathered == experience.amount_experience,
        r.needed == spec_level_threshold(experience.level as nat),
        r.needed > 0,
{
    ExperienceBarProgress {
        gathered: experience.amount_experience,
        needed: level_experience(experience.level),
    }
}

} // verus!

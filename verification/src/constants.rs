use vstd::prelude::*;

verus! {

pub const SCREEN_WIDTH: i32 = 640;

pub const SCREEN_HEIGHT: i32 = 360;

pub const MAX_LEVEL: u32 = 5;

/// Experience needed to reach each level, starting at level 2 (the player starts at level 1):
/// entry `k` is what leaving level `k + 1` costs.
pub const MAP_LEVEL_EXPERIENCE: [u32; 25] = [
    5, 7, 10, 15, 20, 30, 40, 60, 80, 110, 140, 180, 220, 270, 320, 380, 460, 550, 660, 770, 880,
    990, 1100, 1250, 1500,
];

/// The experience table as a sequence.
pub open spec fn spec_level_experience() -> Seq<u32> {
    seq![
        5, 7, 10, 15, 20, 30, 40, 60, 80, 110, 140, 180, 220, 270, 320, 380, 460, 550, 660, 770,
        880, 990, 1100, 1250, 1500,
    ]
}

/// Experience needed to leave `level` (levels count from 1).
pub open spec fn spec_level_threshold(level: nat) -> u32 {
    spec_level_experience()[level - 1]
}

/// Experience needed to leave `level`, for the levels 1 to 25 that the table covers.
pub fn level_experience(level: u32) -> (r: u32)
    requires
        1 <= level <= 25,
    ensures
        r == spec_level_threshold(level as nat),
        r > 0,
{
    let table = MAP_LEVEL_EXPERIENCE;
    assert(table@ =~= spec_level_experience());
    table[(level - 1) as usize]
}

} // verus!

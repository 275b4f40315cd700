use vstd::prelude::*;

use crate::components::Facing;

verus! {

/// The horizontal direction a light sword flies in: toward the right (`1`) when the player
/// faces left, toward the left (`-1`) when the player faces right.
pub fn light_sword_direction(facing: Facing) -> (x: i8)
    ensures
        facing == Facing::Left ==> x == 1,
        facing == Facing::Right ==> x == -1,
{
    match facing {
        Facing::Left => 1,
        Facing::Right => -1,
    }
}

} // verus!

use vstd::prelude::*;

use crate::constants::{SCREEN_HEIGHT, SCREEN_WIDTH};
use crate::random::gen_range_i32;

verus! {

/// A random point of the screen around the origin, in whole pixels: `x` in
/// `-SCREEN_WIDTH / 2 .. SCREEN_WIDTH / 2`, `y` in `-SCREEN_HEIGHT / 2 .. SCREEN_HEIGHT / 2`.
pub fn random_screen_position() -> (r: (i32, i32))
    ensures
        -SCREEN_WIDTH / 2 <= r.0 < SCREEN_WIDTH / 2,
        -SCREEN_HEIGHT / 2 <= r.1 < SCREEN_HEIGHT / 2,
{
    let x = gen_range_i32(-SCREEN_WIDTH / 2, SCREEN_WIDTH / 2);
    let y = gen_range_i32(-SCREEN_HEIGHT / 2, SCREEN_HEIGHT / 2);
    (x, y)
}

} // verus!

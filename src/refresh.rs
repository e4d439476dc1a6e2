//! One iteration of the refresh loop, from button levels and a sensor
//! reading to the next mode and the grid to show.

use vstd::prelude::*;

use crate::axes::converted;
use crate::bubble::{bubble_at, bubble_grid, shows, single_lit, Grid};
use crate::mode::{next_mode, Mode};

verus! {

/// How long each grid is shown, in milliseconds; also the loop's period.
pub const FRAME_TIME_MS: u32 = 200;

/// The decisions of one loop iteration: the buttons' levels first update the
/// mode, then the reading `(x, y, z)` in milli-g is drawn in the new mode.
pub fn refresh_frame(mode: Mode, a_pressed: bool, b_pressed: bool, x: i32, y: i32, z: i32) -> (r: (
    Mode,
    Grid,
))
    requires
        x != i32::MIN,
        z != i32::MIN,
    ensures
        r.0 == next_mode(mode, a_pressed, b_pressed),
        shows(r.1, bubble_at(converted(x as int, y as int, z as int), r.0)),
        single_lit(r.1),
{
    let next = mode.next(a_pressed, b_pressed);
    (next, bubble_grid(x, y, z, next))
}

} // verus!

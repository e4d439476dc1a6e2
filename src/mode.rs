//! The sensitivity mode and its selection by the two buttons.

use vstd::prelude::*;

verus! {

/// Sensitivity of the level. `Coarse` is the mode at power-up.
#[derive(Clone, Copy, Debug, PartialEq, Eq, Structural)]
pub enum Mode {
    /// One cell per 200 milli-g of tilt.
    Coarse,
    /// One cell per 20 milli-g of tilt.
    Fine,
}

/// The mode after one sample of the buttons' levels: "A" pressed selects
/// `Coarse`, "B" pressed selects `Fine` (and wins when both are pressed),
/// and with neither pressed the mode stays.
pub open spec fn next_mode(m: Mode, a_pressed: bool, b_pressed: bool) -> Mode {
    if b_pressed {
        Mode::Fine
    } else if a_pressed {
        Mode::Coarse
    } else {
        m
    }
}

/// The mode after the same button levels were sampled `n` times in a row.
pub open spec fn mode_after_samples(m: Mode, a_pressed: bool, b_pressed: bool, n: nat) -> Mode
    decreases n,
{
    if n == 0 {
        m
    } else {
        next_mode(mode_after_samples(m, a_pressed, b_pressed, (n - 1) as nat), a_pressed, b_pressed)
    }
}

impl Mode {
    /// The number of milli-g that one grid cell spans in this mode.
    pub open spec fn divisor_spec(self) -> int {
        match self {
            Mode::Coarse => 200,
            Mode::Fine => 20,
        }
    }

    /// The number of milli-g that one grid cell spans in this mode.
    pub fn divisor(self) -> (r: i32)
        ensures
            r as int == self.divisor_spec(),
    {
        match self {
            Mode::Coarse => 200,
            Mode::Fine => 20,
        }
    }

    /// The mode after one sample of the buttons' levels.
    pub fn next(self, a_pressed: bool, b_pressed: bool) -> (r: Mode)
        ensures
            r == next_mode(self, a_pressed, b_pressed),
    {
        let mut m = self;
        if a_pressed {
            m = Mode::Coarse;
        }
        if b_pressed {
            m = Mode::Fine;
        }
        m
    }
}

/// Holding the buttons at the same levels over several samples settles the
/// mode after the first: "A" alone held down keeps `Coarse`, "B" held down
/// keeps `Fine`, and each further sample leaves the mode as it is.
pub proof fn held_buttons_settle(m: Mode, a_pressed: bool, b_pressed: bool, n: nat)
    requires
        n >= 1,
    ensures
        a_pressed && !b_pressed ==> mode_after_samples(m, a_pressed, b_pressed, n) == Mode::Coarse,
        b_pressed ==> mode_after_samples(m, a_pressed, b_pressed, n) == Mode::Fine,
        mode_after_samples(m, a_pressed, b_pressed, n) == next_mode(m, a_pressed, b_pressed),
    decreases n,
{
    if n > 1 {
        held_buttons_settle(m, a_pressed, b_pressed, (n - 1) as nat);
    } else {
        assert(mode_after_samples(m, a_pressed, b_pressed, 0) == m);
    }
}

} // verus!

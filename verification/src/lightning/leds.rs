//! The two status LEDs, by the level each is driven at.

use vstd::prelude::*;

verus! {

/// Which LEDs are lit.
#[derive(Clone, Copy, PartialEq, Eq, Structural, Debug)]
pub struct Leds {
    pub red: bool,
    pub green: bool,
}

impl Leds {
    /// Both LEDs start off.
    pub fn new() -> (l: Leds)
        ensures
            !l.red && !l.green,
    {
        Leds { red: false, green: false }
    }

    /// Turns both LEDs off.
    pub fn set_all_off(&mut self)
        ensures
            !final(self).red && !final(self).green,
    {
        self.red = false;
        self.green = false;
    }

    /// Red on, green off.
    pub fn set_red_on(&mut self)
        ensures
            final(self).red && !final(self).green,
    {
        self.red = true;
        self.green = false;
    }

    /// Green on, red off.
    pub fn set_green_on(&mut self)
        ensures
            !final(self).red && final(self).green,
    {
        self.red = false;
        self.green = true;
    }
}

} // verus!

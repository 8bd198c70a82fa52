//! A push switch on a pull-up digital input.

use vstd::prelude::*;

verus! {

use crate::io::DigitalRead;
use crate::io::State;

/// With a pull-up input the line idles HIGH and pressing the switch pulls it
/// LOW, so a LOW level means pressed.
pub open spec fn pressed_level(level: State) -> bool {
    level is LOW
}

/// Whether a sampled level means the switch is pressed: LOW does, HIGH does
/// not.
pub fn level_means_pressed(level: State) -> (r: bool)
    ensures
        r == pressed_level(level),
{
    match level {
        State::HIGH => false,
        State::LOW => true,
    }
}

/// A switch behind any pull-up digital input.
pub struct Switch<PIN: DigitalRead> {
    pin: PIN,
}

impl<PIN: DigitalRead> Switch<PIN> {
    pub fn new(pin: PIN) -> Switch<PIN> {
        Switch { pin }
    }

    /// Sample the pin and interpret the level: pressed exactly when the line
    /// reads LOW. What the line reads is the hardware's to choose, so nothing
    /// more is promised; the interpretation itself is `level_means_pressed`.
    pub fn is_pressed(&self) -> bool {
        level_means_pressed(self.pin.read())
    }
}

} // verus!

//! Contracts for the digital and analog ports the dolly's components read
//! and write.
//!
//! The hardware pins themselves live outside the library; anything that
//! implements these traits can stand behind a component. Nothing is promised
//! of what a read returns — a pin level is the outside world's to choose —
//! so every decision taken on a read value stands in a verified function that
//! takes that value as an argument.

use vstd::prelude::*;

verus! {

/// The level of a digital line.
#[derive(Clone, Copy, PartialEq, Eq, Structural, Debug)]
pub enum State {
    HIGH,
    LOW,
}

/// A digital input line: a push button, a joystick switch.
pub trait DigitalRead {
    /// Sample the line. Non-blocking; no promise about the level.
    fn read(&self) -> State;
}

/// An analog input line: a joystick axis in the converter's native range.
pub trait AnalogRead {
    /// Sample the line. Non-blocking; no promise about the reading.
    fn read(&self) -> u16;
}

/// A digital output line: a step or direction pin, an indicator.
pub trait DigitalWrite {
    /// Drive the line to `value`. Assumed to always succeed.
    fn write(&mut self, value: State);

    /// Invert the line.
    fn toggle(&mut self);
}

/// An analog (PWM) output line.
pub trait AnalogWrite {
    /// Drive the line to `value`. Assumed to always succeed.
    fn write(&mut self, value: u16);
}

} // verus!

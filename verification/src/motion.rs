//! The step-pulse generator.
//!
//! `MotionGenerator` turns a target pose into per-axis step pulses. Each call
//! to `step` emits at most one pulse per axis — one unit of travel in the
//! direction of the difference between the target and the tracked previous
//! position — so multi-step requests are satisfied by repeated calls, and no
//! single call can outrun the driver's pulse timing. The pulses themselves
//! (direction level, step edge, minimum pulse width) are the caller's to put
//! on the wires.

use vstd::prelude::*;

verus! {

use crate::io::State;
use crate::position::Position;

/// The sign of an axis difference: the direction of one step of travel.
pub open spec fn sign(d: int) -> int {
    if d > 0 {
        1
    } else if d < 0 {
        -1
    } else {
        0
    }
}

/// One axis moved one step unit toward `target`, or left alone on arrival.
pub open spec fn spec_step_toward(cur: int, target: int) -> int {
    cur + sign(target - cur)
}

/// Move one axis one step unit toward `target`; an axis already at its
/// target stays.
pub fn step_axis_toward(cur: i32, target: i32) -> (r: i32)
    ensures
        r == spec_step_toward(cur as int, target as int),
{
    if target > cur {
        cur + 1
    } else if target < cur {
        cur - 1
    } else {
        cur
    }
}

/// Every axis moved at most one step unit toward `target`.
pub fn step_position_toward(cur: &Position, target: &Position) -> (r: Position)
    ensures
        r.slider == spec_step_toward(cur.slider as int, target.slider as int),
        r.pan == spec_step_toward(cur.pan as int, target.pan as int),
        r.tilt == spec_step_toward(cur.tilt as int, target.tilt as int),
{
    Position {
        slider: step_axis_toward(cur.slider, target.slider),
        pan: step_axis_toward(cur.pan, target.pan),
        tilt: step_axis_toward(cur.tilt, target.tilt),
    }
}

/// What the control core needs from a motion-profile algorithm: one pulse
/// command per invocation toward the target, never more than one step unit
/// of travel per axis per call. Any compliant pacing — constant speed,
/// trapezoidal, S-curve — can stand behind this without touching the state
/// machine; `MotionGenerator` is the constant-speed one.
pub trait PulsePlanner {
    /// The position the planner has already emitted pulses for.
    spec fn planned_position(&self) -> Position;

    /// Emit the next pulse command toward `target`: a per-axis delta of at
    /// most one step unit, by which the planned position advances.
    fn compute_next_pulse(&mut self, target: &Position) -> (delta: Position)
        ensures
            -1 <= delta.slider <= 1 && -1 <= delta.pan <= 1 && -1 <= delta.tilt <= 1,
            final(self).planned_position().slider == old(self).planned_position().slider
                + delta.slider,
            final(self).planned_position().pan == old(self).planned_position().pan + delta.pan,
            final(self).planned_position().tilt == old(self).planned_position().tilt + delta.tilt,
    ;
}

/// The sense of rotation of a stepper motor.
#[derive(Clone, Copy, PartialEq, Eq, Structural, Debug)]
pub enum Direction {
    Clockwise,
    CounterClockwise,
}

/// What a motor driver offers the motion layer.
pub trait Motor {
    fn set_direction(dir: Direction);

    fn run();

    fn stop();
}

/// A stepper motor with its current sense of rotation.
pub struct Stepper {
    direction: Direction,
}

/// The level of the driver's direction pin for one signed axis step:
/// forward travel drives it LOW, reverse travel drives it HIGH.
pub fn direction_level(step: i32) -> (r: State)
    ensures
        r is HIGH <==> step < 0,
{
    if step < 0 {
        State::HIGH
    } else {
        State::LOW
    }
}

/// The step-pulse generator for the three axes. It tracks the previously
/// commanded position and, per call, moves it by at most one step unit per
/// axis toward the target.
pub struct MotionGenerator {
    previous_position: Position,
    step_duration_us: u32,
}

impl MotionGenerator {
    /// The position the generator has already emitted pulses for.
    pub closed spec fn spec_previous(&self) -> Position {
        self.previous_position
    }

    /// The configured minimum step-pulse duration, in microseconds. Violating
    /// it on the wires risks missed steps on the physical driver; it is a
    /// deployment invariant, not a runtime check.
    pub closed spec fn spec_step_duration_us(&self) -> u32 {
        self.step_duration_us
    }

    /// A generator at the power-on zero position.
    pub fn new(step_duration_us: u32) -> (m: MotionGenerator)
        ensures
            m.spec_previous() == (Position { slider: 0, pan: 0, tilt: 0 }),
            m.spec_step_duration_us() == step_duration_us,
    {
        MotionGenerator { previous_position: Position::origin(), step_duration_us }
    }

    #[verifier::when_used_as_spec(spec_step_duration_us)]
    pub fn step_duration_us(&self) -> (r: u32)
        ensures
            r == self.spec_step_duration_us(),
    {
        self.step_duration_us
    }

    #[verifier::when_used_as_spec(spec_previous)]
    pub fn previous_position(&self) -> (r: Position)
        ensures
            r == self.spec_previous(),
    {
        self.previous_position
    }

    /// Emit one invocation's worth of pulses toward `target`: per axis, the
    /// returned delta is the sign of `target - previous_position` — never
    /// more than one step unit per axis per call, regardless of how far away
    /// the target is — and the tracked position advances by exactly that
    /// delta.
    pub fn step(&mut self, target: &Position) -> (delta: Position)
        ensures
            delta.slider == sign(target.slider - old(self).spec_previous().slider),
            delta.pan == sign(target.pan - old(self).spec_previous().pan),
            delta.tilt == sign(target.tilt - old(self).spec_previous().tilt),
            -1 <= delta.slider <= 1 && -1 <= delta.pan <= 1 && -1 <= delta.tilt <= 1,
            final(self).spec_previous().slider == old(self).spec_previous().slider + delta.slider,
            final(self).spec_previous().pan == old(self).spec_previous().pan + delta.pan,
            final(self).spec_previous().tilt == old(self).spec_previous().tilt + delta.tilt,
            final(self).spec_step_duration_us() == old(self).spec_step_duration_us(),
    {
        let prev = self.previous_position;
        let next = step_position_toward(&prev, target);
        self.previous_position = next;
        Position {
            slider: if next.slider > prev.slider {
                1
            } else if next.slider < prev.slider {
                -1
            } else {
                0
            },
            pan: if next.pan > prev.pan {
                1
            } else if next.pan < prev.pan {
                -1
            } else {
                0
            },
            tilt: if next.tilt > prev.tilt {
                1
            } else if next.tilt < prev.tilt {
                -1
            } else {
                0
            },
        }
    }
}

impl PulsePlanner for MotionGenerator {
    open spec fn planned_position(&self) -> Position {
        self.spec_previous()
    }

    fn compute_next_pulse(&mut self, target: &Position) -> (delta: Position) {
        self.step(target)
    }
}

} // verus!

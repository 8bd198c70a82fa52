//! The motion-control state machine.
//!
//! The machine owns the dolly's control state and the commanded pose
//! (`current`). The main loop feeds it discrete intents (`Confirm`, `Play`,
//! `Cancel`, joystick deltas) through `on_intent`, and clock time through
//! `on_tick` while in a time-driven state. Lifecycle: created once at boot in
//! `SetInitPos`; mutated only by the main loop, never from interrupt context.
//!
//! The states and transitions:
//!
//! - `SetInitPos` — manual drive; `Confirm` captures `current` as the start.
//! - `SetEndPos` — manual drive; `Confirm` captures `current` as the end and
//!   records the move, unless the pair is degenerate (equal on every axis),
//!   which is rejected and leaves the machine where it was; `Cancel` returns
//!   to `SetInitPos`.
//! - `GotoInit` — on each tick the commanded pose steps one unit per axis
//!   toward the recorded start; on arrival the machine is `Ready`. `Cancel`
//!   aborts to `SetInitPos`.
//! - `Ready` — `Play` starts the move at the recorded start; `Confirm`
//!   re-arms back to `SetInitPos`.
//! - `Moving` — on each tick the commanded pose is interpolated between the
//!   recorded start and end against the fixed total duration; once the
//!   duration has elapsed the pose is exactly the end and the machine is
//!   `Ready` again. `Cancel` returns to `Ready` immediately, leaving the
//!   pose wherever it is: the actuator must be re-homed through `GotoInit`
//!   before the next `Play`.
//!
//! Every other state/intent pair is ignored and changes nothing.

use vstd::prelude::*;

verus! {

use vstd::arithmetic::div_mod::lemma_mod_add_multiples_vanish;
use vstd::arithmetic::div_mod::lemma_small_mod;

use crate::clock::COUNTER_MODULUS;
use crate::interp::is_lerp_of;
use crate::interp::lerp_position;
use crate::io::State;
use crate::motion::spec_step_toward;
use crate::motion::step_position_toward;
use crate::position::Position;
use crate::position::Range;

/// Lower travel clamp for the manual-drive pose accumulator, per axis, in
/// step units. Deployment configuration: it bounds how far manual drive can
/// command the dolly from the power-on zero.
pub const TRAVEL_MIN: i32 = -20_000;

/// Upper travel clamp for the manual-drive pose accumulator, per axis.
pub const TRAVEL_MAX: i32 = 20_000;

/// Total duration of a programmed move, in coarse clock ticks. Deployment
/// configuration: moves take a constant duration, not a constant speed.
pub const MOVE_TOTAL_TICKS: u32 = 2_500;

/// Milliseconds of startup signalling subtracted from the displayed uptime.
pub const DISPLAY_TIME_OFFSET_MS: u32 = 5_000;

/// A discrete, debounced user action, or a continuous manual-drive delta.
/// Transient: consumed by `on_intent`, never stored.
#[derive(Clone, Copy, PartialEq, Eq, Structural, Debug)]
pub enum Intent {
    Confirm,
    Play,
    Cancel,
    /// Manual-drive deltas in command units, applied to the slider and pan
    /// axes while in a manually-driven state.
    JoystickDelta(i32, i32),
}

/// What became of an intent: applied to the state, ignored in the current
/// state, or rejected (a degenerate start/end pair on `Confirm`).
#[derive(Clone, Copy, PartialEq, Eq, Structural, Debug)]
pub enum IntentOutcome {
    Applied,
    Ignored,
    Rejected,
}

/// The control state, with whichever payload its variant requires.
#[derive(Clone, Copy, PartialEq, Eq, Structural, Debug)]
pub enum DollyState {
    SetInitPos,
    SetEndPos { start: Position },
    GotoInit { range: Range },
    Ready { range: Range },
    Moving { range: Range, started: u32 },
}

/// The manually-driven states, where joystick deltas move the commanded pose.
pub open spec fn manual_state(s: DollyState) -> bool {
    s is SetInitPos || s is SetEndPos || s is Ready
}

/// The state/intent pairs the table acts on; every other pair is ignored.
pub open spec fn intent_handled(s: DollyState, intent: Intent) -> bool {
    match intent {
        Intent::Confirm => s is SetInitPos || s is SetEndPos || s is Ready,
        Intent::Play => s is Ready,
        Intent::Cancel => s is SetEndPos || s is GotoInit || s is Moving,
        Intent::JoystickDelta(_, _) => manual_state(s),
    }
}

/// One axis of manual drive: the delta added to the accumulator, saturated
/// into the configured travel range.
pub open spec fn clamped_add(cur: int, d: int) -> int {
    let s = cur + d;
    if s < TRAVEL_MIN as int {
        TRAVEL_MIN as int
    } else if s > TRAVEL_MAX as int {
        TRAVEL_MAX as int
    } else {
        s
    }
}

fn clamped_add_exec(cur: i32, d: i32) -> (r: i32)
    ensures
        r == clamped_add(cur as int, d as int),
{
    let s: i64 = cur as i64 + d as i64;
    if s < TRAVEL_MIN as i64 {
        TRAVEL_MIN
    } else if s > TRAVEL_MAX as i64 {
        TRAVEL_MAX
    } else {
        s as i32
    }
}

/// Ticks elapsed between two counter readings, modulo 2^32: correct across
/// a single wrap of the counter.
pub open spec fn spec_elapsed(started: u32, now: u32) -> int {
    (now - started) % (COUNTER_MODULUS as int)
}

/// Ticks elapsed since `started`, given the counter now reads `now`.
pub fn elapsed_ticks(started: u32, now: u32) -> (r: u32)
    ensures
        r == spec_elapsed(started, now),
{
    if now >= started {
        proof {
            lemma_small_mod((now - started) as nat, COUNTER_MODULUS as nat);
        }
        now - started
    } else {
        proof {
            lemma_mod_add_multiples_vanish(now - started, COUNTER_MODULUS as int);
            lemma_small_mod(
                (now - started + COUNTER_MODULUS as int) as nat,
                COUNTER_MODULUS as nat,
            );
        }
        ((COUNTER_MODULUS + now as u64) - started as u64) as u32
    }
}

/// The motion-control core: the control state and the commanded pose.
pub struct DollyStateMachine {
    pub state: DollyState,
    pub current: Position,
}

impl DollyStateMachine {
    /// The machine as it boots: ready to capture the start pose, with the
    /// commanded pose at the power-on zero.
    pub fn new() -> (m: DollyStateMachine)
        ensures
            m.state is SetInitPos,
            m.current == (Position { slider: 0, pan: 0, tilt: 0 }),
    {
        DollyStateMachine { state: DollyState::SetInitPos, current: Position::origin() }
    }

    /// Whether the machine is in a manually-driven state.
    pub fn is_manual(&self) -> (r: bool)
        ensures
            r == manual_state(self.state),
    {
        match self.state {
            DollyState::SetInitPos => true,
            DollyState::SetEndPos { .. } => true,
            DollyState::Ready { .. } => true,
            _ => false,
        }
    }

    /// Manual drive: add a delta to the commanded pose, saturated per axis
    /// into the travel range. Outside the manually-driven states the pose is
    /// owned by the time-driven motion and the delta changes nothing.
    pub fn apply_manual_delta(&mut self, d: Position)
        ensures
            manual_state(old(self).state) ==> final(self).state == old(self).state && final(self).current.slider == clamped_add(old(self).current.slider as int, d.slider as int)
                && final(self).current.pan == clamped_add(
                old(self).current.pan as int,
                d.pan as int,
            ) && final(self).current.tilt == clamped_add(
                old(self).current.tilt as int,
                d.tilt as int,
            ),
            !manual_state(old(self).state) ==> *final(self) == *old(self),
    {
        if self.is_manual() {
            self.current = Position {
                slider: clamped_add_exec(self.current.slider, d.slider),
                pan: clamped_add_exec(self.current.pan, d.pan),
                tilt: clamped_add_exec(self.current.tilt, d.tilt),
            };
        }
    }

    /// Consume one intent, following the transition table. `now` is the
    /// coarse clock's reading, stamped into `Moving` when a move starts.
    pub fn on_intent(&mut self, intent: Intent, now: u32) -> (outcome: IntentOutcome)
        ensures
            // SetInitPos: Confirm captures the commanded pose as the start.
            old(self).state is SetInitPos && intent is Confirm ==> final(self).state == (
            DollyState::SetEndPos { start: old(self).current }) && final(self).current == old(self).current && outcome is Applied,
            // SetEndPos: Confirm with a pair equal on every axis is rejected;
            // the machine stays where it was and no move is recorded.
            old(self).state matches DollyState::SetEndPos { start } ==> ((intent is Confirm
                && start == old(self).current) ==> (*final(self) == *old(self)
                && outcome is Rejected)),
            // SetEndPos: Confirm with a valid pair records the move and heads
            // for its start.
            old(self).state matches DollyState::SetEndPos { start } ==> ((intent is Confirm
                && start != old(self).current) ==> ((final(self).state matches
                DollyState::GotoInit { range } && range.spec_start() == start && range.spec_end()
                == old(self).current) && final(self).current == old(self).current
                && outcome is Applied)),
            // SetEndPos, GotoInit: Cancel aborts back to the beginning.
            (old(self).state is SetEndPos || old(self).state is GotoInit) && intent is Cancel
                ==> final(self).state is SetInitPos && final(self).current == old(self).current
                && outcome is Applied,
            // Ready: Confirm re-arms.
            old(self).state is Ready && intent is Confirm ==> final(self).state is SetInitPos
                && final(self).current == old(self).current && outcome is Applied,
            // Ready: Play starts the move at the recorded start.
            old(self).state matches DollyState::Ready { range } ==> (intent is Play ==> (final(self).state == (DollyState::Moving { range, started: now }) && final(self).current
                == range.spec_start() && outcome is Applied)),
            // Moving: Cancel returns to Ready immediately, with the same
            // range and the pose left wherever it is.
            old(self).state matches DollyState::Moving { range, .. } ==> (intent is Cancel
                ==> (final(self).state == (DollyState::Ready { range }) && final(self).current
                == old(self).current && outcome is Applied)),
            // Joystick deltas drive the manual accumulator, clamped per axis.
            intent matches Intent::JoystickDelta(dx, dy) ==> (manual_state(old(self).state) ==> (
            final(self).state == old(self).state && final(self).current.slider == clamped_add(
                old(self).current.slider as int,
                dx as int,
            ) && final(self).current.pan == clamped_add(old(self).current.pan as int, dy as int)
                && final(self).current.tilt == clamped_add(old(self).current.tilt as int, 0)
                && outcome is Applied)),
            // Every other pair is ignored and changes nothing.
            !intent_handled(old(self).state, intent) ==> *final(self) == *old(self)
                && outcome is Ignored,
    {
        match intent {
            Intent::Confirm => match self.state {
                DollyState::SetInitPos => {
                    self.state = DollyState::SetEndPos { start: self.current };
                    IntentOutcome::Applied
                },
                DollyState::SetEndPos { start } => match Range::new(start, self.current) {
                    Some(range) => {
                        self.state = DollyState::GotoInit { range };
                        IntentOutcome::Applied
                    },
                    None => IntentOutcome::Rejected,
                },
                DollyState::Ready { .. } => {
                    self.state = DollyState::SetInitPos;
                    IntentOutcome::Applied
                },
                _ => IntentOutcome::Ignored,
            },
            Intent::Play => match self.state {
                DollyState::Ready { range } => {
                    self.current = range.start();
                    self.state = DollyState::Moving { range, started: now };
                    IntentOutcome::Applied
                },
                _ => IntentOutcome::Ignored,
            },
            Intent::Cancel => match self.state {
                DollyState::SetEndPos { .. } => {
                    self.state = DollyState::SetInitPos;
                    IntentOutcome::Applied
                },
                DollyState::GotoInit { .. } => {
                    self.state = DollyState::SetInitPos;
                    IntentOutcome::Applied
                },
                DollyState::Moving { range, .. } => {
                    self.state = DollyState::Ready { range };
                    IntentOutcome::Applied
                },
                _ => IntentOutcome::Ignored,
            },
            Intent::JoystickDelta(dx, dy) => {
                let manual = self.is_manual();
                self.apply_manual_delta(Position { slider: dx, pan: dy, tilt: 0 });
                if manual {
                    IntentOutcome::Applied
                } else {
                    IntentOutcome::Ignored
                }
            },
        }
    }

    /// Advance time by one main-loop iteration: in `GotoInit` the commanded
    /// pose steps one unit per axis toward the recorded start and the machine
    /// is `Ready` on arrival; in `Moving` the pose is interpolated against
    /// the fixed total duration and the machine is `Ready`, exactly at the
    /// end pose, once the duration has elapsed. The manually-driven states
    /// are untouched by time.
    pub fn on_tick(&mut self, now: u32)
        ensures
            manual_state(old(self).state) ==> *final(self) == *old(self),
            old(self).state matches DollyState::GotoInit { range } ==> final(self).current.slider
                == spec_step_toward(old(self).current.slider as int, range.spec_start().slider as int)
                && final(self).current.pan == spec_step_toward(
                old(self).current.pan as int,
                range.spec_start().pan as int,
            ) && final(self).current.tilt == spec_step_toward(
                old(self).current.tilt as int,
                range.spec_start().tilt as int,
            ) && (if final(self).current == range.spec_start() {
                final(self).state == (DollyState::Ready { range })
            } else {
                final(self).state == old(self).state
            }),
            old(self).state matches DollyState::Moving { range, started } ==> (if spec_elapsed(
                started,
                now,
            ) >= MOVE_TOTAL_TICKS {
                final(self).state == (DollyState::Ready { range }) && final(self).current
                    == range.spec_end()
            } else {
                final(self).state == old(self).state && is_lerp_of(
                    final(self).current,
                    range.spec_start(),
                    range.spec_end(),
                    spec_elapsed(started, now),
                    MOVE_TOTAL_TICKS as int,
                )
            }),
    {
        match self.state {
            DollyState::GotoInit { range } => {
                let target = range.start();
                let next = step_position_toward(&self.current, &target);
                self.current = next;
                if next.slider == target.slider && next.pan == target.pan && next.tilt
                    == target.tilt {
                    self.state = DollyState::Ready { range };
                }
            },
            DollyState::Moving { range, started } => {
                let el = elapsed_ticks(started, now);
                if el >= MOVE_TOTAL_TICKS {
                    self.current = range.end();
                    self.state = DollyState::Ready { range };
                } else {
                    let s = range.start();
                    let e = range.end();
                    self.current = lerp_position(&s, &e, el, MOVE_TOTAL_TICKS);
                }
            },
            _ => {},
        }
    }
}

/// Indicator levels the control loop shows for a mapped joystick reading:
/// each LED is lit exactly when its axis is deflected positive.
pub fn led_levels(x: i32, y: i32) -> (r: (State, State))
    ensures
        r.0 is HIGH <==> x > 0,
        r.1 is HIGH <==> y > 0,
{
    (
        if x > 0 {
            State::HIGH
        } else {
            State::LOW
        },
        if y > 0 {
            State::HIGH
        } else {
            State::LOW
        },
    )
}

/// Seconds of uptime to display for a coarse-clock reading in milliseconds,
/// with the startup signalling time taken off the front.
pub fn uptime_seconds(now_ms: u32) -> (r: u32)
    ensures
        now_ms >= DISPLAY_TIME_OFFSET_MS ==> r == (now_ms - DISPLAY_TIME_OFFSET_MS) / 1000,
        now_ms < DISPLAY_TIME_OFFSET_MS ==> r == 0,
{
    if now_ms >= DISPLAY_TIME_OFFSET_MS {
        (now_ms - DISPLAY_TIME_OFFSET_MS) / 1000
    } else {
        0
    }
}

/// A second count split into whole hours, minutes and seconds for display.
pub fn hms(total_seconds: u32) -> (r: (u32, u32, u32))
    ensures
        r.0 == total_seconds / 3600,
        r.1 == (total_seconds % 3600) / 60,
        r.2 == (total_seconds % 3600) % 60,
{
    let h = total_seconds / 3600;
    let rest = total_seconds % 3600;
    (h, rest / 60, rest % 60)
}

} // verus!

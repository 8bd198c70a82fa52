//! Poses of the dolly and recorded moves.
//!
//! A `Position` counts motor steps per axis relative to the power-on zero.
//! A `Range` is a recorded start/end pose pair; a pair whose poses agree on
//! every axis does not describe a move and is rejected at creation, so a
//! constructed `Range` always differs somewhere.

use vstd::prelude::*;

verus! {

/// A pose of the dolly: one signed step count per axis, relative to the
/// position at power-on.
#[derive(Clone, Copy, PartialEq, Eq, Structural, Debug)]
pub struct Position {
    pub slider: i32,
    pub pan: i32,
    pub tilt: i32,
}

impl Position {
    /// The pose at power-on: zero on every axis.
    pub fn origin() -> (p: Position)
        ensures
            p == (Position { slider: 0, pan: 0, tilt: 0 }),
    {
        Position { slider: 0, pan: 0, tilt: 0 }
    }
}

/// A recorded move: a start pose and an end pose that differ on at least one
/// axis.
#[derive(Clone, Copy, PartialEq, Eq, Structural, Debug)]
pub struct Range {
    start: Position,
    end: Position,
}

impl Range {
    /// A start/end pair describes a move exactly when some axis differs.
    pub open spec fn describes_move(start: Position, end: Position) -> bool {
        start != end
    }

    #[verifier::type_invariant]
    pub closed spec fn inv(self) -> bool {
        Self::describes_move(self.start, self.end)
    }

    pub closed spec fn spec_start(&self) -> Position {
        self.start
    }

    pub closed spec fn spec_end(&self) -> Position {
        self.end
    }

    /// Record a move from `start` to `end`. A pair equal on every axis is
    /// rejected; any single differing axis makes the pair valid.
    pub fn new(start: Position, end: Position) -> (r: Option<Range>)
        ensures
            r is Some <==> start != end,
            r matches Some(rg) ==> rg.spec_start() == start && rg.spec_end() == end,
    {
        if start.slider == end.slider && start.pan == end.pan && start.tilt == end.tilt {
            assert(start == end);
            None
        } else {
            Some(Range { start, end })
        }
    }

    /// Besides handing the start pose out, this getter re-states the type
    /// invariant: a recorded move never has its start equal to its end.
    #[verifier::when_used_as_spec(spec_start)]
    pub fn start(&self) -> (p: Position)
        ensures
            p == self.spec_start(),
            self.spec_start() != self.spec_end(),
    {
        proof {
            use_type_invariant(self);
        }
        self.start
    }

    #[verifier::when_used_as_spec(spec_end)]
    pub fn end(&self) -> (p: Position)
        ensures
            p == self.spec_end(),
            self.spec_start() != self.spec_end(),
    {
        proof {
            use_type_invariant(self);
        }
        self.end
    }
}

} // verus!

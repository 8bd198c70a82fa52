//! Timed interpolation of a move.
//!
//! A programmed move runs for a fixed total number of clock ticks. At any
//! elapsed time the commanded pose is the start pose plus the elapsed
//! fraction of the travel, rounded to the nearest whole step: the fraction is
//! `clamp(elapsed / total, 0, 1)`, so the pose starts exactly at the start,
//! never overshoots, and lands exactly on the end once the total duration has
//! elapsed.

use vstd::prelude::*;

verus! {

use vstd::arithmetic::div_mod::lemma_basic_div;
use vstd::arithmetic::div_mod::lemma_div_is_ordered;
use vstd::arithmetic::div_mod::lemma_div_multiples_vanish_fancy;
use vstd::arithmetic::div_mod::lemma_div_pos_is_pos;
use vstd::arithmetic::mul::lemma_mul_by_zero_is_zero;
use vstd::arithmetic::mul::lemma_mul_inequality;
use vstd::arithmetic::mul::lemma_mul_upper_bound;

use crate::position::Position;

/// Elapsed time clamped to the total duration: the numerator of the
/// interpolation fraction `clamp(elapsed / total, 0, 1)`.
pub open spec fn clamped_elapsed(elapsed: int, total: int) -> int {
    if elapsed >= total {
        total
    } else {
        elapsed
    }
}

/// Division rounded to the nearest whole number (halves away from zero),
/// for a nonnegative numerator and positive divisor.
pub open spec fn round_div(n: int, d: int) -> int
    recommends
        n >= 0,
        d > 0,
{
    (n + d / 2) / d
}

/// One axis of the interpolation: `start + fraction * (end - start)`,
/// rounded to the nearest step unit, with the fraction clamped to `[0, 1]`.
pub open spec fn lerp_axis(start: int, end: int, elapsed: int, total: int) -> int
    recommends
        elapsed >= 0,
        total > 0,
{
    let c = clamped_elapsed(elapsed, total);
    if end >= start {
        start + round_div(c * (end - start), total)
    } else {
        start - round_div(c * (start - end), total)
    }
}

/// `r` is the pose interpolated between `start` and `end` at `elapsed` of
/// `total` ticks, axis by axis.
pub open spec fn is_lerp_of(
    r: Position,
    start: Position,
    end: Position,
    elapsed: int,
    total: int,
) -> bool {
    &&& r.slider == lerp_axis(start.slider as int, end.slider as int, elapsed, total)
    &&& r.pan == lerp_axis(start.pan as int, end.pan as int, elapsed, total)
    &&& r.tilt == lerp_axis(start.tilt as int, end.tilt as int, elapsed, total)
}

proof fn lemma_round_div_ordered(n1: int, n2: int, d: int)
    requires
        0 <= n1 <= n2,
        d > 0,
    ensures
        round_div(n1, d) <= round_div(n2, d),
{
    lemma_div_is_ordered(n1 + d / 2, n2 + d / 2, d);
}

proof fn lemma_round_div_exact(k: int, d: int)
    requires
        k >= 0,
        d > 0,
    ensures
        round_div(d * k, d) == k,
{
    lemma_div_multiples_vanish_fancy(k, d / 2, d);
}

proof fn lemma_round_div_bounds(c: int, diff: int, d: int)
    requires
        0 <= c <= d,
        diff >= 0,
        d > 0,
    ensures
        0 <= round_div(c * diff, d) <= diff,
{
    lemma_mul_inequality(c, d, diff);
    lemma_div_pos_is_pos(c * diff + d / 2, d);
    lemma_round_div_ordered(c * diff, d * diff, d);
    lemma_round_div_exact(diff, d);
}

/// The interpolation fraction is clamped to `[0, 1]` and is monotonic
/// non-decreasing in elapsed time: its clamped numerator lies in
/// `[0, total]` and never decreases as elapsed time grows.
pub proof fn lemma_fraction_clamped_monotonic(e1: int, e2: int, total: int)
    requires
        0 <= e1 <= e2,
        total > 0,
    ensures
        0 <= clamped_elapsed(e1, total) <= total,
        clamped_elapsed(e1, total) <= clamped_elapsed(e2, total),
{
}

/// At `elapsed == 0` the interpolated pose is exactly the start.
pub proof fn lemma_lerp_at_zero(start: int, end: int, total: int)
    requires
        total > 0,
    ensures
        lerp_axis(start, end, 0, total) == start,
{
    lemma_mul_by_zero_is_zero(end - start);
    lemma_mul_by_zero_is_zero(start - end);
    lemma_basic_div(total / 2, total);
}

/// Once `elapsed >= total`, the interpolated pose is exactly the end:
/// the move lands on its target with no overshoot.
pub proof fn lemma_lerp_at_total(start: int, end: int, elapsed: int, total: int)
    requires
        total > 0,
        elapsed >= total,
    ensures
        lerp_axis(start, end, elapsed, total) == end,
{
    if end >= start {
        lemma_round_div_exact(end - start, total);
    } else {
        lemma_round_div_exact(start - end, total);
    }
}

/// The interpolated value never leaves the interval between start and end:
/// no overshoot at any elapsed time.
pub proof fn lemma_lerp_bounded(start: int, end: int, elapsed: int, total: int)
    requires
        total > 0,
        elapsed >= 0,
    ensures
        end >= start ==> start <= lerp_axis(start, end, elapsed, total) <= end,
        end < start ==> end <= lerp_axis(start, end, elapsed, total) <= start,
{
    let c = clamped_elapsed(elapsed, total);
    if end >= start {
        lemma_round_div_bounds(c, end - start, total);
    } else {
        lemma_round_div_bounds(c, start - end, total);
    }
}

/// The interpolated value is monotonic in elapsed time: it moves toward the
/// end pose and never back.
pub proof fn lemma_lerp_monotonic(start: int, end: int, e1: int, e2: int, total: int)
    requires
        total > 0,
        0 <= e1 <= e2,
    ensures
        end >= start ==> lerp_axis(start, end, e1, total) <= lerp_axis(start, end, e2, total),
        end < start ==> lerp_axis(start, end, e1, total) >= lerp_axis(start, end, e2, total),
{
    let c1 = clamped_elapsed(e1, total);
    let c2 = clamped_elapsed(e2, total);
    if end >= start {
        lemma_mul_inequality(c1, c2, end - start);
        lemma_round_div_ordered(c1 * (end - start), c2 * (end - start), total);
    } else {
        lemma_mul_inequality(c1, c2, start - end);
        lemma_round_div_ordered(c1 * (start - end), c2 * (start - end), total);
    }
}

/// One axis of the interpolation, executable. All intermediate products fit
/// in 128 bits, and the result lies between `start` and `end`, so it fits the
/// axis type for every input.
pub fn lerp_axis_exec(start: i32, end: i32, elapsed: u32, total: u32) -> (r: i32)
    requires
        total > 0,
    ensures
        r == lerp_axis(start as int, end as int, elapsed as int, total as int),
{
    let c: u64 = if elapsed >= total {
        total as u64
    } else {
        elapsed as u64
    };
    let half: u128 = (total / 2) as u128;
    if end >= start {
        let diff: u64 = (end as i64 - start as i64) as u64;
        proof {
            lemma_mul_upper_bound(c as int, u32::MAX as int, diff as int, u32::MAX as int);
        }
        let q: u128 = (c as u128 * diff as u128 + half) / (total as u128);
        proof {
            lemma_round_div_bounds(c as int, diff as int, total as int);
        }
        (start as i64 + q as i64) as i32
    } else {
        let diff: u64 = (start as i64 - end as i64) as u64;
        proof {
            lemma_mul_upper_bound(c as int, u32::MAX as int, diff as int, u32::MAX as int);
        }
        let q: u128 = (c as u128 * diff as u128 + half) / (total as u128);
        proof {
            lemma_round_div_bounds(c as int, diff as int, total as int);
        }
        (start as i64 - q as i64) as i32
    }
}

/// A pose that `is_lerp_of` relates to a start and an end never leaves the
/// box the two poses span: during a move, no axis overshoots on either side.
pub proof fn lemma_lerp_position_bounded(
    r: Position,
    start: Position,
    end: Position,
    elapsed: int,
    total: int,
)
    requires
        total > 0,
        elapsed >= 0,
        is_lerp_of(r, start, end, elapsed, total),
    ensures
        end.slider >= start.slider ==> start.slider <= r.slider <= end.slider,
        end.slider < start.slider ==> end.slider <= r.slider <= start.slider,
        end.pan >= start.pan ==> start.pan <= r.pan <= end.pan,
        end.pan < start.pan ==> end.pan <= r.pan <= start.pan,
        end.tilt >= start.tilt ==> start.tilt <= r.tilt <= end.tilt,
        end.tilt < start.tilt ==> end.tilt <= r.tilt <= start.tilt,
{
    lemma_lerp_bounded(start.slider as int, end.slider as int, elapsed, total);
    lemma_lerp_bounded(start.pan as int, end.pan as int, elapsed, total);
    lemma_lerp_bounded(start.tilt as int, end.tilt as int, elapsed, total);
}

/// The pose interpolated between `start` and `end` at `elapsed` of `total`
/// ticks, axis by axis.
pub fn lerp_position(start: &Position, end: &Position, elapsed: u32, total: u32) -> (r: Position)
    requires
        total > 0,
    ensures
        is_lerp_of(r, *start, *end, elapsed as int, total as int),
{
    Position {
        slider: lerp_axis_exec(start.slider, end.slider, elapsed, total),
        pan: lerp_axis_exec(start.pan, end.pan, elapsed, total),
        tilt: lerp_axis_exec(start.tilt, end.tilt, elapsed, total),
    }
}

} // verus!

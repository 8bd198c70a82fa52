//! Joystick input: rest calibration, deltas, and the linear map from the
//! joystick's raw symmetric range into the bounded command range.

use vstd::prelude::*;

verus! {

use vstd::arithmetic::div_mod::lemma_div_by_multiple;
use vstd::arithmetic::div_mod::lemma_div_is_ordered;
use vstd::arithmetic::div_mod::lemma_div_pos_is_pos;
use vstd::arithmetic::mul::lemma_mul_inequality;
use vstd::arithmetic::mul::lemma_mul_upper_bound;

use crate::io::AnalogRead;
use crate::io::DigitalRead;
use crate::switch::level_means_pressed;

/// Lower end of the joystick's raw range, centred on its rest calibration.
/// Deployment configuration.
pub const JOY_RAW_MIN: i32 = -500;

/// Upper end of the joystick's raw range.
pub const JOY_RAW_MAX: i32 = 500;

/// Lower end of the command range the raw range maps into.
pub const JOY_CMD_MIN: i32 = -200;

/// Upper end of the command range.
pub const JOY_CMD_MAX: i32 = 200;

/// `v` saturated into `[lo, hi]`.
pub open spec fn spec_clamp(v: int, lo: int, hi: int) -> int {
    if v < lo {
        lo
    } else if v > hi {
        hi
    } else {
        v
    }
}

/// The joystick-to-command linear map: `v` is first saturated into
/// `[in_min, in_max]`, then scaled linearly onto `[out_min, out_max]`.
/// Total: defined for every input, out-of-range inputs saturate rather than
/// extrapolate.
pub open spec fn spec_map(v: int, in_min: int, in_max: int, out_min: int, out_max: int) -> int
    recommends
        in_min < in_max,
        out_min <= out_max,
{
    out_min + (spec_clamp(v, in_min, in_max) - in_min) * (out_max - out_min) / (in_max - in_min)
}

/// Map a raw joystick value into the command range: saturate into the input
/// range, then scale linearly. The result always lies within the output
/// range — boundary and out-of-range inputs saturate, never extrapolate.
pub fn map(value: i32, from_range: (i32, i32), to_range: (i32, i32)) -> (r: i32)
    requires
        from_range.0 < from_range.1,
        to_range.0 <= to_range.1,
    ensures
        r == spec_map(
            value as int,
            from_range.0 as int,
            from_range.1 as int,
            to_range.0 as int,
            to_range.1 as int,
        ),
        to_range.0 <= r <= to_range.1,
{
    let (in_min, in_max) = from_range;
    let (out_min, out_max) = to_range;
    let clamped: i32 = if value < in_min {
        in_min
    } else if value > in_max {
        in_max
    } else {
        value
    };
    let d: u64 = (clamped as i64 - in_min as i64) as u64;
    let in_span: u64 = (in_max as i64 - in_min as i64) as u64;
    let out_span: u64 = (out_max as i64 - out_min as i64) as u64;
    proof {
        lemma_mul_upper_bound(d as int, u32::MAX as int, out_span as int, u32::MAX as int);
        lemma_div_pos_is_pos(d as int * out_span as int, in_span as int);
        lemma_mul_inequality(d as int, in_span as int, out_span as int);
        lemma_div_is_ordered(
            d as int * out_span as int,
            in_span as int * out_span as int,
            in_span as int,
        );
        lemma_div_by_multiple(out_span as int, in_span as int);
    }
    let q: u64 = ((d as u128 * out_span as u128) / (in_span as u128)) as u64;
    (out_min as i64 + q as i64) as i32
}

/// The deltas a pair of raw axis readings stand for, relative to the rest
/// calibration: the x axis grows with the reading, the y axis is flipped so
/// that pushing the stick away reads positive.
pub fn joystick_delta(raw: (u16, u16), rest: (u16, u16)) -> (r: (i32, i32))
    ensures
        r.0 == raw.0 - rest.0,
        r.1 == rest.1 - raw.1,
{
    (raw.0 as i32 - rest.0 as i32, rest.1 as i32 - raw.1 as i32)
}

/// A two-axis joystick with a press switch, behind any analog and digital
/// inputs. The rest position is sampled once, at construction, and every
/// later reading is a delta against it.
pub struct Joystick<APIN: AnalogRead, PPIN: DigitalRead> {
    x_pin: APIN,
    y_pin: APIN,
    switch_pin: PPIN,
    initial_pos: (u16, u16),
}

impl<APIN: AnalogRead, PPIN: DigitalRead> Joystick<APIN, PPIN> {
    /// Sample both axes once and keep the readings as the rest calibration.
    pub fn new(x_pin: APIN, y_pin: APIN, switch_pin: PPIN) -> Joystick<APIN, PPIN> {
        let x0 = x_pin.read();
        let y0 = y_pin.read();
        Joystick { x_pin, y_pin, switch_pin, initial_pos: (x0, y0) }
    }

    /// Sample both axes and return the delta against the rest calibration,
    /// as `joystick_delta` computes it. What the axes read is the hardware's
    /// to choose, so nothing more is promised of the values.
    pub fn get_pos(&self) -> (i32, i32) {
        joystick_delta((self.x_pin.read(), self.y_pin.read()), self.initial_pos)
    }

    /// Sample the press switch: pressed exactly when the pull-up line reads
    /// LOW, as `level_means_pressed` interprets it.
    pub fn is_pressed(&self) -> bool {
        level_means_pressed(self.switch_pin.read())
    }
}

} // verus!

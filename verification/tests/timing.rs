use camera_dolly::clock::{
    ClockTC0, ClockTC1, TimerConfigError, timer_counts, TC0_MILLIS_PER_TICK, TC1_CORRECTION,
    TC1_INCREMENT,
};
use camera_dolly::dolly::{elapsed_ticks, hms, uptime_seconds, DISPLAY_TIME_OFFSET_MS};
use camera_dolly::interp::{lerp_axis_exec, lerp_position};
use camera_dolly::position::Position;

#[test]
fn tc0_counts_millis_and_never_goes_backward() {
    let mut clock = ClockTC0::new();
    assert_eq!(clock.now(), 0);
    let mut last = 0;
    for i in 1..=1_000u32 {
        clock.tick();
        let now = clock.now();
        assert_eq!(now, i * TC0_MILLIS_PER_TICK);
        assert!(now >= last);
        last = now;
    }
}

#[test]
fn tc1_applies_the_correction_divisor() {
    let mut clock = ClockTC1::new();
    assert_eq!(clock.now(), 0);
    clock.tick();
    // one increment is still below the correction divisor
    assert_eq!(clock.now(), TC1_INCREMENT / TC1_CORRECTION);
    for _ in 0..4_999 {
        clock.tick();
    }
    assert_eq!(clock.now(), 5_000 * TC1_INCREMENT / TC1_CORRECTION);
}

#[test]
fn timer_configs_of_both_clocks_are_accepted() {
    // 16 MHz / 250 Hz / 256 - 1 fits the 8-bit register
    assert_eq!(ClockTC0::new().start_config(), Ok(249));
    // 16 MHz / 2 kHz / 8 - 1 fits the 16-bit register
    assert_eq!(ClockTC1::new().start_config(), Ok(999));
}

#[test]
fn timer_config_rejects_out_of_range_divisors() {
    // compare value too wide for an 8-bit register
    assert_eq!(
        timer_counts(16_000_000, 250, 8, u8::MAX as u32),
        Err(TimerConfigError::CountsOutOfRange)
    );
    // unreachable frequencies
    assert_eq!(
        timer_counts(16_000_000, 0, 8, u16::MAX as u32),
        Err(TimerConfigError::CountsOutOfRange)
    );
    assert_eq!(
        timer_counts(16_000_000, 17_000_000, 1, u16::MAX as u32),
        Err(TimerConfigError::CountsOutOfRange)
    );
    // a prescaler the hardware does not offer
    assert_eq!(
        timer_counts(16_000_000, 250, 7, u16::MAX as u32),
        Err(TimerConfigError::UnsupportedPrescaler)
    );
}

#[test]
fn elapsed_ticks_is_correct_across_a_wrap() {
    assert_eq!(elapsed_ticks(10, 110), 100);
    assert_eq!(elapsed_ticks(0, 0), 0);
    assert_eq!(elapsed_ticks(u32::MAX, 0), 1);
    assert_eq!(elapsed_ticks(0xFFFF_FF00, 100), 356);
}

#[test]
fn lerp_endpoints_are_exact() {
    assert_eq!(lerp_axis_exec(0, 100, 0, 2_500), 0);
    assert_eq!(lerp_axis_exec(0, 100, 2_500, 2_500), 100);
    // clamped: anything past the total lands exactly on the end
    assert_eq!(lerp_axis_exec(0, 100, 9_999, 2_500), 100);
    assert_eq!(lerp_axis_exec(-50, -10, 0, 2_500), -50);
    assert_eq!(lerp_axis_exec(-50, -10, 2_500, 2_500), -10);
}

#[test]
fn lerp_rounds_to_the_nearest_step() {
    // halfway through 4 ticks of a 10-step travel: 2.5 rounds up to 3
    assert_eq!(lerp_axis_exec(0, 10, 1, 4), 3);
    assert_eq!(lerp_axis_exec(0, 10, 2, 4), 5);
    // and symmetrically away from zero going down
    assert_eq!(lerp_axis_exec(0, -10, 1, 4), -3);
    assert_eq!(lerp_axis_exec(0, 100, 1_250, 2_500), 50);
}

#[test]
fn lerp_is_monotonic_and_clamped_over_a_sweep() {
    let mut last_up = 0;
    let mut last_down = 0;
    for elapsed in 0..=120u32 {
        let up = lerp_axis_exec(0, 37, elapsed, 100);
        let down = lerp_axis_exec(0, -37, elapsed, 100);
        assert!(up >= last_up && up <= 37);
        assert!(down <= last_down && down >= -37);
        last_up = up;
        last_down = down;
    }
    assert_eq!(last_up, 37);
    assert_eq!(last_down, -37);
}

#[test]
fn lerp_position_moves_every_axis() {
    let start = Position { slider: 0, pan: 100, tilt: -40 };
    let end = Position { slider: 200, pan: 0, tilt: 40 };
    let mid = lerp_position(&start, &end, 50, 100);
    assert_eq!(mid, Position { slider: 100, pan: 50, tilt: 0 });
    let done = lerp_position(&start, &end, 100, 100);
    assert_eq!(done, end);
}

#[test]
fn uptime_subtracts_the_startup_offset() {
    assert_eq!(uptime_seconds(0), 0);
    assert_eq!(uptime_seconds(DISPLAY_TIME_OFFSET_MS), 0);
    assert_eq!(uptime_seconds(DISPLAY_TIME_OFFSET_MS + 999), 0);
    assert_eq!(uptime_seconds(DISPLAY_TIME_OFFSET_MS + 1_000), 1);
    assert_eq!(uptime_seconds(DISPLAY_TIME_OFFSET_MS + 61_500), 61);
}

#[test]
fn hms_splits_seconds_for_display() {
    assert_eq!(hms(0), (0, 0, 0));
    assert_eq!(hms(59), (0, 0, 59));
    assert_eq!(hms(3_661), (1, 1, 1));
    assert_eq!(hms(86_399), (23, 59, 59));
}

use camera_dolly::dolly::{
    DollyState, DollyStateMachine, Intent, IntentOutcome, MOVE_TOTAL_TICKS, TRAVEL_MAX, TRAVEL_MIN,
};
use camera_dolly::position::{Position, Range};

fn pos(slider: i32, pan: i32, tilt: i32) -> Position {
    Position { slider, pan, tilt }
}

#[test]
fn boot_starts_in_set_init_pos() {
    let m = DollyStateMachine::new();
    assert_eq!(m.state, DollyState::SetInitPos);
    assert_eq!(m.current, pos(0, 0, 0));
}

#[test]
fn full_record_home_play_scenario() {
    let mut m = DollyStateMachine::new();

    // boot -> SetInitPos; Confirm at (0,0,0) captures the start
    assert_eq!(m.on_intent(Intent::Confirm, 0), IntentOutcome::Applied);
    assert_eq!(m.state, DollyState::SetEndPos { start: pos(0, 0, 0) });

    // manual drive to (100, 50, -20), then Confirm captures the end
    m.apply_manual_delta(pos(100, 50, -20));
    assert_eq!(m.current, pos(100, 50, -20));
    assert_eq!(m.on_intent(Intent::Confirm, 0), IntentOutcome::Applied);
    match m.state {
        DollyState::GotoInit { range } => {
            assert_eq!(range.start(), pos(0, 0, 0));
            assert_eq!(range.end(), pos(100, 50, -20));
        }
        ref other => panic!("expected GotoInit, got {:?}", other),
    }
    assert_eq!(m.current, pos(100, 50, -20));

    // simulated ticks drive the pose home one step per axis per tick
    let mut ticks = 0;
    while !matches!(m.state, DollyState::Ready { .. }) {
        m.on_tick(0);
        ticks += 1;
        assert!(ticks <= 100, "homing took too many ticks");
    }
    assert_eq!(ticks, 100);
    assert_eq!(m.current, pos(0, 0, 0));
    let range = match m.state {
        DollyState::Ready { range } => range,
        ref other => panic!("expected Ready, got {:?}", other),
    };
    assert_eq!(range.start(), pos(0, 0, 0));
    assert_eq!(range.end(), pos(100, 50, -20));

    // Play starts the move at the recorded start
    assert_eq!(m.on_intent(Intent::Play, 1_000), IntentOutcome::Applied);
    assert_eq!(m.state, DollyState::Moving { range, started: 1_000 });
    assert_eq!(m.current, pos(0, 0, 0));

    // once the total duration has elapsed the pose is exactly the end
    m.on_tick(1_000 + MOVE_TOTAL_TICKS);
    assert_eq!(m.state, DollyState::Ready { range });
    assert_eq!(m.current, pos(100, 50, -20));
}

#[test]
fn moving_interpolates_and_never_overshoots() {
    let range = Range::new(pos(0, 0, 0), pos(100, -80, 20)).unwrap();
    let mut m = DollyStateMachine {
        state: DollyState::Ready { range },
        current: pos(7, 7, 7),
    };
    assert_eq!(m.on_intent(Intent::Play, 0), IntentOutcome::Applied);
    assert_eq!(m.current, pos(0, 0, 0));

    let mut last = m.current;
    for now in 1..=MOVE_TOTAL_TICKS {
        m.on_tick(now);
        let c = m.current;
        // monotonic toward the end, no overshoot
        assert!(c.slider >= last.slider && c.slider <= 100);
        assert!(c.pan <= last.pan && c.pan >= -80);
        assert!(c.tilt >= last.tilt && c.tilt <= 20);
        last = c;
    }
    assert_eq!(m.state, DollyState::Ready { range });
    assert_eq!(m.current, pos(100, -80, 20));
}

#[test]
fn confirm_with_equal_start_and_end_is_rejected() {
    let mut m = DollyStateMachine::new();
    assert_eq!(m.on_intent(Intent::Confirm, 0), IntentOutcome::Applied);
    // no motion since the start was captured: the pair is degenerate
    assert_eq!(m.on_intent(Intent::Confirm, 0), IntentOutcome::Rejected);
    assert_eq!(m.state, DollyState::SetEndPos { start: pos(0, 0, 0) });
    assert_eq!(m.current, pos(0, 0, 0));
}

#[test]
fn cancel_during_moving_returns_to_ready_without_touching_range() {
    let range = Range::new(pos(0, 0, 0), pos(10, 0, 0)).unwrap();
    let mut m = DollyStateMachine {
        state: DollyState::Moving { range, started: 42 },
        current: pos(3, 0, 0),
    };
    assert_eq!(m.on_intent(Intent::Cancel, 9_999), IntentOutcome::Applied);
    assert_eq!(m.state, DollyState::Ready { range });
    // the pose is left wherever it physically is
    assert_eq!(m.current, pos(3, 0, 0));
}

#[test]
fn cancel_in_set_end_pos_and_goto_init_aborts_to_set_init_pos() {
    let mut m = DollyStateMachine::new();
    m.on_intent(Intent::Confirm, 0);
    assert_eq!(m.on_intent(Intent::Cancel, 0), IntentOutcome::Applied);
    assert_eq!(m.state, DollyState::SetInitPos);

    let range = Range::new(pos(0, 0, 0), pos(10, 0, 0)).unwrap();
    let mut m2 = DollyStateMachine {
        state: DollyState::GotoInit { range },
        current: pos(10, 0, 0),
    };
    assert_eq!(m2.on_intent(Intent::Cancel, 0), IntentOutcome::Applied);
    assert_eq!(m2.state, DollyState::SetInitPos);
    assert_eq!(m2.current, pos(10, 0, 0));
}

#[test]
fn confirm_in_ready_rearms() {
    let range = Range::new(pos(0, 0, 0), pos(10, 0, 0)).unwrap();
    let mut m = DollyStateMachine {
        state: DollyState::Ready { range },
        current: pos(0, 0, 0),
    };
    assert_eq!(m.on_intent(Intent::Confirm, 0), IntentOutcome::Applied);
    assert_eq!(m.state, DollyState::SetInitPos);
}

#[test]
fn unhandled_intents_are_ignored_and_change_nothing() {
    let mut m = DollyStateMachine::new();
    assert_eq!(m.on_intent(Intent::Play, 0), IntentOutcome::Ignored);
    assert_eq!(m.on_intent(Intent::Cancel, 0), IntentOutcome::Ignored);
    assert_eq!(m.state, DollyState::SetInitPos);
    assert_eq!(m.current, pos(0, 0, 0));

    let range = Range::new(pos(0, 0, 0), pos(10, 0, 0)).unwrap();
    let mut mv = DollyStateMachine {
        state: DollyState::Moving { range, started: 0 },
        current: pos(0, 0, 0),
    };
    assert_eq!(mv.on_intent(Intent::Confirm, 0), IntentOutcome::Ignored);
    assert_eq!(mv.on_intent(Intent::Play, 0), IntentOutcome::Ignored);
    assert_eq!(mv.on_intent(Intent::JoystickDelta(5, 5), 0), IntentOutcome::Ignored);
    assert_eq!(mv.state, DollyState::Moving { range, started: 0 });
    assert_eq!(mv.current, pos(0, 0, 0));
}

#[test]
fn joystick_delta_drives_slider_and_pan_clamped() {
    let mut m = DollyStateMachine::new();
    assert_eq!(m.on_intent(Intent::JoystickDelta(150, -30), 0), IntentOutcome::Applied);
    assert_eq!(m.current, pos(150, -30, 0));

    // saturation at the travel clamp
    let mut far = DollyStateMachine::new();
    far.current = pos(TRAVEL_MAX - 1, TRAVEL_MIN + 1, 0);
    far.on_intent(Intent::JoystickDelta(200, -200), 0);
    assert_eq!(far.current, pos(TRAVEL_MAX, TRAVEL_MIN, 0));
}

#[test]
fn manual_drive_does_nothing_in_time_driven_states() {
    let range = Range::new(pos(0, 0, 0), pos(10, 0, 0)).unwrap();
    let mut m = DollyStateMachine {
        state: DollyState::GotoInit { range },
        current: pos(5, 5, 5),
    };
    m.apply_manual_delta(pos(1, 1, 1));
    assert_eq!(m.current, pos(5, 5, 5));
    assert_eq!(m.state, DollyState::GotoInit { range });
}

use camera_dolly::io::{AnalogRead, DigitalRead, State};
use camera_dolly::irremote::{decode, Command, Dir, IRRemote};
use camera_dolly::joystick::{joystick_delta, Joystick};
use camera_dolly::slot::CommandSlot;
use camera_dolly::switch::{level_means_pressed, Switch};

struct FixedAnalog(u16);

impl AnalogRead for FixedAnalog {
    fn read(&self) -> u16 {
        self.0
    }
}

struct FixedDigital(State);

impl DigitalRead for FixedDigital {
    fn read(&self) -> State {
        self.0
    }
}

#[test]
fn map_saturates_and_scales() {
    assert_eq!(camera_dolly::joystick::map(-500, (-500, 500), (-200, 200)), -200);
    assert_eq!(camera_dolly::joystick::map(0, (-500, 500), (-200, 200)), 0);
    assert_eq!(camera_dolly::joystick::map(1_000, (-500, 500), (-200, 200)), 200);
    assert_eq!(camera_dolly::joystick::map(500, (-500, 500), (-200, 200)), 200);
    assert_eq!(camera_dolly::joystick::map(-501, (-500, 500), (-200, 200)), -200);
    assert_eq!(camera_dolly::joystick::map(250, (-500, 500), (-200, 200)), 100);
    assert_eq!(camera_dolly::joystick::map(i32::MIN, (-500, 500), (-200, 200)), -200);
    assert_eq!(camera_dolly::joystick::map(i32::MAX, (-500, 500), (-200, 200)), 200);
}

#[test]
fn map_result_stays_in_the_output_range() {
    for v in (-2_000..=2_000).step_by(13) {
        let r = camera_dolly::joystick::map(v, (-500, 500), (-200, 200));
        assert!((-200..=200).contains(&r), "camera_dolly::joystick::map({v}) = {r} out of range");
    }
}

#[test]
fn joystick_delta_is_relative_to_rest_with_y_flipped() {
    assert_eq!(joystick_delta((512, 512), (512, 512)), (0, 0));
    assert_eq!(joystick_delta((520, 400), (512, 512)), (8, 112));
    assert_eq!(joystick_delta((0, 1_023), (512, 512)), (-512, -511));
}

#[test]
fn joystick_calibrates_at_rest_and_reads_the_switch() {
    let joy = Joystick::new(FixedAnalog(512), FixedAnalog(500), FixedDigital(State::LOW));
    // the pins have not moved since calibration, so the delta is zero
    assert_eq!(joy.get_pos(), (0, 0));
    assert!(joy.is_pressed());

    let idle = Joystick::new(FixedAnalog(512), FixedAnalog(500), FixedDigital(State::HIGH));
    assert!(!idle.is_pressed());
}

#[test]
fn switch_is_active_low() {
    assert!(level_means_pressed(State::LOW));
    assert!(!level_means_pressed(State::HIGH));
    assert!(Switch::new(FixedDigital(State::LOW)).is_pressed());
    assert!(!Switch::new(FixedDigital(State::HIGH)).is_pressed());
}

#[test]
fn decode_follows_the_configured_code_table() {
    let numbers = [
        (82, 0),
        (22, 1),
        (25, 2),
        (13, 3),
        (12, 4),
        (24, 5),
        (94, 6),
        (8, 7),
        (28, 8),
        (90, 9),
    ];
    for (code, n) in numbers {
        assert_eq!(decode(code), Some(Command::Number(n)));
    }
    assert_eq!(decode(64), Some(Command::OkKey));
    assert_eq!(decode(68), Some(Command::Direction(Dir::Left)));
    assert_eq!(decode(70), Some(Command::Direction(Dir::Up)));
    assert_eq!(decode(67), Some(Command::Direction(Dir::Right)));
    assert_eq!(decode(21), Some(Command::Direction(Dir::Down)));
    assert_eq!(decode(66), Some(Command::Asterisc));
    assert_eq!(decode(74), Some(Command::Numeral));
    assert_eq!(decode(0), None);
    assert_eq!(decode(255), None);
}

#[test]
fn command_slot_is_last_writer_wins() {
    let mut slot = CommandSlot::new();
    assert_eq!(slot.take(), None);
    slot.set(7);
    slot.set(9);
    assert_eq!(slot.take(), Some(9));
    assert_eq!(slot.take(), None);
}

#[test]
fn remote_drains_one_command_per_poll() {
    let mut remote = IRRemote::new();
    assert_eq!(remote.get_cmd(), None);
    remote.capture(64);
    assert_eq!(remote.get_cmd(), Some(Command::OkKey));
    assert_eq!(remote.get_cmd(), None);
    // an unknown code is drained but decodes to nothing
    remote.capture(1);
    assert_eq!(remote.get_cmd(), None);
    // a command arriving before the previous one is read overwrites it
    remote.capture(22);
    remote.capture(25);
    assert_eq!(remote.get_cmd(), Some(Command::Number(2)));
}

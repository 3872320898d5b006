use logic::algor::Algor;
use logic::auto::Auto;
use logic::button::ButtonArg;
use logic::bytecode::ByteCode;
use logic::controls::{belt, drive, solenoid};
use logic::drive_state::{calc_joy_voltage, DriveArg, DriveState};
use logic::log::{Level, LogEntry, Logger};
use logic::mixer::JoyStick;
use logic::relative::{Rel, RelAlign};
use logic::shaper::shape;

#[test]
fn calc_joy_voltage_precise_is_a_flat_percentage() {
    assert_eq!(calc_joy_voltage(0, 50, true), 6000);
    assert_eq!(calc_joy_voltage(127, 50, true), 6000);
    assert_eq!(calc_joy_voltage(10, 200, true), 12000);
}

#[test]
fn calc_joy_voltage_shapes_the_stick() {
    assert_eq!(calc_joy_voltage(0, 100, false), 0);
    assert_eq!(calc_joy_voltage(127, 100, false), 12000);
    assert_eq!(calc_joy_voltage(127, 50, false), 6000);
    assert_eq!(calc_joy_voltage(64, 100, false), shape(64));
}

#[test]
fn drive_state_of_no_arguments_is_stopped() {
    let state = DriveState::new(&[]);
    assert_eq!(state, DriveState { l1: 0, l2: 0, r1: 0, r2: 0, arm: 0 });
}

#[test]
fn drive_state_forward_drives_all_wheels() {
    let state = DriveState::new(&[DriveArg::Forward(127, false)]);
    assert_eq!(state, DriveState { l1: 12000, l2: 12000, r1: 12000, r2: 12000, arm: 0 });
}

#[test]
fn drive_state_backward_reverses_all_wheels() {
    let state = DriveState::new(&[DriveArg::Backward(127, false)]);
    assert_eq!(state, DriveState { l1: -12000, l2: -12000, r1: -12000, r2: -12000, arm: 0 });
}

#[test]
fn drive_state_turn_left_splits_the_sides() {
    let state = DriveState::new(&[DriveArg::TLeft(127, false)]);
    // full deflection at the 64 percent turning speed
    assert_eq!(state, DriveState { l1: -7680, l2: -7680, r1: 7680, r2: 7680, arm: 0 });
}

#[test]
fn drive_state_arm_and_movement_combine() {
    let state = DriveState::new(&[DriveArg::Forward(127, true), DriveArg::Arm(true)]);
    // precise forward is the flat full percentage
    assert_eq!(state, DriveState { l1: 12000, l2: 12000, r1: 12000, r2: 12000, arm: 12000 });
}

#[test]
fn drive_state_last_movement_wins() {
    let state = DriveState::new(&[DriveArg::SLeft, DriveArg::SRight]);
    assert_eq!(state, DriveState { l1: -12000, l2: 12000, r1: 12000, r2: -12000, arm: 0 });
}

#[test]
fn rel_tracks_and_corrects_a_drift() {
    let mut rel = Rel::new();
    // no drift: drive straight
    assert_eq!(rel.get_arg(100, false), DriveArg::Forward(100, false));
    // drift 90 degrees to the current side: correct by turning right
    rel.add(true, 90);
    assert_eq!(rel.get_arg(100, false), DriveArg::TRight(100, false));
    // and take it back
    rel.sub(true, 90);
    assert_eq!(rel.get_arg(100, false), DriveArg::Forward(100, false));
}

#[test]
fn rel_overflow_flips_the_side() {
    let mut rel = Rel::new();
    rel.add(true, 180);
    // within half a turn: still on the same side, straight is far away
    assert_eq!(rel.get_arg(1, false), DriveArg::TRight(1, false));
    // 180 + 30 overflows half a turn: 150 on the other side
    rel.add(true, 30);
    assert_eq!(rel.get_arg(1, false), DriveArg::TLeft(1, false));
}

#[test]
fn rel_record_only_counts_turns() {
    let mut rel = Rel::new();
    rel.record(&DriveArg::Forward(50, false));
    assert_eq!(rel.get_arg(2, true), DriveArg::Forward(2, true));
    // three recorded left turns drift 15 degrees past the threshold of 10
    rel.record(&DriveArg::TLeft(50, false));
    rel.record(&DriveArg::TLeft(50, false));
    rel.record(&DriveArg::TLeft(50, false));
    assert_eq!(rel.get_arg(2, true), DriveArg::TRight(2, true));
}

#[test]
fn rel_align_values_match_the_compass() {
    assert_eq!(RelAlign::N.value(), 0);
    assert_eq!(RelAlign::NE.value(), 45);
    assert_eq!(RelAlign::E.value(), 90);
    assert_eq!(RelAlign::SE.value(), 135);
    assert_eq!(RelAlign::S.value(), 180);
    assert_eq!(RelAlign::SW.value(), -135);
    assert_eq!(RelAlign::W.value(), -90);
    assert_eq!(RelAlign::NW.value(), -45);
}

#[test]
fn rel_align_names() {
    assert_eq!(RelAlign::N.to_string(), "North");
    assert_eq!(RelAlign::SW.to_string(), "SouthWest");
}

#[test]
fn button_arg_names() {
    assert_eq!(ButtonArg::Null.to_string(), "Null");
    assert_eq!(ButtonArg::Up.to_string(), "Up");
    assert_eq!(ButtonArg::Down.to_string(), "Down");
    assert_eq!(ButtonArg::A.to_string(), "A");
}

#[test]
fn algor_looks_up_by_tick_and_finishes() {
    let algor = Algor(vec![Some(DriveArg::Forward(10, false)), None, Some(DriveArg::SLeft)]);
    assert_eq!(algor.get(0), Some(DriveArg::Forward(10, false)));
    assert_eq!(algor.get(1), None);
    assert_eq!(algor.get(2), Some(DriveArg::SLeft));
    assert_eq!(algor.get(3), None);
    assert!(!algor.is_finished(2));
    assert!(algor.is_finished(3));
}

#[test]
fn auto_starts_every_channel_at_the_top() {
    let auto = Auto::new(
        vec![(100, 2)],
        vec![(200, 2)],
        vec![(-100, 2)],
        vec![(-200, 2)],
        vec![(0, 1)],
    );
    assert_eq!(auto.l1, (vec![(100, 2)], 0, 0));
    assert_eq!(auto.arm, (vec![(0, 1)], 0, 0));
}

#[test]
fn belt_buttons_pick_the_voltage() {
    assert_eq!(belt(true, false), ByteCode::Belt(12000));
    assert_eq!(belt(false, true), ByteCode::Belt(-12000));
    assert_eq!(belt(true, true), ByteCode::Belt(12000));
    assert_eq!(belt(false, false), ByteCode::Belt(0));
}

#[test]
fn solenoid_toggles_but_not_too_often() {
    let mut last = 0;
    let mut active = false;
    // the first window after start is still closed
    assert_eq!(solenoid(3, &mut last, &mut active, true), ByteCode::Solenoid(false));
    // after the delay a press toggles on
    assert_eq!(solenoid(8, &mut last, &mut active, true), ByteCode::Solenoid(true));
    assert_eq!(last, 8);
    // a press inside the next window is ignored
    assert_eq!(solenoid(12, &mut last, &mut active, true), ByteCode::Solenoid(true));
    // no press: state carries over
    assert_eq!(solenoid(20, &mut last, &mut active, false), ByteCode::Solenoid(true));
    // a later press toggles back off
    assert_eq!(solenoid(25, &mut last, &mut active, true), ByteCode::Solenoid(false));
}

#[test]
fn drive_shapes_both_axes() {
    assert_eq!(drive(JoyStick { x: 0, y: 127 }), ByteCode::Drive { x: 0, y: 12000 });
    assert_eq!(drive(JoyStick { x: -127, y: 0 }), ByteCode::Drive { x: -12000, y: 0 });
    assert_eq!(drive(JoyStick { x: 64, y: 64 }), ByteCode::Drive { x: shape(64), y: shape(64) });
}

#[test]
fn log_levels_order_by_severity() {
    assert!(Level::Warning.at_least(Level::Debug));
    assert!(Level::Info.at_least(Level::Info));
    assert!(!Level::Debug.at_least(Level::Info));
}

#[test]
fn logger_buffers_until_full_then_refuses() {
    let mut logger = Logger::new();
    for i in 0..32 {
        let entry = LogEntry { level: Level::Info, msg: format!("message {i}") };
        assert!(logger.log(entry).is_ok());
    }
    let overflow = LogEntry { level: Level::Warning, msg: String::from("one too many") };
    let back = logger.log(overflow);
    assert!(back.is_err());
    // flushing drains everything, oldest first, and makes room again
    let drained = logger.flush();
    assert_eq!(drained.len(), 32);
    assert_eq!(drained[0].msg, "message 0");
    assert_eq!(drained[31].msg, "message 31");
    let entry = LogEntry { level: Level::Debug, msg: String::from("fresh") };
    assert!(logger.log(entry).is_ok());
    assert_eq!(logger.flush().len(), 1);
}

#[test]
fn drive_args_centred_sticks_ask_nothing() {
    let centred = JoyStick { x: 0, y: 0 };
    let args = DriveArg::new(centred, centred, false, false, false, false);
    assert!(args.is_empty());
}

#[test]
fn drive_args_deadzone_swallows_small_deflections() {
    let wobble = JoyStick { x: 5, y: -9 };
    let centred = JoyStick { x: 0, y: 0 };
    let args = DriveArg::new(wobble, centred, false, false, false, false);
    assert!(args.is_empty());
}

#[test]
fn drive_args_left_stick_moves_normally() {
    let centred = JoyStick { x: 0, y: 0 };
    let args = DriveArg::new(JoyStick { x: 0, y: 100 }, centred, false, false, false, false);
    assert_eq!(args, vec![DriveArg::Forward(100, false)]);
    let args = DriveArg::new(JoyStick { x: -80, y: 20 }, centred, false, false, false, false);
    assert_eq!(args, vec![DriveArg::TLeft(80, false)]);
    let args = DriveArg::new(JoyStick { x: 0, y: -50 }, centred, false, false, false, false);
    assert_eq!(args, vec![DriveArg::Backward(50, false)]);
}

#[test]
fn drive_args_right_stick_takes_over_precisely() {
    let args = DriveArg::new(
        JoyStick { x: 0, y: 100 },
        JoyStick { x: 30, y: 0 },
        false,
        false,
        false,
        false,
    );
    assert_eq!(args, vec![DriveArg::TRight(30, true)]);
}

#[test]
fn drive_args_strafe_only_without_movement() {
    let centred = JoyStick { x: 0, y: 0 };
    let args = DriveArg::new(centred, centred, true, false, false, false);
    assert_eq!(args, vec![DriveArg::SLeft]);
    let args = DriveArg::new(centred, centred, false, true, false, false);
    assert_eq!(args, vec![DriveArg::SRight]);
    // a moving stick silences the strafe buttons
    let args = DriveArg::new(JoyStick { x: 0, y: 100 }, centred, true, false, false, false);
    assert_eq!(args, vec![DriveArg::Forward(100, false)]);
}

#[test]
fn drive_args_arm_buttons_always_apply() {
    let centred = JoyStick { x: 0, y: 0 };
    let args = DriveArg::new(JoyStick { x: 0, y: 100 }, centred, false, false, true, false);
    assert_eq!(args, vec![DriveArg::Forward(100, false), DriveArg::Arm(true)]);
    // up wins over down
    let args = DriveArg::new(centred, centred, false, false, true, true);
    assert_eq!(args, vec![DriveArg::Arm(true)]);
    let args = DriveArg::new(centred, centred, false, false, false, true);
    assert_eq!(args, vec![DriveArg::Arm(false)]);
}

#[test]
fn rel_align_composes_both_offsets() {
    let mut rel = Rel::new();
    // aiming east from north: the tracked difference swings a quarter turn
    rel.align(RelAlign::E);
    assert_eq!(rel.get_arg(3, false), DriveArg::TRight(3, false));
    // aiming back north undoes it exactly
    rel.align(RelAlign::N);
    assert_eq!(rel.get_arg(3, false), DriveArg::Forward(3, false));
}

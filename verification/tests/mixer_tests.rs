use logic::mixer::{arcade, damp_volts, gen_drive_inst, JoyStick};
use logic::shaper::shape;

#[test]
fn arcade_outputs_stay_in_range() {
    let samples = [-12000, -6000, -1, 0, 1, 6000, 12000];
    for x in samples {
        for y in samples {
            let (l, r) = arcade(x, y);
            assert!((-12000..=12000).contains(&l));
            assert!((-12000..=12000).contains(&r));
        }
    }
}

#[test]
fn arcade_mixes_and_saturates() {
    assert_eq!(arcade(0, 12000), (12000, 12000));
    assert_eq!(arcade(12000, 0), (12000, -12000));
    assert_eq!(arcade(12000, 12000), (12000, 0));
    assert_eq!(arcade(-3000, 6000), (3000, 9000));
    assert_eq!(arcade(0, 0), (0, 0));
}

#[test]
fn full_deflection_drives_both_sides_at_full_scale() {
    // end to end: a fully pushed stick shapes to full scale and mixes to
    // full drive on both sides
    assert_eq!(shape(127), 12000);
    assert_eq!(arcade(0, shape(127)), (12000, 12000));
}

#[test]
fn shape_is_odd_and_anchored() {
    assert_eq!(shape(0), 0);
    assert_eq!(shape(-127), -12000);
    for x in [1, 13, 64, 100, 127] {
        assert_eq!(shape(-x), -shape(x));
    }
}

#[test]
fn shape_grows_with_deflection() {
    let mut prev = shape(0);
    for x in 1..=127 {
        let cur = shape(x);
        assert!(cur >= prev, "shape({x}) = {cur} fell below {prev}");
        prev = cur;
    }
    // spot values of the exponential response
    assert!(shape(64) < 6000, "the curve is exponential, not linear");
}

#[test]
fn damp_volts_limits_sudden_changes() {
    let mut prev = (0, 0);
    // a sudden full command only moves 16 percent of the way
    assert_eq!(damp_volts((12000, 12000), &mut prev), (1920, 1920));
    assert_eq!(prev, (1920, 1920));
    // and keeps creeping toward it
    let (l, r) = damp_volts((12000, 12000), &mut prev);
    assert_eq!((l, r), (3532, 3532));
}

#[test]
fn damp_volts_never_overshoots_the_new_value() {
    let mut prev = (12000, -12000);
    // the new value's magnitude is the ceiling
    assert_eq!(damp_volts((100, -100), &mut prev), (100, -100));
    // a zero command stops immediately
    let mut prev = (500, 500);
    assert_eq!(damp_volts((0, 0), &mut prev), (0, 0));
}

#[test]
fn gen_drive_inst_centred_stick_is_still() {
    assert_eq!(gen_drive_inst(JoyStick { x: 0, y: 0 }, false, false), (0, 0));
}

#[test]
fn gen_drive_inst_full_forward_is_full_drive() {
    assert_eq!(gen_drive_inst(JoyStick { x: 0, y: 127 }, false, false), (12000, 12000));
}

#[test]
fn gen_drive_inst_reversed_swaps_and_flips() {
    let forward = gen_drive_inst(JoyStick { x: 40, y: 90 }, false, false);
    let reversed = gen_drive_inst(JoyStick { x: 40, y: 90 }, true, false);
    assert_eq!(reversed, (-forward.1, -forward.0));
}

#[test]
fn gen_drive_inst_precise_slows_everything() {
    let normal = gen_drive_inst(JoyStick { x: 0, y: 127 }, false, false);
    let precise = gen_drive_inst(JoyStick { x: 0, y: 127 }, false, true);
    assert_eq!(precise, (normal.0 * 60 / 100, normal.1 * 60 / 100));
}

#[test]
fn gen_drive_inst_turn_is_slowed() {
    // a pure turn at full deflection runs at 64 percent of full scale
    let (l, r) = gen_drive_inst(JoyStick { x: 127, y: 0 }, false, false);
    assert_eq!((l, r), (7680, -7680));
}

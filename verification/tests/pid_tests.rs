use logic::pid::{update, DiffFn, PIDConsts, PIDState};

fn consts(kp_milli: i64, ki_milli: i64, prediction_window_ms: i64, saturation: i64) -> PIDConsts {
    PIDConsts { kp_milli, ki_milli, prediction_window_ms, saturation }
}

#[test]
fn proportional_correction_of_a_fresh_state() {
    let mut state = PIDState::default();
    // unit gain, no integral, no prediction
    let c = consts(1000, 0, 0, 12000);
    let out = update(0, 100, 10, &mut state, &c, DiffFn::Linear);
    assert_eq!(out, 100);
}

#[test]
fn output_saturates_at_the_limit_regardless_of_inputs() {
    let c = consts(1000000, 1000000, 10000, 12000);
    let extremes = [-1000000000, -12345, 0, 777, 1000000000];
    for &m in &extremes {
        for &t in &extremes {
            for diff in [DiffFn::Linear, DiffFn::Angular] {
                let mut state = PIDState::default();
                for dt in [1, 10, 1000000] {
                    let out = update(m, t, dt, &mut state, &c, diff);
                    assert!(out >= -12000, "output {out} below -saturation");
                    assert!(out <= 12000, "output {out} above saturation");
                }
            }
        }
    }
}

#[test]
fn saturated_proportional_output_is_clamped() {
    let mut state = PIDState::default();
    let c = consts(1000000, 0, 0, 12000);
    assert_eq!(update(0, 1000000000, 10, &mut state, &c, DiffFn::Linear), 12000);
    let mut state = PIDState::default();
    assert_eq!(update(0, -1000000000, 10, &mut state, &c, DiffFn::Linear), -12000);
}

#[test]
fn integral_accumulates_and_antiwindup_stops_it() {
    // no proportional gain: the output is the integral alone, which lags
    // one tick behind
    let c = consts(0, 1000000, 0, 12000);
    let mut state = PIDState::default();
    // each call adds 1000 * error to the integral (ki * dt / 1000000 = 1000)
    assert_eq!(update(0, 10, 1000, &mut state, &c, DiffFn::Linear), 0);
    assert_eq!(update(0, 10, 1000, &mut state, &c, DiffFn::Linear), 10000);
    // the integral reached 20000; output clamps to saturation and the
    // anti-windup now refuses to accumulate further
    assert_eq!(update(0, 10, 1000, &mut state, &c, DiffFn::Linear), 12000);
    assert_eq!(update(0, 10, 1000, &mut state, &c, DiffFn::Linear), 12000);
    // an error of the opposite sign unwinds it even while saturated
    assert_eq!(update(0, -10, 1000, &mut state, &c, DiffFn::Linear), 12000);
    assert_eq!(update(0, -10, 1000, &mut state, &c, DiffFn::Linear), 10000);
}

#[test]
fn angular_error_takes_the_short_way_round() {
    let mut state = PIDState::default();
    let c = consts(1000, 0, 0, 12000);
    // standing still at 179 degrees, aiming at -179: the short way is +2
    // degrees, so the correction is small and positive
    state.prev_measure = 17900;
    let out = update(17900, -17900, 1000, &mut state, &c, DiffFn::Angular);
    assert_eq!(out, 200);
}

#[test]
fn prediction_leads_a_moving_measurement() {
    // unit gain, a one-second lookahead, linear space
    let c = consts(1000, 0, 1000, 1000000);
    let mut state = PIDState::default();
    // first tick: standing at 0 (no history, no motion)
    assert_eq!(update(0, 1000, 1000, &mut state, &c, DiffFn::Linear), 1000);
    // second tick: moved to 100 in one second, so velocity is 100 per
    // second, acceleration 100 and jerk 100; one second out the predictor
    // sees 100 + (100 + (100 + 100)) = 400, and the error shrinks to 600
    assert_eq!(update(100, 1000, 1000, &mut state, &c, DiffFn::Linear), 600);
}

#[test]
fn default_state_is_zeroed() {
    let state = PIDState::default();
    assert_eq!(state.integral, 0);
    assert_eq!(state.prev_measure, 0);
    assert_eq!(state.prev_velocity, 0);
    assert_eq!(state.prev_accel, 0);
}

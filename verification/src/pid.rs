//! A proportional-integral corrector with dynamic anti-windup and
//! short-horizon prediction.
//!
//! The controller estimates velocity, acceleration and jerk from successive
//! measurements by finite differences, predicts the measurement a short
//! window ahead, and corrects against the predicted measurement instead of
//! the raw one. The proportional term is clamped to the saturation limit;
//! the integral term only accumulates while that cannot push the combined
//! output past saturation, or while unwinding against the error's sign.
//!
//! Gains are in thousandths (a `kp_milli` of 1000 is a gain of one output
//! unit per unit of error); times are in milliseconds. The same controller
//! serves both the angular error space (wraparound-aware differences) and
//! the linear one (plain subtraction).

use vstd::prelude::*;

verus! {

use crate::maths::{abs, clamp, div_trunc};
use crate::odom::angle_diff_of;

/// How the controller measures the difference between two values: as the
/// lowest wraparound-aware angle difference, or as plain subtraction.
#[derive(Clone, Copy, Debug, PartialEq, Eq, Structural)]
pub enum DiffFn {
    /// Wraparound-aware angular difference in centidegrees.
    Angular,
    /// Plain subtraction, for linear error spaces.
    Linear,
}

/// The difference `a - b` as the chosen error space measures it.
pub open spec fn diff_of(diff: DiffFn, a: int, b: int) -> int {
    match diff {
        DiffFn::Angular => angle_diff_of(a, b),
        DiffFn::Linear => a - b,
    }
}

/// PID controller constants. Immutable configuration, not owned by any
/// running state.
#[derive(Clone, Copy, Debug, PartialEq, Eq, Structural)]
pub struct PIDConsts {
    /// The proportional gain, in thousandths of an output unit per error unit.
    pub kp_milli: i64,
    /// The integral gain, in thousandths of an output unit per error unit
    /// second.
    pub ki_milli: i64,
    /// How far into the future the controller predicts, in milliseconds.
    pub prediction_window_ms: i64,
    /// The saturation point (output limit); must be positive.
    pub saturation: i64,
}

impl PIDConsts {
    /// The gains are within their configured ranges and the saturation
    /// limit is positive.
    pub open spec fn wf(self) -> bool {
        &&& 0 <= self.kp_milli <= 1000000
        &&& 0 <= self.ki_milli <= 1000000
        &&& 0 <= self.prediction_window_ms <= 10000
        &&& 0 < self.saturation <= 1000000000
    }
}

/// The largest magnitude the stored integral is allowed to reach.
pub const INTEGRAL_CAP: i64 = 1000000000000000000;

/// A running state of the PID controller. Reset it at the start of each
/// corrective maneuver; stale history corrupts the first correction.
#[derive(Clone, Copy, Debug, PartialEq, Eq, Structural)]
pub struct PIDState {
    /// The accumulated integral term.
    pub integral: i64,
    /// The previous measurement.
    pub prev_measure: i64,
    /// The previous velocity estimate.
    pub prev_velocity: i64,
    /// The previous acceleration estimate.
    pub prev_accel: i64,
}

impl PIDState {
    /// The stored history is within the bounds every update keeps it in.
    pub open spec fn wf(self) -> bool {
        &&& -1000000000 <= self.prev_measure <= 1000000000
        &&& -3000000000000 <= self.prev_velocity <= 3000000000000
        &&& -6000000000000000 <= self.prev_accel <= 6000000000000000
        &&& -1000000000000000000 <= self.integral <= 1000000000000000000
    }
}

impl Default for PIDState {
    /// A fresh controller state with no history.
    fn default() -> (r: PIDState)
        ensures
            r == (PIDState { integral: 0, prev_measure: 0, prev_velocity: 0, prev_accel: 0 }),
            r.wf(),
    {
        PIDState { integral: 0, prev_measure: 0, prev_velocity: 0, prev_accel: 0 }
    }
}

/// The velocity estimate for this tick: the measured difference over the
/// tick time, scaled to per-second units.
pub open spec fn velocity_of(diff: DiffFn, m: int, prev_measure: int, dt_ms: int) -> int {
    div_trunc(diff_of(diff, m, prev_measure) * 1000, dt_ms)
}

/// A finite difference of two successive per-second estimates over the
/// tick time.
pub open spec fn derivative_of(cur: int, prev: int, dt_ms: int) -> int {
    div_trunc((cur - prev) * 1000, dt_ms)
}

/// The measurement predicted `pw_ms` milliseconds ahead from the current
/// measurement and the velocity, acceleration and jerk estimates.
pub open spec fn predicted_of(m: int, velocity: int, accel: int, jerk: int, pw_ms: int) -> int {
    let future_accel = accel + div_trunc(jerk * pw_ms, 1000);
    let future_vel = velocity + div_trunc(future_accel * pw_ms, 1000);
    m + div_trunc(future_vel * pw_ms, 1000)
}

/// The error the controller corrects: the difference between the target
/// and the predicted measurement.
pub open spec fn error_of(diff: DiffFn, m: int, target: int, state: PIDState, dt_ms: int, pw_ms: int) -> int {
    let velocity = velocity_of(diff, m, state.prev_measure as int, dt_ms);
    let accel = derivative_of(velocity, state.prev_velocity as int, dt_ms);
    let jerk = derivative_of(accel, state.prev_accel as int, dt_ms);
    diff_of(diff, target, predicted_of(m, velocity, accel, jerk, pw_ms))
}

/// The proportional term: the gained error, clamped to saturation.
pub open spec fn proportional_of(consts: PIDConsts, error: int) -> int {
    clamp(
        div_trunc(consts.kp_milli as int * error, 1000),
        -(consts.saturation as int),
        consts.saturation as int,
    )
}

/// Whether the dynamic anti-windup lets the integral accumulate this tick:
/// either the combined proportional and integral output is still inside
/// saturation, or the integral's sign opposes the error's sign so it can
/// unwind.
pub open spec fn windup_allows(integral: int, proportional: int, error: int, saturation: int) -> bool {
    ||| abs(integral) < saturation - abs(proportional)
    ||| ((integral >= 0) != (error >= 0))
}

/// One tick's addition to the integral term.
pub open spec fn integral_step_of(consts: PIDConsts, dt_ms: int, error: int) -> int {
    div_trunc(consts.ki_milli as int * dt_ms * error, 1000000)
}

/// The integral term after this tick: unchanged when anti-windup blocks
/// accumulation, otherwise stepped and kept inside the representation cap.
pub open spec fn integral_after_of(consts: PIDConsts, state: PIDState, dt_ms: int, error: int) -> int {
    let proportional = proportional_of(consts, error);
    if windup_allows(state.integral as int, proportional, error, consts.saturation as int) {
        clamp(
            state.integral + integral_step_of(consts, dt_ms, error),
            -1000000000000000000,
            1000000000000000000,
        )
    } else {
        state.integral as int
    }
}

/// The controller output: the clamped proportional term plus the integral
/// accumulated up to (but not including) this tick, saturated.
pub open spec fn output_of(consts: PIDConsts, state: PIDState, error: int) -> int {
    clamp(
        proportional_of(consts, error) + state.integral,
        -(consts.saturation as int),
        consts.saturation as int,
    )
}

/// The measured difference is never larger than both magnitudes plus a
/// full turn.
proof fn lemma_diff_bound(diff: DiffFn, a: int, b: int)
    ensures
        abs(diff_of(diff, a, b)) <= 36000 + abs(a) + abs(b),
{
}

/// Multiplies two values whose product fits without overflowing.
fn mul_i128(a: i128, b: i128) -> (r: i128)
    requires
        abs(a as int * b as int) <= 0x7fffffffffffffffffffffffffffffff,
    ensures
        r == a as int * b as int,
{
    a * b
}

/// Divides by a positive value, truncating toward zero as the executable
/// `/` operator does.
fn div_trunc_i128(a: i128, b: i128) -> (r: i128)
    requires
        b > 0,
        a > i128::MIN,
    ensures
        r == div_trunc(a as int, b as int),
        abs(r as int) <= abs(a as int),
        abs(r as int) * (b as int) <= abs(a as int),
{
    proof {
        let n = abs(a as int);
        let q = n / (b as int);
        vstd::arithmetic::div_mod::lemma_div_pos_is_pos(n, b as int);
        vstd::arithmetic::div_mod::lemma_fundamental_div_mod(n, b as int);
        vstd::arithmetic::div_mod::lemma_mod_division_less_than_divisor(n, b as int);
        assert(q * (b as int) == (b as int) * q) by (nonlinear_arith);
    }
    if a >= 0 {
        a / b
    } else {
        -((-a) / b)
    }
}

/// The difference `a - b` in the chosen error space.
fn diff_exec(diff: DiffFn, a: i128, b: i128) -> (r: i128)
    requires
        abs(a as int) <= 100000000000000000000000000,
        abs(b as int) <= 100000000000000000000000000,
    ensures
        r == diff_of(diff, a as int, b as int),
        abs(r as int) <= 36000 + abs(a as int) + abs(b as int),
{
    proof {
        lemma_diff_bound(diff, a as int, b as int);
    }
    match diff {
        DiffFn::Linear => a - b,
        DiffFn::Angular => {
            let d1 = a - b;
            let aa = if a < 0 { -a } else { a };
            let ab = if b < 0 { -b } else { b };
            let d2 = if b < 0 { -(36000 - aa - ab) } else { 36000 - aa - ab };
            let m1 = if d1 < 0 { -d1 } else { d1 };
            let m2 = if d2 < 0 { -d2 } else { d2 };
            if m2 < m1 { d2 } else { d1 }
        },
    }
}

/// Updates the controller from the current target and measurement and
/// returns the corrective output, which always stays inside
/// `[-saturation, saturation]` regardless of input magnitude.
#[verifier::rlimit(50)]
pub fn update(
    measurement: i64,
    target: i64,
    delta_ms: i64,
    state: &mut PIDState,
    consts: &PIDConsts,
    diff: DiffFn,
) -> (output: i64)
    requires
        consts.wf(),
        old(state).wf(),
        1 <= delta_ms <= 1000000,
        -1000000000 <= measurement <= 1000000000,
        -1000000000 <= target <= 1000000000,
    ensures
        final(state).wf(),
        final(state).prev_measure == measurement,
        final(state).prev_velocity == velocity_of(diff, measurement as int, old(state).prev_measure as int, delta_ms as int),
        final(state).prev_accel == derivative_of(
            velocity_of(diff, measurement as int, old(state).prev_measure as int, delta_ms as int),
            old(state).prev_velocity as int,
            delta_ms as int,
        ),
        final(state).integral == integral_after_of(
            *consts,
            *old(state),
            delta_ms as int,
            error_of(diff, measurement as int, target as int, *old(state), delta_ms as int, consts.prediction_window_ms as int),
        ),
        output == output_of(
            *consts,
            *old(state),
            error_of(diff, measurement as int, target as int, *old(state), delta_ms as int, consts.prediction_window_ms as int),
        ),
        -consts.saturation <= output <= consts.saturation,
{
    let dt = delta_ms as i128;
    let m = measurement as i128;
    let t = target as i128;
    let pw = consts.prediction_window_ms as i128;

    // velocity, acceleration and jerk by finite differences
    let measure_delta = diff_exec(diff, m, state.prev_measure as i128);
    let velocity = div_trunc_i128(mul_i128(measure_delta, 1000), dt);
    assert(abs(velocity as int) <= 2000036000000);
    let accel = div_trunc_i128(mul_i128(velocity - state.prev_velocity as i128, 1000), dt);
    assert(abs(accel as int) <= 5000036000000000);
    let jerk = div_trunc_i128(mul_i128(accel - state.prev_accel as i128, 1000), dt);
    assert(abs(jerk as int) <= 11000036000000000000);

    // update the measurement history
    state.prev_measure = measurement;
    state.prev_velocity = velocity as i64;
    state.prev_accel = accel as i64;

    // predict the future measurement from velocity, acceleration and jerk
    proof {
        assert(abs(jerk as int * pw as int) <= 110000360000000000000000) by (nonlinear_arith)
            requires
                abs(jerk as int) <= 11000036000000000000,
                0 <= pw as int <= 10000,
        ;
    }
    let future_accel = accel + div_trunc_i128(mul_i128(jerk, pw), 1000);
    assert(abs(future_accel as int) <= 110006000000000000000);
    proof {
        assert(abs(future_accel as int * pw as int) <= 1100060000000000000000000) by (nonlinear_arith)
            requires
                abs(future_accel as int) <= 110006000000000000000,
                0 <= pw as int <= 10000,
        ;
    }
    let future_vel = velocity + div_trunc_i128(mul_i128(future_accel, pw), 1000);
    assert(abs(future_vel as int) <= 1100070000000000000000);
    proof {
        assert(abs(future_vel as int * pw as int) <= 11000700000000000000000000) by (nonlinear_arith)
            requires
                abs(future_vel as int) <= 1100070000000000000000,
                0 <= pw as int <= 10000,
        ;
    }
    let predicted = m + div_trunc_i128(mul_i128(future_vel, pw), 1000);
    assert(abs(predicted as int) <= 11001000000000000000000);

    // the error against the predicted measurement
    let error = diff_exec(diff, t, predicted);
    assert(abs(error as int) <= 11002000000000000000000);
    proof {
        assert(velocity as int == velocity_of(
            diff,
            measurement as int,
            old(state).prev_measure as int,
            delta_ms as int,
        ));
        assert(accel as int == derivative_of(
            velocity as int,
            old(state).prev_velocity as int,
            delta_ms as int,
        ));
        assert(jerk as int == derivative_of(
            accel as int,
            old(state).prev_accel as int,
            delta_ms as int,
        ));
        assert(predicted as int == predicted_of(
            measurement as int,
            velocity as int,
            accel as int,
            jerk as int,
            consts.prediction_window_ms as int,
        ));
        assert(error as int == error_of(
            diff,
            measurement as int,
            target as int,
            *old(state),
            delta_ms as int,
            consts.prediction_window_ms as int,
        ));
    }

    // the proportional correction, clamped to saturation
    let sat = consts.saturation as i128;
    proof {
        assert(abs(error as int * consts.kp_milli as int) <= 11002000000000000000000000000) by (nonlinear_arith)
            requires
                abs(error as int) <= 11002000000000000000000,
                0 <= consts.kp_milli as int <= 1000000,
        ;
    }
    let pc_raw = div_trunc_i128(mul_i128(error, consts.kp_milli as i128), 1000);
    let pc = if pc_raw < -sat {
        -sat
    } else if pc_raw > sat {
        sat
    } else {
        pc_raw
    };
    proof {
        assert(pc as int == proportional_of(*consts, error as int));
    }

    // the integral correction uses what accumulated before this tick
    let ic = state.integral as i128;

    // integrate with dynamic anti-windup
    let abs_pc = if pc < 0 { -pc } else { pc };
    let abs_ic = if ic < 0 { -ic } else { ic };
    if abs_ic < sat - abs_pc || ((ic >= 0) != (error >= 0)) {
        proof {
            assert(abs(consts.ki_milli as int * dt as int) <= 1000000000000) by (nonlinear_arith)
                requires
                    0 <= consts.ki_milli as int <= 1000000,
                    1 <= dt as int <= 1000000,
            ;
        }
        let gained_dt = mul_i128(consts.ki_milli as i128, dt);
        proof {
            assert(abs(gained_dt as int * error as int) <= 11002000000000000000000000000000000)
                by (nonlinear_arith)
                requires
                    abs(gained_dt as int) <= 1000000000000,
                    abs(error as int) <= 11002000000000000000000,
            ;
        }
        let step = div_trunc_i128(mul_i128(gained_dt, error), 1000000);
        let grown = ic + step;
        let capped = if grown < -1000000000000000000 {
            -1000000000000000000
        } else if grown > 1000000000000000000 {
            1000000000000000000
        } else {
            grown
        };
        state.integral = capped as i64;
    }
    proof {
        assert(state.integral as int == integral_after_of(
            *consts,
            *old(state),
            delta_ms as int,
            error as int,
        ));
    }

    // combine and saturate the output
    let combined = pc + ic;
    let out = if combined < -sat {
        -sat
    } else if combined > sat {
        sat
    } else {
        combined
    };
    proof {
        assert(out as int == output_of(*consts, *old(state), error as int));
    }
    out as i64
}

} // verus!

//! Odometry: integrating successive rotation-sensor readings from two
//! parallel tracking wheels into a one-dimensional position estimate.
//!
//! Sensor angles arrive in centidegrees in `[0, 36000)`; positions are
//! accumulated in micrometres.

use vstd::prelude::*;

verus! {

use crate::maths::{abs, avg, sign};

/// Wheel circumference in micrometres (a 101.6 mm wheel).
pub const WHEEL_CIRC_UM: i64 = 319186;

/// One full turn of the rotation sensor in centidegrees.
pub const FULL_TURN_CDEG: i32 = 36000;

/// The signed rotation delta, in centidegrees, between two sensor readings:
/// either the plain difference or the plain difference brought back by a
/// full turn, whichever has the smaller magnitude. A tie keeps the plain
/// difference, except when that would land on minus half a turn, where the
/// positive half-turn is the one inside the range `(-18000, 18000]`.
pub open spec fn lowest_delta_of(prev: int, current: int) -> int {
    let d1 = current - prev;
    let d2 = d1 - 36000 * sign(d1);
    if abs(d2) < abs(d1) || d1 == -18000 {
        d2
    } else {
        d1
    }
}

/// Finds the difference in rotation between the previous and current
/// reading of a rotation sensor, picking the smallest wraparound-aware
/// delta. The result is zero exactly when the readings are equal, and is
/// always inside `(-18000, 18000]` centidegrees (half a turn each way).
pub fn lowest_rotation_delta(prev: i32, current: i32) -> (r: i32)
    requires
        0 <= prev < 36000,
        0 <= current < 36000,
    ensures
        r == lowest_delta_of(prev as int, current as int),
        -18000 < r <= 18000,
        abs(r as int) <= 18000,
        prev == current ==> r == 0,
{
    let d1 = current - prev;
    let d2 = if d1 < 0 {
        d1 + 36000
    } else {
        d1 - 36000
    };
    let a1 = if d1 < 0 {
        -d1
    } else {
        d1
    };
    let a2 = if d2 < 0 {
        -d2
    } else {
        d2
    };
    if a2 < a1 || d1 == -18000 {
        d2
    } else {
        d1
    }
}

/// The lowest difference between two signed angles in `[-18000, 18000]`
/// centidegrees: either the plain difference, or the leftover of a full
/// turn after both magnitudes, signed like the second angle, whichever has
/// the smaller magnitude; ties keep the plain difference.
pub open spec fn angle_diff_of(x: int, y: int) -> int {
    let d1 = x - y;
    let d2 = (36000 - abs(x) - abs(y)) * sign(y);
    if abs(d2) < abs(d1) {
        d2
    } else {
        d1
    }
}

/// Finds the lowest difference in angle between two signed centidegree
/// angles, as the yaw corrector measures rotational error.
pub fn low_angle_diff(x: i32, y: i32) -> (r: i32)
    requires
        -18000 <= x <= 18000,
        -18000 <= y <= 18000,
    ensures
        r == angle_diff_of(x as int, y as int),
{
    let d1 = x - y;
    let ax = if x < 0 {
        -x
    } else {
        x
    };
    let ay = if y < 0 {
        -y
    } else {
        y
    };
    let d2 = if y < 0 {
        -(36000 - ax - ay)
    } else {
        36000 - ax - ay
    };
    let a1 = if d1 < 0 {
        -d1
    } else {
        d1
    };
    let a2 = if d2 < 0 {
        -d2
    } else {
        d2
    };
    if a2 < a1 {
        d2
    } else {
        d1
    }
}

/// The linear arc length, in micrometres, that a rotation delta of
/// `delta_cdeg` centidegrees rolls along a wheel of circumference
/// `WHEEL_CIRC_UM`: the exact proportion of a full turn, truncated toward
/// zero.
pub open spec fn arc_um_of(delta_cdeg: int) -> int {
    sign(delta_cdeg) * (abs(delta_cdeg) * 319186 / 36000)
}

/// The odometry state: the previous reading of each tracking wheel's
/// rotation sensor, and the accumulated position estimate in micrometres.
pub struct OdomState {
    /// Previous left rotation-sensor reading, centidegrees in `[0, 36000)`.
    pub prev_ly: i32,
    /// Previous right rotation-sensor reading, centidegrees in `[0, 36000)`.
    pub prev_ry: i32,
    /// The accumulated position estimate in micrometres.
    pub y_um: i64,
}

impl OdomState {
    /// Both stored sensor readings are inside the sensor's range.
    pub open spec fn wf(self) -> bool {
        &&& 0 <= self.prev_ly < 36000
        &&& 0 <= self.prev_ry < 36000
    }

    /// Starts tracking from a pair of baseline sensor readings, so that the
    /// first update sees a delta of zero from a stationary robot.
    pub fn new(left_cdeg: i32, right_cdeg: i32) -> (r: OdomState)
        requires
            0 <= left_cdeg < 36000,
            0 <= right_cdeg < 36000,
        ensures
            r.wf(),
            r.prev_ly == left_cdeg,
            r.prev_ry == right_cdeg,
            r.y_um == 0,
    {
        OdomState { prev_ly: left_cdeg, prev_ry: right_cdeg, y_um: 0 }
    }
}

/// Approximates the linear distance travelled, in micrometres, from the
/// previous and current angle of one rotation sensor, and stores the
/// current angle as the new baseline.
pub fn distance(current: i32, prev: &mut i32) -> (d: i64)
    requires
        0 <= current < 36000,
        0 <= *old(prev) < 36000,
    ensures
        *final(prev) == current,
        d == arc_um_of(lowest_delta_of(*old(prev) as int, current as int)),
        -159593 <= d <= 159593,
{
    let delta = lowest_rotation_delta(*prev, current);
    *prev = current;
    let mag = (if delta < 0 {
        -delta
    } else {
        delta
    }) as i64;
    let arc = mag * 319186 / 36000;
    if delta < 0 {
        -arc
    } else {
        arc
    }
}

/// Integrates one tick's pair of sensor readings into the position
/// estimate: each rail's wraparound-aware delta becomes an arc length, the
/// two arcs are averaged, and the average is accumulated. Must be called
/// every tick, whether or not the robot is moving.
pub fn update(state: &mut OdomState, left_cdeg: i32, right_cdeg: i32)
    requires
        old(state).wf(),
        0 <= left_cdeg < 36000,
        0 <= right_cdeg < 36000,
        -9000000000000000 <= old(state).y_um <= 9000000000000000,
    ensures
        final(state).wf(),
        final(state).prev_ly == left_cdeg,
        final(state).prev_ry == right_cdeg,
        final(state).y_um == old(state).y_um + avg(
            arc_um_of(lowest_delta_of(old(state).prev_ly as int, left_cdeg as int)),
            arc_um_of(lowest_delta_of(old(state).prev_ry as int, right_cdeg as int)),
        ),
{
    let ly_delta = distance(left_cdeg, &mut state.prev_ly);
    let ry_delta = distance(right_cdeg, &mut state.prev_ry);
    let y_delta = (ly_delta + ry_delta) / 2;
    state.y_um = state.y_um + y_delta;
}

} // verus!

//! Arcade-drive mixing: turning a single turn command and a single forward
//! command into independent left/right drive voltages, with saturation, and
//! the joystick-to-voltage pipeline built on it.

use vstd::prelude::*;

verus! {

use crate::maths::{abs, atan_cdeg, atan_of, clamp, clamp_i32, div_trunc, ratio_of, sign};
use crate::shaper::{shape, shape_of};

/// Full-scale motor voltage in millivolts.
pub const VOLT_MAX: i32 = 12000;

/// Turning commands are scaled down to this percentage of full response.
pub const TURN_SPEED_PCT: i32 = 64;

/// In precise mode every command is scaled down to this percentage.
pub const PRECISE_PCT: i32 = 60;

/// The numerator of the voltage damping interpolation; the previous
/// voltage moves this many hundredths of the way toward the new one.
pub const DAMP_LERP_PCT: i32 = 16;

/// Saturates a voltage into the drivable range `[-12000, 12000]`.
pub open spec fn clamp_volt(v: int) -> int {
    clamp(v, -12000, 12000)
}

/// Performs an arcade-drive transformation on turn (`x`) and forward (`y`)
/// voltages to produce the left and right drive voltages, each saturated
/// into `[-12000, 12000]`.
pub fn arcade(x: i32, y: i32) -> (r: (i32, i32))
    requires
        -12000 <= x <= 12000,
        -12000 <= y <= 12000,
    ensures
        r.0 == clamp_volt(y + x),
        r.1 == clamp_volt(y - x),
        -12000 <= r.0 <= 12000,
        -12000 <= r.1 <= 12000,
{
    let ldr = clamp_i32(y + x, -12000, 12000);
    let rdr = clamp_i32(y - x, -12000, 12000);
    (ldr, rdr)
}

/// The previous voltage moved `DAMP_LERP_PCT` hundredths of the way toward
/// the new one, truncating toward zero.
pub open spec fn lerp_of(prev: int, next: int) -> int {
    prev + div_trunc((next - prev) * 16, 100)
}

/// A damped voltage: whichever of the new voltage and the interpolated
/// one has the smaller magnitude, carrying the new voltage's sign (zero
/// when the new voltage is zero).
pub open spec fn damp_of(prev: int, next: int) -> int {
    let lerped = lerp_of(prev, next);
    let mag = if abs(next) < abs(lerped) {
        abs(next)
    } else {
        abs(lerped)
    };
    if next < 0 {
        -mag
    } else if next > 0 {
        mag
    } else {
        0
    }
}

/// Dampens any sudden change to the pair of drive voltages: each side is
/// pulled toward its new value by linear interpolation from the previous
/// one, never overshooting the new value's magnitude, and the result
/// becomes the new previous pair.
pub fn damp_volts(new_vdr: (i32, i32), prev_vdr: &mut (i32, i32)) -> (r: (i32, i32))
    requires
        -12000 <= new_vdr.0 <= 12000,
        -12000 <= new_vdr.1 <= 12000,
        -12000 <= old(prev_vdr).0 <= 12000,
        -12000 <= old(prev_vdr).1 <= 12000,
    ensures
        r.0 == damp_of(old(prev_vdr).0 as int, new_vdr.0 as int),
        r.1 == damp_of(old(prev_vdr).1 as int, new_vdr.1 as int),
        *final(prev_vdr) == r,
        -12000 <= r.0 <= 12000,
        -12000 <= r.1 <= 12000,
{
    let ldr = damp_one(prev_vdr.0, new_vdr.0);
    let rdr = damp_one(prev_vdr.1, new_vdr.1);
    let vdr = (ldr, rdr);
    *prev_vdr = vdr;
    vdr
}

/// Dampens one voltage toward its new value.
fn damp_one(prev: i32, next: i32) -> (r: i32)
    requires
        -12000 <= prev <= 12000,
        -12000 <= next <= 12000,
    ensures
        r == damp_of(prev as int, next as int),
        abs(r as int) <= abs(next as int),
{
    let delta = (next - prev) * DAMP_LERP_PCT;
    let step = if delta < 0 {
        -((-delta) / 100)
    } else {
        delta / 100
    };
    let lerped = prev + step;
    let next_mag = if next < 0 {
        -next
    } else {
        next
    };
    let lerp_mag = if lerped < 0 {
        -lerped
    } else {
        lerped
    };
    let mag = if next_mag < lerp_mag {
        next_mag
    } else {
        lerp_mag
    };
    if next < 0 {
        -mag
    } else if next > 0 {
        mag
    } else {
        0
    }
}

/// A raw joystick reading: each axis a stick unit in `-127..=127` (a
/// hardware minimum of -128 is treated as full deflection).
#[derive(Clone, Copy, Debug, PartialEq, Eq, Structural)]
pub struct JoyStick {
    /// Sideways deflection.
    pub x: i8,
    /// Forward deflection.
    pub y: i8,
}

/// A raw axis reading held to the stick's nominal range.
pub open spec fn stick_of(v: int) -> int {
    clamp(v, -127, 127)
}

/// The turn voltage of a stick reading: the shaped response scaled down to
/// the turning speed.
pub open spec fn turn_volt_of(x: int, precise: bool) -> int {
    let v = div_trunc(shape_of(stick_of(x)) * 64, 100);
    if precise {
        div_trunc(v * 60, 100)
    } else {
        v
    }
}

/// The forward voltage of a stick reading: the shaped response, scaled
/// down only in precise mode.
pub open spec fn thrust_volt_of(y: int, precise: bool) -> int {
    let v = shape_of(stick_of(y));
    if precise {
        div_trunc(v * 60, 100)
    } else {
        v
    }
}

/// The left/right drive pair a joystick generates: the shaped and scaled
/// axis voltages mixed by arcade drive, sides swapped and signs flipped
/// when driving reversed.
pub open spec fn drive_inst_of(j1: JoyStick, reversed: bool, precise: bool) -> (int, int) {
    let xv = turn_volt_of(j1.x as int, precise);
    let yv = thrust_volt_of(j1.y as int, precise);
    let ldr = clamp_volt(yv + xv);
    let rdr = clamp_volt(yv - xv);
    if reversed {
        (-rdr, -ldr)
    } else {
        (ldr, rdr)
    }
}

/// Scales a shaped voltage by a percentage, truncating toward zero.
fn scale_volt(v: i32, pct: i32) -> (r: i32)
    requires
        -12000 <= v <= 12000,
        0 <= pct <= 100,
    ensures
        r == div_trunc(v as int * pct as int, 100),
        -12000 <= r <= 12000,
{
    proof {
        assert(abs(v as int * pct as int) <= 1200000) by (nonlinear_arith)
            requires
                -12000 <= v as int <= 12000,
                0 <= pct as int <= 100,
        ;
    }
    let scaled = v * pct;
    let r = if scaled < 0 {
        -((-scaled) / 100)
    } else {
        scaled / 100
    };
    proof {
        vstd::arithmetic::div_mod::lemma_div_is_ordered(abs(scaled as int), 1200000, 100);
    }
    r
}

/// Generates the left and right drive voltages from the drive joystick,
/// smoothly: the exponential response curve shapes each axis, turning is
/// slowed to `TURN_SPEED_PCT`, precise mode slows everything to
/// `PRECISE_PCT`, and arcade drive mixes the two axes. Driving reversed
/// swaps the sides and flips the signs.
pub fn gen_drive_inst(j1: JoyStick, reversed: bool, precise: bool) -> (r: (i32, i32))
    ensures
        (r.0 as int, r.1 as int) == drive_inst_of(j1, reversed, precise),
        -12000 <= r.0 <= 12000,
        -12000 <= r.1 <= 12000,
{
    let x = clamp_i32(j1.x as i32, -127, 127);
    let y = clamp_i32(j1.y as i32, -127, 127);
    let xv = scale_volt(shape(x), TURN_SPEED_PCT);
    let yv = shape(y);
    let (xv, yv) = if precise {
        (scale_volt(xv, PRECISE_PCT), scale_volt(yv, PRECISE_PCT))
    } else {
        (xv, yv)
    };
    let (ldr, rdr) = arcade(xv, yv);
    if reversed {
        (-rdr, -ldr)
    } else {
        (ldr, rdr)
    }
}

/// The absolute bearing, in centidegrees from straight ahead, that a
/// joystick's deflection points at: the arctangent of the axes' ratio,
/// with the lower half-plane folded onto the sides and the result held
/// inside `(-180, 180)` degrees. The tiny denominator offset keeps the
/// ratio finite when an axis is centred.
pub open spec fn xy_angle_of(x: int, y: int) -> int {
    if y < 0 {
        clamp(
            atan_of(ratio_of(abs(y) * 10000000, 10000 * x + sign(x))) + 9000 * sign(x),
            -17900,
            17900,
        )
    } else {
        clamp(atan_of(ratio_of(x * 10000000, 10000 * y + sign(y))), -17900, 17900)
    }
}

/// A signed ratio of bounded stick terms, truncated toward zero.
fn stick_ratio(num: i64, den: i64) -> (r: i64)
    requires
        -1300000000 <= num <= 1300000000,
        den != 0,
        -1300000000 <= den <= 1300000000,
    ensures
        r == ratio_of(num as int, den as int),
        abs(r as int) <= abs(num as int),
{
    let na = if num < 0 {
        -num
    } else {
        num
    };
    let da = if den < 0 {
        -den
    } else {
        den
    };
    proof {
        vstd::arithmetic::div_mod::lemma_div_is_ordered_by_denominator(na as int, 1, da as int);
        vstd::arithmetic::div_mod::lemma_div_basics(na as int);
        vstd::arithmetic::div_mod::lemma_div_pos_is_pos(na as int, da as int);
    }
    let q = na / da;
    if (num < 0) != (den < 0) {
        -q
    } else {
        q
    }
}

/// Finds the bearing of a joystick's deflection, measured in centidegrees
/// rightward from the top of the stick, through the arctangent
/// approximation.
pub fn xy_to_angle(x: i32, y: i32) -> (r: i32)
    requires
        -127 <= x <= 127,
        -127 <= y <= 127,
    ensures
        r == xy_angle_of(x as int, y as int),
        -17900 <= r <= 17900,
{
    if y < 0 {
        let ya = if y < 0 {
            -(y as i64)
        } else {
            y as i64
        };
        let den = 10000 * (x as i64) + (if x < 0 {
            -1i64
        } else {
            1i64
        });
        let t = stick_ratio(ya * 10000000, den);
        let a = atan_cdeg(t);
        let swung = a + 9000 * (if x < 0 {
            -1i64
        } else {
            1i64
        });
        let clamped = crate::maths::clamp_i64(swung, -17900, 17900);
        clamped as i32
    } else {
        let den = 10000 * (y as i64) + 1;
        let t = stick_ratio((x as i64) * 10000000, den);
        let a = atan_cdeg(t);
        let clamped = crate::maths::clamp_i64(a, -17900, 17900);
        clamped as i32
    }
}

} // verus!

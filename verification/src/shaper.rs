//! Joystick response shaping: maps a raw analog stick reading (-127..=127)
//! through an exponential response curve to a millivolt command
//! (-12000..=12000).
//!
//! The curve is a Q20 fixed-point geometric sequence rescaled so the
//! endpoints are exact: `shape(0) == 0` and `shape(127) == 12000`. Between
//! the endpoints it tracks the tuned exponential response
//! `1024 * b^(|x|/127) - 1024` with `b` chosen so full deflection gives full
//! scale.

use vstd::prelude::*;

verus! {

use vstd::arithmetic::div_mod::{
    lemma_div_is_ordered,
    lemma_div_multiples_vanish,
};
use vstd::arithmetic::mul::lemma_mul_inequality;
use crate::maths::{abs, sign};

/// Largest magnitude of a raw joystick reading.
pub const STICK_MAX: i32 = 127;

/// The Q20 fixed-point one.
pub const GROWTH_ONE: u64 = 1048576;

/// Per-step growth factor in Q20; the 127th step of the sequence lands on
/// full scale.
pub const GROWTH_STEP: u64 = 1069785;

/// The Q20 geometric sequence the response curve is built from:
/// `growth(0)` is one, and every step multiplies by `GROWTH_STEP` (with the
/// product truncated back to Q20).
pub open spec fn growth(n: nat) -> nat
    decreases n,
{
    if n == 0 {
        1048576
    } else {
        (growth((n - 1) as nat) * 1069785) / 1048576
    }
}

/// How far the curve has risen above its starting point after `n` steps.
pub open spec fn rise(n: nat) -> int {
    growth(n) - 1048576
}

/// The shaped magnitude for a stick deflection of `n`: the rise after `n`
/// steps, rescaled so that 127 steps give exactly 12000.
pub open spec fn shape_mag(n: nat) -> int {
    rise(n) * 12000 / 12288381
}

/// The shaped voltage for a signed stick reading: the shaped magnitude of
/// `|x|` carrying the sign of `x`.
pub open spec fn shape_of(x: int) -> int {
    sign(x) * shape_mag(abs(x) as nat)
}

/// Each step of the growth sequence is at least as large as the one before.
proof fn lemma_growth_step(n: nat)
    ensures
        growth(n) <= growth(n + 1),
{
    let g = growth(n) as int;
    lemma_mul_inequality(1048576, 1069785, g);
    lemma_div_is_ordered(g * 1048576, g * 1069785, 1048576);
    lemma_div_multiples_vanish(g, 1048576);
}

/// The growth sequence is monotone.
proof fn lemma_growth_mono(i: nat, j: nat)
    requires
        i <= j,
    ensures
        growth(i) <= growth(j),
    decreases j - i,
{
    if i < j {
        lemma_growth_mono(i, (j - 1) as nat);
        lemma_growth_step((j - 1) as nat);
    }
}

/// The first 127 steps of the growth sequence stay between one and the
/// full-scale top value.
proof fn lemma_growth_bounds(n: nat)
    requires
        n <= 127,
    ensures
        1048576 <= growth(n) <= 13336957,
{
    lemma_growth_mono(0, n);
    lemma_growth_mono(n, 127);
    lemma_growth_full();
}

/// Evaluates the top of the growth sequence, one short stretch of steps at
/// a time.
proof fn lemma_growth_full()
    ensures
        growth(127) == 13336957,
{
    lemma_growth_upto_127();
}

proof fn lemma_growth_upto_16()
    ensures
        growth(16) == 1444584,
{
    assert(growth(0) == 1048576);
    assert(growth(1) == 1069785);
    assert(growth(2) == 1091422);
    assert(growth(3) == 1113497);
    assert(growth(4) == 1136019);
    assert(growth(5) == 1158996);
    assert(growth(6) == 1182438);
    assert(growth(7) == 1206354);
    assert(growth(8) == 1230754);
    assert(growth(9) == 1255647);
    assert(growth(10) == 1281044);
    assert(growth(11) == 1306955);
    assert(growth(12) == 1333390);
    assert(growth(13) == 1360359);
    assert(growth(14) == 1387874);
    assert(growth(15) == 1415945);
    assert(growth(16) == 1444584);
}

proof fn lemma_growth_upto_32()
    ensures
        growth(32) == 1990149,
{
    lemma_growth_upto_16();
    assert(growth(17) == 1473802);
    assert(growth(18) == 1503611);
    assert(growth(19) == 1534023);
    assert(growth(20) == 1565050);
    assert(growth(21) == 1596705);
    assert(growth(22) == 1629000);
    assert(growth(23) == 1661948);
    assert(growth(24) == 1695563);
    assert(growth(25) == 1729858);
    assert(growth(26) == 1764846);
    assert(growth(27) == 1800542);
    assert(growth(28) == 1836960);
    assert(growth(29) == 1874115);
    assert(growth(30) == 1912021);
    assert(growth(31) == 1950694);
    assert(growth(32) == 1990149);
}

proof fn lemma_growth_upto_48()
    ensures
        growth(48) == 2741758,
{
    lemma_growth_upto_32();
    assert(growth(33) == 2030402);
    assert(growth(34) == 2071469);
    assert(growth(35) == 2113367);
    assert(growth(36) == 2156112);
    assert(growth(37) == 2199722);
    assert(growth(38) == 2244214);
    assert(growth(39) == 2289606);
    assert(growth(40) == 2335916);
    assert(growth(41) == 2383163);
    assert(growth(42) == 2431365);
    assert(growth(43) == 2480542);
    assert(growth(44) == 2530714);
    assert(growth(45) == 2581901);
    assert(growth(46) == 2634123);
    assert(growth(47) == 2687402);
    assert(growth(48) == 2741758);
}

proof fn lemma_growth_upto_64()
    ensures
        growth(64) == 3777230,
{
    lemma_growth_upto_48();
    assert(growth(49) == 2797214);
    assert(growth(50) == 2853791);
    assert(growth(51) == 2911513);
    assert(growth(52) == 2970402);
    assert(growth(53) == 3030482);
    assert(growth(54) == 3091777);
    assert(growth(55) == 3154312);
    assert(growth(56) == 3218112);
    assert(growth(57) == 3283203);
    assert(growth(58) == 3349610);
    assert(growth(59) == 3417360);
    assert(growth(60) == 3486481);
    assert(growth(61) == 3557000);
    assert(growth(62) == 3628945);
    assert(growth(63) == 3702345);
    assert(growth(64) == 3777230);
}

proof fn lemma_growth_upto_80()
    ensures
        growth(80) == 5203772,
{
    lemma_growth_upto_64();
    assert(growth(65) == 3853630);
    assert(growth(66) == 3931575);
    assert(growth(67) == 4011096);
    assert(growth(68) == 4092226);
    assert(growth(69) == 4174997);
    assert(growth(70) == 4259442);
    assert(growth(71) == 4345595);
    assert(growth(72) == 4433491);
    assert(growth(73) == 4523164);
    assert(growth(74) == 4614651);
    assert(growth(75) == 4707989);
    assert(growth(76) == 4803215);
    assert(growth(77) == 4900367);
    assert(growth(78) == 4999484);
    assert(growth(79) == 5100605);
    assert(growth(80) == 5203772);
}

proof fn lemma_growth_upto_96()
    ensures
        growth(96) == 7169072,
{
    lemma_growth_upto_80();
    assert(growth(81) == 5309025);
    assert(growth(82) == 5416407);
    assert(growth(83) == 5525961);
    assert(growth(84) == 5637731);
    assert(growth(85) == 5751762);
    assert(growth(86) == 5868099);
    assert(growth(87) == 5986789);
    assert(growth(88) == 6107880);
    assert(growth(89) == 6231420);
    assert(growth(90) == 6357459);
    assert(growth(91) == 6486048);
    assert(growth(92) == 6617237);
    assert(growth(93) == 6751080);
    assert(growth(94) == 6887630);
    assert(growth(95) == 7026942);
    assert(growth(96) == 7169072);
}

proof fn lemma_growth_upto_112()
    ensures
        growth(112) == 9876615,
{
    lemma_growth_upto_96();
    assert(growth(97) == 7314077);
    assert(growth(98) == 7462015);
    assert(growth(99) == 7612945);
    assert(growth(100) == 7766928);
    assert(growth(101) == 7924025);
    assert(growth(102) == 8084300);
    assert(growth(103) == 8247816);
    assert(growth(104) == 8414640);
    assert(growth(105) == 8584838);
    assert(growth(106) == 8758479);
    assert(growth(107) == 8935632);
    assert(growth(108) == 9116368);
    assert(growth(109) == 9300760);
    assert(growth(110) == 9488881);
    assert(growth(111) == 9680807);
    assert(growth(112) == 9876615);
}

proof fn lemma_growth_upto_127()
    ensures
        growth(127) == 13336957,
{
    lemma_growth_upto_112();
    assert(growth(113) == 10076384);
    assert(growth(114) == 10280193);
    assert(growth(115) == 10488125);
    assert(growth(116) == 10700262);
    assert(growth(117) == 10916690);
    assert(growth(118) == 11137496);
    assert(growth(119) == 11362768);
    assert(growth(120) == 11592596);
    assert(growth(121) == 11827073);
    assert(growth(122) == 12066293);
    assert(growth(123) == 12310351);
    assert(growth(124) == 12559346);
    assert(growth(125) == 12813377);
    assert(growth(126) == 13072546);
    assert(growth(127) == 13336957);
}

/// The shaped magnitude stays in `[0, 12000]` with exact endpoints.
proof fn lemma_shape_mag_bounds(n: nat)
    requires
        n <= 127,
    ensures
        0 <= shape_mag(n) <= 12000,
        n == 0 ==> shape_mag(n) == 0,
        n == 127 ==> shape_mag(n) == 12000,
{
    lemma_growth_bounds(n);
    lemma_mul_inequality(rise(n), 12288381, 12000);
    lemma_div_is_ordered(rise(n) * 12000, 12288381int * 12000, 12288381);
    lemma_div_multiples_vanish(12000, 12288381);
    lemma_div_is_ordered(0, rise(n) * 12000, 12288381);
    if n == 127 {
        lemma_growth_full();
    }
}

/// Deeper stick deflections never shape to a smaller magnitude: the
/// response curve is monotone in `|x|`.
pub proof fn lemma_shape_monotonic(m: nat, n: nat)
    requires
        m <= n <= 127,
    ensures
        shape_mag(m) <= shape_mag(n),
{
    lemma_growth_mono(m, n);
    lemma_mul_inequality(rise(m), rise(n), 12000);
    lemma_div_is_ordered(rise(m) * 12000, rise(n) * 12000, 12288381);
}

/// Computes the shaped magnitude for a stick deflection of `n`.
fn shape_step(n: u32) -> (r: i32)
    requires
        n <= 127,
    ensures
        r == shape_mag(n as nat),
        0 <= r <= 12000,
{
    let mut g: u64 = GROWTH_ONE;
    let mut i: u32 = 0;
    while i < n
        invariant
            i <= n <= 127,
            g == growth(i as nat),
        decreases n - i,
    {
        proof {
            lemma_growth_bounds(i as nat);
        }
        g = (g * GROWTH_STEP) / GROWTH_ONE;
        i = i + 1;
    }
    proof {
        lemma_growth_bounds(n as nat);
        lemma_shape_mag_bounds(n as nat);
    }
    let r = ((g - GROWTH_ONE) * 12000) / 12288381;
    r as i32
}

/// Shapes a raw joystick reading into a millivolt command through the
/// exponential response curve. Zero deflection gives zero volts, full
/// deflection gives full scale, and the sign of the reading is kept.
pub fn shape(x: i32) -> (r: i32)
    requires
        -127 <= x <= 127,
    ensures
        r == shape_of(x as int),
        -12000 <= r <= 12000,
        x == 0 ==> r == 0,
        x >= 0 ==> r >= 0,
        x <= 0 ==> r <= 0,
        x == 127 ==> r == 12000,
        x == -127 ==> r == -12000,
{
    proof {
        lemma_shape_mag_bounds(abs(x as int) as nat);
    }
    if x < 0 {
        -shape_step((-x) as u32)
    } else {
        shape_step(x as u32)
    }
}

} // verus!

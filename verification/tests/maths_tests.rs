use logic::maths::{abs_i64, atan_cdeg, clamp_i32, clamp_i64, isqrt};
use logic::mixer::xy_to_angle;

#[test]
fn isqrt_brackets_its_argument() {
    for n in [0u128, 1, 2, 3, 4, 15, 16, 17, 80, 1000000, 72681300, u64::MAX as u128] {
        let r = isqrt(n) as u128;
        assert!(r * r <= n, "isqrt({n}) = {r} overshoots");
        assert!(n < (r + 1) * (r + 1), "isqrt({n}) = {r} undershoots");
    }
    assert_eq!(isqrt(0), 0);
    assert_eq!(isqrt(1), 1);
    assert_eq!(isqrt(16), 4);
    assert_eq!(isqrt(17), 4);
    assert_eq!(isqrt(72681300), 8525);
}

#[test]
fn atan_is_odd_and_anchored_at_zero() {
    assert_eq!(atan_cdeg(0), 0);
    for t in [1, 250, 1000, 57700, 2000000000] {
        assert_eq!(atan_cdeg(-t), -atan_cdeg(t));
    }
}

#[test]
fn atan_approximates_known_angles() {
    // a ratio of one is forty-five degrees, give or take the
    // approximation's fraction of a degree
    assert_eq!(atan_cdeg(1000), 4514);
    // a ratio of about 1.732 (sixty degrees): within half a degree
    let sixty = atan_cdeg(1732);
    assert!((5950..=6050).contains(&sixty), "atan(1.732) gave {sixty}");
    // an enormous ratio approaches ninety degrees
    assert_eq!(atan_cdeg(2000000000), 9000);
}

#[test]
fn xy_to_angle_points_along_the_compass() {
    // straight up is zero; right and left are the quarter turns
    assert_eq!(xy_to_angle(0, 127), 0);
    assert_eq!(xy_to_angle(127, 0), 9000);
    assert_eq!(xy_to_angle(-127, 0), -9000);
    // the up-right diagonal is a quarter-turn's half, within the
    // approximation's tolerance
    assert_eq!(xy_to_angle(127, 127), 4512);
    // straight down saturates just short of a half turn
    assert_eq!(xy_to_angle(0, -127), 17900);
    assert_eq!(xy_to_angle(-127, -127), -13512);
    // a centred stick reads as straight ahead
    assert_eq!(xy_to_angle(0, 0), 0);
}

#[test]
fn clamps_saturate_both_ways() {
    assert_eq!(clamp_i32(500, -100, 100), 100);
    assert_eq!(clamp_i32(-500, -100, 100), -100);
    assert_eq!(clamp_i32(7, -100, 100), 7);
    assert_eq!(clamp_i64(-1, 0, 10), 0);
    assert_eq!(abs_i64(-5), 5);
    assert_eq!(abs_i64(5), 5);
}

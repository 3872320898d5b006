//! Shared numeric primitives: sign, absolute value, average and saturation
//! on the integer units the library computes in.

use vstd::prelude::*;

verus! {

/// The sign of `x` as the response curves use it: `-1` for negative
/// values and `1` for zero and positive values.
pub open spec fn sign(x: int) -> int {
    if x < 0 {
        -1
    } else {
        1
    }
}

/// Absolute value.
pub open spec fn abs(x: int) -> int {
    if x < 0 {
        -x
    } else {
        x
    }
}

/// `x` saturated into `[lo, hi]`.
pub open spec fn clamp(x: int, lo: int, hi: int) -> int {
    if x < lo {
        lo
    } else if x > hi {
        hi
    } else {
        x
    }
}

/// The average of two values, truncated toward zero as the evenly divided
/// sum of two same-signed values is exact and mixed signs stay between them.
pub open spec fn avg(x: int, y: int) -> int {
    div_trunc(x + y, 2)
}

/// Division truncated toward zero, matching the semantics of the executable
/// `/` operator on signed integers.
pub open spec fn div_trunc(a: int, b: int) -> int
    recommends
        b > 0,
{
    if a >= 0 {
        a / b
    } else {
        -((-a) / b)
    }
}

/// Saturates an `i32` into `[lo, hi]`.
pub fn clamp_i32(x: i32, lo: i32, hi: i32) -> (r: i32)
    requires
        lo <= hi,
    ensures
        r == clamp(x as int, lo as int, hi as int),
{
    if x < lo {
        lo
    } else if x > hi {
        hi
    } else {
        x
    }
}

/// Saturates an `i64` into `[lo, hi]`.
pub fn clamp_i64(x: i64, lo: i64, hi: i64) -> (r: i64)
    requires
        lo <= hi,
    ensures
        r == clamp(x as int, lo as int, hi as int),
{
    if x < lo {
        lo
    } else if x > hi {
        hi
    } else {
        x
    }
}

/// Absolute value of an `i64` that is not the minimum value.
pub fn abs_i64(x: i64) -> (r: i64)
    requires
        x != i64::MIN,
    ensures
        r == abs(x as int),
{
    if x < 0 {
        -x
    } else {
        x
    }
}

/// The floor of the square root: the largest value whose square does not
/// exceed `n`, built up one candidate at a time.
pub open spec fn sqrt_floor(n: nat) -> nat
    decreases n,
{
    if n == 0 {
        0
    } else {
        let r = sqrt_floor((n - 1) as nat);
        if (r + 1) * (r + 1) <= n {
            r + 1
        } else {
            r
        }
    }
}

/// The floor square root brackets its argument between consecutive
/// squares.
proof fn lemma_sqrt_floor_brackets(n: nat)
    ensures
        sqrt_floor(n) * sqrt_floor(n) <= n,
        n < (sqrt_floor(n) + 1) * (sqrt_floor(n) + 1),
    decreases n,
{
    if n > 0 {
        lemma_sqrt_floor_brackets((n - 1) as nat);
        let r = sqrt_floor((n - 1) as nat);
        if (r + 1) * (r + 1) <= n {
            assert(sqrt_floor(n) == r + 1);
            assert(n < (sqrt_floor(n) + 1) * (sqrt_floor(n) + 1)) by (nonlinear_arith)
                requires
                    sqrt_floor(n) == r + 1,
                    n <= (r + 1) * (r + 1),
            ;
        } else {
            assert(sqrt_floor(n) == r);
            assert(r * r <= n);
            assert(n < (sqrt_floor(n) + 1) * (sqrt_floor(n) + 1));
        }
    } else {
        assert(sqrt_floor(n) == 0);
        assert(n < (sqrt_floor(n) + 1) * (sqrt_floor(n) + 1)) by (nonlinear_arith)
            requires
                n == 0,
                sqrt_floor(n) == 0,
        ;
    }
}

/// Only one value brackets `n` between consecutive squares.
proof fn lemma_sqrt_floor_unique(n: nat, s: nat)
    requires
        s * s <= n,
        n < (s + 1) * (s + 1),
    ensures
        s == sqrt_floor(n),
{
    lemma_sqrt_floor_brackets(n);
    let r = sqrt_floor(n);
    assert(s == r) by (nonlinear_arith)
        requires
            s * s <= n,
            n < (s + 1) * (s + 1),
            r * r <= n,
            n < (r + 1) * (r + 1),
    ;
}

/// Computes the floor of the square root by bisection.
pub fn isqrt(n: u128) -> (r: u64)
    requires
        n < 0x100000000000000000000000000000000,
    ensures
        r == sqrt_floor(n as nat),
{
    if n == 0 {
        proof {
            assert(sqrt_floor(0) == 0);
        }
        return 0;
    }
    let mut lo: u128 = 0;
    let mut hi: u128 = 0x10000000000000000;
    proof {
        assert((0x10000000000000000int) * (0x10000000000000000int)
            == 0x100000000000000000000000000000000int) by (nonlinear_arith);
        assert((n as int) < (0x10000000000000000int) * (0x10000000000000000int));
    }
    while lo + 1 < hi
        invariant
            lo < hi <= 0x10000000000000000,
            (lo as int) * (lo as int) <= n as int,
            (n as int) < (hi as int) * (hi as int),
        decreases hi - lo,
    {
        let mid = lo + (hi - lo) / 2;
        proof {
            vstd::arithmetic::mul::lemma_mul_upper_bound(
                mid as int,
                0xffffffffffffffff,
                mid as int,
                0xffffffffffffffff,
            );
        }
        if mid * mid <= n {
            lo = mid;
        } else {
            hi = mid;
        }
    }
    proof {
        lemma_sqrt_floor_unique(n as nat, lo as nat);
    }
    lo as u64
}

/// The scaled discriminant of the arctangent approximation for a ratio
/// magnitude of `m` thousandths: the constant term and the squared-ratio
/// term, both carrying six decimal places.
pub open spec fn atan_inner_of(m: int) -> int {
    33202900 + 394784 * (m * m) / 10000
}

/// The approximated arctangent, in centidegrees, of a non-negative ratio
/// of `m` thousandths.
pub open spec fn atan_mag_of(m: int) -> int {
    56549 * m / (4000 + sqrt_floor(atan_inner_of(m) as nat) as int)
}

/// The approximated arctangent, in centidegrees, of a signed ratio in
/// thousandths.
pub open spec fn atan_of(t: int) -> int {
    sign(t) * atan_mag_of(abs(t))
}

/// Approximates the arctangent, in centidegrees, of a ratio given in
/// thousandths, without trigonometric tables: a rational formula whose
/// one square root comes from `isqrt`.
pub fn atan_cdeg(t_milli: i64) -> (r: i64)
    requires
        -2000000000 <= t_milli <= 2000000000,
    ensures
        r == atan_of(t_milli as int),
        abs(r as int) <= 28274500000,
{
    let m: u128 = (if t_milli < 0 {
        -t_milli
    } else {
        t_milli
    }) as u128;
    proof {
        assert(m as int * m as int <= 4000000000000000000int) by (nonlinear_arith)
            requires
                0 <= m as int <= 2000000000,
        ;
    }
    let inner = 33202900 + (394784 * (m * m)) / 10000;
    let s = isqrt(inner);
    let denom = 4000u128 + s as u128;
    let num = 56549 * m;
    proof {
        vstd::arithmetic::div_mod::lemma_div_is_ordered_by_denominator(
            num as int,
            4000,
            denom as int,
        );
        vstd::arithmetic::div_mod::lemma_div_is_ordered(num as int, 113098000000000, 4000);
    }
    let mag = (num / denom) as i64;
    if t_milli < 0 {
        -mag
    } else {
        mag
    }
}

/// A signed ratio, truncated toward zero, of a numerator and a nonzero
/// denominator of either sign.
pub open spec fn ratio_of(num: int, den: int) -> int {
    let q = abs(num) / abs(den);
    if (num < 0) != (den < 0) {
        -q
    } else {
        q
    }
}

} // verus!

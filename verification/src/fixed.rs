//! Fixed-point arithmetic in millionths.
//!
//! Every coordinate and score of this library is a whole number of
//! millionths: `1_000_000` stands for 1.0 and `-250_000` for -0.25. Stored
//! values are `i32`; intermediate results are carried in wider integers so
//! that no step can overflow. Wherever a formula divides or takes a root, the
//! result is rounded down (towards negative infinity) to a whole millionth.

use vstd::prelude::*;
use vstd::arithmetic::div_mod::lemma_fundamental_div_mod_converse;
use vstd::arithmetic::div_mod::lemma_fundamental_div_mod;

verus! {

/// 1.0 in millionths.
pub const ONE: i32 = 1_000_000;

/// 0.5 in millionths.
pub const HALF: i32 = 500_000;

/// `x` lies in the closed interval from 0.0 to 1.0.
pub open spec fn in_unit(x: int) -> bool {
    0 <= x <= ONE
}

/// `x` lies in the closed interval from -1.0 to 1.0.
pub open spec fn in_signed_unit(x: int) -> bool {
    -ONE <= x <= ONE
}

/// The smaller of two integers.
pub open spec fn min_of(a: int, b: int) -> int {
    if a <= b {
        a
    } else {
        b
    }
}

/// The distance between two integers.
pub open spec fn distance(a: int, b: int) -> int {
    if a <= b {
        b - a
    } else {
        a - b
    }
}

/// `r` is the square root of `x`, rounded down.
pub open spec fn is_floor_sqrt(x: int, r: int) -> bool {
    0 <= r && r * r <= x < (r + 1) * (r + 1)
}

/// The square root of `x`, rounded down. Meaningful for `x >= 0`.
pub open spec fn floor_sqrt(x: int) -> int {
    choose|r: int| is_floor_sqrt(x, r)
}

/// A number has at most one rounded-down square root, so any `r` that
/// satisfies `is_floor_sqrt(x, r)` is `floor_sqrt(x)`.
pub proof fn lemma_floor_sqrt_unique(x: int, r: int)
    requires
        is_floor_sqrt(x, r),
    ensures
        floor_sqrt(x) == r,
{
    let s = floor_sqrt(x);
    assert(is_floor_sqrt(x, s));
    if s < r {
        assert((s + 1) * (s + 1) <= r * r) by (nonlinear_arith)
            requires
                0 <= s,
                s + 1 <= r,
        ;
    }
    if r < s {
        assert((r + 1) * (r + 1) <= s * s) by (nonlinear_arith)
            requires
                0 <= r,
                r + 1 <= s,
        ;
    }
}

/// Every non-negative integer has a rounded-down square root.
pub proof fn lemma_floor_sqrt_exists(x: int)
    requires
        x >= 0,
    ensures
        is_floor_sqrt(x, floor_sqrt(x)),
    decreases x,
{
    if x == 0 {
        assert(is_floor_sqrt(0, 0));
    } else {
        lemma_floor_sqrt_exists(x - 1);
        let r = floor_sqrt(x - 1);
        if x < (r + 1) * (r + 1) {
            assert(is_floor_sqrt(x, r));
        } else {
            assert((r + 1) * (r + 1) <= x < (r + 2) * (r + 2)) by (nonlinear_arith)
                requires
                    0 <= r,
                    x - 1 < (r + 1) * (r + 1),
                    x >= (r + 1) * (r + 1),
            ;
            assert(is_floor_sqrt(x, r + 1));
        }
    }
}

/// Square root of `x`, rounded down.
pub fn isqrt(x: u128) -> (r: u64)
    ensures
        is_floor_sqrt(x as int, r as int),
        r == floor_sqrt(x as int),
{
    let mut lo: u128 = 0;
    let mut hi: u128 = 0x1_0000_0000_0000_0000;
    while hi - lo > 1
        invariant
            lo < hi <= 0x1_0000_0000_0000_0000,
            lo * lo <= x < hi * hi,
        decreases hi - lo,
    {
        let mid: u128 = lo + (hi - lo) / 2;
        assert(mid * mid <= 0xFFFF_FFFF_FFFF_FFFF * 0xFFFF_FFFF_FFFF_FFFF) by (nonlinear_arith)
            requires
                0 <= mid <= 0xFFFF_FFFF_FFFF_FFFF,
        ;
        if mid * mid <= x {
            lo = mid;
        } else {
            hi = mid;
        }
    }
    proof {
        lemma_floor_sqrt_unique(x as int, lo as int);
    }
    lo as u64
}

/// `a / b` rounded down, for a positive divisor and a dividend of either sign.
pub fn floor_div(a: i64, b: i64) -> (q: i64)
    requires
        b > 0,
    ensures
        q == a / b,
{
    if a >= 0 {
        a / b
    } else {
        let m: i64 = -(a + 1);
        let k: i64 = m / b;
        proof {
            let r = (m as int) % (b as int);
            lemma_fundamental_div_mod(m as int, b as int);
            assert((m as int) == (b as int) * (k as int) + r);
            assert((a as int) == (-(k as int) - 1) * (b as int) + ((b as int) - 1 - r))
                by (nonlinear_arith)
                requires
                    (m as int) == (b as int) * (k as int) + r,
                    (a as int) == -(m as int) - 1,
            ;
            lemma_fundamental_div_mod_converse(
                a as int,
                b as int,
                -(k as int) - 1,
                (b as int) - 1 - r,
            );
        }
        -k - 1
    }
}

/// A rounded-down quotient with a positive divisor lies between the
/// quotient's exact bounds: `q * b <= a < (q + 1) * b`.
pub proof fn lemma_floor_div_bounds(a: int, b: int)
    requires
        b > 0,
    ensures
        (a / b) * b <= a < (a / b + 1) * b,
{
    lemma_fundamental_div_mod(a, b);
    assert((a / b) * b <= a < (a / b + 1) * b) by (nonlinear_arith)
        requires
            a == b * (a / b) + a % b,
            0 <= a % b < b,
    ;
}

/// A weighted mean of two numbers, rounded down, stays between them: for
/// weights `w >= 0` and `1` out of `w + 1`, `(x * w + y) / (w + 1)` is at
/// least the smaller and at most the larger of `x` and `y`.
pub proof fn lemma_weighted_mean_between(x: int, y: int, w: int)
    requires
        w >= 0,
    ensures
        min_of(x, y) <= (x * w + y) / (w + 1) <= if x <= y {
            y
        } else {
            x
        },
{
    let n = w + 1;
    let t = x * w + y;
    let q = t / n;
    lemma_floor_div_bounds(t, n);
    let lo = min_of(x, y);
    let hi = if x <= y {
        y
    } else {
        x
    };
    assert(lo * n <= t <= hi * n) by (nonlinear_arith)
        requires
            w >= 0,
            n == w + 1,
            t == x * w + y,
            lo <= x <= hi,
            lo <= y <= hi,
    ;
    assert(lo <= q) by (nonlinear_arith)
        requires
            n > 0,
            lo * n <= t,
            t < (q + 1) * n,
    ;
    assert(q <= hi) by (nonlinear_arith)
        requires
            n > 0,
            q * n <= t,
            t <= hi * n,
    ;
}

} // verus!

//! Reading millionths out of IEEE 754 binary32 bit patterns.
//!
//! Observations arrive from outside as single-precision numbers. Only their
//! bit patterns are handled here: a pattern that encodes a finite number is
//! turned into the nearest whole number of millionths, and a pattern that
//! encodes an infinity or a NaN, or a number too large for 32 bits of
//! millionths, is refused.

use vstd::prelude::*;

verus! {

/// One million: the millionths in 1.0.
pub const MILLION: u64 = 1_000_000;

/// `2` to the power `k`.
pub open spec fn two_to(k: nat) -> int
    decreases k,
{
    if k == 0 {
        1
    } else {
        2 * two_to((k - 1) as nat)
    }
}

/// The sign bit: 1 for a negative number.
pub open spec fn sign_bit(bits: u32) -> int {
    bits as int / 0x8000_0000
}

/// The eight exponent bits, as a number from 0 to 255.
pub open spec fn exponent_bits(bits: u32) -> int {
    bits as int / 0x80_0000 % 256
}

/// The twenty-three fraction bits.
pub open spec fn fraction_bits(bits: u32) -> int {
    bits as int % 0x80_0000
}

/// The pattern encodes a finite number: neither an infinity nor a NaN.
pub open spec fn finite(bits: u32) -> bool {
    exponent_bits(bits) != 255
}

/// The significand of a finite pattern, as an integer: the fraction bits,
/// with the implicit leading bit unless the number is subnormal.
pub open spec fn significand(bits: u32) -> int {
    if exponent_bits(bits) == 0 {
        fraction_bits(bits)
    } else {
        0x80_0000 + fraction_bits(bits)
    }
}

/// The power of two that divides the significand: the magnitude of a finite
/// pattern is `significand / 2^scale`. A negative scale multiplies.
pub open spec fn scale(bits: u32) -> int {
    if exponent_bits(bits) == 0 {
        149
    } else {
        150 - exponent_bits(bits)
    }
}

/// `n / d` rounded to the nearest integer, halves upwards.
pub open spec fn nearest(n: int, d: int) -> int {
    (2 * n + d) / (2 * d)
}

/// The magnitude of a finite pattern in millionths, rounded to the nearest
/// whole millionth, halves upwards.
pub open spec fn magnitude_in_millionths(bits: u32) -> int {
    let n = significand(bits) * MILLION;
    let s = scale(bits);
    if s >= 0 {
        nearest(n, two_to(s as nat))
    } else {
        n * two_to((-s) as nat)
    }
}

/// The millionths a pattern stands for: none for an infinity, a NaN, or a
/// magnitude above the largest `i32`; else the rounded magnitude with the
/// pattern's sign.
pub open spec fn millionths_of(bits: u32) -> Option<int> {
    if finite(bits) && magnitude_in_millionths(bits) <= i32::MAX {
        if sign_bit(bits) == 1 {
            Some(-magnitude_in_millionths(bits))
        } else {
            Some(magnitude_in_millionths(bits))
        }
    } else {
        None
    }
}

/// Rounding to the nearest integer is off by at most a half: for `d > 0`,
/// `nearest(n, d)` is the integer `q` with `n / d - 1/2 < q <= n / d + 1/2`.
pub proof fn lemma_nearest_is_within_a_half(n: int, d: int)
    requires
        d > 0,
    ensures
        2 * n - d < 2 * d * nearest(n, d) <= 2 * n + d,
{
    let q = nearest(n, d);
    vstd::arithmetic::div_mod::lemma_fundamental_div_mod(2 * n + d, 2 * d);
    assert(2 * n - d < 2 * d * q <= 2 * n + d) by (nonlinear_arith)
        requires
            d > 0,
            2 * n + d == (2 * d) * q + (2 * n + d) % (2 * d),
            0 <= (2 * n + d) % (2 * d) < 2 * d,
    ;
}

/// Powers of two are positive and grow with the exponent.
pub proof fn lemma_two_to_grows(j: nat, k: nat)
    requires
        j <= k,
    ensures
        1 <= two_to(j) <= two_to(k),
    decreases k,
{
    if k > 0 {
        if j < k {
            lemma_two_to_grows(j, (k - 1) as nat);
        } else {
            lemma_two_to_grows((j - 1) as nat, (k - 1) as nat);
        }
    }
}

/// `2^46`, written out.
proof fn lemma_two_to_46()
    ensures
        two_to(46) == 0x4000_0000_0000,
{
    reveal_with_fuel(two_to, 47);
}

/// `2` to the power `k`, for `k` up to 45.
fn power_of_two(k: u32) -> (p: u64)
    requires
        k <= 45,
    ensures
        p == two_to(k as nat),
        1 <= p <= 0x2000_0000_0000,
{
    let mut p: u64 = 1;
    let mut i: u32 = 0;
    proof {
        lemma_two_to_46();
    }
    while i < k
        invariant
            i <= k <= 45,
            p == two_to(i as nat),
            1 <= p,
            p * 2 <= two_to(46),
            two_to(46) == 0x4000_0000_0000,
        decreases k - i,
    {
        proof {
            lemma_two_to_grows((i + 2) as nat, 46);
            assert(two_to((i + 2) as nat) == 2 * two_to((i + 1) as nat));
            assert(two_to((i + 1) as nat) == 2 * two_to(i as nat));
        }
        p = p * 2;
        i = i + 1;
    }
    p
}

/// The millionths that an IEEE 754 binary32 bit pattern stands for, rounded
/// to the nearest whole millionth; `None` for an infinity, a NaN, or a number
/// whose millionths do not fit an `i32`.
pub fn millionths_from_binary32(bits: u32) -> (result: Option<i32>)
    ensures
        match result {
            Some(m) => millionths_of(bits) == Some(m as int),
            None => millionths_of(bits).is_none(),
        },
        !finite(bits) ==> result.is_none(),
{
    let negative = bits >= 0x8000_0000;
    let exponent: u32 = bits / 0x80_0000 % 256;
    let fraction: u32 = bits % 0x80_0000;
    if exponent == 255 {
        return None;
    }
    if exponent >= 150 {
        proof {
            let s = scale(bits);
            let n = significand(bits) * MILLION;
            lemma_two_to_grows(0, (-s) as nat);
            assert(n >= 0x80_0000 * 1_000_000);
            assert(n * two_to((-s) as nat) >= n) by (nonlinear_arith)
                requires
                    n >= 0,
                    two_to((-s) as nat) >= 1,
            ;
            if s == 0 {
                assert(two_to(0) == 1);
                assert(nearest(n, 1) == n);
            }
        }
        return None;
    }
    let mantissa: u64 = if exponent == 0 {
        fraction as u64
    } else {
        0x80_0000 + fraction as u64
    };
    let shift: u32 = if exponent == 0 {
        149
    } else {
        150 - exponent
    };
    let n: u64 = mantissa * MILLION;
    let magnitude: u64 = if shift >= 46 {
        proof {
            lemma_two_to_46();
            lemma_two_to_grows(46, shift as nat);
            let d = two_to(shift as nat);
            assert(nearest(n as int, d) == 0) by (nonlinear_arith)
                requires
                    0 <= n,
                    2 * n < d,
                    nearest(n as int, d) == (2 * n + d) / (2 * d),
            ;
        }
        0
    } else {
        let d = power_of_two(shift);
        (2 * n + d) / (2 * d)
    };
    if magnitude > i32::MAX as u64 {
        return None;
    }
    proof {
        assert(sign_bit(bits) == 1 <==> negative);
    }
    if negative {
        Some(-(magnitude as i32))
    } else {
        Some(magnitude as i32)
    }
}

} // verus!

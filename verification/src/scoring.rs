//! Scoring formulas: emotional impact, creativity boost, the reputation
//! moving average and emotional consistency.
//!
//! Each formula is stated over mathematical integers in millionths and is
//! defined for every input the types admit.

use vstd::prelude::*;
use crate::fixed::distance;
use crate::fixed::floor_div;
use crate::fixed::floor_sqrt;
use crate::fixed::isqrt;
use crate::fixed::lemma_floor_sqrt_exists;
use crate::fixed::min_of;
use crate::fixed::ONE;
use crate::vector::EmotionalVector;

verus! {

/// The mean of the absolute differences of valence, arousal and dominance.
/// It is not clamped: for vectors in range it can reach 4/3.
pub open spec fn emotional_impact(current: EmotionalVector, previous: EmotionalVector) -> int {
    (distance(current.valence as int, previous.valence as int) + distance(
        current.arousal as int,
        previous.arousal as int,
    ) + distance(current.dominance as int, previous.dominance as int)) / 3
}

/// The sum of a sequence of numbers.
pub open spec fn sum(xs: Seq<i32>) -> int
    decreases xs.len(),
{
    if xs.len() == 0 {
        0
    } else {
        sum(xs.drop_last()) + xs.last()
    }
}

/// The sum of the squares of a sequence of numbers.
pub open spec fn sum_squares(xs: Seq<i32>) -> int
    decreases xs.len(),
{
    if xs.len() == 0 {
        0
    } else {
        sum_squares(xs.drop_last()) + xs.last() * xs.last()
    }
}

/// The sum of the squared distances of a sequence of numbers from `c`.
pub open spec fn sum_squared_deviations(xs: Seq<i32>, c: int) -> int
    decreases xs.len(),
{
    if xs.len() == 0 {
        0
    } else {
        sum_squared_deviations(xs.drop_last(), c) + (xs.last() - c) * (xs.last() - c)
    }
}

/// The sum over a sequence of `(n * x - s)^2`. With `n` the length of the
/// sequence and `s` its sum, this is `n^2` times the sum of the squared
/// deviations of the numbers from their mean `s / n`.
pub open spec fn sum_scaled_deviations(xs: Seq<i32>, n: int, s: int) -> int
    decreases xs.len(),
{
    if xs.len() == 0 {
        0
    } else {
        sum_scaled_deviations(xs.drop_last(), n, s) + (n * xs.last() - s) * (n * xs.last() - s)
    }
}

/// `n * sum(x^2) - sum(x)^2` for the `n` numbers of a sequence: `n^2` times
/// their population variance.
pub open spec fn spread(xs: Seq<i32>) -> int {
    xs.len() * sum_squares(xs) - sum(xs) * sum(xs)
}

/// The population standard deviation of a sequence of numbers, rounded down;
/// 0 for fewer than two numbers.
pub open spec fn population_stddev(xs: Seq<i32>) -> int {
    if xs.len() > 1 {
        floor_sqrt(spread(xs)) / (xs.len() as int)
    } else {
        0
    }
}

/// Half the standard deviation of the parameters plus half the quality,
/// capped at 1.0.
pub open spec fn creativity_boost(params: Seq<i32>, quality: int) -> int {
    min_of(ONE as int, (population_stddev(params) + quality) / 2)
}

/// The exponential moving average with smoothing factor 0.1: the current
/// value moved a tenth of the way to the target.
pub open spec fn moving_average(current: int, target: int) -> int {
    current + (target - current) / 10
}

/// `0.8 * reputation + 0.2`.
pub open spec fn emotional_consistency(reputation: int) -> int {
    (4 * reputation + ONE) / 5
}

/// The sum of squared deviations from `c` expands to
/// `sum(x^2) - 2 c sum(x) + n c^2`, and is never negative.
pub proof fn lemma_sum_squared_deviations(xs: Seq<i32>, c: int)
    ensures
        sum_squared_deviations(xs, c) == sum_squares(xs) - 2 * c * sum(xs) + xs.len() * c * c,
        sum_squared_deviations(xs, c) >= 0,
    decreases xs.len(),
{
    if xs.len() > 0 {
        let init = xs.drop_last();
        let x = xs.last() as int;
        let k = init.len() as int;
        lemma_sum_squared_deviations(init, c);
        let q = sum_squares(init);
        let s = sum(init);
        assert((x - c) * (x - c) >= 0) by (nonlinear_arith);
        assert(q - 2 * c * s + k * c * c + (x - c) * (x - c) == (q + x * x) - 2 * c * (s + x) + (k
            + 1) * c * c) by (nonlinear_arith);
    }
}

/// The spread of a sequence is never negative (the Cauchy-Schwarz
/// inequality for a sequence and the all-ones sequence).
pub proof fn lemma_spread_nonnegative(xs: Seq<i32>)
    ensures
        spread(xs) >= 0,
    decreases xs.len(),
{
    if xs.len() > 0 {
        let init = xs.drop_last();
        let x = xs.last() as int;
        let k = init.len() as int;
        lemma_spread_nonnegative(init);
        lemma_sum_squared_deviations(init, x);
        let q = sum_squares(init);
        let s = sum(init);
        assert((k + 1) * (q + x * x) - (s + x) * (s + x) == (k * q - s * s) + (q - 2 * x * s + k
            * x * x)) by (nonlinear_arith);
    }
}

/// The sum of `(n * x - s)^2` expands to
/// `n^2 sum(x^2) - 2 n s sum(x) + len s^2`.
proof fn lemma_sum_scaled_deviations(xs: Seq<i32>, n: int, s: int)
    ensures
        sum_scaled_deviations(xs, n, s) == n * n * sum_squares(xs) - 2 * n * s * sum(xs) + xs.len()
            * s * s,
    decreases xs.len(),
{
    if xs.len() > 0 {
        let init = xs.drop_last();
        let x = xs.last() as int;
        let k = init.len() as int;
        lemma_sum_scaled_deviations(init, n, s);
        let q = sum_squares(init);
        let t = sum(init);
        assert(n * n * q - 2 * n * s * t + k * s * s + (n * x - s) * (n * x - s) == n * n * (q + x
            * x) - 2 * n * s * (t + x) + (k + 1) * s * s) by (nonlinear_arith);
    }
}

/// The spread is the population variance, scaled to stay in whole numbers:
/// for `n` numbers with sum `s`, `n` times the spread is the sum of
/// `(n * x - s)^2`, so the spread over `n^2` is the mean of the squared
/// deviations of the numbers from their mean.
pub proof fn lemma_spread_is_variance(xs: Seq<i32>)
    ensures
        xs.len() * spread(xs) == sum_scaled_deviations(xs, xs.len() as int, sum(xs)),
{
    let n = xs.len() as int;
    let s = sum(xs);
    let q = sum_squares(xs);
    lemma_sum_scaled_deviations(xs, n, s);
    assert(n * (n * q - s * s) == n * n * q - 2 * n * s * s + n * s * s) by (nonlinear_arith);
}

/// The sums of a sequence of `i32` are bounded by its length.
pub proof fn lemma_sum_bounds(xs: Seq<i32>)
    ensures
        -0x8000_0000 * xs.len() <= sum(xs) <= 0x8000_0000 * xs.len(),
        0 <= sum_squares(xs) <= 0x4000_0000_0000_0000 * xs.len(),
    decreases xs.len(),
{
    if xs.len() > 0 {
        lemma_sum_bounds(xs.drop_last());
        let x = xs.last() as int;
        assert(0 <= x * x <= 0x4000_0000_0000_0000) by (nonlinear_arith)
            requires
                -0x8000_0000 <= x <= 0x8000_0000,
        ;
    }
}

/// The standard deviation of any sequence is never negative.
pub proof fn lemma_population_stddev_nonnegative(xs: Seq<i32>)
    ensures
        population_stddev(xs) >= 0,
{
    if xs.len() > 1 {
        lemma_spread_nonnegative(xs);
        lemma_floor_sqrt_exists(spread(xs));
        let r = floor_sqrt(spread(xs));
        let n = xs.len() as int;
        assert(r / n >= 0) by (nonlinear_arith)
            requires
                r >= 0,
                n > 0,
        ;
    }
}

/// The creativity boost of a non-negative quality lies between 0.0 and 1.0,
/// whatever the parameters.
pub proof fn lemma_creativity_boost_in_unit(params: Seq<i32>, quality: int)
    requires
        quality >= 0,
    ensures
        0 <= creativity_boost(params, quality) <= ONE,
{
    lemma_population_stddev_nonnegative(params);
}

/// The moving average at its target is a fixed point.
pub proof fn lemma_moving_average_fixed_point(r: int)
    ensures
        moving_average(r, r) == r,
{
}

/// The moving average is the weighted mean `0.9 * current + 0.1 * target`,
/// lies between the current value and the target, and so stays in any
/// interval that holds both.
pub proof fn lemma_moving_average_weighted(current: int, target: int)
    ensures
        moving_average(current, target) == (9 * current + target) / 10,
        current <= target ==> current <= moving_average(current, target) <= target,
        target <= current ==> target <= moving_average(current, target) <= current,
{
}

/// Emotional consistency of a reputation between 0.0 and 1.0 lies between
/// 0.2 and 1.0, and never decreases when the reputation grows.
pub proof fn lemma_emotional_consistency_range(reputation: int, other: int)
    ensures
        0 <= reputation <= ONE ==> ONE / 5 <= emotional_consistency(reputation) <= ONE,
        reputation <= other ==> emotional_consistency(reputation) <= emotional_consistency(other),
{
}

/// The distance between two `i32` values.
fn abs_diff(a: i32, b: i32) -> (d: i64)
    ensures
        d == distance(a as int, b as int),
{
    if a <= b {
        b as i64 - a as i64
    } else {
        a as i64 - b as i64
    }
}

/// The emotional impact of moving from `previous` to `current`.
pub fn calculate_emotional_impact(current: &EmotionalVector, previous: &EmotionalVector) -> (impact:
    i64)
    ensures
        impact == emotional_impact(*current, *previous),
        impact >= 0,
        current.in_range() && previous.in_range() ==> impact <= 4 * ONE / 3,
{
    let valence_diff = abs_diff(current.valence, previous.valence);
    let arousal_diff = abs_diff(current.arousal, previous.arousal);
    let dominance_diff = abs_diff(current.dominance, previous.dominance);
    (valence_diff + arousal_diff + dominance_diff) / 3
}

/// The population standard deviation of the parameters, rounded down.
pub fn calculate_stddev(params: &[i32]) -> (stddev: i64)
    requires
        params.len() <= u32::MAX,
    ensures
        stddev == population_stddev(params@),
        0 <= stddev <= 0x4000_0000_0000_0000,
{
    let n = params.len();
    if n <= 1 {
        return 0;
    }
    let mut total: i128 = 0;
    let mut squares: i128 = 0;
    let mut i: usize = 0;
    while i < n
        invariant
            0 <= i <= n,
            n == params.len(),
            n <= u32::MAX,
            total == sum(params@.take(i as int)),
            squares == sum_squares(params@.take(i as int)),
        decreases n - i,
    {
        let x: i128 = params[i] as i128;
        proof {
            lemma_sum_bounds(params@.take(i as int));
            assert(params@.take(i + 1).drop_last() =~= params@.take(i as int));
            assert(0 <= x * x <= 0x4000_0000_0000_0000) by (nonlinear_arith)
                requires
                    -0x8000_0000 <= x <= 0x8000_0000,
            ;
        }
        total = total + x;
        squares = squares + x * x;
        i = i + 1;
    }
    proof {
        assert(params@.take(n as int) =~= params@);
        lemma_sum_bounds(params@);
        lemma_spread_nonnegative(params@);
        let s = sum(params@);
        let q = sum_squares(params@);
        let m = n as int;
        assert(0 <= m * q <= 0x4000_0000_0000_0000 * 0x1_0000_0000 * 0x1_0000_0000)
            by (nonlinear_arith)
            requires
                0 <= m <= 0x1_0000_0000,
                0 <= q <= 0x4000_0000_0000_0000 * m,
        ;
        assert(0 <= s * s <= 0x4000_0000_0000_0000 * 0x1_0000_0000 * 0x1_0000_0000)
            by (nonlinear_arith)
            requires
                0 <= m <= 0x1_0000_0000,
                -0x8000_0000 * m <= s <= 0x8000_0000 * m,
        ;
    }
    let count: i128 = n as i128;
    let d: i128 = count * squares - total * total;
    let root: u64 = isqrt(d as u128);
    let stddev: u64 = root / (n as u64);
    proof {
        assert(root <= 0x8000_0000_0000_0000) by (nonlinear_arith)
            requires
                root * root <= d,
                d <= 0x4000_0000_0000_0000 * 0x1_0000_0000 * 0x1_0000_0000,
        ;
        assert(root as int / n as int <= root as int / 2) by (nonlinear_arith)
            requires
                root >= 0,
                n >= 2,
        ;
    }
    stddev as i64
}

/// The creativity boost of a performance with the given shader parameters
/// and quality score.
pub fn calculate_creativity_boost(shader_params: &[i32], quality_score: i32) -> (boost: i32)
    requires
        shader_params.len() <= u32::MAX,
    ensures
        boost == creativity_boost(shader_params@, quality_score as int),
        quality_score >= 0 ==> 0 <= boost <= ONE,
{
    let param_variance = calculate_stddev(shader_params);
    let blended = floor_div(param_variance + quality_score as i64, 2);
    if blended >= ONE as i64 {
        ONE
    } else {
        blended as i32
    }
}

/// The reputation after one performance: the exponential moving average of
/// the current reputation towards the performance's quality.
pub fn update_reputation(current: i32, performance: i32) -> (updated: i32)
    ensures
        updated == moving_average(current as int, performance as int),
        current <= performance ==> current <= updated <= performance,
        performance <= current ==> performance <= updated <= current,
{
    let step = floor_div(performance as i64 - current as i64, 10);
    (current as i64 + step) as i32
}

/// The emotional consistency that goes with a reputation.
pub fn calculate_emotional_consistency(reputation: i32) -> (consistency: i32)
    ensures
        consistency == emotional_consistency(reputation as int),
        0 <= reputation <= ONE ==> ONE / 5 <= consistency <= ONE,
{
    floor_div(4 * (reputation as i64) + ONE as i64, 5) as i32
}

} // verus!

//! The jitter statistic: how far the latencies of a window spread around
//! their mean, kept in exact integer arithmetic.
//!
//! For samples `x_1 .. x_n` with sum `S`, the population variance is the
//! average of the squared deviations `(x_i - S/n)^2`. Clearing denominators,
//! `n^2` times that variance is the sum of `(x_i - x_j)^2` over all pairs
//! `i < j`, an integer that this module calls the *spread*. The population
//! standard deviation is the square root of the spread divided by `n`.

use vstd::prelude::*;
use crate::window::{LatencyWindow, WINDOW_CAPACITY};

verus! {

/// Two to the power of 128: the weight of the high limb of a spread.
pub open spec fn limb() -> int {
    u128::MAX + 1
}

/// The square of `a`.
pub open spec fn square(a: int) -> int {
    a * a
}

/// Sum of the samples.
pub open spec fn sum(s: Seq<u64>) -> int
    decreases s.len(),
{
    if s.len() == 0 {
        0
    } else {
        sum(s.drop_last()) + s.last()
    }
}

/// Sum of the squared samples.
pub open spec fn sum_of_squares(s: Seq<u64>) -> int
    decreases s.len(),
{
    if s.len() == 0 {
        0
    } else {
        sum_of_squares(s.drop_last()) + square(s.last() as int)
    }
}

/// Sum over the samples `x` of `(scale * x - center)^2`.
pub open spec fn squared_deviations(s: Seq<u64>, scale: int, center: int) -> int
    decreases s.len(),
{
    if s.len() == 0 {
        0
    } else {
        squared_deviations(s.drop_last(), scale, center) + square(scale * s.last() - center)
    }
}

/// Sum of `(s[i] - s[j])^2` over all pairs `i < j`.
pub open spec fn spread(s: Seq<u64>) -> int
    decreases s.len(),
{
    if s.len() == 0 {
        0
    } else {
        spread(s.drop_last()) + squared_deviations(s.drop_last(), 1, s.last() as int)
    }
}

/// The spread of a window together with its sample count. The spread is
/// held in two limbs, `high * 2^128 + low`, since the squares of 64-bit
/// distances do not fit one machine word once summed.
#[derive(Clone, Copy, PartialEq, Eq, Structural, Debug)]
pub struct Jitter {
    pub high: u64,
    pub low: u128,
    pub samples: u64,
}

impl Jitter {
    /// The spread as one integer: the population variance times the square
    /// of the sample count.
    pub open spec fn spread(self) -> int {
        self.high * limb() + self.low
    }
}

/// The jitter of a window: defined from two samples on.
pub open spec fn jitter_of(s: Seq<u64>) -> Option<Jitter> {
    if s.len() >= 2 {
        Some(
            Jitter {
                high: (spread(s) / limb()) as u64,
                low: (spread(s) % limb()) as u128,
                samples: s.len() as u64,
            },
        )
    } else {
        None
    }
}

/// The squared difference of two numbers is the square of their distance,
/// whichever of them is the larger.
proof fn lemma_square_of_distance(x: int, y: int, d: int)
    requires
        d == x - y || d == y - x,
    ensures
        square(1 * x - y) == d * d,
        square(1 * y - x) == d * d,
{
    assert(square(1 * x - y) == d * d && square(1 * y - x) == d * d) by (nonlinear_arith)
        requires
            d == x - y || d == y - x,
            square(1 * x - y) == (1 * x - y) * (1 * x - y),
            square(1 * y - x) == (1 * y - x) * (1 * y - x),
    ;
}

/// Each squared distance between 64-bit samples fits one limb.
proof fn lemma_squared_deviations_bounds(s: Seq<u64>, y: u64)
    ensures
        0 <= squared_deviations(s, 1, y as int) <= s.len() * u128::MAX,
    decreases s.len(),
{
    if s.len() > 0 {
        lemma_squared_deviations_bounds(s.drop_last(), y);
        let x: int = s.last() as int;
        let d: int = if x >= y { x - y } else { y - x };
        lemma_square_of_distance(x, y as int, d);
        assert(0 <= d * d <= u128::MAX) by (nonlinear_arith)
            requires
                0 <= d <= u64::MAX,
        ;
    }
}

/// The spread of `n` samples is at most `n^2` limbs.
proof fn lemma_spread_bounds(s: Seq<u64>)
    ensures
        0 <= spread(s) <= s.len() * s.len() * u128::MAX,
    decreases s.len(),
{
    if s.len() > 0 {
        let front = s.drop_last();
        lemma_spread_bounds(front);
        lemma_squared_deviations_bounds(front, s.last());
        let m: int = front.len() as int;
        let n: int = s.len() as int;
        assert(m * m * u128::MAX + m * u128::MAX <= n * n * u128::MAX) by (nonlinear_arith)
            requires
                n == m + 1,
                m >= 0,
        ;
    }
}

/// The spread determines the two limbs of a jitter value and is given back
/// by them, as long as the window is within capacity.
pub proof fn lemma_jitter_of_spread(s: Seq<u64>)
    requires
        2 <= s.len() <= WINDOW_CAPACITY,
    ensures
        jitter_of(s) matches Some(j) && j.spread() == spread(s) && j.samples == s.len(),
{
    lemma_spread_bounds(s);
    let n: int = s.len() as int;
    assert(n * n * u128::MAX <= 100 * u128::MAX) by (nonlinear_arith)
        requires
            0 <= n <= 10,
    ;
    let p: int = spread(s);
    let l: int = limb();
    assert(0 <= p / l <= 100 && p == (p / l) * l + p % l && 0 <= p % l < l) by (nonlinear_arith)
        requires
            0 <= p <= 100 * u128::MAX,
            l == u128::MAX + 1,
    ;
}

/// Expanding each square: the sum of `(scale * x - center)^2` over the
/// samples equals `scale^2 * sum(x^2) - 2 * scale * center * sum(x)
/// + n * center^2`.
pub proof fn lemma_squared_deviations_expanded(s: Seq<u64>, scale: int, center: int)
    ensures
        squared_deviations(s, scale, center) == scale * scale * sum_of_squares(s) - 2 * scale
            * center * sum(s) + s.len() * center * center,
    decreases s.len(),
{
    if s.len() == 0 {
        assert(scale * scale * 0 - 2 * scale * center * 0 + 0 * center * center == 0)
            by (nonlinear_arith);
    } else {
        let front = s.drop_last();
        lemma_squared_deviations_expanded(front, scale, center);
        let x: int = s.last() as int;
        let m: int = front.len() as int;
        let n: int = s.len() as int;
        let q0: int = sum_of_squares(front);
        let t0: int = sum(front);
        let d0: int = squared_deviations(front, scale, center);
        let q: int = sum_of_squares(s);
        let t: int = sum(s);
        let d: int = squared_deviations(s, scale, center);
        assert(d == scale * scale * q - 2 * scale * center * t + n * center * center)
            by (nonlinear_arith)
            requires
                d0 == scale * scale * q0 - 2 * scale * center * t0 + m * center * center,
                d == d0 + (scale * x - center) * (scale * x - center),
                q == q0 + x * x,
                t == t0 + x,
                n == m + 1,
        ;
    }
}

/// The spread in closed form: `n * sum(x^2) - sum(x)^2`.
pub proof fn lemma_spread_closed_form(s: Seq<u64>)
    ensures
        spread(s) == s.len() * sum_of_squares(s) - sum(s) * sum(s),
    decreases s.len(),
{
    if s.len() == 0 {
        assert(0 * 0 - 0 * 0 == 0) by (nonlinear_arith);
    } else {
        let front = s.drop_last();
        lemma_spread_closed_form(front);
        let y: int = s.last() as int;
        lemma_squared_deviations_expanded(front, 1, y);
        let m: int = front.len() as int;
        let n: int = s.len() as int;
        let q0: int = sum_of_squares(front);
        let t0: int = sum(front);
        let p0: int = spread(front);
        let e: int = squared_deviations(front, 1, y);
        let q: int = sum_of_squares(s);
        let t: int = sum(s);
        let p: int = spread(s);
        assert(p == n * q - t * t) by (nonlinear_arith)
            requires
                p0 == m * q0 - t0 * t0,
                e == 1 * 1 * q0 - 2 * 1 * y * t0 + m * y * y,
                p == p0 + e,
                q == q0 + y * y,
                t == t0 + y,
                n == m + 1,
        ;
    }
}

/// The spread is the population variance with its denominators cleared.
///
/// Write `n` for the number of samples and `S` for their sum, so that the
/// mean is `S / n`. The average of the squared deviations from the mean is
/// the sum of `(x - S/n)^2` divided by `n`; multiplied by `n^3` it becomes
/// the sum of `(n * x - S)^2`. That sum equals `n` times the spread, so the
/// spread divided by `n^2` is the population variance, and the square root
/// of the spread divided by `n` is the population standard deviation. The
/// value depends on the samples alone.
pub proof fn lemma_spread_is_scaled_variance(s: Seq<u64>)
    ensures
        s.len() * spread(s) == squared_deviations(s, s.len() as int, sum(s)),
        spread(s) >= 0,
{
    lemma_spread_closed_form(s);
    lemma_spread_bounds(s);
    let n: int = s.len() as int;
    let t: int = sum(s);
    let q: int = sum_of_squares(s);
    let p: int = spread(s);
    let d: int = squared_deviations(s, n, t);
    lemma_squared_deviations_expanded(s, n, t);
    assert(n * p == d) by (nonlinear_arith)
        requires
            p == n * q - t * t,
            d == n * n * q - 2 * n * t * t + n * t * t,
    ;
}

impl LatencyWindow {
    /// The jitter of the samples currently held.
    pub fn jitter(&self) -> (j: Option<Jitter>)
        ensures
            j == jitter_of(self@),
    {
        let v: &Vec<u64> = self.samples();
        let n: usize = v.len();
        if n < 2 {
            return None;
        }
        let mut high: u64 = 0;
        let mut low: u128 = 0;
        let mut i: usize = 0;
        while i < n
            invariant
                i <= n,
                n == v@.len(),
                n <= WINDOW_CAPACITY,
                high * limb() + low == spread(v@.take(i as int)),
                high <= 10 * i,
            decreases n - i,
        {
            let mut j: usize = 0;
            while j < i
                invariant
                    j <= i < n,
                    n == v@.len(),
                    n <= WINDOW_CAPACITY,
                    high * limb() + low == spread(v@.take(i as int)) + squared_deviations(
                        v@.take(j as int),
                        1,
                        v@[i as int] as int,
                    ),
                    high <= 10 * i + j,
                decreases i - j,
            {
                let a: u64 = v[i];
                let b: u64 = v[j];
                let d: u64 = if a >= b {
                    a - b
                } else {
                    b - a
                };
                proof {
                    lemma_square_of_distance(b as int, a as int, d as int);
                    assert(0 <= d * d <= u128::MAX) by (nonlinear_arith)
                        requires
                            0 <= d <= u64::MAX,
                    ;
                    let next = v@.take(j + 1);
                    assert(next.drop_last() =~= v@.take(j as int));
                    assert(next.last() == b);
                    assert(squared_deviations(next, 1, a as int) == squared_deviations(
                        v@.take(j as int),
                        1,
                        a as int,
                    ) + d * d);
                    assert((high + 1) * limb() == high * limb() + limb()) by (nonlinear_arith);
                }
                let sq: u128 = (d as u128) * (d as u128);
                if low <= u128::MAX - sq {
                    low = low + sq;
                } else {
                    low = low - (u128::MAX - sq) - 1;
                    high = high + 1;
                }
                j = j + 1;
            }
            proof {
                let next = v@.take(i + 1);
                assert(next.drop_last() =~= v@.take(i as int));
                assert(next.last() == v@[i as int]);
            }
            i = i + 1;
        }
        proof {
            assert(v@.take(n as int) =~= v@);
            lemma_jitter_of_spread(v@);
            let p: int = spread(v@);
            assert(p / limb() == high && p % limb() == low) by (nonlinear_arith)
                requires
                    p == high * limb() + low,
                    0 <= low < limb(),
                    limb() > 0,
            ;
        }
        Some(Jitter { high, low, samples: n as u64 })
    }
}

} // verus!

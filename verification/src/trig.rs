//! Unit-circle coordinates in raw fixed-point units, driven by a rational
//! approximation of the sine: for `x` in `[0, 1]`,
//! `sin(pi*x) ~= 16*x*(1-x) / (5 - 4*x*(1-x))`.
//! The approximation is exact at every quarter turn, so an ellipse sampled
//! at a multiple of four points hits its axis crossings exactly.

use vstd::prelude::*;
use vstd::arithmetic::div_mod::lemma_div_is_ordered;
use vstd::arithmetic::div_mod::lemma_div_pos_is_pos;
use vstd::arithmetic::div_mod::lemma_div_multiples_vanish;
use vstd::arithmetic::div_mod::lemma_div_basics;
use crate::scalar::SCALE;

verus! {

/// Most circumference samples a shape may ask for; keeps every intermediate
/// product of the sine arithmetic inside 64 bits.
pub const MAX_RESOLUTION: usize = 100_000;

/// Rational sine: `sin(pi * p / q)` in raw units, for `0 <= p <= q`.
pub open spec fn sin_ratio(p: int, q: int) -> int {
    let m = p * (q - p);
    (16 * m * (SCALE as int)) / (5 * q * q - 4 * m)
}

/// Sine of the fraction `k / n` of a full turn, in raw units.
pub open spec fn sin_turn(k: int, n: int) -> int {
    if 2 * k <= n {
        sin_ratio(2 * k, n)
    } else {
        -sin_ratio(2 * k - n, n)
    }
}

/// Cosine of the fraction `k / n` of a full turn, in raw units: the sine
/// shifted by a quarter turn, `sin(pi * (4k + n) / (2n))`.
pub open spec fn cos_turn(k: int, n: int) -> int {
    let p = 4 * k + n;
    let p2 = if p >= 4 * n {
        p - 4 * n
    } else {
        p
    };
    if p2 <= 2 * n {
        sin_ratio(p2, 2 * n)
    } else {
        -sin_ratio(p2 - 2 * n, 2 * n)
    }
}

/// The numerator term `4 * p * (q - p)` never exceeds `q * q`.
proof fn lemma_sin_ratio_terms(p: int, q: int)
    requires
        0 < q,
        0 <= p <= q,
    ensures
        0 <= p * (q - p),
        4 * (p * (q - p)) <= q * q,
{
    assert(0 <= p * (q - p) && 4 * (p * (q - p)) <= q * q) by (nonlinear_arith)
        requires
            0 < q,
            0 <= p <= q,
    ;
}

/// The rational sine stays between 0 and one raw unit.
pub proof fn lemma_sin_ratio_bounds(p: int, q: int)
    requires
        0 < q,
        0 <= p <= q,
    ensures
        0 <= sin_ratio(p, q) <= SCALE,
{
    let m = p * (q - p);
    let num = 16 * m * (SCALE as int);
    let den = 5 * q * q - 4 * m;
    lemma_sin_ratio_terms(p, q);
    assert(0 < q * q) by (nonlinear_arith)
        requires
            0 < q,
    ;
    assert((5 * q) * q == 5 * (q * q)) by (nonlinear_arith);
    assert(den >= q * q);
    lemma_div_pos_is_pos(num, den);
    assert(num <= (SCALE as int) * den) by (nonlinear_arith)
        requires
            4 * m <= q * q,
            0 <= m,
            den == 5 * q * q - 4 * m,
            num == 16 * m * (SCALE as int),
    ;
    lemma_div_is_ordered(num, (SCALE as int) * den, den);
    lemma_div_multiples_vanish(SCALE as int, den);
    assert(den * (SCALE as int) == (SCALE as int) * den) by (nonlinear_arith);
}

/// The rational sine vanishes at both ends of the half turn.
pub proof fn lemma_sin_ratio_ends(q: int)
    requires
        0 < q,
    ensures
        sin_ratio(0, q) == 0,
        sin_ratio(q, q) == 0,
{
    assert(0 * (q - 0) == 0) by (nonlinear_arith);
    assert(q * (q - q) == 0) by (nonlinear_arith);
    assert(1 <= (5 * q) * q) by (nonlinear_arith)
        requires
            0 < q,
    ;
    lemma_div_basics(5 * q * q);
}

/// The rational sine is exactly one raw unit at the middle of the half turn.
pub proof fn lemma_sin_ratio_mid(p: int, q: int)
    requires
        0 < p,
        q == 2 * p,
    ensures
        sin_ratio(p, q) == SCALE,
{
    let m = p * (q - p);
    assert(m == p * p) by (nonlinear_arith)
        requires
            q == 2 * p,
            m == p * (q - p),
    ;
    let num = 16 * (p * p) * (SCALE as int);
    let den = 5 * q * q - 4 * (p * p);
    assert(den == 16 * (p * p)) by (nonlinear_arith)
        requires
            q == 2 * p,
            den == 5 * q * q - 4 * (p * p),
    ;
    assert(0 < p * p) by (nonlinear_arith)
        requires
            0 < p,
    ;
    assert(num == den * (SCALE as int)) by (nonlinear_arith)
        requires
            num == 16 * (p * p) * (SCALE as int),
            den == 16 * (p * p),
    ;
    lemma_div_multiples_vanish(SCALE as int, den);
}

/// Both unit-circle coordinates stay within one raw unit of zero.
pub proof fn lemma_unit_bounds(k: int, n: int)
    requires
        1 <= n,
        0 <= k < n,
    ensures
        -SCALE <= sin_turn(k, n) <= SCALE,
        -SCALE <= cos_turn(k, n) <= SCALE,
{
    if 2 * k <= n {
        lemma_sin_ratio_bounds(2 * k, n);
    } else {
        lemma_sin_ratio_bounds(2 * k - n, n);
    }
    let p = 4 * k + n;
    let p2 = if p >= 4 * n {
        p - 4 * n
    } else {
        p
    };
    if p2 <= 2 * n {
        lemma_sin_ratio_bounds(p2, 2 * n);
    } else {
        lemma_sin_ratio_bounds(p2 - 2 * n, 2 * n);
    }
}

/// Law: at the four cardinal indices of a resolution divisible by four, the
/// unit circle is sampled exactly at (1,0), (0,1), (-1,0) and (0,-1).
pub proof fn lemma_cardinal_points(n: int)
    requires
        4 <= n,
        n % 4 == 0,
    ensures
        cos_turn(0, n) == SCALE,
        sin_turn(0, n) == 0,
        cos_turn(n / 4, n) == 0,
        sin_turn(n / 4, n) == SCALE,
        cos_turn(n / 2, n) == -SCALE,
        sin_turn(n / 2, n) == 0,
        cos_turn(3 * n / 4, n) == 0,
        sin_turn(3 * n / 4, n) == -SCALE,
{
    let n4 = n / 4;
    assert(n == 4 * n4);
    lemma_sin_ratio_ends(n);
    lemma_sin_ratio_ends(2 * n);
    lemma_sin_ratio_mid(n, 2 * n);
    lemma_sin_ratio_mid(2 * n4, 4 * n4);
    lemma_sin_ratio_mid(n4 + n4, n);
}

/// Rational sine, executable: `sin(pi * p / q)` in raw units.
fn sin_ratio_exec(p: u64, q: u64) -> (r: u64)
    requires
        1 <= q <= 200_000,
        p <= q,
    ensures
        r as int == sin_ratio(p as int, q as int),
        r <= 65536,
{
    proof {
        lemma_sin_ratio_terms(p as int, q as int);
        lemma_sin_ratio_bounds(p as int, q as int);
        vstd::arithmetic::mul::lemma_mul_upper_bound(p as int, 200_000, (q - p) as int, 200_000);
        assert(1 <= (q as int) * (q as int) && (q as int) * (q as int) <= 40_000_000_000)
            by (nonlinear_arith)
            requires
                1 <= q <= 200_000,
        ;
        assert((5 * (q as int)) * (q as int) == 5 * ((q as int) * (q as int)))
            by (nonlinear_arith);
    }
    let m: u64 = p * (q - p);
    let num: u64 = 16 * m * 65536;
    let den: u64 = 5 * q * q - 4 * m;
    num / den
}

/// Sine of `k / n` of a full turn, in raw units.
pub fn unit_sin(k: usize, n: usize) -> (r: i64)
    requires
        1 <= n <= MAX_RESOLUTION,
        k < n,
    ensures
        r as int == sin_turn(k as int, n as int),
        -SCALE <= r <= SCALE,
{
    let ku = k as u64;
    let nu = n as u64;
    if 2 * ku <= nu {
        sin_ratio_exec(2 * ku, nu) as i64
    } else {
        -(sin_ratio_exec(2 * ku - nu, nu) as i64)
    }
}

/// Cosine of `k / n` of a full turn, in raw units.
pub fn unit_cos(k: usize, n: usize) -> (r: i64)
    requires
        1 <= n <= MAX_RESOLUTION,
        k < n,
    ensures
        r as int == cos_turn(k as int, n as int),
        -SCALE <= r <= SCALE,
{
    let ku = k as u64;
    let nu = n as u64;
    let mut p: u64 = 4 * ku + nu;
    if p >= 4 * nu {
        p = p - 4 * nu;
    }
    if p <= 2 * nu {
        sin_ratio_exec(p, 2 * nu) as i64
    } else {
        -(sin_ratio_exec(p - 2 * nu, 2 * nu) as i64)
    }
}

} // verus!

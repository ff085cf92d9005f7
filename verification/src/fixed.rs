//! Fixed-point numbers in millionths, and the linear blend that every
//! interpolation in this crate is built from.
//!
//! A blend of `a` and `b` at the fraction `n / d` is the exact rational
//! `(a * (d - n) + b * n) / d`, cut towards zero to a whole number of units.

use vstd::prelude::*;
use vstd::arithmetic::div_mod::{lemma_div_is_ordered, lemma_div_multiples_vanish};

verus! {

/// Number of fixed-point units in one whole.
pub const SCALE: i64 = 1_000_000;

/// `value` held between `lo` and `hi`.
pub open spec fn clamp_int(value: int, lo: int, hi: int) -> int {
    if value < lo {
        lo
    } else if value > hi {
        hi
    } else {
        value
    }
}

/// The quotient `a / d` cut towards zero, for a positive `d`.
pub open spec fn trunc_div(a: int, d: int) -> int {
    if a >= 0 {
        a / d
    } else {
        -((-a) / d)
    }
}

/// The smaller of two integers.
pub open spec fn min_int(a: int, b: int) -> int {
    if a <= b {
        a
    } else {
        b
    }
}

/// The larger of two integers.
pub open spec fn max_int(a: int, b: int) -> int {
    if a <= b {
        b
    } else {
        a
    }
}

/// The blend of `a` and `b` that gives `a` at `n == 0` and `b` at `n == d`.
pub open spec fn blend_int(a: int, b: int, n: int, d: int) -> int {
    trunc_div(a * (d - n) + b * n, d)
}

/// The fraction `n / d` in millionths, cut towards zero.
pub open spec fn fraction_int(n: int, d: int) -> int {
    (n * 1_000_000) / d
}

/// Cutting towards zero keeps the order of the numerators.
pub proof fn lemma_trunc_div_monotone(a1: int, a2: int, d: int)
    requires
        a1 <= a2,
        0 < d,
    ensures
        trunc_div(a1, d) <= trunc_div(a2, d),
{
    if a1 >= 0 {
        lemma_div_is_ordered(a1, a2, d);
    } else if a2 < 0 {
        lemma_div_is_ordered(-a2, -a1, d);
    } else {
        lemma_div_is_ordered(0, -a1, d);
        lemma_div_is_ordered(0, a2, d);
    }
}

/// A whole multiple of `d` divides without a remainder.
pub proof fn lemma_trunc_div_multiple(k: int, d: int)
    requires
        0 < d,
    ensures
        trunc_div(k * d, d) == k,
{
    if k >= 0 {
        assert(k * d >= 0) by (nonlinear_arith)
            requires
                k >= 0,
                d > 0,
        ;
        assert(k * d == d * k) by (nonlinear_arith);
        lemma_div_multiples_vanish(k, d);
    } else {
        assert(k * d < 0) by (nonlinear_arith)
            requires
                k < 0,
                d > 0,
        ;
        assert(-(k * d) == d * (-k)) by (nonlinear_arith);
        lemma_div_multiples_vanish(-k, d);
    }
}

/// The numerator of a blend lies between `a * d` and `b * d`.
proof fn lemma_blend_numerator(a: int, b: int, n: int, d: int)
    requires
        0 <= n <= d,
    ensures
        min_int(a, b) * d <= a * (d - n) + b * n <= max_int(a, b) * d,
        a * (d - 0) + b * 0 == a * d,
        a * (d - d) + b * d == b * d,
{
    let lo = min_int(a, b);
    let hi = max_int(a, b);
    assert(lo * (d - n) <= a * (d - n) <= hi * (d - n)) by (nonlinear_arith)
        requires
            lo <= a <= hi,
            0 <= d - n,
    ;
    assert(lo * n <= b * n <= hi * n) by (nonlinear_arith)
        requires
            lo <= b <= hi,
            0 <= n,
    ;
    assert(lo * (d - n) + lo * n == lo * d) by (nonlinear_arith);
    assert(hi * (d - n) + hi * n == hi * d) by (nonlinear_arith);
    assert(a * (d - 0) + b * 0 == a * d) by (nonlinear_arith);
    assert(a * (d - d) + b * d == b * d) by (nonlinear_arith);
}

/// A blend never leaves the interval between its two ends.
pub proof fn lemma_blend_bounds(a: int, b: int, n: int, d: int)
    requires
        0 <= n <= d,
        0 < d,
    ensures
        min_int(a, b) <= blend_int(a, b, n, d) <= max_int(a, b),
{
    let lo = min_int(a, b);
    let hi = max_int(a, b);
    lemma_blend_numerator(a, b, n, d);
    lemma_trunc_div_multiple(lo, d);
    lemma_trunc_div_multiple(hi, d);
    lemma_trunc_div_monotone(lo * d, a * (d - n) + b * n, d);
    lemma_trunc_div_monotone(a * (d - n) + b * n, hi * d, d);
}

/// A blend is exactly `a` at the fraction zero and exactly `b` at one.
pub proof fn lemma_blend_ends(a: int, b: int, d: int)
    requires
        0 < d,
    ensures
        blend_int(a, b, 0, d) == a,
        blend_int(a, b, d, d) == b,
{
    lemma_blend_numerator(a, b, 0, d);
    lemma_blend_numerator(a, b, d, d);
    lemma_trunc_div_multiple(a, d);
    lemma_trunc_div_multiple(b, d);
}

/// A blend moves from `a` towards `b` as the fraction grows, and never back.
pub proof fn lemma_blend_monotone(a: int, b: int, n1: int, n2: int, d: int)
    requires
        0 <= n1 <= n2 <= d,
        0 < d,
    ensures
        a <= b ==> blend_int(a, b, n1, d) <= blend_int(a, b, n2, d),
        a >= b ==> blend_int(a, b, n1, d) >= blend_int(a, b, n2, d),
{
    let x1 = a * (d - n1) + b * n1;
    let x2 = a * (d - n2) + b * n2;
    assert(x2 - x1 == (b - a) * (n2 - n1)) by (nonlinear_arith)
        requires
            x1 == a * (d - n1) + b * n1,
            x2 == a * (d - n2) + b * n2,
    ;
    if a <= b {
        assert((b - a) * (n2 - n1) >= 0) by (nonlinear_arith)
            requires
                b - a >= 0,
                n2 - n1 >= 0,
        ;
        lemma_trunc_div_monotone(x1, x2, d);
    }
    if a >= b {
        assert((b - a) * (n2 - n1) <= 0) by (nonlinear_arith)
            requires
                b - a <= 0,
                n2 - n1 >= 0,
        ;
        lemma_trunc_div_monotone(x2, x1, d);
    }
}

/// A fraction of a whole lies between zero and one, and grows with `n`.
pub proof fn lemma_fraction_bounds(n1: int, n2: int, d: int)
    requires
        0 <= n1 <= n2 <= d,
        0 < d,
    ensures
        0 <= fraction_int(n1, d) <= fraction_int(n2, d) <= 1_000_000,
        fraction_int(0, d) == 0,
        fraction_int(d, d) == 1_000_000,
{
    assert(0 <= n1 * 1_000_000 <= n2 * 1_000_000 <= d * 1_000_000) by (nonlinear_arith)
        requires
            0 <= n1 <= n2 <= d,
    ;
    lemma_div_is_ordered(0, n1 * 1_000_000, d);
    lemma_div_is_ordered(n1 * 1_000_000, n2 * 1_000_000, d);
    lemma_div_is_ordered(n2 * 1_000_000, d * 1_000_000, d);
    lemma_div_multiples_vanish(1_000_000, d);
    lemma_div_multiples_vanish(0, d);
    assert(d * 0 == 0);
    assert(0 * 1_000_000 == 0);
}

/// Blends `a` and `b` at the fraction `n / d`.
pub fn blend(a: i64, b: i64, n: u64, d: u64) -> (out: i64)
    requires
        n <= d,
        0 < d,
    ensures
        out == blend_int(a as int, b as int, n as int, d as int),
        min_int(a as int, b as int) <= out <= max_int(a as int, b as int),
{
    let rest: u64 = d - n;
    proof {
        lemma_blend_numerator(a as int, b as int, n as int, d as int);
        lemma_blend_bounds(a as int, b as int, n as int, d as int);
        let lim: int = 0x8000_0000_0000_0000;
        assert(-lim * (d - n) <= a * (d - n) <= lim * (d - n)) by (nonlinear_arith)
            requires
                -lim <= a <= lim,
                0 <= d - n,
        ;
        assert(-lim * n <= b * n <= lim * n) by (nonlinear_arith)
            requires
                -lim <= b <= lim,
                0 <= n,
        ;
        assert(lim * (d - n) <= lim * 0x1_0000_0000_0000_0000) by (nonlinear_arith)
            requires
                d - n <= 0x1_0000_0000_0000_0000,
                lim >= 0,
        ;
        assert(lim * n <= lim * 0x1_0000_0000_0000_0000) by (nonlinear_arith)
            requires
                n <= 0x1_0000_0000_0000_0000,
                lim >= 0,
        ;
        assert(lim * (d - n) + lim * n == lim * d) by (nonlinear_arith);
        assert(lim * d <= lim * 0xffff_ffff_ffff_ffff) by (nonlinear_arith)
            requires
                d <= 0xffff_ffff_ffff_ffff,
                lim >= 0,
        ;
    }
    let left: i128 = (a as i128) * (rest as i128);
    let right: i128 = (b as i128) * (n as i128);
    let total: i128 = left + right;
    let quotient: i128 = total / (d as i128);
    quotient as i64
}

/// The fraction `n / d` in millionths.
pub fn fraction(n: u64, d: u64) -> (out: i64)
    requires
        n <= d,
        0 < d,
    ensures
        out == fraction_int(n as int, d as int),
        0 <= out <= SCALE,
{
    proof {
        lemma_fraction_bounds(n as int, n as int, d as int);
        assert(n * 1_000_000 <= 0xffff_ffff_ffff_ffff * 1_000_000) by (nonlinear_arith)
            requires
                n <= 0xffff_ffff_ffff_ffff,
        ;
    }
    let scaled: u128 = (n as u128) * 1_000_000u128;
    let quotient: u128 = scaled / (d as u128);
    quotient as i64
}

} // verus!

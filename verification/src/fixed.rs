//! Fixed-point arithmetic shared by the simulations: scaled integers with
//! `FP_ONE` units per whole unit, truncating division, and the bound lemmas
//! the geometry proofs lean on.
use vstd::arithmetic::div_mod::{
    lemma_div_basics,
    lemma_div_is_ordered,
    lemma_div_is_ordered_by_denominator,
    lemma_div_multiples_vanish,
    lemma_div_pos_is_pos,
};
use vstd::prelude::*;

verus! {

/// Fixed-point units per whole unit.
pub const FP_ONE: i64 = 65536;

/// The magnitude of `v`.
pub open spec fn spec_abs(v: int) -> int {
    if v < 0 {
        -v
    } else {
        v
    }
}

/// Division rounding towards zero, as the machine division of two signed
/// integers behaves: the magnitudes are divided and the usual sign rule
/// applies.
pub open spec fn spec_div_trunc(a: int, b: int) -> int {
    if (a < 0) == (b < 0) {
        spec_abs(a) / spec_abs(b)
    } else {
        -(spec_abs(a) / spec_abs(b))
    }
}

/// The magnitude of `v`.
pub fn abs_i64(v: i64) -> (r: i64)
    requires
        v > i64::MIN,
    ensures
        r == spec_abs(v as int),
{
    if v < 0 {
        -v
    } else {
        v
    }
}

/// A product of values bounded in magnitude is bounded by the product of the
/// bounds.
pub proof fn lemma_mul_abs_bound(x: int, y: int, bx: int, by: int)
    requires
        spec_abs(x) <= bx,
        spec_abs(y) <= by,
    ensures
        spec_abs(x * y) <= bx * by,
{
    assert(spec_abs(x * y) <= bx * by) by (nonlinear_arith)
        requires
            spec_abs(x) <= bx,
            spec_abs(y) <= by,
    ;
}

/// Truncating division never grows the magnitude, and a numerator within
/// `k` times the divisor gives a quotient within `k`.
pub proof fn lemma_div_trunc_le(a: int, b: int, k: int)
    requires
        b != 0,
        0 <= k,
        spec_abs(a) <= k * spec_abs(b),
    ensures
        spec_abs(spec_div_trunc(a, b)) <= k,
{
    let ua = spec_abs(a);
    let ub = spec_abs(b);
    lemma_div_pos_is_pos(ua, ub);
    lemma_div_is_ordered(ua, k * ub, ub);
    lemma_div_multiples_vanish(k, ub);
    assert(k * ub == ub * k) by (nonlinear_arith);
}

/// Truncating division undoes an exact multiplication by a positive factor.
pub proof fn lemma_div_trunc_exact(a: int, b: int)
    requires
        0 < b,
    ensures
        spec_div_trunc(a * b, b) == a,
{
    lemma_div_multiples_vanish(a, b);
    assert(a * b == b * a) by (nonlinear_arith);
    if a < 0 {
        assert(a * b < 0) by (nonlinear_arith)
            requires
                a < 0 && b > 0,
        ;
        lemma_div_multiples_vanish(-a, b);
        assert(spec_abs(a * b) == b * (-a)) by (nonlinear_arith)
            requires
                a < 0 && b > 0,
        ;
    } else {
        assert(a * b >= 0) by (nonlinear_arith)
            requires
                a >= 0 && b > 0,
        ;
        assert(spec_abs(a * b) == b * a) by (nonlinear_arith)
            requires
                a >= 0 && b > 0,
        ;
    }
}

/// Division of an `i64` rounding towards zero, computed on the magnitudes.
pub fn div_trunc_i64(a: i64, b: i64) -> (r: i64)
    requires
        b != 0,
        a > i64::MIN,
        b > i64::MIN,
    ensures
        r == spec_div_trunc(a as int, b as int),
        spec_abs(r as int) <= spec_abs(a as int),
{
    let ua: u64 = if a >= 0 {
        a as u64
    } else {
        (-a) as u64
    };
    let ub: u64 = if b >= 0 {
        b as u64
    } else {
        (-b) as u64
    };
    let q: u64 = ua / ub;
    proof {
        lemma_div_pos_is_pos(ua as int, ub as int);
        lemma_div_is_ordered_by_denominator(ua as int, 1, ub as int);
        lemma_div_basics(ua as int);
    }
    if (a >= 0) == (b >= 0) {
        q as i64
    } else {
        -(q as i64)
    }
}

/// Division of an `i128` rounding towards zero, computed on the magnitudes.
pub fn div_trunc_i128(a: i128, b: i128) -> (r: i128)
    requires
        b != 0,
        a > i128::MIN,
        b > i128::MIN,
    ensures
        r == spec_div_trunc(a as int, b as int),
        spec_abs(r as int) <= spec_abs(a as int),
{
    let ua: u128 = if a >= 0 {
        a as u128
    } else {
        (-a) as u128
    };
    let ub: u128 = if b >= 0 {
        b as u128
    } else {
        (-b) as u128
    };
    let q: u128 = ua / ub;
    proof {
        lemma_div_pos_is_pos(ua as int, ub as int);
        lemma_div_is_ordered_by_denominator(ua as int, 1, ub as int);
        lemma_div_basics(ua as int);
    }
    if (a >= 0) == (b >= 0) {
        q as i128
    } else {
        -(q as i128)
    }
}

} // verus!

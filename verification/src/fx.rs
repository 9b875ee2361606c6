//! Saturating fixed-point scalar arithmetic.
//!
//! A scalar is an `i64` holding a real value scaled by `FX_ONE` (2^20
//! fractional bits).  Every operation is total and deterministic: wide
//! intermediates are computed exactly in `i128`, divisions truncate toward
//! zero, a zero divisor yields zero, and results are clamped to the
//! symmetric range `[-i64::MAX, i64::MAX]`.  Each executable operation is
//! specified exactly by the spec function of the same shape, so contracts
//! higher up pin results down to the last bit.

use vstd::prelude::*;

verus! {

/// The fixed-point unit: 2^20.
pub const FX_ONE: i64 = 1048576;

/// Largest representable scalar magnitude (the range is symmetric so that
/// negation never overflows).
pub const FX_LIMIT: i64 = i64::MAX;

/// Clamp a mathematical integer into the representable scalar range.
pub open spec fn fx_clip(x: int) -> int {
    if x > FX_LIMIT as int {
        FX_LIMIT as int
    } else if x < -(FX_LIMIT as int) {
        -(FX_LIMIT as int)
    } else {
        x
    }
}

/// Division truncating toward zero, for a positive divisor.
pub open spec fn fx_tdiv(x: int, d: int) -> int
    recommends
        d > 0,
{
    if x >= 0 {
        x / d
    } else {
        -((-x) / d)
    }
}

pub open spec fn spec_fx_add(a: int, b: int) -> int {
    fx_clip(a + b)
}

pub open spec fn spec_fx_sub(a: int, b: int) -> int {
    fx_clip(a - b)
}

pub open spec fn spec_fx_neg(a: int) -> int {
    fx_clip(-a)
}

pub open spec fn spec_fx_mul(a: int, b: int) -> int {
    fx_clip(fx_tdiv(a * b, FX_ONE as int))
}

/// Fixed-point division; a zero divisor yields zero (the algorithm guards
/// every division by an epsilon test, so this branch is a deterministic
/// fallback, never a meaningful result).
pub open spec fn spec_fx_div(a: int, b: int) -> int {
    if b == 0 {
        0
    } else if b > 0 {
        fx_clip(fx_tdiv(a * (FX_ONE as int), b))
    } else {
        fx_clip(-fx_tdiv(a * (FX_ONE as int), -b))
    }
}

/// `r` is the nonnegative integer square root of `x`.
pub open spec fn is_sqrt(x: int, r: int) -> bool {
    0 <= r && r * r <= x && x < (r + 1) * (r + 1)
}

/// The nonnegative integer square root: the unique `r` with `is_sqrt(x, r)`.
pub open spec fn sqrt_nat(x: int) -> int {
    choose|r: int| is_sqrt(x, r)
}

/// Fixed-point square root; nonpositive inputs map to zero.
pub open spec fn spec_fx_sqrt(a: int) -> int {
    if a <= 0 {
        0
    } else {
        sqrt_nat(a * (FX_ONE as int))
    }
}

pub open spec fn spec_fx_max(a: int, b: int) -> int {
    if a >= b {
        a
    } else {
        b
    }
}

pub broadcast proof fn lemma_fx_clip_bounds(x: int)
    ensures
        -(FX_LIMIT as int) <= #[trigger] fx_clip(x) <= FX_LIMIT as int,
{
}

/// Truncating division by a positive divisor is monotone.
pub(crate) proof fn lemma_tdiv_mono(x: int, y: int, d: int)
    requires
        x <= y,
        0 < d,
    ensures
        fx_tdiv(x, d) <= fx_tdiv(y, d),
{
    lemma_tdiv_bounds(x, d);
    lemma_tdiv_bounds(y, d);
    if x >= 0 {
        vstd::arithmetic::div_mod::lemma_div_is_ordered(x, y, d);
    } else if y >= 0 {
    } else {
        vstd::arithmetic::div_mod::lemma_div_is_ordered(-y, -x, d);
    }
}

/// Fixed-point multiplication by a nonnegative scalar is monotone.
pub(crate) proof fn lemma_fx_mul_mono(x: int, y: int, d: int)
    requires
        x <= y,
        0 <= d,
    ensures
        spec_fx_mul(x, d) <= spec_fx_mul(y, d),
{
    assert(x * d <= y * d) by (nonlinear_arith)
        requires
            x <= y,
            0 <= d,
    ;
    lemma_tdiv_mono(x * d, y * d, FX_ONE as int);
}

/// Fixed-point multiplication by a nonpositive scalar is antitone.
pub(crate) proof fn lemma_fx_mul_anti(x: int, y: int, d: int)
    requires
        x <= y,
        d <= 0,
    ensures
        spec_fx_mul(y, d) <= spec_fx_mul(x, d),
{
    assert(y * d <= x * d) by (nonlinear_arith)
        requires
            x <= y,
            d <= 0,
    ;
    lemma_tdiv_mono(y * d, x * d, FX_ONE as int);
}

pub(crate) proof fn lemma_tdiv_bounds(x: int, d: int)
    requires
        d > 0,
    ensures
        x >= 0 ==> 0 <= x / d && x / d <= x,
        x < 0 ==> 0 <= (-x) / d && (-x) / d <= -x,
{
    if x >= 0 {
        assert(0 <= x / d && x / d <= x) by (nonlinear_arith)
            requires
                d > 0,
                x >= 0,
        ;
    } else {
        assert(0 <= (-x) / d && (-x) / d <= -x) by (nonlinear_arith)
            requires
                d > 0,
                x < 0,
        ;
    }
}

/// Halving a representable scalar stays strictly inside the clip range,
/// so neither the clamp nor a cast back to `i64` can change it.
pub(crate) proof fn lemma_tdiv_small(x: int)
    requires
        -0x8000000000000000int <= x <= 0x7fffffffffffffffint,
    ensures
        -0x7fffffffffffffffint <= fx_tdiv(x, 2) <= 0x7fffffffffffffffint,
{
    if x >= 0 {
        assert(0 <= x / 2 && x / 2 <= 0x7fffffffffffffffint) by (nonlinear_arith)
            requires
                0 <= x <= 0x7fffffffffffffffint,
        ;
    } else {
        assert(0 <= (-x) / 2 && (-x) / 2 <= 0x4000000000000000int) by (nonlinear_arith)
            requires
                0 < -x <= 0x8000000000000000int,
        ;
    }
}

proof fn lemma_sqrt_unique(x: int, r1: int, r2: int)
    requires
        0 <= r1,
        r1 * r1 <= x < (r1 + 1) * (r1 + 1),
        0 <= r2,
        r2 * r2 <= x < (r2 + 1) * (r2 + 1),
    ensures
        r1 == r2,
{
    assert(r1 == r2) by (nonlinear_arith)
        requires
            0 <= r1,
            r1 * r1 <= x < (r1 + 1) * (r1 + 1),
            0 <= r2,
            r2 * r2 <= x < (r2 + 1) * (r2 + 1),
    ;
}

/// Exact product of two scalars in a wide intermediate.
pub(crate) fn fx_mul_wide(a: i64, b: i64) -> (r: i128)
    ensures
        r == a as int * b as int,
{
    proof {
        assert((a as int) * (b as int) <= 0x8000000000000000int * 0x8000000000000000int
            && (a as int) * (b as int) >= -(0x8000000000000000int * 0x8000000000000000int))
            by (nonlinear_arith)
            requires
                -0x8000000000000000int <= a as int <= 0x7fffffffffffffffint,
                -0x8000000000000000int <= b as int <= 0x7fffffffffffffffint,
        ;
    }
    (a as i128) * (b as i128)
}

/// Clamp a wide intermediate back into the scalar range.
pub(crate) fn fx_clip_wide(x: i128) -> (r: i64)
    ensures
        r as int == fx_clip(x as int),
{
    if x > i64::MAX as i128 {
        i64::MAX
    } else if x < -(i64::MAX as i128) {
        -i64::MAX
    } else {
        x as i64
    }
}

/// Truncating division of a wide intermediate by a positive divisor.
pub(crate) fn fx_tdiv_wide(x: i128, d: i128) -> (r: i128)
    requires
        0 < d,
    ensures
        r == fx_tdiv(x as int, d as int),
{
    proof {
        lemma_tdiv_bounds(x as int, d as int);
    }
    x / d
}

pub fn fx_add(a: i64, b: i64) -> (r: i64)
    ensures
        r as int == spec_fx_add(a as int, b as int),
{
    fx_clip_wide(a as i128 + b as i128)
}

pub fn fx_sub(a: i64, b: i64) -> (r: i64)
    ensures
        r as int == spec_fx_sub(a as int, b as int),
{
    fx_clip_wide(a as i128 - b as i128)
}

pub fn fx_neg(a: i64) -> (r: i64)
    ensures
        r as int == spec_fx_neg(a as int),
{
    fx_clip_wide(-(a as i128))
}

pub fn fx_mul(a: i64, b: i64) -> (r: i64)
    ensures
        r as int == spec_fx_mul(a as int, b as int),
{
    let p = fx_mul_wide(a, b);
    fx_clip_wide(fx_tdiv_wide(p, FX_ONE as i128))
}

pub fn fx_div(a: i64, b: i64) -> (r: i64)
    ensures
        r as int == spec_fx_div(a as int, b as int),
{
    if b == 0 {
        0
    } else if b > 0 {
        let p = fx_mul_wide(a, FX_ONE);
        fx_clip_wide(fx_tdiv_wide(p, b as i128))
    } else {
        let p = fx_mul_wide(a, FX_ONE);
        let q = fx_tdiv_wide(p, -(b as i128));
        fx_clip_wide(-q)
    }
}

pub fn fx_max(a: i64, b: i64) -> (r: i64)
    ensures
        r as int == spec_fx_max(a as int, b as int),
{
    if a >= b {
        a
    } else {
        b
    }
}

/// Halve a scalar, truncating toward zero.
pub fn fx_half(a: i64) -> (r: i64)
    ensures
        r as int == fx_tdiv(a as int, 2),
{
    a / 2
}

/// The scalar for a whole number of units (an iteration count), clamped
/// like every other operation.
pub(crate) fn fx_from_wide(n: u128) -> (r: i64)
    ensures
        r as int == fx_clip((n as int) * (FX_ONE as int)),
{
    if n > 8796093022207u128 {
        proof {
            assert((n as int) * (FX_ONE as int) > 0x7fffffffffffffffint) by (nonlinear_arith)
                requires
                    n as int >= 8796093022208,
            ;
        }
        i64::MAX
    } else {
        proof {
            assert(0 <= (n as int) * (FX_ONE as int) <= 0x7fffffffffffffffint)
                by (nonlinear_arith)
                requires
                    0 <= n as int <= 8796093022207,
            ;
        }
        (n as i64) * FX_ONE
    }
}

/// Integer square root by bisection.
pub(crate) fn isqrt_wide(x: u128) -> (r: u128)
    ensures
        0 <= r,
        r * r <= x as int,
        (x as int) < (r + 1) * (r + 1),
{
    let mut lo: u128 = 0;
    let mut hi: u128 = 0x10000000000000000;
    proof {
        assert((0x10000000000000000int) * (0x10000000000000000int) > x as int);
    }
    while hi - lo > 1
        invariant
            lo < hi <= 0x10000000000000000,
            lo * lo <= x as int,
            (x as int) < (hi as int) * (hi as int),
        decreases hi - lo,
    {
        let mid = lo + (hi - lo) / 2;
        proof {
            assert((mid as int) * (mid as int) < 0x100000000000000000000000000000000int)
                by (nonlinear_arith)
                requires
                    0 <= mid as int && (mid as int) < 0x10000000000000000int,
            ;
        }
        let sq = mid * mid;
        if sq <= x {
            lo = mid;
        } else {
            hi = mid;
        }
    }
    lo
}

pub fn fx_sqrt(a: i64) -> (r: i64)
    ensures
        r as int == spec_fx_sqrt(a as int),
        0 <= r,
{
    if a <= 0 {
        0
    } else {
        proof {
            assert((a as int) * (FX_ONE as int) < 0x800000000000000000000int)
                by (nonlinear_arith)
                requires
                    0 < a as int && (a as int) <= 0x7fffffffffffffffint,
            ;
            assert((a as int) * (FX_ONE as int) > 0) by (nonlinear_arith)
                requires
                    0 < a as int,
            ;
        }
        let x: u128 = (a as u128) * (FX_ONE as u128);
        let s = isqrt_wide(x);
        proof {
            assert((s as int) < 0x40000000000int) by (nonlinear_arith)
                requires
                    0 <= s as int,
                    (s as int) * (s as int) <= x as int,
                    (x as int) < 0x800000000000000000000int,
            ;
            let r0 = sqrt_nat(x as int);
            assert(is_sqrt(x as int, s as int));
            assert(exists|r: int| is_sqrt(x as int, r));
            assert(is_sqrt(x as int, r0));
            lemma_sqrt_unique(x as int, s as int, r0);
        }
        s as i64
    }
}

} // verus!

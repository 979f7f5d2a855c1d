//! Fixed-point arithmetic on `i64` values counted in millionths of a unit.
//!
//! Every real-valued quantity of a neuron is held as an integer `v` that
//! stands for `v / UNIT`. Products and quotients are rounded toward zero, as
//! Rust's integer division does, and saturate at the bounds of `i64`.
use vstd::prelude::*;

verus! {

/// One whole unit: the value `1.0`.
pub const UNIT: i64 = 1_000_000;

/// Quotient rounded toward zero.
pub open spec fn tdiv(a: int, b: int) -> int {
    let q = abs(a) / abs(b);
    if (a < 0) != (b < 0) {
        -q
    } else {
        q
    }
}

pub open spec fn abs(a: int) -> int {
    if a < 0 {
        -a
    } else {
        a
    }
}

pub open spec fn clamp(v: int, lo: int, hi: int) -> int {
    if v < lo {
        lo
    } else if v > hi {
        hi
    } else {
        v
    }
}

/// `v` brought into the range of `i64`.
pub open spec fn sat(v: int) -> int {
    clamp(v, i64::MIN as int, i64::MAX as int)
}

/// The fixed-point product `a * b`.
pub open spec fn fmul(a: int, b: int) -> int {
    sat(tdiv(a * b, UNIT as int))
}

/// The fixed-point quotient `a / b`.
pub open spec fn fdiv(a: int, b: int) -> int {
    sat(tdiv(a * UNIT as int, b))
}

/// `v` capped at `hi`, and brought into the range of `i64` from below.
pub open spec fn at_most(v: int, hi: int) -> int {
    clamp(v, i64::MIN as int, hi)
}

/// `v` raised to `lo`, and brought into the range of `i64` from above.
pub open spec fn at_least(v: int, lo: int) -> int {
    clamp(v, lo, i64::MAX as int)
}

/// Quotient rounded toward zero of two `i128`s, the divisor not zero and
/// neither operand the least `i128`.
pub fn trunc_div(a: i128, b: i128) -> (r: i128)
    requires
        b != 0,
        a > i128::MIN,
        b > i128::MIN,
    ensures
        r == tdiv(a as int, b as int),
{
    let ua: i128 = if a < 0 {
        -a
    } else {
        a
    };
    let ub: i128 = if b < 0 {
        -b
    } else {
        b
    };
    let q: i128 = ua / ub;
    if (a < 0) != (b < 0) {
        -q
    } else {
        q
    }
}

/// `v` saturated into `i64`.
pub fn saturate(v: i128) -> (r: i64)
    ensures
        r == sat(v as int),
{
    if v < i64::MIN as i128 {
        i64::MIN
    } else if v > i64::MAX as i128 {
        i64::MAX
    } else {
        v as i64
    }
}

/// `v` clamped to `[lo, hi]`.
pub fn clamp_i128(v: i128, lo: i64, hi: i64) -> (r: i64)
    requires
        lo <= hi,
    ensures
        r == clamp(v as int, lo as int, hi as int),
{
    if v < lo as i128 {
        lo
    } else if v > hi as i128 {
        hi
    } else {
        v as i64
    }
}

/// The fixed-point product of `a` and `b`.
pub fn fixed_mul(a: i64, b: i64) -> (r: i64)
    ensures
        r == fmul(a as int, b as int),
{
    proof {
        lemma_product_bound(a as int, b as int);
    }
    let p: i128 = (a as i128) * (b as i128);
    saturate(trunc_div(p, UNIT as i128))
}

/// The fixed-point quotient of `a` by `b`, which is not zero.
pub fn fixed_div(a: i64, b: i64) -> (r: i64)
    requires
        b != 0,
    ensures
        r == fdiv(a as int, b as int),
{
    proof {
        lemma_product_bound(a as int, UNIT as int);
    }
    let p: i128 = (a as i128) * (UNIT as i128);
    saturate(trunc_div(p, b as i128))
}

/// A value of `i64` times a factor of at most one unit in magnitude stays
/// far inside `i128`.
pub proof fn lemma_scaled_bound(a: int, k: int)
    requires
        i64::MIN <= a <= i64::MAX,
        -UNIT <= k <= UNIT,
    ensures
        -0x8000_0000_0000_0000 * UNIT <= a * k <= 0x8000_0000_0000_0000 * UNIT,
{
    assert(abs(a) <= 0x8000_0000_0000_0000);
    assert(abs(a * k) == abs(a) * abs(k)) by (nonlinear_arith);
    assert(abs(a) * abs(k) <= 0x8000_0000_0000_0000 * UNIT) by (nonlinear_arith)
        requires
            0 <= abs(a) <= 0x8000_0000_0000_0000,
            0 <= abs(k) <= UNIT,
    ;
}

/// A product keeps the sign of its factors.
pub proof fn lemma_fmul_sign(a: int, b: int)
    ensures
        a >= 0 && b >= 0 ==> fmul(a, b) >= 0,
        a <= 0 && b >= 0 ==> fmul(a, b) <= 0,
        a >= 0 && b <= 0 ==> fmul(a, b) <= 0,
{
    if a >= 0 && b >= 0 {
        assert(a * b >= 0) by (nonlinear_arith)
            requires
                a >= 0 && b >= 0,
        ;
    }
    if a <= 0 && b >= 0 {
        assert(a * b <= 0) by (nonlinear_arith)
            requires
                a <= 0 && b >= 0,
        ;
    }
    if a >= 0 && b <= 0 {
        assert(a * b <= 0) by (nonlinear_arith)
            requires
                a >= 0 && b <= 0,
        ;
    }
    lemma_tdiv_sign(a * b, UNIT as int);
}

/// A quotient by a positive divisor keeps the sign of the dividend.
pub proof fn lemma_fdiv_sign(a: int, b: int)
    requires
        b > 0,
    ensures
        a >= 0 ==> fdiv(a, b) >= 0,
        a <= 0 ==> fdiv(a, b) <= 0,
{
    if a >= 0 {
        assert(a * UNIT >= 0) by (nonlinear_arith)
            requires
                a >= 0,
        ;
    } else {
        assert(a * UNIT <= 0) by (nonlinear_arith)
            requires
                a <= 0,
        ;
    }
    lemma_tdiv_sign(a * UNIT, b);
}

proof fn lemma_tdiv_sign(p: int, q: int)
    requires
        q > 0,
    ensures
        p >= 0 ==> tdiv(p, q) >= 0,
        p <= 0 ==> tdiv(p, q) <= 0,
{
    assert(abs(p) / q >= 0) by (nonlinear_arith)
        requires
            abs(p) >= 0,
            q > 0,
    ;
}

proof fn lemma_product_bound(a: int, b: int)
    requires
        i64::MIN <= a <= i64::MAX,
        i64::MIN <= b <= i64::MAX,
    ensures
        i128::MIN < a * b <= i128::MAX,
{
    assert(abs(a) <= 0x8000_0000_0000_0000);
    assert(abs(b) <= 0x8000_0000_0000_0000);
    assert(abs(a * b) == abs(a) * abs(b)) by (nonlinear_arith);
    assert(abs(a) * abs(b) <= 0x8000_0000_0000_0000 * 0x8000_0000_0000_0000) by (nonlinear_arith)
        requires
            0 <= abs(a) <= 0x8000_0000_0000_0000,
            0 <= abs(b) <= 0x8000_0000_0000_0000,
    ;
}

} // verus!

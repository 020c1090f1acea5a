//! Arithmetic on lengths: sums and differences that stop at the ends of the
//! `i64` range, and quotients that round toward zero.

use vstd::prelude::*;

verus! {

/// The `i64` nearest to `v`.
pub open spec fn saturate(v: int) -> i64 {
    if v > i64::MAX {
        i64::MAX
    } else if v < i64::MIN {
        i64::MIN
    } else {
        v as i64
    }
}

/// The distance of `v` from zero.
pub open spec fn magnitude(v: int) -> int {
    if v < 0 {
        -v
    } else {
        v
    }
}

/// `a / b` rounded toward zero.
pub open spec fn quotient(a: int, b: int) -> int
    recommends
        b != 0,
{
    let q = magnitude(a) / magnitude(b);
    if (a < 0) != (b < 0) {
        -q
    } else {
        q
    }
}

/// `a + b`, held to the `i64` range.
pub open spec fn spec_sat_add(a: i64, b: i64) -> i64 {
    saturate(a + b)
}

/// `a - b`, held to the `i64` range.
pub open spec fn spec_sat_sub(a: i64, b: i64) -> i64 {
    saturate(a - b)
}

/// `-a`, held to the `i64` range.
pub open spec fn spec_sat_neg(a: i64) -> i64 {
    saturate(-a)
}

/// `a * b / c`: the exact product, divided rounding toward zero, held to the
/// `i64` range.
pub open spec fn spec_mul_div(a: i64, b: i64, c: i64) -> i64
    recommends
        c != 0,
{
    saturate(quotient(a * b, c as int))
}

/// `a / b` rounded toward zero, held to the `i64` range.
pub open spec fn spec_div(a: i64, b: i64) -> i64
    recommends
        b != 0,
{
    saturate(quotient(a as int, b as int))
}

/// The larger of `a` and `b`.
pub open spec fn spec_larger(a: i64, b: i64) -> i64 {
    if a >= b {
        a
    } else {
        b
    }
}

/// The smaller of `a` and `b`.
pub open spec fn spec_smaller(a: i64, b: i64) -> i64 {
    if a <= b {
        a
    } else {
        b
    }
}

/// `a + b`, held to the `i64` range.
#[verifier::when_used_as_spec(spec_sat_add)]
pub fn sat_add(a: i64, b: i64) -> (r: i64)
    ensures
        r == spec_sat_add(a, b),
{
    let wide: i128 = a as i128 + b as i128;
    narrow(wide)
}

/// `a - b`, held to the `i64` range.
#[verifier::when_used_as_spec(spec_sat_sub)]
pub fn sat_sub(a: i64, b: i64) -> (r: i64)
    ensures
        r == spec_sat_sub(a, b),
{
    let wide: i128 = a as i128 - b as i128;
    narrow(wide)
}

/// `-a`, held to the `i64` range: the negation of `i64::MIN` is `i64::MAX`.
#[verifier::when_used_as_spec(spec_sat_neg)]
pub fn sat_neg(a: i64) -> (r: i64)
    ensures
        r == spec_sat_neg(a),
{
    let wide: i128 = -(a as i128);
    narrow(wide)
}

/// `a * b / c`, with the product taken exactly, the quotient rounded toward
/// zero and the result held to the `i64` range.
#[verifier::when_used_as_spec(spec_mul_div)]
pub fn mul_div(a: i64, b: i64, c: i64) -> (r: i64)
    requires
        c != 0,
    ensures
        r == spec_mul_div(a, b, c),
{
    let x: i128 = a as i128;
    let y: i128 = b as i128;
    assert(-0x4000_0000_0000_0000_0000_0000_0000_0000 <= x * y
        <= 0x4000_0000_0000_0000_0000_0000_0000_0000) by (nonlinear_arith)
        requires
            -0x8000_0000_0000_0000 <= x <= 0x8000_0000_0000_0000,
            -0x8000_0000_0000_0000 <= y <= 0x8000_0000_0000_0000,
    ;
    let product: i128 = x * y;
    narrow(wide_quotient(product, c as i128))
}

/// `a / b` rounded toward zero; `i64::MIN / -1` gives `i64::MAX`.
#[verifier::when_used_as_spec(spec_div)]
pub fn div(a: i64, b: i64) -> (r: i64)
    requires
        b != 0,
    ensures
        r == spec_div(a, b),
{
    narrow(wide_quotient(a as i128, b as i128))
}

/// The larger of `a` and `b`.
#[verifier::when_used_as_spec(spec_larger)]
pub fn larger(a: i64, b: i64) -> (r: i64)
    ensures
        r == spec_larger(a, b),
{
    if a >= b {
        a
    } else {
        b
    }
}

/// The smaller of `a` and `b`.
#[verifier::when_used_as_spec(spec_smaller)]
pub fn smaller(a: i64, b: i64) -> (r: i64)
    ensures
        r == spec_smaller(a, b),
{
    if a <= b {
        a
    } else {
        b
    }
}

/// The `i64` nearest to `wide`.
fn narrow(wide: i128) -> (r: i64)
    ensures
        r == saturate(wide as int),
{
    if wide > i64::MAX as i128 {
        i64::MAX
    } else if wide < i64::MIN as i128 {
        i64::MIN
    } else {
        wide as i64
    }
}

/// `a / b` rounded toward zero, computed on the magnitudes.
fn wide_quotient(a: i128, b: i128) -> (q: i128)
    requires
        b != 0,
        i128::MIN < a,
        i128::MIN < b,
    ensures
        q == quotient(a as int, b as int),
{
    let ma: i128 = if a < 0 {
        -a
    } else {
        a
    };
    let mb: i128 = if b < 0 {
        -b
    } else {
        b
    };
    let q: i128 = ma / mb;
    assert(0 <= ma / mb <= ma) by (nonlinear_arith)
        requires
            0 <= ma,
            0 < mb,
    ;
    if (a < 0) != (b < 0) {
        -q
    } else {
        q
    }
}

} // verus!

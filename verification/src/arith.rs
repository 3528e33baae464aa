//! Integer helpers: products that cannot overflow, division that truncates
//! toward zero, and halving that rounds to the nearest whole number.

use vstd::prelude::*;

verus! {

/// Quotient of `a` by a positive `b`, rounded toward zero as machine
/// division does.
pub open spec fn trunc_div(a: int, b: int) -> int
    recommends
        b > 0,
{
    if a >= 0 {
        a / b
    } else {
        -((-a) / b)
    }
}

/// Half of `a`, rounded to the nearest whole number, a half away from
/// zero.
pub open spec fn round_half(a: int) -> int {
    if a >= 0 {
        (a + 1) / 2
    } else {
        -((-a + 1) / 2)
    }
}

/// Absolute value.
pub open spec fn abs(a: int) -> int {
    if a >= 0 {
        a
    } else {
        -a
    }
}

/// The larger of two integers.
pub open spec fn max(a: int, b: int) -> int {
    if a >= b {
        a
    } else {
        b
    }
}

/// A product of two factors of bounded size is bounded by the product of
/// the bounds.
pub proof fn lemma_mul_bounds(a: int, b: int, x: int, y: int)
    by (nonlinear_arith)
    requires
        -x <= a <= x,
        -y <= b <= y,
    ensures
        -(x * y) <= a * b <= x * y,
{
}

/// A product of non-negative factors grows with each factor.
pub proof fn lemma_mul_monotone(a: int, b: int, x: int, y: int)
    by (nonlinear_arith)
    requires
        0 <= a <= x,
        0 <= b <= y,
    ensures
        0 <= a * b <= x * y,
{
}

/// Multiplication distributes over one more summand.
pub proof fn lemma_mul_step(n: int, x: int)
    by (nonlinear_arith)
    ensures
        (n + 1) * x == n * x + x,
        x * (n + 1) == x * n + x,
{
}

/// Product of two 32-bit integers, computed without overflow.
pub fn mul_wide(a: i32, b: i32) -> (p: i64)
    ensures
        p == a * b,
        -0x4000_0000_0000_0000 <= p <= 0x4000_0000_0000_0000,
{
    proof {
        lemma_mul_bounds(a as int, b as int, 0x8000_0000, 0x8000_0000);
    }
    (a as i64) * (b as i64)
}

/// Half of `a`, rounded to the nearest whole number, a half away from
/// zero.
pub fn half_rounded(a: i64) -> (r: i64)
    requires
        -0x4000_0000_0000_0000 <= a <= 0x4000_0000_0000_0000,
    ensures
        r == round_half(a as int),
{
    if a >= 0 {
        (a + 1) / 2
    } else {
        -((-a + 1) / 2)
    }
}

/// Machine division of `a` by a positive `b`.
pub fn div_wide(a: i64, b: i64) -> (q: i64)
    requires
        b > 0,
    ensures
        q == trunc_div(a as int, b as int),
{
    let q: i64 = a / b;
    q
}

/// Halving toward zero does not increase the size of a number.
pub proof fn lemma_trunc_div_bounds(a: int, b: int)
    requires
        b > 0,
    ensures
        abs(trunc_div(a, b)) <= abs(a),
        a >= 0 ==> 0 <= trunc_div(a, b) <= a,
        a <= 0 ==> a <= trunc_div(a, b) <= 0,
{
    if a >= 0 {
        assert(0 <= a / b <= a) by (nonlinear_arith)
            requires
                a >= 0,
                b > 0,
        ;
    } else {
        assert(0 <= (-a) / b <= -a) by (nonlinear_arith)
            requires
                a < 0,
                b > 0,
        ;
    }
}

/// Division toward zero by a positive number keeps the order of sizes.
pub proof fn lemma_trunc_div_monotone(a: int, x: int, b: int)
    requires
        b > 0,
        abs(a) <= x,
    ensures
        abs(trunc_div(a, b)) <= x / b,
{
    assert(abs(a) / b <= x / b) by (nonlinear_arith)
        requires
            0 <= abs(a) <= x,
            b > 0,
    ;
}

/// The size of a product is the product of the sizes.
pub proof fn lemma_abs_mul(a: int, b: int)
    by (nonlinear_arith)
    ensures
        abs(a * b) == abs(a) * abs(b),
{
}

} // verus!

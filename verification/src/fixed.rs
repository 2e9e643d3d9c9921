//! Saturating fixed-point arithmetic on `i64` raw values.
//!
//! A raw value `v` stands for the quantity `v / ONE`. Every operation
//! computes its exact result in a wider type, rounds a quotient toward zero
//! and narrows to the nearest `i64`, so that none of them can overflow.

use vstd::prelude::*;

verus! {

/// Raw value that stands for 1.
pub const ONE: i64 = 1_000_000;

/// The nearest value of the `i64` range.
pub open spec fn saturate(x: int) -> int {
    if x < i64::MIN as int {
        i64::MIN as int
    } else if x > i64::MAX as int {
        i64::MAX as int
    } else {
        x
    }
}

/// Distance of `x` from zero.
pub open spec fn magnitude(x: int) -> int {
    if x < 0 {
        -x
    } else {
        x
    }
}

/// Quotient of `a` by `b`, rounded toward zero.
pub open spec fn quot(a: int, b: int) -> int
    recommends
        b != 0,
{
    if b > 0 {
        if a >= 0 {
            a / b
        } else {
            -((-a) / b)
        }
    } else {
        if a > 0 {
            -(a / (-b))
        } else {
            (-a) / (-b)
        }
    }
}

/// Product of two fixed-point values.
pub open spec fn mul_spec(a: int, b: int) -> int {
    saturate(quot(a * b, ONE as int))
}

/// Quotient of two fixed-point values.
pub open spec fn div_spec(a: int, b: int) -> int
    recommends
        b != 0,
{
    saturate(quot(a * ONE, b))
}

/// `x` held within `-limit ..= limit`.
pub open spec fn clamp_spec(x: int, limit: int) -> int
    recommends
        limit >= 0,
{
    if x < -limit {
        -limit
    } else if x > limit {
        limit
    } else {
        x
    }
}

/// `r` is the largest value whose square does not exceed `n`.
pub open spec fn is_floor_sqrt(n: int, r: int) -> bool {
    0 <= r && r * r <= n && n < (r + 1) * (r + 1)
}

/// `r` is the length of the vector `(x, y)`, rounded down and held within
/// the `i64` range.
pub open spec fn is_norm(x: int, y: int, r: int) -> bool {
    &&& 0 <= r <= i64::MAX
    &&& r * r <= x * x + y * y
    &&& r < i64::MAX ==> x * x + y * y < (r + 1) * (r + 1)
}

/// Length of the vector `(x, y)`, rounded down and held within the `i64`
/// range.
pub open spec fn norm_spec(x: int, y: int) -> int {
    choose|r: int| is_norm(x, y, r)
}

/// Only one value is the length of a vector.
pub proof fn lemma_norm_unique(x: int, y: int, a: int, b: int)
    requires
        is_norm(x, y, a),
        is_norm(x, y, b),
    ensures
        a == b,
{
    if a < b {
        assert((a + 1) * (a + 1) <= b * b) by (nonlinear_arith)
            requires
                0 <= a + 1 <= b,
        ;
    }
    if b < a {
        assert((b + 1) * (b + 1) <= a * a) by (nonlinear_arith)
            requires
                0 <= b + 1 <= a,
        ;
    }
}

/// The vector of length zero is the one without extent.
pub proof fn lemma_norm_zero()
    ensures
        norm_spec(0, 0) == 0,
{
    assert(is_norm(0, 0, 0));
    lemma_norm_unique(0, 0, 0, norm_spec(0, 0));
}

/// The product of two `i64` values fits in 127 bits.
pub proof fn lemma_product_bound(a: int, b: int)
    requires
        i64::MIN <= a <= i64::MAX,
        i64::MIN <= b <= i64::MAX,
    ensures
        -0x4000_0000_0000_0000_0000_0000_0000_0000 <= a * b
            <= 0x4000_0000_0000_0000_0000_0000_0000_0000,
{
    assert(-0x4000_0000_0000_0000_0000_0000_0000_0000 <= a * b
        <= 0x4000_0000_0000_0000_0000_0000_0000_0000) by (nonlinear_arith)
        requires
            -0x8000_0000_0000_0000 <= a <= 0x8000_0000_0000_0000,
            -0x8000_0000_0000_0000 <= b <= 0x8000_0000_0000_0000,
    ;
}

/// A quotient is no farther from zero than its dividend, and keeps its sign.
pub proof fn lemma_quot_bound(a: int, b: int)
    requires
        b != 0,
    ensures
        magnitude(quot(a, b)) <= magnitude(a),
        magnitude(quot(a, b)) * magnitude(b) <= magnitude(a),
        a == 0 ==> quot(a, b) == 0,
        (a >= 0 && b > 0) || (a <= 0 && b < 0) ==> quot(a, b) >= 0,
        (a >= 0 && b < 0) || (a <= 0 && b > 0) ==> quot(a, b) <= 0,
{
    let ma = magnitude(a);
    let mb = magnitude(b);
    assert(0 <= ma / mb <= ma && (ma / mb) * mb <= ma) by (nonlinear_arith)
        requires
            ma >= 0,
            mb > 0,
    ;
}

/// Dividing a product by one of its factors gives the other factor back.
pub proof fn lemma_quot_cancel(a: int, b: int)
    requires
        b != 0,
    ensures
        quot(a * b, b) == a,
{
    let ma = magnitude(a);
    let mb = magnitude(b);
    assert((ma * mb) / mb == ma) by (nonlinear_arith)
        requires
            ma >= 0,
            mb > 0,
    ;
    assert(magnitude(a * b) == ma * mb && (a * b >= 0 <==> (a == 0 || (a > 0 <==> b > 0))))
        by (nonlinear_arith)
        requires
            ma == magnitude(a),
            mb == magnitude(b),
            b != 0,
    ;
    assert(-(a * b) == (-a) * b && -(a * b) == a * (-b) && a * b == (-a) * (-b))
        by (nonlinear_arith);
}

/// A quotient by a divisor above zero lies between two bounds where the
/// dividend lies between the bounds times the divisor.
pub proof fn lemma_quot_between(a: int, b: int, low: int, high: int)
    requires
        b > 0,
        low * b <= a <= high * b,
    ensures
        low <= quot(a, b) <= high,
{
    if a >= 0 {
        assert(low <= a / b <= high) by (nonlinear_arith)
            requires
                b > 0,
                a >= 0,
                low * b <= a <= high * b,
        ;
    } else {
        assert(-high <= (-a) / b <= -low) by (nonlinear_arith)
            requires
                b > 0,
                a < 0,
                low * b <= a <= high * b,
        ;
    }
}

/// Narrows a wide value to the nearest `i64`.
pub fn narrow(x: i128) -> (r: i64)
    ensures
        r as int == saturate(x as int),
{
    if x < i64::MIN as i128 {
        i64::MIN
    } else if x > i64::MAX as i128 {
        i64::MAX
    } else {
        x as i64
    }
}

/// Divides wide values, rounding toward zero.
pub fn quot_wide(a: i128, b: i128) -> (r: i128)
    requires
        b != 0,
        a > i128::MIN,
        b > i128::MIN,
    ensures
        r as int == quot(a as int, b as int),
{
    proof {
        lemma_quot_bound(a as int, b as int);
    }
    if b > 0 {
        a / b
    } else {
        (-a) / (-b)
    }
}

/// Multiplies two fixed-point values.
pub fn fx_mul(a: i64, b: i64) -> (r: i64)
    ensures
        r as int == mul_spec(a as int, b as int),
{
    proof {
        lemma_product_bound(a as int, b as int);
    }
    let wide: i128 = (a as i128) * (b as i128);
    narrow(quot_wide(wide, ONE as i128))
}

/// Divides one fixed-point value by another.
pub fn fx_div(a: i64, b: i64) -> (r: i64)
    requires
        b != 0,
    ensures
        r as int == div_spec(a as int, b as int),
{
    proof {
        lemma_product_bound(a as int, ONE as int);
    }
    let wide: i128 = (a as i128) * (ONE as i128);
    narrow(quot_wide(wide, b as i128))
}

/// Adds two values, holding the sum within the `i64` range.
pub fn sat_add(a: i64, b: i64) -> (r: i64)
    ensures
        r as int == saturate(a + b),
{
    narrow(a as i128 + b as i128)
}

/// Subtracts `b` from `a`, holding the difference within the `i64` range.
pub fn sat_sub(a: i64, b: i64) -> (r: i64)
    ensures
        r as int == saturate(a - b),
{
    narrow(a as i128 - b as i128)
}

/// Negates a value, holding the result within the `i64` range.
pub fn sat_neg(a: i64) -> (r: i64)
    ensures
        r as int == saturate(-a),
{
    narrow(-(a as i128))
}

/// Holds `x` within `-limit ..= limit`.
pub fn clamp_symmetric(x: i64, limit: i64) -> (r: i64)
    requires
        limit >= 0,
    ensures
        r as int == clamp_spec(x as int, limit as int),
{
    if x < -limit {
        -limit
    } else if x > limit {
        limit
    } else {
        x
    }
}

/// Integer square root, rounded down.
pub fn isqrt(n: u128) -> (r: u64)
    ensures
        is_floor_sqrt(n as int, r as int),
{
    let mut low: u128 = 0;
    let mut high: u128 = 0x1_0000_0000_0000_0000;
    while high - low > 1
        invariant
            low < high <= 0x1_0000_0000_0000_0000,
            low * low <= n,
            n < high * high,
        decreases high - low,
    {
        let mid: u128 = low + (high - low) / 2;
        assert(mid * mid <= 0xffff_ffff_ffff_ffff * 0xffff_ffff_ffff_ffff) by (nonlinear_arith)
            requires
                0 <= mid <= 0xffff_ffff_ffff_ffff,
        ;
        if mid * mid <= n {
            low = mid;
        } else {
            high = mid;
        }
    }
    low as u64
}

/// Length of the vector `(x, y)`, rounded down and held within the `i64`
/// range.
pub fn norm(x: i64, y: i64) -> (r: i64)
    ensures
        is_norm(x as int, y as int, r as int),
        r == norm_spec(x as int, y as int),
{
    proof {
        lemma_product_bound(x as int, x as int);
        lemma_product_bound(y as int, y as int);
        assert(x * x >= 0 && y * y >= 0) by (nonlinear_arith);
    }
    let sx: u128 = ((x as i128) * (x as i128)) as u128;
    let sy: u128 = ((y as i128) * (y as i128)) as u128;
    let root: u64 = isqrt(sx + sy);
    let length: i64 = if root > i64::MAX as u64 {
        proof {
            assert(i64::MAX * i64::MAX <= root * root) by (nonlinear_arith)
                requires
                    root > i64::MAX,
            ;
        }
        i64::MAX
    } else {
        root as i64
    };
    proof {
        lemma_norm_unique(x as int, y as int, length as int, norm_spec(x as int, y as int));
    }
    length
}

} // verus!

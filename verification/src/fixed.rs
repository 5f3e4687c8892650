//! Fixed-point arithmetic shared by the value domain, the controls and the
//! mark placement.
//!
//! Lengths, coordinates and sensitivity scalars are signed integers counting
//! units of 1/65536. A normalized value counts units of 1/4294967296, so the
//! product of two 16.16 quantities is already in the format of a normal.

use vstd::prelude::*;

verus! {

/// The value one in 16.16 fixed point: one pixel, or a scale factor of one.
pub const FIXED_ONE: i32 = 65536;

/// The value one in the 32-bit fraction format of a normalized value.
pub const NORMAL_ONE: u64 = 4294967296;

/// Quotient of `a` by a positive `b`, rounded toward zero.
pub open spec fn trunc_div(a: int, b: int) -> int
    recommends
        b > 0,
{
    if a >= 0 {
        a / b
    } else {
        -((-a) / b)
    }
}

/// Quotient of a non-negative `a` by a positive `b`, rounded to the nearest
/// integer, halves upward.
pub open spec fn round_div(a: int, b: int) -> int
    recommends
        a >= 0,
        b > 0,
{
    (2 * a + b) / (2 * b)
}

/// `v` limited to the interval from `lo` to `hi`.
pub open spec fn clamp(v: int, lo: int, hi: int) -> int
    recommends
        lo <= hi,
{
    if v < lo {
        lo
    } else if v > hi {
        hi
    } else {
        v
    }
}

/// Absolute value.
pub open spec fn magnitude(v: int) -> int {
    if v >= 0 {
        v
    } else {
        -v
    }
}

/// A product is no larger than the product of bounds on its factors.
pub proof fn lemma_product_bound(a: int, b: int, bound_a: int, bound_b: int)
    requires
        magnitude(a) <= bound_a,
        magnitude(b) <= bound_b,
    ensures
        magnitude(a * b) <= bound_a * bound_b,
{
    let ma = magnitude(a);
    let mb = magnitude(b);
    assert(ma * mb <= bound_a * bound_b) by (nonlinear_arith)
        requires
            0 <= ma <= bound_a,
            0 <= mb <= bound_b,
    ;
    assert(a * b == ma * mb || a * b == -(ma * mb)) by (nonlinear_arith)
        requires
            ma == a || ma == -a,
            mb == b || mb == -b,
    ;
    assert(0 <= ma * mb) by (nonlinear_arith)
        requires
            0 <= ma,
            0 <= mb,
    ;
}

/// The whole number of pixels nearest to `v`, a 16.16 fixed-point length, in
/// the same format; halves go away from zero.
pub open spec fn rounded(v: int) -> int {
    if v >= 0 {
        ((v + 32768) / 65536) * 65536
    } else {
        -(((-v + 32768) / 65536) * 65536)
    }
}

/// The whole number of pixels at or below `v`, a 16.16 fixed-point length,
/// in the same format.
pub open spec fn floored(v: int) -> int {
    (v / 65536) * 65536
}

/// Rounds a 16.16 fixed-point length to the nearest whole pixel, halves
/// away from zero.
pub fn round_to_whole(v: i64) -> (r: i64)
    requires
        -0x4000_0000_0000_0000 <= v <= 0x4000_0000_0000_0000,
    ensures
        r == rounded(v as int),
{
    if v >= 0 {
        ((v + 32768) / 65536) * 65536
    } else {
        -(((-v + 32768) / 65536) * 65536)
    }
}

/// Lowers a 16.16 fixed-point length to a whole pixel.
pub fn floor_to_whole(v: i32) -> (r: i64)
    ensures
        r == floored(v as int),
{
    let wide: i64 = v as i64;
    if wide >= 0 {
        (wide / 65536) * 65536
    } else {
        let up: i64 = -wide;
        let q: i64 = (up + 65535) / 65536;
        -(q * 65536)
    }
}

/// A quotient rounded toward zero, multiplied back, lies less than one
/// divisor from the dividend, on the side of zero.
pub proof fn lemma_trunc_div_near(a: int, b: int)
    requires
        b > 0,
    ensures
        a >= 0 ==> a - b < trunc_div(a, b) * b <= a,
        a <= 0 ==> a <= trunc_div(a, b) * b < a + b,
        trunc_div(-a, b) == -trunc_div(a, b),
{
    if a >= 0 {
        assert(a - b < (a / b) * b <= a) by (nonlinear_arith)
            requires
                b > 0,
        ;
    }
    if a <= 0 {
        let m = -a;
        assert(m - b < (m / b) * b <= m) by (nonlinear_arith)
            requires
                b > 0,
        ;
        assert((-(m / b)) * b == -((m / b) * b)) by (nonlinear_arith);
    }
}

/// A product with a factor between zero and one of 65536 parts, divided by
/// 65536 toward zero, is strictly nearer to zero than the other factor,
/// unless that factor is zero.
pub proof fn lemma_fraction_shrinks(a: int, fraction: int)
    requires
        a != 0,
        0 <= fraction < 65536,
    ensures
        magnitude(trunc_div(a * fraction, 65536)) < magnitude(a),
{
    let m = magnitude(a);
    assert(0 <= m * fraction < m * 65536) by (nonlinear_arith)
        requires
            m > 0,
            0 <= fraction < 65536,
    ;
    assert((m * fraction) / 65536 < m) by (nonlinear_arith)
        requires
            0 <= m * fraction < m * 65536,
    ;
    assert(0 <= (m * fraction) / 65536) by (nonlinear_arith)
        requires
            0 <= m * fraction,
    ;
    if a > 0 {
        assert(a * fraction == m * fraction);
    } else {
        assert(a * fraction == -(m * fraction)) by (nonlinear_arith)
            requires
                m == -a,
        ;
    }
}

/// A whole number of units in 16.16 fixed point.
pub fn whole(n: i16) -> (r: i32)
    ensures
        r == n * FIXED_ONE,
{
    let wide: i32 = n as i32;
    wide * FIXED_ONE
}

/// Truncating division of a 128-bit quantity by a positive divisor.
pub fn div_toward_zero(a: i128, b: i128) -> (q: i128)
    requires
        b > 0,
        a > i128::MIN,
    ensures
        q == trunc_div(a as int, b as int),
        magnitude(q as int) <= magnitude(a as int),
{
    if a >= 0 {
        let ua: u128 = a as u128;
        let ub: u128 = b as u128;
        let uq: u128 = ua / ub;
        assert(uq <= ua) by (nonlinear_arith)
            requires
                uq == ua / ub,
                ub > 0,
        ;
        uq as i128
    } else {
        let ua: u128 = (-a) as u128;
        let ub: u128 = b as u128;
        let uq: u128 = ua / ub;
        assert(uq <= ua) by (nonlinear_arith)
            requires
                uq == ua / ub,
                ub > 0,
        ;
        -(uq as i128)
    }
}

} // verus!

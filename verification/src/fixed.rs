//! Fixed-point arithmetic on `i64` counts of millionths.
use vstd::prelude::*;
use vstd::arithmetic::div_mod::lemma_fundamental_div_mod_converse;
use vstd::arithmetic::div_mod::lemma_fundamental_div_mod;
use vstd::arithmetic::div_mod::lemma_mod_bound;

verus! {

/// The fixed-point representation of one.
pub const UNIT: i64 = 1_000_000;

/// Whether the integer `x` can be held in an `i64`.
pub open spec fn in_range(x: int) -> bool {
    i64::MIN <= x <= i64::MAX
}

/// `x` as an `i64` where it fits, `None` where it does not.
pub open spec fn narrowed(x: int) -> Option<i64> {
    if in_range(x) {
        Some(x as i64)
    } else {
        None
    }
}

/// The product `a * b` divided by `d`, rounded towards negative infinity.
pub open spec fn mul_div(a: int, b: int, d: int) -> int
    recommends
        d > 0,
{
    (a * b) / d
}

/// The product of two fixed-point numbers, as a fixed-point number.
pub open spec fn scaled_mul(a: int, b: int) -> int {
    mul_div(a, b, UNIT as int)
}

/// Division of a 128-bit integer by a positive one, rounded towards negative
/// infinity. The quotient lies between zero and the dividend.
pub fn floor_div(a: i128, d: i128) -> (q: i128)
    requires
        d > 0,
    ensures
        q == a / d,
        a >= 0 ==> 0 <= q <= a,
        a < 0 ==> a <= q < 0,
{
    if a >= 0 {
        proof {
            lemma_div_bounds(a as int, d as int);
        }
        a / d
    } else {
        let m: i128 = -(a + 1);
        let t: i128 = m / d;
        proof {
            let r = m as int % d as int;
            lemma_div_bounds(m as int, d as int);
            lemma_fundamental_div_mod(m as int, d as int);
            lemma_mod_bound(m as int, d as int);
            assert(m == d * t + r);
            assert(a == -(d * t) - r - 1);
            assert(-(d * t) == d * (-t)) by (nonlinear_arith);
            assert(d * (-t - 1) == d * (-t) - d) by (nonlinear_arith);
            assert(a == d * (-t - 1) + (d - r - 1));
            assert((-t - 1) * d == d * (-t - 1)) by (nonlinear_arith);
            lemma_fundamental_div_mod_converse(a as int, d as int, -t - 1, d - r - 1);
        }
        -t - 1
    }
}

/// A non-negative integer divided by a positive one stays between zero and
/// itself.
pub proof fn lemma_div_bounds(a: int, d: int)
    requires
        a >= 0,
        d > 0,
    ensures
        0 <= a / d <= a,
{
    lemma_fundamental_div_mod(a, d);
    lemma_mod_bound(a, d);
    let q = a / d;
    let r = a % d;
    assert(a == d * q + r);
    assert(q >= 0) by (nonlinear_arith)
        requires
            a == d * q + r,
            0 <= r < d,
            a >= 0,
            d > 0,
    ;
    assert(d * q >= q) by (nonlinear_arith)
        requires
            q >= 0,
            d >= 1,
    ;
}

/// Narrows a 128-bit integer to an `i64`.
pub fn narrow(x: i128) -> (r: Option<i64>)
    ensures
        r == narrowed(x as int),
{
    if x < -0x8000_0000_0000_0000i128 || x > 0x7fff_ffff_ffff_ffffi128 {
        None
    } else {
        Some(x as i64)
    }
}

/// The product of two bounded integers is bounded by the product of the
/// bounds.
pub proof fn lemma_product_bound(a: int, b: int, m: int, n: int)
    requires
        -m <= a <= m,
        -n <= b <= n,
    ensures
        -(m * n) <= a * b <= m * n,
{
    assert((m - a) * (n - b) >= 0 && (m + a) * (n + b) >= 0 && (m - a) * (n + b) >= 0 && (m + a)
        * (n - b) >= 0) by (nonlinear_arith)
        requires
            -m <= a <= m,
            -n <= b <= n,
    ;
    assert(-(m * n) <= a * b <= m * n) by (nonlinear_arith)
        requires
            (m - a) * (n - b) >= 0,
            (m + a) * (n + b) >= 0,
            (m - a) * (n + b) >= 0,
            (m + a) * (n - b) >= 0,
    ;
}

/// The largest magnitude of the first factor that `checked_offset_mul_div`
/// takes: the difference of an `i64` and `UNIT` stays below it.
pub open spec fn max_span() -> int {
    0x8000_0000_0010_0000
}

/// `base + a * b / d`, the quotient rounded towards negative infinity,
/// where the sum fits in an `i64`.
pub fn checked_offset_mul_div(base: i64, a: i128, b: i64, d: i128) -> (r: Option<i64>)
    requires
        d > 0,
        -max_span() <= a <= max_span(),
    ensures
        r == narrowed(base + mul_div(a as int, b as int, d as int)),
{
    proof {
        lemma_product_bound(a as int, b as int, max_span(), 0x8000_0000_0000_0000);
        assert(max_span() * 0x8000_0000_0000_0000 == 0x4000_0000_0008_0000_0000_0000_0000_0000)
            by (nonlinear_arith)
            requires
                max_span() == 0x8000_0000_0010_0000,
        ;
    }
    let p: i128 = a * (b as i128);
    let q: i128 = floor_div(p, d);
    narrow(base as i128 + q)
}

/// `a * b / d`, rounded towards negative infinity, where it fits in an `i64`.
pub fn checked_mul_div(a: i64, b: i64, d: i64) -> (r: Option<i64>)
    requires
        d > 0,
    ensures
        r == narrowed(mul_div(a as int, b as int, d as int)),
{
    proof {
        lemma_product_bound(a as int, b as int, 0x8000_0000_0000_0000, 0x8000_0000_0000_0000);
        assert(0x8000_0000_0000_0000int * 0x8000_0000_0000_0000int
            == 0x4000_0000_0000_0000_0000_0000_0000_0000) by (nonlinear_arith);
    }
    let p: i128 = (a as i128) * (b as i128);
    narrow(floor_div(p, d as i128))
}

/// The product of two fixed-point numbers, where it fits in an `i64`.
pub fn checked_scaled_mul(a: i64, b: i64) -> (r: Option<i64>)
    ensures
        r == narrowed(scaled_mul(a as int, b as int)),
{
    checked_mul_div(a, b, UNIT)
}

/// Half of `x`, rounded towards negative infinity.
pub fn halved(x: i64) -> (r: i64)
    ensures
        r == x / 2,
{
    floor_div(x as i128, 2) as i64
}

} // verus!

//! Fixed-point arithmetic: saturation, truncating division and integer square roots.

use vstd::prelude::*;

verus! {

/// One world unit (one second, one radian) in raw steps.
pub const UNIT: i32 = 1000;

/// The absolute value of an integer.
pub open spec fn abs(a: int) -> int {
    if a < 0 {
        -a
    } else {
        a
    }
}

/// The nearest value to `v` that an `i32` can hold.
pub open spec fn clamp(v: int) -> int {
    if v < i32::MIN {
        i32::MIN as int
    } else if v > i32::MAX {
        i32::MAX as int
    } else {
        v
    }
}

/// The quotient of `a` by `b` rounded toward zero.
pub open spec fn div_trunc(a: int, b: int) -> int
    recommends
        b != 0,
{
    if (a >= 0) == (b > 0) {
        abs(a) / abs(b)
    } else {
        -(abs(a) / abs(b))
    }
}

/// Whether `r` is the largest natural number whose square does not exceed `n`.
pub open spec fn is_sqrt_floor(n: int, r: int) -> bool {
    0 <= r && r * r <= n && n < (r + 1) * (r + 1)
}

/// The square root of `n` rounded down.
pub open spec fn sqrt_floor(n: int) -> int {
    choose|r: int| is_sqrt_floor(n, r)
}

/// The square root of `n` rounded up.
pub open spec fn sqrt_ceil(n: int) -> int {
    if sqrt_floor(n) * sqrt_floor(n) == n {
        sqrt_floor(n)
    } else {
        sqrt_floor(n) + 1
    }
}

/// At most one number is the rounded-down square root of `n`.
pub proof fn lemma_sqrt_floor_unique(n: int, a: int, b: int)
    requires
        is_sqrt_floor(n, a),
        is_sqrt_floor(n, b),
    ensures
        a == b,
{
    assert(a < b + 1) by (nonlinear_arith)
        requires
            0 <= a,
            0 <= b,
            a * a < (b + 1) * (b + 1),
    ;
    assert(b < a + 1) by (nonlinear_arith)
        requires
            0 <= a,
            0 <= b,
            b * b < (a + 1) * (a + 1),
    ;
}

/// A number that passes the test is the rounded-down square root.
pub proof fn lemma_sqrt_floor_is(n: int, r: int)
    requires
        is_sqrt_floor(n, r),
    ensures
        sqrt_floor(n) == r,
{
    lemma_sqrt_floor_unique(n, sqrt_floor(n), r);
}

/// Every natural number has a rounded-down square root.
pub proof fn lemma_sqrt_floor_exists(n: int)
    requires
        n >= 0,
    ensures
        is_sqrt_floor(n, sqrt_floor(n)),
    decreases n,
{
    if n == 0 {
        assert(is_sqrt_floor(0, 0));
    } else {
        lemma_sqrt_floor_exists(n - 1);
        let r = sqrt_floor(n - 1);
        if (r + 1) * (r + 1) == n {
            assert((r + 1) * (r + 1) < (r + 2) * (r + 2)) by (nonlinear_arith)
                requires
                    r >= 0,
            ;
            assert(is_sqrt_floor(n, r + 1));
        } else {
            assert(is_sqrt_floor(n, r));
        }
    }
}

/// The rounded-up square root of a natural number is the least natural number
/// whose square reaches it.
pub proof fn lemma_sqrt_ceil_bounds(n: int)
    requires
        n >= 0,
    ensures
        sqrt_ceil(n) >= 0,
        sqrt_ceil(n) * sqrt_ceil(n) >= n,
        n > 0 ==> sqrt_ceil(n) > 0,
        n > 0 ==> (sqrt_ceil(n) - 1) * (sqrt_ceil(n) - 1) < n,
{
    lemma_sqrt_floor_exists(n);
    let f = sqrt_floor(n);
    if f * f == n {
        assert(f > 0 ==> (f - 1) * (f - 1) < f * f) by (nonlinear_arith);
    } else {
        assert((f + 1 - 1) * (f + 1 - 1) == f * f);
    }
}

/// A quotient rounded toward zero, multiplied back, does not pass the dividend,
/// and falls short of it by less than the divisor.
pub proof fn lemma_div_trunc_bounds(a: int, b: int)
    requires
        b != 0,
    ensures
        abs(div_trunc(a, b)) * abs(b) <= abs(a),
        abs(a) < (abs(div_trunc(a, b)) + 1) * abs(b),
        a >= 0 && b > 0 ==> div_trunc(a, b) >= 0,
        a <= 0 && b > 0 ==> div_trunc(a, b) <= 0,
        b > 0 ==> abs(a - div_trunc(a, b) * b) < b,
{
    let ma = abs(a);
    let mb = abs(b);
    let q = ma / mb;
    assert(q >= 0 && q * mb <= ma && ma < (q + 1) * mb) by (nonlinear_arith)
        requires
            ma >= 0,
            mb > 0,
            q == ma / mb,
    ;
    assert(abs(div_trunc(a, b)) == q);
    if b > 0 {
        assert((q + 1) * mb == q * mb + mb) by (nonlinear_arith);
        if a >= 0 {
            assert(div_trunc(a, b) == q);
        } else {
            assert(div_trunc(a, b) == -q);
            assert((-q) * b == -(q * b)) by (nonlinear_arith);
        }
    }
}

/// Saturates a wide intermediate result to the stored width.
pub fn saturate(v: i128) -> (r: i32)
    ensures
        r == clamp(v as int),
{
    if v < -2147483648 {
        i32::MIN
    } else if v > 2147483647 {
        i32::MAX
    } else {
        v as i32
    }
}

/// The exact product of two stored values.
pub fn times(a: i32, b: i32) -> (r: i64)
    ensures
        r == a * b,
        -0x4000_0000_0000_0000 <= r <= 0x4000_0000_0000_0000,
{
    assert(-0x4000_0000_0000_0000 <= a * b <= 0x4000_0000_0000_0000) by (nonlinear_arith)
        requires
            -0x8000_0000 <= a <= 0x8000_0000,
            -0x8000_0000 <= b <= 0x8000_0000,
    ;
    a as i64 * b as i64
}

/// The exact product of two intermediate values, which always fits the wide type.
pub fn product(a: i64, b: i64) -> (r: i128)
    ensures
        r == a * b,
        -0x4000_0000_0000_0000_0000_0000_0000_0000 <= r <= 0x4000_0000_0000_0000_0000_0000_0000_0000,
{
    assert(-0x4000_0000_0000_0000_0000_0000_0000_0000 <= a * b
        <= 0x4000_0000_0000_0000_0000_0000_0000_0000) by (nonlinear_arith)
        requires
            -0x8000_0000_0000_0000 <= a <= 0x8000_0000_0000_0000,
            -0x8000_0000_0000_0000 <= b <= 0x8000_0000_0000_0000,
    ;
    a as i128 * b as i128
}

/// Division rounded toward zero, whatever the signs of the operands.
pub fn div(a: i128, b: i128) -> (r: i128)
    requires
        b != 0,
        i128::MIN < a,
        i128::MIN < b,
    ensures
        r == div_trunc(a as int, b as int),
        abs(r as int) <= abs(a as int),
{
    let ma: i128 = if a < 0 { -a } else { a };
    let mb: i128 = if b < 0 { -b } else { b };
    let q: i128 = ma / mb;
    assert(0 <= q <= ma) by (nonlinear_arith)
        requires
            q == ma as int / mb as int,
            ma >= 0,
            mb > 0,
    ;
    if (a >= 0) == (b > 0) {
        q
    } else {
        -q
    }
}

/// The square root of `n` rounded down, found by bisection.
pub fn isqrt(n: u128) -> (r: u128)
    ensures
        r == sqrt_floor(n as int),
        is_sqrt_floor(n as int, r as int),
        r < 0x1_0000_0000_0000_0000,
{
    let mut lo: u128 = 0;
    let mut hi: u128 = 0x1_0000_0000_0000_0000;
    assert(n < hi * hi) by (nonlinear_arith)
        requires
            hi == 0x1_0000_0000_0000_0000,
            n <= u128::MAX,
    ;
    while hi - lo > 1
        invariant
            lo < hi <= 0x1_0000_0000_0000_0000,
            lo * lo <= n,
            n < hi * hi,
        decreases hi - lo,
    {
        let mid: u128 = lo + (hi - lo) / 2;
        assert(mid * mid < 0x1_0000_0000_0000_0000 * 0x1_0000_0000_0000_0000) by (nonlinear_arith)
            requires
                0 <= mid < 0x1_0000_0000_0000_0000,
        ;
        if mid * mid <= n {
            lo = mid;
        } else {
            hi = mid;
        }
    }
    proof {
        lemma_sqrt_floor_is(n as int, lo as int);
    }
    lo
}

/// The square root of `n` rounded up.
pub fn isqrt_ceil(n: u128) -> (r: u128)
    ensures
        r == sqrt_ceil(n as int),
        r <= 0x1_0000_0000_0000_0000,
        (r * r) as int >= n,
        r > 0 ==> (r - 1) * (r - 1) < n,
        n > 0 ==> r > 0,
{
    let f = isqrt(n);
    assert(f * f <= n);
    if f * f == n {
        assert(f > 0 ==> (f - 1) * (f - 1) < f * f) by (nonlinear_arith);
        f
    } else {
        assert((f + 1) * (f + 1) > n);
        assert((f + 1 - 1) * (f + 1 - 1) == f * f);
        f + 1
    }
}

} // verus!

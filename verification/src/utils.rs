//! Geometry on plane vectors: clamping, rescaling, distance and the look-ahead wall probe.

use crate::fixed::{
    abs, clamp, div, div_trunc, isqrt, isqrt_ceil, lemma_div_trunc_bounds, lemma_sqrt_ceil_bounds,
    product, saturate, sqrt_ceil, sqrt_floor, times,
};
use crate::vector::Vec2;
use vstd::prelude::*;

verus! {

/// The factor by which a length is refined before a vector is divided by it.
pub const SHIFT: u64 = 0x1_0000_0000;

/// The length of `v` in steps of one `SHIFT`-th, rounded up.
pub open spec fn fine_length(v: Vec2) -> int {
    sqrt_ceil(v.norm_sq() * SHIFT * SHIFT)
}

/// `v` rescaled to length `n`: each component is multiplied by `n`, divided by the
/// length of `v` and rounded toward zero. The zero vector stays zero.
pub open spec fn set_mag_spec(v: Vec2, n: int) -> Vec2 {
    if v == Vec2::zero() {
        Vec2::zero()
    } else {
        Vec2::of(
            div_trunc(v.x * n * SHIFT, fine_length(v)),
            div_trunc(v.y * n * SHIFT, fine_length(v)),
        )
    }
}

/// `v` if it is no longer than `max`, else `v` rescaled to length `max`.
pub open spec fn limit_spec(v: Vec2, max: int) -> Vec2 {
    if v.norm_sq() > max * max {
        set_mag_spec(v, max)
    } else {
        v
    }
}

/// The squared distance between two points.
pub open spec fn dist_sq(a: Vec2, b: Vec2) -> int {
    (b.x - a.x) * (b.x - a.x) + (b.y - a.y) * (b.y - a.y)
}

/// The distance between two points, rounded down to a whole step and saturated.
pub open spec fn dist_spec(a: Vec2, b: Vec2) -> int {
    clamp(sqrt_floor(dist_sq(a, b)))
}

/// Whether `b` lies within `radius` of `a`, the distance itself included: the
/// squared distance does not pass the squared radius.
pub open spec fn within(a: Vec2, b: Vec2, radius: int) -> bool {
    radius >= 0 && dist_sq(a, b) <= radius * radius
}

/// The squared length of a vector, which fits 64 bits.
fn norm_sq(v: Vec2) -> (s: u128)
    ensures
        s == v.norm_sq(),
        s <= 0x8000_0000_0000_0000,
        v != Vec2::zero() ==> s > 0,
{
    let xx: i128 = product(v.x as i64, v.x as i64);
    let yy: i128 = product(v.y as i64, v.y as i64);
    assert(0 <= v.x * v.x <= 0x4000_0000_0000_0000 && (v.x != 0 ==> v.x * v.x > 0))
        by (nonlinear_arith)
        requires
            -0x8000_0000 <= v.x <= 0x8000_0000,
    ;
    assert(0 <= v.y * v.y <= 0x4000_0000_0000_0000 && (v.y != 0 ==> v.y * v.y > 0))
        by (nonlinear_arith)
        requires
            -0x8000_0000 <= v.y <= 0x8000_0000,
    ;
    (xx + yy) as u128
}

/// Rescales `vec` to length `n`, keeping its direction; a negative `n` reverses it.
/// The zero vector has no direction and stays zero.
pub fn set_mag(vec: Vec2, n: i32) -> (r: Vec2)
    ensures
        r == set_mag_spec(vec, n as int),
{
    if vec.x == 0 && vec.y == 0 {
        return Vec2 { x: 0, y: 0 };
    }
    let s: u128 = norm_sq(vec);
    assert(s * SHIFT * SHIFT <= 0x8000_0000_0000_0000_0000_0000_0000_0000 && s * SHIFT * SHIFT
        == s * (SHIFT * SHIFT) && SHIFT * SHIFT == 0x1_0000_0000_0000_0000 && s * SHIFT * SHIFT
        > 0) by (nonlinear_arith)
        requires
            0 < s <= 0x8000_0000_0000_0000,
            SHIFT == 0x1_0000_0000,
    ;
    let len: u128 = isqrt_ceil(s * 0x1_0000_0000_0000_0000);
    let xn: i128 = product(vec.x as i64, n as i64);
    let yn: i128 = product(vec.y as i64, n as i64);
    assert(-0x4000_0000_0000_0000 <= vec.x * n <= 0x4000_0000_0000_0000) by (nonlinear_arith)
        requires
            -0x8000_0000 <= vec.x <= 0x8000_0000,
            -0x8000_0000 <= n <= 0x8000_0000,
    ;
    assert(-0x4000_0000_0000_0000 <= vec.y * n <= 0x4000_0000_0000_0000) by (nonlinear_arith)
        requires
            -0x8000_0000 <= vec.y <= 0x8000_0000,
            -0x8000_0000 <= n <= 0x8000_0000,
    ;
    let x: i128 = div(xn * 0x1_0000_0000, len as i128);
    let y: i128 = div(yn * 0x1_0000_0000, len as i128);
    Vec2 { x: saturate(x), y: saturate(y) }
}

/// Caps the length of `vec` at `max`: a longer vector is rescaled to length `max`,
/// any other is returned as it is.
pub fn limit(vec: Vec2, max: i32) -> (r: Vec2)
    ensures
        r == limit_spec(vec, max as int),
{
    let mag_sq: u128 = norm_sq(vec);
    let max_sq: i128 = product(max as i64, max as i64);
    assert(max * max >= 0) by (nonlinear_arith);
    if mag_sq > max_sq as u128 {
        set_mag(vec, max)
    } else {
        vec
    }
}

/// Tests whether `vec_b` lies within `radius` of `vec_a`, the distance itself
/// included. Nothing is rounded: the squared distance is held against the squared
/// radius.
pub fn is_within(vec_a: Vec2, vec_b: Vec2, radius: i32) -> (r: bool)
    ensures
        r == within(vec_a, vec_b, radius as int),
{
    if radius < 0 {
        return false;
    }
    let dx: i64 = vec_b.x as i64 - vec_a.x as i64;
    let dy: i64 = vec_b.y as i64 - vec_a.y as i64;
    assert(0 <= dx * dx <= 0x1_0000_0000_0000_0000) by (nonlinear_arith)
        requires
            -0x1_0000_0000 <= dx <= 0x1_0000_0000,
    ;
    assert(0 <= dy * dy <= 0x1_0000_0000_0000_0000) by (nonlinear_arith)
        requires
            -0x1_0000_0000 <= dy <= 0x1_0000_0000,
    ;
    product(dx, dx) + product(dy, dy) <= times(radius, radius) as i128
}

/// The distance between two points, in whole steps.
pub fn dist(vec_a: Vec2, vec_b: Vec2) -> (r: i32)
    ensures
        r == dist_spec(vec_a, vec_b),
{
    let dx: i64 = vec_b.x as i64 - vec_a.x as i64;
    let dy: i64 = vec_b.y as i64 - vec_a.y as i64;
    let xx: i128 = product(dx, dx);
    let yy: i128 = product(dy, dy);
    assert(0 <= dx * dx <= 0x1_0000_0000_0000_0000) by (nonlinear_arith)
        requires
            -0x1_0000_0000 <= dx <= 0x1_0000_0000,
    ;
    assert(0 <= dy * dy <= 0x1_0000_0000_0000_0000) by (nonlinear_arith)
        requires
            -0x1_0000_0000 <= dy <= 0x1_0000_0000,
    ;
    let root: u128 = isqrt((xx + yy) as u128);
    saturate(root as i128)
}

/// The determinant of the directions of the segments `a1`-`a2` and `b1`-`b2`;
/// zero when they are parallel.
pub open spec fn line_den(a1: Vec2, a2: Vec2, b1: Vec2, b2: Vec2) -> int {
    (a1.x - a2.x) * (b1.y - b2.y) - (a1.y - a2.y) * (b1.x - b2.x)
}

/// The numerator of the crossing's parameter along `a1`-`a2`, over `line_den`.
pub open spec fn line_t_num(a1: Vec2, b1: Vec2, b2: Vec2) -> int {
    (a1.x - b1.x) * (b1.y - b2.y) - (a1.y - b1.y) * (b1.x - b2.x)
}

/// The numerator of the crossing's parameter along `b1`-`b2`, over `line_den`.
pub open spec fn line_u_num(a1: Vec2, a2: Vec2, b1: Vec2) -> int {
    -((a1.x - a2.x) * (a1.y - b1.y) - (a1.y - a2.y) * (a1.x - b1.x))
}

/// Whether the lines cross strictly inside the segment `a1`-`a2` and beyond `b2`
/// on the ray from `b1` through `b2`: with `t` and `u` the two parameters,
/// `0 < t < 1` and `u > 1`, each ratio compared by the sign of its denominator.
pub open spec fn crosses_ahead(a1: Vec2, a2: Vec2, b1: Vec2, b2: Vec2) -> bool {
    let den = line_den(a1, a2, b1, b2);
    let t = line_t_num(a1, b1, b2);
    let u = line_u_num(a1, a2, b1);
    if den > 0 {
        0 < t && t < den && den < u
    } else if den < 0 {
        den < t && t < 0 && u < den
    } else {
        false
    }
}

/// The point of `a1`-`a2` at the crossing's parameter, rounded toward `a1`.
pub open spec fn crossing_point(a1: Vec2, a2: Vec2, b1: Vec2, b2: Vec2) -> Vec2 {
    let den = line_den(a1, a2, b1, b2);
    let t = line_t_num(a1, b1, b2);
    Vec2::of(
        a1.x + div_trunc(t * (a2.x - a1.x), den),
        a1.y + div_trunc(t * (a2.y - a1.y), den),
    )
}

/// The cross product of two differences of stored coordinates.
fn cross(ax: i64, ay: i64, bx: i64, by: i64) -> (r: i128)
    requires
        -0x1_0000_0000 <= ax <= 0x1_0000_0000,
        -0x1_0000_0000 <= ay <= 0x1_0000_0000,
        -0x1_0000_0000 <= bx <= 0x1_0000_0000,
        -0x1_0000_0000 <= by <= 0x1_0000_0000,
    ensures
        r == ax * by - ay * bx,
        -0x2_0000_0000_0000_0000 <= r <= 0x2_0000_0000_0000_0000,
{
    assert(-0x1_0000_0000_0000_0000 <= ax * by <= 0x1_0000_0000_0000_0000) by (nonlinear_arith)
        requires
            -0x1_0000_0000 <= ax <= 0x1_0000_0000,
            -0x1_0000_0000 <= by <= 0x1_0000_0000,
    ;
    assert(-0x1_0000_0000_0000_0000 <= ay * bx <= 0x1_0000_0000_0000_0000) by (nonlinear_arith)
        requires
            -0x1_0000_0000 <= ay <= 0x1_0000_0000,
            -0x1_0000_0000 <= bx <= 0x1_0000_0000,
    ;
    product(ax, by) - product(ay, bx)
}

/// Probes the segment `a1`-`a2` with the ray that leaves `b1` through `b2`.
///
/// The probe looks ahead: it reports a crossing only where the lines meet strictly
/// between `a1` and `a2` and strictly beyond `b2`. Parallel lines never cross.
pub fn line_line_intersection(a1: Vec2, a2: Vec2, b1: Vec2, b2: Vec2) -> (r: Result<Vec2, ()>)
    ensures
        r.is_ok() <==> crosses_ahead(a1, a2, b1, b2),
        r.is_ok() ==> r.unwrap() == crossing_point(a1, a2, b1, b2),
{
    let x1: i64 = a1.x as i64;
    let y1: i64 = a1.y as i64;
    let x2: i64 = a2.x as i64;
    let y2: i64 = a2.y as i64;
    let x3: i64 = b1.x as i64;
    let y3: i64 = b1.y as i64;
    let x4: i64 = b2.x as i64;
    let y4: i64 = b2.y as i64;

    let den: i128 = cross(x1 - x2, y1 - y2, x3 - x4, y3 - y4);
    let t: i128 = cross(x1 - x3, y1 - y3, x3 - x4, y3 - y4);
    let u: i128 = -cross(x1 - x2, y1 - y2, x1 - x3, y1 - y3);
    assert(den == line_den(a1, a2, b1, b2));
    assert(t == line_t_num(a1, b1, b2));
    assert(u == line_u_num(a1, a2, b1));
    if den == 0 {
        return Err(());
    }
    let ahead: bool = if den > 0 {
        0 < t && t < den && u > den
    } else {
        0 > t && t > den && u < den
    };
    if !ahead {
        return Err(());
    }
    let wx: i64 = x2 - x1;
    let wy: i64 = y2 - y1;
    assert(-0x2_0000_0000_0000_0000_0000_0000 <= t * wx <= 0x2_0000_0000_0000_0000_0000_0000)
        by (nonlinear_arith)
        requires
            -0x2_0000_0000_0000_0000 <= t <= 0x2_0000_0000_0000_0000,
            -0x1_0000_0000 <= wx <= 0x1_0000_0000,
    ;
    assert(-0x2_0000_0000_0000_0000_0000_0000 <= t * wy <= 0x2_0000_0000_0000_0000_0000_0000)
        by (nonlinear_arith)
        requires
            -0x2_0000_0000_0000_0000 <= t <= 0x2_0000_0000_0000_0000,
            -0x1_0000_0000 <= wy <= 0x1_0000_0000,
    ;
    let px: i128 = div(t * (wx as i128), den);
    let py: i128 = div(t * (wy as i128), den);
    Ok(Vec2 { x: saturate(x1 as i128 + px), y: saturate(y1 as i128 + py) })
}

/// A ratio lies between zero and one where its numerator lies between zero and
/// its denominator; then their product is positive and less than the square of
/// the denominator.
proof fn lemma_ratio_tests(den: int, t: int)
    requires
        (0 < t && t < den) || (den < t && t < 0),
    ensures
        0 < t * den,
        t * den < den * den,
{
    assert(0 < t * den && t * den < den * den) by (nonlinear_arith)
        requires
            (0 < t && t < den) || (den < t && t < 0),
    ;
}

/// A part `t / den` of a length `d`, with the ratio between zero and one, lies
/// between zero and `d`.
proof fn lemma_part_of_length(t: int, den: int, d: int)
    requires
        0 < t * den,
        t * den < den * den,
    ensures
        d >= 0 ==> 0 <= div_trunc(t * d, den) <= d,
        d <= 0 ==> d <= div_trunc(t * d, den) <= 0,
{
    let a = t * d;
    let q = div_trunc(a, den);
    lemma_div_trunc_bounds(a, den);
    let at = abs(t);
    let ad = abs(d);
    let an = abs(den);
    assert(0 < at < an && ((t > 0 && den > 0) || (t < 0 && den < 0))) by (nonlinear_arith)
        requires
            0 < t * den,
            t * den < den * den,
            at == abs(t),
            an == abs(den),
    ;
    assert(abs(a) == at * ad) by (nonlinear_arith)
        requires
            a == t * d,
            at == abs(t),
            ad == abs(d),
    ;
    assert(abs(q) <= ad) by (nonlinear_arith)
        requires
            abs(q) * an <= at * ad,
            0 < at < an,
            0 <= ad,
            0 <= abs(q),
    ;
    assert((d >= 0 ==> (a >= 0) == (den > 0) || a == 0) && (d <= 0 ==> (a >= 0) != (den > 0) || a
        == 0)) by (nonlinear_arith)
        requires
            a == t * d,
            (t > 0 && den > 0) || (t < 0 && den < 0),
    ;
}

/// Where the probe meets a wall, the point reported lies on the wall, between its
/// two ends.
pub proof fn law_crossing_lies_on_the_wall(a1: Vec2, a2: Vec2, b1: Vec2, b2: Vec2)
    requires
        crosses_ahead(a1, a2, b1, b2),
    ensures
        a1.x <= crossing_point(a1, a2, b1, b2).x <= a2.x || a2.x <= crossing_point(
            a1,
            a2,
            b1,
            b2,
        ).x <= a1.x,
        a1.y <= crossing_point(a1, a2, b1, b2).y <= a2.y || a2.y <= crossing_point(
            a1,
            a2,
            b1,
            b2,
        ).y <= a1.y,
{
    let den = line_den(a1, a2, b1, b2);
    let t = line_t_num(a1, b1, b2);
    lemma_ratio_tests(den, t);
    lemma_part_of_length(t, den, a2.x - a1.x);
    lemma_part_of_length(t, den, a2.y - a1.y);
}

/// The first component of a rescaled vector before saturation.
pub open spec fn rescaled_x(v: Vec2, n: int) -> int {
    div_trunc(v.x * n * SHIFT, fine_length(v))
}

/// The second component of a rescaled vector before saturation.
pub open spec fn rescaled_y(v: Vec2, n: int) -> int {
    div_trunc(v.y * n * SHIFT, fine_length(v))
}

/// The refined length of a vector other than zero is positive, at least `SHIFT`,
/// and its square brackets the refined squared length from above.
pub proof fn lemma_fine_length(v: Vec2)
    requires
        v != Vec2::zero(),
    ensures
        fine_length(v) >= SHIFT,
        fine_length(v) * fine_length(v) >= v.norm_sq() * SHIFT * SHIFT,
        (fine_length(v) - 1) * (fine_length(v) - 1) < v.norm_sq() * SHIFT * SHIFT,
        v.norm_sq() > 0,
{
    let s = v.norm_sq();
    let k = SHIFT as int;
    assert(s > 0) by (nonlinear_arith)
        requires
            s == v.x * v.x + v.y * v.y,
            v.x != 0 || v.y != 0,
    ;
    assert(s * k * k >= k * k && k * k > 0) by (nonlinear_arith)
        requires
            s > 0,
            k > 0,
    ;
    lemma_sqrt_ceil_bounds(s * k * k);
    let m = fine_length(v);
    assert(m >= k) by (nonlinear_arith)
        requires
            m >= 0,
            k > 0,
            m * m >= k * k,
    ;
}

/// One component of a rescaled vector, squared and multiplied by the squared divisor,
/// does not pass the squared dividend.
proof fn lemma_component_square(a: int, q: int, m: int)
    requires
        m > 0,
        q == div_trunc(a, m),
    ensures
        q * q * (m * m) <= a * a,
        a * a < (abs(q) + 1) * (abs(q) + 1) * (m * m),
{
    lemma_div_trunc_bounds(a, m);
    let aq = abs(q);
    let aa = abs(a);
    assert(aq * aq * (m * m) <= aa * aa) by (nonlinear_arith)
        requires
            0 <= aq,
            0 < m,
            aq * m <= aa,
    ;
    assert(aa * aa < (aq + 1) * (aq + 1) * (m * m)) by (nonlinear_arith)
        requires
            0 <= aq,
            0 < m,
            0 <= aa < (aq + 1) * m,
    ;
    assert(aq * aq == q * q) by (nonlinear_arith)
        requires
            aq == q || aq == -q,
    ;
    assert(aa * aa == a * a) by (nonlinear_arith)
        requires
            aa == a || aa == -a,
    ;
}

/// The square of a product of three is the product of the squares.
proof fn lemma_square_of_three(x: int, n: int, k: int)
    ensures
        (x * n * k) * (x * n * k) == (x * x) * ((n * n) * (k * k)),
{
    assert((x * n * k) * (x * n * k) == (x * x) * ((n * n) * (k * k))) by (nonlinear_arith);
}

/// Before saturation, a rescaled vector is never longer than the length asked for.
proof fn lemma_rescaled_at_most(v: Vec2, n: int)
    requires
        v != Vec2::zero(),
    ensures
        rescaled_x(v, n) * rescaled_x(v, n) + rescaled_y(v, n) * rescaled_y(v, n) <= n * n,
        abs(rescaled_x(v, n)) <= abs(n),
        abs(rescaled_y(v, n)) <= abs(n),
{
    lemma_fine_length(v);
    let k = SHIFT as int;
    let m = fine_length(v);
    let qx = rescaled_x(v, n);
    let qy = rescaled_y(v, n);
    lemma_component_square(v.x * n * k, qx, m);
    lemma_component_square(v.y * n * k, qy, m);
    let s = v.norm_sq();
    lemma_square_of_three(v.x as int, n, k);
    lemma_square_of_three(v.y as int, n, k);
    let mm = m * m;
    let nk = (n * n) * (k * k);
    let qq = qx * qx + qy * qy;
    assert(mm > 0) by (nonlinear_arith)
        requires
            mm == m * m,
            m > 0,
    ;
    assert(qq * mm <= s * nk) by (nonlinear_arith)
        requires
            qq == qx * qx + qy * qy,
            qx * qx * mm <= (v.x * v.x) * nk,
            qy * qy * mm <= (v.y * v.y) * nk,
            s == v.x * v.x + v.y * v.y,
    ;
    assert(s * nk == (s * k * k) * (n * n)) by (nonlinear_arith)
        requires
            nk == (n * n) * (k * k),
    ;
    assert((s * k * k) * (n * n) <= mm * (n * n)) by (nonlinear_arith)
        requires
            mm >= s * k * k,
    ;
    assert(qq <= n * n) by (nonlinear_arith)
        requires
            qq * mm <= mm * (n * n),
            mm > 0,
    ;
    let an = abs(n);
    assert(abs(qx) <= an && abs(qy) <= an) by (nonlinear_arith)
        requires
            qx * qx + qy * qy <= n * n,
            an >= 0,
            an == n || an == -n,
    ;
}

/// A rescaled vector is never longer than the length asked for.
pub proof fn law_set_mag_at_most(v: Vec2, n: int)
    requires
        i32::MIN <= n <= i32::MAX,
    ensures
        set_mag_spec(v, n).norm_sq() <= n * n,
{
    if v == Vec2::zero() {
        assert(0 <= n * n) by (nonlinear_arith);
        let z = set_mag_spec(v, n);
        assert(z.x * z.x + z.y * z.y == 0) by (nonlinear_arith)
            requires
                z.x == 0,
                z.y == 0,
        ;
    } else {
        lemma_rescaled_at_most(v, n);
        let qx = rescaled_x(v, n);
        let qy = rescaled_y(v, n);
        let r = set_mag_spec(v, n);
        assert(r == Vec2::of(qx, qy));
        assert(r.x == clamp(qx) && r.y == clamp(qy));
        assert(r.x * r.x <= qx * qx) by (nonlinear_arith)
            requires
                (0 <= r.x <= qx) || (qx <= r.x <= 0),
        ;
        assert(r.y * r.y <= qy * qy) by (nonlinear_arith)
            requires
                (0 <= r.y <= qy) || (qy <= r.y <= 0),
        ;
    }
}

/// A rescaled vector falls short of the length asked for by less than two steps:
/// with each component moved one step away from zero it is longer than `n` less
/// half a step.
pub proof fn law_set_mag_length(v: Vec2, n: int)
    requires
        v != Vec2::zero(),
        i32::MIN <= n <= i32::MAX,
    ensures
        set_mag_spec(v, n).norm_sq() <= n * n,
        (abs(set_mag_spec(v, n).x as int) + 1) * (abs(set_mag_spec(v, n).x as int) + 1) + (abs(
            set_mag_spec(v, n).y as int,
        ) + 1) * (abs(set_mag_spec(v, n).y as int) + 1) > n * n - abs(n),
{
    law_set_mag_at_most(v, n);
    lemma_rescaled_at_most(v, n);
    lemma_fine_length(v);
    let k = SHIFT as int;
    let m = fine_length(v);
    let qx = rescaled_x(v, n);
    let qy = rescaled_y(v, n);
    let r = set_mag_spec(v, n);
    let a = abs(r.x as int) + 1;
    let b = abs(r.y as int) + 1;
    let an = abs(n);
    assert(an * an == n * n) by (nonlinear_arith)
        requires
            an == n || an == -n,
    ;
    if r.x != qx {
        assert(a == an);
        assert(b * b > 0) by (nonlinear_arith)
            requires
                b >= 1,
        ;
    } else if r.y != qy {
        assert(b == an);
        assert(a * a > 0) by (nonlinear_arith)
            requires
                a >= 1,
        ;
    } else if n == 0 {
        assert(a * a + b * b > 0) by (nonlinear_arith)
            requires
                a >= 1,
                b >= 1,
        ;
    } else {
        lemma_component_square(v.x * n * k, qx, m);
        lemma_component_square(v.y * n * k, qy, m);
        lemma_square_of_three(v.x as int, n, k);
        lemma_square_of_three(v.y as int, n, k);
        let s = v.norm_sq();
        let mm = m * m;
        let nn = n * n;
        let nk = nn * (k * k);
        let ab = a * a + b * b;
        assert(ab * mm > s * nk) by (nonlinear_arith)
            requires
                ab == a * a + b * b,
                (v.x * v.x) * nk < a * a * mm,
                (v.y * v.y) * nk < b * b * mm,
                s == v.x * v.x + v.y * v.y,
        ;
        assert(s * nk == (s * k * k) * nn) by (nonlinear_arith)
            requires
                nk == nn * (k * k),
        ;
        assert((s * k * k) * nn >= ((m - 1) * (m - 1)) * nn) by (nonlinear_arith)
            requires
                (m - 1) * (m - 1) < s * k * k,
                nn >= 0,
        ;
        assert(((m - 1) * (m - 1)) * nn >= mm * nn - 2 * m * nn) by (nonlinear_arith)
            requires
                mm == m * m,
                nn >= 0,
        ;
        assert(2 * m * nn <= mm * an) by (nonlinear_arith)
            requires
                mm == m * m,
                nn == an * an,
                an >= 0,
                m >= 2 * an,
        ;
        assert(ab > nn - an) by (nonlinear_arith)
            requires
                ab * mm > mm * nn - mm * an,
                mm > 0,
        ;
    }
}

/// The cross product of a vector with its quotient by `m` is the cross product
/// of the vector with the remainders, divided by `m`.
proof fn lemma_cross_of_remainders(x: int, y: int, t: int, qx: int, qy: int, m: int)
    ensures
        (qx * y - qy * x) * m == (y * t - qy * m) * x - (x * t - qx * m) * y,
{
    assert((qx * y - qy * x) * m == qx * y * m - qy * x * m) by (nonlinear_arith);
    assert((y * t - qy * m) * x == y * t * x - qy * m * x) by (nonlinear_arith);
    assert((x * t - qx * m) * y == x * t * y - qx * m * y) by (nonlinear_arith);
    assert(y * t * x == x * t * y) by (nonlinear_arith);
    assert(qy * m * x == qy * x * m) by (nonlinear_arith);
    assert(qx * m * y == qx * y * m) by (nonlinear_arith);
}

/// A vector rescaled to a length that is not negative keeps its direction: each
/// component keeps its sign or becomes zero, and the two vectors are parallel up
/// to the rounding of the components.
pub proof fn law_set_mag_direction(v: Vec2, n: int)
    requires
        v != Vec2::zero(),
        0 <= n <= i32::MAX,
    ensures
        set_mag_spec(v, n).x * v.x >= 0,
        set_mag_spec(v, n).y * v.y >= 0,
        abs(set_mag_spec(v, n).x * v.y - set_mag_spec(v, n).y * v.x) < abs(v.x as int) + abs(
            v.y as int,
        ),
{
    lemma_rescaled_at_most(v, n);
    lemma_fine_length(v);
    let k = SHIFT as int;
    let m = fine_length(v);
    let qx = rescaled_x(v, n);
    let qy = rescaled_y(v, n);
    let r = set_mag_spec(v, n);
    assert(r.x == qx && r.y == qy);
    let ax = v.x * n * k;
    let ay = v.y * n * k;
    lemma_div_trunc_bounds(ax, m);
    lemma_div_trunc_bounds(ay, m);
    assert((v.x >= 0 ==> ax >= 0) && (v.x <= 0 ==> ax <= 0)) by (nonlinear_arith)
        requires
            ax == v.x * n * k,
            n >= 0,
            k > 0,
    ;
    assert((v.y >= 0 ==> ay >= 0) && (v.y <= 0 ==> ay <= 0)) by (nonlinear_arith)
        requires
            ay == v.y * n * k,
            n >= 0,
            k > 0,
    ;
    assert(qx * v.x >= 0) by (nonlinear_arith)
        requires
            (v.x >= 0 && qx >= 0) || (v.x <= 0 && qx <= 0),
    ;
    assert(qy * v.y >= 0) by (nonlinear_arith)
        requires
            (v.y >= 0 && qy >= 0) || (v.y <= 0 && qy <= 0),
    ;
    let ex = ax - qx * m;
    let ey = ay - qy * m;
    let c = qx * v.y - qy * v.x;
    let t = n * k;
    assert(v.x * n * k == v.x * t && v.y * n * k == v.y * t) by (nonlinear_arith)
        requires
            t == n * k,
    ;
    lemma_cross_of_remainders(v.x as int, v.y as int, t, qx, qy, m);
    let w = abs(v.x as int) + abs(v.y as int);
    assert(-(m * w) < ey * v.x - ex * v.y < m * w) by (nonlinear_arith)
        requires
            -m < ex < m,
            -m < ey < m,
            w == abs(v.x as int) + abs(v.y as int),
            v.x != 0 || v.y != 0,
    ;
    assert(-w < c < w) by (nonlinear_arith)
        requires
            -(m * w) < c * m < m * w,
            m > 0,
    ;
}

/// A capped vector is never longer than the cap, and a vector within the cap
/// comes back unchanged.
pub proof fn law_limit_bounded(v: Vec2, max: int)
    requires
        i32::MIN <= max <= i32::MAX,
    ensures
        limit_spec(v, max).norm_sq() <= max * max,
        v.norm_sq() <= max * max ==> limit_spec(v, max) == v,
{
    law_set_mag_at_most(v, max);
}

/// A vector longer than a cap that is not negative comes back at the length of the
/// cap, short of it by less than two steps, and in its old direction.
pub proof fn law_limit_reaches_the_cap(v: Vec2, max: int)
    requires
        0 <= max <= i32::MAX,
        v.norm_sq() > max * max,
    ensures
        (abs(limit_spec(v, max).x as int) + 1) * (abs(limit_spec(v, max).x as int) + 1) + (abs(
            limit_spec(v, max).y as int,
        ) + 1) * (abs(limit_spec(v, max).y as int) + 1) > max * max - max,
        limit_spec(v, max).x * v.x >= 0,
        limit_spec(v, max).y * v.y >= 0,
        abs(limit_spec(v, max).x * v.y - limit_spec(v, max).y * v.x) < abs(v.x as int) + abs(
            v.y as int,
        ),
{
    assert(v != Vec2::zero()) by {
        if v == Vec2::zero() {
            assert(v.x * v.x + v.y * v.y == 0) by (nonlinear_arith)
                requires
                    v.x == 0,
                    v.y == 0,
            ;
            assert(max * max >= 0) by (nonlinear_arith);
        }
    }
    law_set_mag_length(v, max);
    law_set_mag_direction(v, max);
}

} // verus!

//! Sines and cosines of fixed-point angles, and the rotation of a vector.
//!
//! Angles are in thousandths of a radian. Half a turn counts 3142 steps, and the
//! sine of an angle `a` within the first half turn `h` is Bhaskara's rational
//! approximation `16 a (h - a) / (5 h^2 - 4 a (h - a))`. It is exact at every
//! quarter turn and has the symmetries of the sine, which is what is proved of it
//! here; in between it runs close to the sine, but nothing here says how close.

use crate::fixed::{abs, div, div_trunc, saturate, times, UNIT};
use crate::vector::Vec2;
use vstd::prelude::*;

verus! {

/// A quarter turn.
pub const QUARTER_TURN: i32 = 1571;

/// Half a turn.
pub const HALF_TURN: i32 = 3142;

/// A whole turn.
pub const TURN: i32 = 6284;

/// The sine of an angle `a` within the first half turn, in thousandths.
pub open spec fn half_wave(a: int) -> int {
    let p = a * (HALF_TURN - a);
    (16 * p * UNIT) / (5 * HALF_TURN * HALF_TURN - 4 * p)
}

/// The sine of `theta`, in thousandths.
pub open spec fn sin_spec(theta: int) -> int {
    let a = theta % (TURN as int);
    if a <= HALF_TURN {
        half_wave(a)
    } else {
        -half_wave(a - HALF_TURN)
    }
}

/// The cosine of `theta`, in thousandths: the sine a quarter turn further on.
pub open spec fn cos_spec(theta: int) -> int {
    sin_spec(theta + QUARTER_TURN)
}

/// `v` turned counterclockwise by `theta`, rounded toward zero and saturated.
pub open spec fn rotated(v: Vec2, theta: int) -> Vec2 {
    Vec2::of(
        div_trunc(v.x * cos_spec(theta) - v.y * sin_spec(theta), UNIT as int),
        div_trunc(v.x * sin_spec(theta) + v.y * cos_spec(theta), UNIT as int),
    )
}

/// The half wave stays between zero and one.
pub proof fn lemma_half_wave_range(a: int)
    requires
        0 <= a <= HALF_TURN,
    ensures
        0 <= half_wave(a) <= UNIT,
{
    let h = HALF_TURN as int;
    let p = a * (h - a);
    assert(0 <= p && 4 * p <= h * h) by (nonlinear_arith)
        requires
            0 <= a <= h,
            p == a * (h - a),
    ;
    let den = 5 * h * h - 4 * p;
    assert(den == 5 * HALF_TURN * HALF_TURN - 4 * p);
    let num = 16 * p * UNIT;
    assert(den > 0 && 0 <= num <= UNIT * den);
    assert(0 <= num / den <= UNIT) by (nonlinear_arith)
        requires
            den > 0,
            0 <= num <= UNIT * den,
    ;
}

/// Sines and cosines stay between minus one and one.
pub proof fn lemma_sin_cos_range(theta: int)
    ensures
        -UNIT <= sin_spec(theta) <= UNIT,
        -UNIT <= cos_spec(theta) <= UNIT,
{
    let a = theta % (TURN as int);
    if a <= HALF_TURN {
        lemma_half_wave_range(a);
    } else {
        lemma_half_wave_range(a - HALF_TURN);
    }
    let b = (theta + QUARTER_TURN) % (TURN as int);
    if b <= HALF_TURN {
        lemma_half_wave_range(b);
    } else {
        lemma_half_wave_range(b - HALF_TURN);
    }
}

/// The half wave is the same on both sides of the quarter turn, and zero at its ends.
pub proof fn lemma_half_wave_mirror(a: int)
    ensures
        half_wave(HALF_TURN - a) == half_wave(a),
        half_wave(0) == 0,
        half_wave(HALF_TURN as int) == 0,
        half_wave(QUARTER_TURN as int) == UNIT,
{
    assert((HALF_TURN - a) * (HALF_TURN - (HALF_TURN - a)) == a * (HALF_TURN - a))
        by (nonlinear_arith);
    assert(0 * (HALF_TURN - 0) == 0);
    assert(HALF_TURN * (HALF_TURN - HALF_TURN) == 0);
    assert(QUARTER_TURN * (HALF_TURN - QUARTER_TURN) == 2468041);
    assert(5 * HALF_TURN * HALF_TURN - 4 * 2468041 == 39488656);
    assert(16 * 2468041 * UNIT == 39488656000);
    assert(39488656000int / 39488656 == 1000);
}

/// The approximated sine and cosine are exact at every quarter turn.
pub proof fn law_sine_at_quarter_turns()
    ensures
        sin_spec(0) == 0,
        sin_spec(QUARTER_TURN as int) == UNIT,
        sin_spec(HALF_TURN as int) == 0,
        sin_spec(HALF_TURN + QUARTER_TURN) == -UNIT,
        cos_spec(0) == UNIT,
        cos_spec(QUARTER_TURN as int) == 0,
        cos_spec(HALF_TURN as int) == -UNIT,
        cos_spec(HALF_TURN + QUARTER_TURN) == 0,
{
    lemma_half_wave_mirror(0);
}

/// The approximated sine repeats with every turn, changes its sign with half a turn
/// and with the sign of the angle; the cosine does not change with the sign of the
/// angle.
pub proof fn law_sine_symmetries(theta: int)
    ensures
        sin_spec(theta + TURN) == sin_spec(theta),
        sin_spec(theta + HALF_TURN) == -sin_spec(theta),
        sin_spec(-theta) == -sin_spec(theta),
        cos_spec(-theta) == cos_spec(theta),
{
    let a = theta % (TURN as int);
    lemma_half_wave_mirror(a);
    lemma_half_wave_mirror(a - HALF_TURN);
    let b = (theta + QUARTER_TURN) % (TURN as int);
    lemma_half_wave_mirror(b);
    lemma_half_wave_mirror(b - HALF_TURN);
    assert((theta + TURN) % (TURN as int) == a);
    assert((-theta) % (TURN as int) == if a == 0 {
        0
    } else {
        TURN - a
    });
    assert((-theta + QUARTER_TURN) % (TURN as int) == if b <= HALF_TURN {
        HALF_TURN - b
    } else {
        TURN + HALF_TURN - b
    });
    lemma_half_wave_mirror(b - TURN);
}

/// A turn by nothing leaves a vector as it is, and a quarter turn swaps its
/// components, the first reversed.
pub proof fn law_rotation_at_quarter_turns(v: Vec2)
    ensures
        rotated(v, 0) == v,
        rotated(v, QUARTER_TURN as int) == Vec2::of(-v.y, v.x as int),
{
    law_sine_at_quarter_turns();
    assert(abs(1000) == 1000);
    assert(abs(v.x * 1000) / 1000 == abs(v.x as int));
    assert(abs(v.y * 1000) / 1000 == abs(v.y as int));
    assert(abs(-v.y * 1000) / 1000 == abs(v.y as int));
    assert(v.x * cos_spec(0) - v.y * sin_spec(0) == v.x * 1000) by (nonlinear_arith)
        requires
            cos_spec(0) == 1000,
            sin_spec(0) == 0,
    ;
    assert(v.x * sin_spec(0) + v.y * cos_spec(0) == v.y * 1000) by (nonlinear_arith)
        requires
            cos_spec(0) == 1000,
            sin_spec(0) == 0,
    ;
    let q = QUARTER_TURN as int;
    assert(v.x * cos_spec(q) - v.y * sin_spec(q) == -v.y * 1000) by (nonlinear_arith)
        requires
            cos_spec(q) == 0,
            sin_spec(q) == 1000,
    ;
    assert(v.x * sin_spec(q) + v.y * cos_spec(q) == v.x * 1000) by (nonlinear_arith)
        requires
            cos_spec(q) == 0,
            sin_spec(q) == 1000,
    ;
}

/// The sine of `theta`, in thousandths.
pub fn sin(theta: i32) -> (r: i32)
    ensures
        r == sin_spec(theta as int),
        -UNIT <= r <= UNIT,
{
    let wide: i64 = theta as i64;
    let a: i64 = if wide >= 0 {
        wide % 6284
    } else {
        let m: i64 = (-wide) % 6284;
        if m == 0 {
            0
        } else {
            6284 - m
        }
    };
    assert(a == theta as int % (TURN as int));
    proof {
        lemma_sin_cos_range(theta as int);
    }
    if a <= 3142 {
        half_wave_of(a) as i32
    } else {
        (-half_wave_of(a - 3142)) as i32
    }
}

/// The cosine of `theta`, in thousandths.
pub fn cos(theta: i32) -> (r: i32)
    ensures
        r == cos_spec(theta as int),
        -UNIT <= r <= UNIT,
{
    let wide: i64 = theta as i64 + 1571;
    let a: i64 = if wide >= 0 {
        wide % 6284
    } else {
        let m: i64 = (-wide) % 6284;
        if m == 0 {
            0
        } else {
            6284 - m
        }
    };
    assert(a == (theta + QUARTER_TURN) % (TURN as int));
    proof {
        lemma_sin_cos_range(theta as int);
    }
    if a <= 3142 {
        half_wave_of(a) as i32
    } else {
        (-half_wave_of(a - 3142)) as i32
    }
}

fn half_wave_of(a: i64) -> (r: i64)
    requires
        0 <= a <= HALF_TURN,
    ensures
        r == half_wave(a as int),
        0 <= r <= UNIT,
{
    proof {
        lemma_half_wave_range(a as int);
    }
    assert(0 <= a * (3142 - a) <= 3142 * 3142) by (nonlinear_arith)
        requires
            0 <= a <= 3142,
    ;
    let p: i64 = a * (3142 - a);
    (16 * p * 1000) / (5 * 3142 * 3142 - 4 * p)
}

/// Turns `v` counterclockwise by `theta`.
pub fn rotate(v: Vec2, theta: i32) -> (r: Vec2)
    ensures
        r == rotated(v, theta as int),
{
    let c: i32 = cos(theta);
    let s: i32 = sin(theta);
    let xc: i128 = times(v.x, c) as i128;
    let ys: i128 = times(v.y, s) as i128;
    let xs: i128 = times(v.x, s) as i128;
    let yc: i128 = times(v.y, c) as i128;
    let x: i128 = div(xc - ys, 1000);
    let y: i128 = div(xs + yc, 1000);
    Vec2 { x: saturate(x), y: saturate(y) }
}

} // verus!

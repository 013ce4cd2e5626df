//! Integer angle arithmetic.
//!
//! Angles are whole tenths of a degree: `FULL_TURN` (3600) units make one
//! revolution, and every stored angle is kept in `[0, FULL_TURN)`. Sine and
//! cosine are computed in milli-units (1000 stands for 1.0) with an integer
//! rational approximation, so facing directions are a pure function of the
//! angle with no floating point involved.

use vstd::prelude::*;

verus! {

use vstd::arithmetic::div_mod::{lemma_div_is_ordered, lemma_div_pos_is_pos, lemma_div_by_multiple};
use crate::types::Vector2D;

/// Tenth-degree units in a full revolution.
pub const FULL_TURN: i64 = 3600;

/// Tenth-degree units in half a revolution.
pub const HALF_TURN: i64 = 1800;

/// Tenth-degree units in a quarter revolution.
pub const QUARTER_TURN: i64 = 900;

/// Rational approximation of the sine on the first half turn, in
/// milli-units, for `a` in `[0, HALF_TURN]`. Exact at 0, 900 and 1800.
pub open spec fn half_sine(a: int) -> int {
    (4000 * a * (1800 - a)) / (4050000 - a * (1800 - a))
}

/// Sine of `a` tenth-degrees in milli-units, for `a` in `[0, FULL_TURN)`.
pub open spec fn sin_milli_spec(a: int) -> int {
    if a <= 1800 {
        half_sine(a)
    } else {
        -half_sine(a - 1800)
    }
}

/// Cosine of `a` tenth-degrees in milli-units, for `a` in `[0, FULL_TURN)`:
/// the sine shifted by a quarter turn.
pub open spec fn cos_milli_spec(a: int) -> int {
    if a + 900 < 3600 {
        sin_milli_spec(a + 900)
    } else {
        sin_milli_spec(a + 900 - 3600)
    }
}

fn half_sine_exec(a: i64) -> (r: i64)
    requires
        0 <= a <= 1800,
    ensures
        r == half_sine(a as int),
        0 <= r <= 1000,
{
    proof {
        assert(0 <= a * (1800 - a) <= 810000) by (nonlinear_arith)
            requires
                0 <= a <= 1800,
        ;
    }
    let p: i64 = a * (1800 - a);
    let num: i64 = 4000 * p;
    let den: i64 = 4050000 - p;
    let r: i64 = num.checked_div_euclid(den).unwrap();
    proof {
        lemma_div_pos_is_pos(num as int, den as int);
        assert(num <= 1000 * den) by (nonlinear_arith)
            requires
                num == 4000 * p,
                den == 4050000 - p,
                0 <= p <= 810000,
        ;
        lemma_div_is_ordered(num as int, 1000 * (den as int), den as int);
        lemma_div_by_multiple(1000, den as int);
        assert(num == 4000 * (a as int) * (1800 - a as int)) by (nonlinear_arith)
            requires
                num == 4000 * (a as int * (1800 - a as int)),
        ;
    }
    r
}

/// Sine of `a` tenth-degrees, in milli-units.
pub fn sin_milli(a: i64) -> (r: i64)
    requires
        0 <= a < FULL_TURN,
    ensures
        r == sin_milli_spec(a as int),
        -1000 <= r <= 1000,
{
    if a <= 1800 {
        half_sine_exec(a)
    } else {
        -half_sine_exec(a - 1800)
    }
}

/// Cosine of `a` tenth-degrees, in milli-units.
pub fn cos_milli(a: i64) -> (r: i64)
    requires
        0 <= a < FULL_TURN,
    ensures
        r == cos_milli_spec(a as int),
        -1000 <= r <= 1000,
{
    let shifted: i64 = if a + 900 < 3600 {
        a + 900
    } else {
        a + 900 - 3600
    };
    sin_milli(shifted)
}

/// The x component of the milli-cell offset `(dx, dy)` rotated by `a`
/// tenth-degrees.
pub open spec fn rot_x_spec(dx: int, dy: int, a: int) -> int {
    (dx * cos_milli_spec(a) - dy * sin_milli_spec(a)) / 1000
}

/// The y component of the milli-cell offset `(dx, dy)` rotated by `a`
/// tenth-degrees.
pub open spec fn rot_y_spec(dx: int, dy: int, a: int) -> int {
    (dx * sin_milli_spec(a) + dy * cos_milli_spec(a)) / 1000
}

/// Rotate the milli-cell offset `(dx, dy)` by `a` tenth-degrees.
pub fn rotate_offset(dx: i64, dy: i64, a: i64) -> (r: (i64, i64))
    requires
        0 <= a < FULL_TURN,
        -1_000_000_000 <= dx <= 1_000_000_000,
        -1_000_000_000 <= dy <= 1_000_000_000,
    ensures
        r.0 == rot_x_spec(dx as int, dy as int, a as int),
        r.1 == rot_y_spec(dx as int, dy as int, a as int),
        -3_000_000_000 <= r.0 <= 3_000_000_000,
        -3_000_000_000 <= r.1 <= 3_000_000_000,
{
    let c: i64 = cos_milli(a);
    let s: i64 = sin_milli(a);
    proof {
        assert(-2_000_000_000_000 <= dx * c - dy * s <= 2_000_000_000_000 && -2_000_000_000_000
            <= dx * s + dy * c <= 2_000_000_000_000 && -1_000_000_000_000 <= dx * c
            <= 1_000_000_000_000 && -1_000_000_000_000 <= dy * s <= 1_000_000_000_000
            && -1_000_000_000_000 <= dx * s <= 1_000_000_000_000 && -1_000_000_000_000 <= dy * c
            <= 1_000_000_000_000) by (nonlinear_arith)
            requires
                -1_000_000_000 <= dx <= 1_000_000_000,
                -1_000_000_000 <= dy <= 1_000_000_000,
                -1000 <= c <= 1000,
                -1000 <= s <= 1000,
        ;
    }
    let nx: i64 = dx * c - dy * s;
    let ny: i64 = dx * s + dy * c;
    proof {
        lemma_div_bounds_milli(nx as int);
        lemma_div_bounds_milli(ny as int);
    }
    (nx.checked_div_euclid(1000).unwrap(), ny.checked_div_euclid(1000).unwrap())
}

proof fn lemma_div_bounds_milli(v: int)
    requires
        -2_000_000_000_000 <= v <= 2_000_000_000_000,
    ensures
        -3_000_000_000 <= v / 1000 <= 3_000_000_000,
{
    vstd::arithmetic::div_mod::lemma_fundamental_div_mod(v, 1000);
}

/// Unit direction vector of the angle `a`, in milli-units: the cosine as x
/// and the sine as y (y grows downwards on the grid, matching screen rows).
pub fn dir_vector(a: i64) -> (v: Vector2D)
    requires
        0 <= a < FULL_TURN,
    ensures
        v.x == cos_milli_spec(a as int),
        v.y == sin_milli_spec(a as int),
        -1000 <= v.x <= 1000,
        -1000 <= v.y <= 1000,
{
    Vector2D { x: cos_milli(a), y: sin_milli(a) }
}

} // verus!

//! Fixed-point 2D vector math and coordinate wrap-around.
//!
//! Coordinates and velocities are `i64` values in milli-cells (see
//! [`crate::constants::FX_SCALE`]). Division is Euclidean throughout, so
//! scaling and wrapping agree with the mathematical definitions stated in
//! the contracts.

use vstd::prelude::*;

verus! {

use crate::constants::FX_SCALE;

/// `r` is the floor of the square root of `n`.
pub open spec fn is_sqrt_floor(n: int, r: int) -> bool {
    0 <= r && r * r <= n && n < (r + 1) * (r + 1)
}

/// The floor of the square root of `n` (for `n >= 0`).
pub open spec fn sqrt_floor(n: int) -> int {
    choose|r: int| is_sqrt_floor(n, r)
}

/// Any `r` with `r * r <= n < (r + 1) * (r + 1)` is the square root floor.
pub proof fn lemma_sqrt_floor_unique(n: int, r: int)
    requires
        is_sqrt_floor(n, r),
    ensures
        sqrt_floor(n) == r,
{
    assert(is_sqrt_floor(n, r));
    let picked = choose|p: int| is_sqrt_floor(n, p);
    assert(is_sqrt_floor(n, picked));
    assert(picked == r) by (nonlinear_arith)
        requires
            is_sqrt_floor(n, r),
            is_sqrt_floor(n, picked),
    ;
}

/// Binary-search integer square root.
pub fn isqrt(n: u64) -> (r: u64)
    ensures
        is_sqrt_floor(n as int, r as int),
        r == sqrt_floor(n as int),
{
    let mut lo: u64 = 0;
    let mut hi: u64 = 4_294_967_296;
    while lo + 1 < hi
        invariant
            lo < hi <= 4_294_967_296,
            (lo as int) * (lo as int) <= n as int,
            (n as int) < (hi as int) * (hi as int),
        decreases hi - lo,
    {
        let mid: u64 = lo + (hi - lo) / 2;
        proof {
            assert(mid as int * mid as int <= 0xffff_ffff_ffff_ffff) by (nonlinear_arith)
                requires
                    mid <= 0xffff_ffff,
            ;
        }
        if mid * mid <= n {
            lo = mid;
        } else {
            hi = mid;
        }
    }
    proof {
        lemma_sqrt_floor_unique(n as int, lo as int);
    }
    lo
}

/// Fixed-point product: `a * b` interpreted with `b` as a milli-unit
/// multiplier, so the result is `a * b / 1000` (Euclidean division).
pub open spec fn fx_mul(a: int, b: int) -> int {
    (a * b) / (FX_SCALE as int)
}

/// `fx_mul` of nonnegative factors stays within the scaled product of
/// their bounds.
pub proof fn lemma_fx_mul_nonneg_bounded(a: int, b: int, a_hi: int, b_hi: int)
    requires
        0 <= a <= a_hi,
        0 <= b <= b_hi,
    ensures
        0 <= a * b <= a_hi * b_hi,
        0 <= fx_mul(a, b) <= a_hi * b_hi / 1000,
{
    assert(0 <= a * b <= a_hi * b_hi) by (nonlinear_arith)
        requires
            0 <= a <= a_hi,
            0 <= b <= b_hi,
    ;
    vstd::arithmetic::div_mod::lemma_div_pos_is_pos(a * b, 1000);
    vstd::arithmetic::div_mod::lemma_div_is_ordered(a * b, a_hi * b_hi, 1000);
}

/// `fx_mul` of factors bounded in magnitude stays within (one more than)
/// the scaled product of the magnitude bounds.
pub proof fn lemma_fx_mul_signed_bounded(a: int, b: int, a_abs: int, b_abs: int)
    requires
        -a_abs <= a <= a_abs,
        -b_abs <= b <= b_abs,
        0 <= a_abs,
        0 <= b_abs,
    ensures
        -(a_abs * b_abs) <= a * b <= a_abs * b_abs,
        -(a_abs * b_abs) / 1000 - 1 <= fx_mul(a, b) <= a_abs * b_abs / 1000,
{
    assert(-(a_abs * b_abs) <= a * b <= a_abs * b_abs) by (nonlinear_arith)
        requires
            -a_abs <= a <= a_abs,
            -b_abs <= b <= b_abs,
            0 <= a_abs,
            0 <= b_abs,
    ;
    vstd::arithmetic::div_mod::lemma_div_is_ordered(a * b, a_abs * b_abs, 1000);
    vstd::arithmetic::div_mod::lemma_div_is_ordered(-(a_abs * b_abs), a * b, 1000);
    vstd::arithmetic::div_mod::lemma_fundamental_div_mod(-(a_abs * b_abs), 1000);
    vstd::arithmetic::div_mod::lemma_fundamental_div_mod(a_abs * b_abs, 1000);
}

/// Clamp `v` into `[lo, hi]`.
pub open spec fn clamp_spec(v: int, lo: int, hi: int) -> int {
    if v < lo {
        lo
    } else if v > hi {
        hi
    } else {
        v
    }
}

pub fn clamp_i64(v: i64, lo: i64, hi: i64) -> (r: i64)
    requires
        lo <= hi,
    ensures
        r == clamp_spec(v as int, lo as int, hi as int),
        lo <= r <= hi,
{
    if v < lo {
        lo
    } else if v > hi {
        hi
    } else {
        v
    }
}

/// Fixed-point product of two milli-unit values.
pub fn mul_milli(a: i64, b: i64) -> (r: i64)
    requires
        -0x7fff_ffff_ffff_ffff <= a * b <= 0x7fff_ffff_ffff_ffff,
    ensures
        r == fx_mul(a as int, b as int),
{
    let p: i64 = a.checked_mul(b).unwrap();
    p.checked_div_euclid(FX_SCALE).unwrap()
}

/// Apply a milli-unit factor in `[0, 1000]` (a friction coefficient): the
/// result keeps the sign of `v` and cannot grow in magnitude.
pub fn scale_toward_zero(v: i64, f: i64) -> (r: i64)
    requires
        0 <= f <= 1000,
        -4_000_000_000_000_000 <= v <= 4_000_000_000_000_000,
    ensures
        r == fx_mul(v as int, f as int),
        v >= 0 ==> 0 <= r <= v,
        v < 0 ==> v <= r <= 0,
{
    proof {
        assert((v >= 0 ==> 0 <= v * f <= v * 1000) && (v < 0 ==> v * 1000 <= v * f <= 0)
            && -4_000_000_000_000_000_000 <= v * 1000 <= 4_000_000_000_000_000_000)
            by (nonlinear_arith)
            requires
                0 <= f <= 1000,
                -4_000_000_000_000_000 <= v <= 4_000_000_000_000_000,
        ;
        vstd::arithmetic::div_mod::lemma_div_multiples_vanish(v as int, 1000);
        assert(1000 * (v as int) == (v as int) * 1000);
        if v >= 0 {
            vstd::arithmetic::div_mod::lemma_div_pos_is_pos(v * f, 1000);
            vstd::arithmetic::div_mod::lemma_div_is_ordered(v * f, v * 1000, 1000);
        } else {
            vstd::arithmetic::div_mod::lemma_div_is_ordered(v * 1000, v * f, 1000);
            vstd::arithmetic::div_mod::lemma_div_is_ordered(v * f, 0, 1000);
        }
    }
    mul_milli(v, f)
}

/// Remap `value` into `[0, max)` by Euclidean remainder: negative inputs of
/// any magnitude (for instance after a large velocity overshoot) come back
/// shifted up by a multiple of `max`.
pub fn wrap_coordinate(value: i64, max: i64) -> (r: i64)
    requires
        0 < max,
        value > i64::MIN,
    ensures
        r == (value as int) % (max as int),
        0 <= r < max,
{
    value.checked_rem_euclid(max).unwrap()
}

/// Quotient rounded towards zero (for `b > 0`).
pub open spec fn div_trunc(a: int, b: int) -> int {
    if a >= 0 {
        a / b
    } else {
        -((-a) / b)
    }
}

/// `c * 1000 / m` rounded towards zero.
fn scaled_component(c: i64, m: i64) -> (r: i64)
    requires
        -2_000_000_000 <= c <= 2_000_000_000,
        1 <= m,
    ensures
        r == div_trunc(c * (FX_SCALE as int), m as int),
{
    let ac: u64 = if c < 0 {
        (-c) as u64
    } else {
        c as u64
    };
    let q: u64 = (ac * 1000) / (m as u64);
    proof {
        vstd::arithmetic::div_mod::lemma_div_nonincreasing((ac * 1000) as int, m as int);
        vstd::arithmetic::div_mod::lemma_div_pos_is_pos((ac * 1000) as int, m as int);
    }
    if c < 0 {
        -(q as i64)
    } else {
        q as i64
    }
}

/// The display-grid cell of a milli-cell coordinate: rounded to the nearest
/// whole cell, clamped into the `u16` range as a float-to-integer cast would
/// be.
pub open spec fn round_cell_spec(v: int) -> int {
    if v < 0 {
        0
    } else if (v + 500) / 1000 > 65535 {
        65535
    } else {
        (v + 500) / 1000
    }
}

pub fn round_cell(v: i64) -> (r: u16)
    requires
        v < 0x4000_0000_0000_0000,
    ensures
        r as int == round_cell_spec(v as int),
{
    if v < 0 {
        0
    } else {
        let c: u64 = ((v as u64) + 500) / 1000;
        if c > 65535 {
            65535
        } else {
            c as u16
        }
    }
}

/// A milli-cell offset rounded to whole cells, halves away from zero.
pub open spec fn round_unit_spec(v: int) -> int {
    if v >= 0 {
        (v + 500) / 1000
    } else {
        -((-v + 500) / 1000)
    }
}

pub fn round_unit(v: i64) -> (r: i64)
    requires
        -0x4000_0000_0000_0000 < v < 0x4000_0000_0000_0000,
    ensures
        r == round_unit_spec(v as int),
{
    if v >= 0 {
        (((v as u64) + 500) / 1000) as i64
    } else {
        -(((((-v) as u64) + 500) / 1000) as i64)
    }
}

/// A 2D point or velocity in fixed-point milli-cell units.
#[derive(Clone, Copy, Debug, PartialEq, Eq, Structural)]
pub struct Vector2D {
    pub x: i64,
    pub y: i64,
}

impl Vector2D {
    pub fn new(x: i64, y: i64) -> (v: Vector2D)
        ensures
            v.x == x,
            v.y == y,
    {
        Vector2D { x, y }
    }

    /// Scale by a milli-unit factor: each component becomes
    /// `component * scalar / 1000`.
    pub fn scale(&self, scalar: i64) -> (r: Vector2D)
        requires
            -0x7fff_ffff_ffff_ffff <= self.x * scalar <= 0x7fff_ffff_ffff_ffff,
            -0x7fff_ffff_ffff_ffff <= self.y * scalar <= 0x7fff_ffff_ffff_ffff,
    ensures
            r.x == fx_mul(self.x as int, scalar as int),
            r.y == fx_mul(self.y as int, scalar as int),
    {
        Vector2D { x: mul_milli(self.x, scalar), y: mul_milli(self.y, scalar) }
    }

    /// Componentwise sum.
    pub fn add(&self, other: Vector2D) -> (r: Vector2D)
        requires
            i64::MIN <= self.x + other.x <= i64::MAX,
            i64::MIN <= self.y + other.y <= i64::MAX,
        ensures
            r.x == self.x + other.x,
            r.y == self.y + other.y,
    {
        Vector2D { x: self.x.checked_add(other.x).unwrap(), y: self.y.checked_add(other.y).unwrap() }
    }

    /// Length of the vector in milli-cells, rounded down.
    pub fn magnitude(&self) -> (r: i64)
        requires
            -2_000_000_000 <= self.x <= 2_000_000_000,
            -2_000_000_000 <= self.y <= 2_000_000_000,
        ensures
            r == sqrt_floor(self.x * self.x + self.y * self.y),
            is_sqrt_floor(self.x * self.x + self.y * self.y, r as int),
            r >= 0,
            (self.x == 0 && self.y == 0) ==> r == 0,
    {
        let ax: u64 = if self.x < 0 {
            (-self.x) as u64
        } else {
            self.x as u64
        };
        let ay: u64 = if self.y < 0 {
            (-self.y) as u64
        } else {
            self.y as u64
        };
        proof {
            assert(ax as int * ax as int == self.x * self.x && ax <= 2_000_000_000
                && ay as int * ay as int == self.y * self.y && ay <= 2_000_000_000
                && ax as int * ax as int + ay as int * ay as int <= 8_000_000_000_000_000_000)
                by (nonlinear_arith)
                requires
                    -2_000_000_000 <= self.x <= 2_000_000_000,
                    -2_000_000_000 <= self.y <= 2_000_000_000,
                    ax == if self.x < 0 { (-self.x) as u64 } else { self.x as u64 },
                    ay == if self.y < 0 { (-self.y) as u64 } else { self.y as u64 },
            ;
        }
        let s: u64 = ax * ax + ay * ay;
        let r: u64 = isqrt(s);
        proof {
            assert(r <= 3_000_000_000) by (nonlinear_arith)
                requires
                    r as int * r as int <= s,
                    s <= 8_000_000_000_000_000_000u64,
            ;
            if s == 0 {
                assert(r == 0) by (nonlinear_arith)
                    requires
                        is_sqrt_floor(0, r as int),
                ;
            }
        }
        r as i64
    }

    /// Scale the vector to unit length (milli-units): each component becomes
    /// `component * 1000 / magnitude`, rounded towards zero. The zero vector
    /// stays zero.
    pub fn normalize(&self) -> (r: Vector2D)
        requires
            -2_000_000_000 <= self.x <= 2_000_000_000,
            -2_000_000_000 <= self.y <= 2_000_000_000,
        ensures
            (self.x == 0 && self.y == 0) ==> r == (Vector2D { x: 0, y: 0 }),
            ({
                let m = sqrt_floor(self.x * self.x + self.y * self.y);
                m > 0 ==> r.x == div_trunc(self.x * (FX_SCALE as int), m) && r.y == div_trunc(
                    self.y * (FX_SCALE as int),
                    m,
                )
            }),
    {
        let m: i64 = self.magnitude();
        if m == 0 {
            proof {
                assert(self.x == 0 && self.y == 0) by (nonlinear_arith)
                    requires
                        is_sqrt_floor(self.x * self.x + self.y * self.y, 0),
                ;
            }
            Vector2D { x: 0, y: 0 }
        } else {
            Vector2D {
                x: scaled_component(self.x, m),
                y: scaled_component(self.y, m),
            }
        }
    }
}

} // verus!


//! Integer and fixed-point arithmetic used by the transform model.
//!
//! Positions are whole pixels held in `i32`. Scale factors and the cosine and
//! sine of a rotation are fixed-point numbers in units of `1 / UNIT`.
use vstd::prelude::*;

verus! {

/// The fixed-point representation of `1.0`.
pub const UNIT: i32 = 65536;

/// `v` brought into the range of `i32`: values past either end become that end.
pub open spec fn clamp_i32(v: int) -> int {
    if v < i32::MIN {
        i32::MIN as int
    } else if v > i32::MAX {
        i32::MAX as int
    } else {
        v
    }
}

/// Saturating conversion to `i32`.
pub fn clamp_to_i32(v: i128) -> (r: i32)
    ensures
        r == clamp_i32(v as int),
{
    if v < i32::MIN as i128 {
        i32::MIN
    } else if v > i32::MAX as i128 {
        i32::MAX
    } else {
        v as i32
    }
}

/// Division rounding toward negative infinity (Verus's `/` on `int` is
/// Euclidean, which agrees with this for a positive divisor).
pub fn floor_div(v: i128, d: i128) -> (r: i128)
    requires
        d > 0,
    ensures
        r == v as int / d as int,
{
    if v >= 0 {
        v / d
    } else {
        let q = (-1 - v) / d;
        proof {
            let vi = v as int;
            let di = d as int;
            let qi = q as int;
            let n: int = -1 - vi;
            let m: int = n % di;
            assert(n == qi * di + m && 0 <= m < di) by (nonlinear_arith)
                requires n >= 0, di > 0, qi == n / di, m == n % di;
            assert(vi == (-qi - 1) * di + (di - 1 - m)) by (nonlinear_arith)
                requires n == qi * di + m, n == -1 - vi;
            vstd::arithmetic::div_mod::lemma_fundamental_div_mod_converse(vi, di, -qi - 1, di - 1 - m);
        }
        -q - 1
    }
}

/// The first coordinate of the offset `(ox, oy)` scaled by `(sx, sy)` and then
/// turned by the rotation whose cosine and sine are `c` and `s`, all scale and
/// rotation values being in units of `1 / UNIT`; rounded down.
pub open spec fn turned_x(ox: int, oy: int, sx: int, sy: int, c: int, s: int) -> int {
    (ox * sx * c - oy * sy * s) / (UNIT * UNIT)
}

/// The second coordinate of the offset described for `turned_x`.
pub open spec fn turned_y(ox: int, oy: int, sx: int, sy: int, c: int, s: int) -> int {
    (ox * sx * s + oy * sy * c) / (UNIT * UNIT)
}

} // verus!

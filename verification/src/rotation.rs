//! Rotation of fixed-point points about the z axis, given the sine and
//! cosine of the angle.

use vstd::prelude::*;
use crate::fixed::{Fixed, wrap_i16};

verus! {

/// The raw fixed-point product of raw values `a` and `b`.
pub open spec fn mul_raw(a: int, b: int) -> int {
    wrap_i16((a * b) / 256)
}

/// `p` rotated about the z axis by the angle whose sine and cosine are `s`
/// and `c`: `(c·x − s·y, s·x + c·y, z)`, each product and sum in fixed point.
pub open spec fn rotated_z(p: [Fixed; 3], s: Fixed, c: Fixed) -> [Fixed; 3] {
    [
        Fixed(wrap_i16(mul_raw(c.0 as int, p[0].0 as int) - mul_raw(s.0 as int, p[1].0 as int)) as i16),
        Fixed(wrap_i16(mul_raw(s.0 as int, p[0].0 as int) + mul_raw(c.0 as int, p[1].0 as int)) as i16),
        p[2],
    ]
}

/// Rotates a point about the z axis.
pub fn rotate_z(p: [Fixed; 3], s: Fixed, c: Fixed) -> (r: [Fixed; 3])
    ensures
        r == rotated_z(p, s, c),
{
    let x = p[0];
    let y = p[1];
    let xp = c.times(x).minus(s.times(y));
    let yp = s.times(x).plus(c.times(y));
    let r = [xp, yp, p[2]];
    assert(r =~= rotated_z(p, s, c));
    r
}

/// Rotates every point of an outline about the z axis.
pub fn rotate_all(points: &Vec<[Fixed; 3]>, s: Fixed, c: Fixed) -> (r: Vec<[Fixed; 3]>)
    ensures
        r.len() == points.len(),
        forall|i: int| 0 <= i < points.len() ==> #[trigger] r[i] == rotated_z(points[i], s, c),
{
    let mut out: Vec<[Fixed; 3]> = Vec::new();
    for i in 0..points.len()
        invariant
            out.len() == i,
            forall|j: int| 0 <= j < i ==> #[trigger] out[j] == rotated_z(points[j], s, c),
    {
        out.push(rotate_z(points[i], s, c));
    }
    out
}

/// Rotating by the zero angle (sine 0.0, cosine 1.0) leaves a point where it is.
pub proof fn law_zero_rotation_is_identity(p: [Fixed; 3])
    ensures
        rotated_z(p, Fixed(0), Fixed(256)) == p,
{
    assert(rotated_z(p, Fixed(0), Fixed(256)) =~= p);
}

/// On a point with integral coordinates `(x, y)` (raw values `256·x`,
/// `256·y`) the rotation is exactly the linear map `(c·x − s·y, s·x + c·y)` of
/// the raw sine and cosine, wrapping around on overflow; z is kept.
pub proof fn law_integral_points_rotate_linearly(p: [Fixed; 3], s: Fixed, c: Fixed, x: int, y: int)
    requires
        p[0].0 == 256 * x,
        p[1].0 == 256 * y,
    ensures
        rotated_z(p, s, c)[0].0 == wrap_i16(c.0 * x - s.0 * y),
        rotated_z(p, s, c)[1].0 == wrap_i16(s.0 * x + c.0 * y),
        rotated_z(p, s, c)[2] == p[2],
{
    assert(c.0 * (256 * x) == (c.0 * x) * 256) by (nonlinear_arith);
    assert(s.0 * (256 * y) == (s.0 * y) * 256) by (nonlinear_arith);
    assert(s.0 * (256 * x) == (s.0 * x) * 256) by (nonlinear_arith);
    assert(c.0 * (256 * y) == (c.0 * y) * 256) by (nonlinear_arith);
    assert(((c.0 * x) * 256) / 256 == c.0 * x);
    assert(((s.0 * y) * 256) / 256 == s.0 * y);
    assert(((s.0 * x) * 256) / 256 == s.0 * x);
    assert(((c.0 * y) * 256) / 256 == c.0 * y);
    lemma_wrap_sum(c.0 * x, -(s.0 * y));
    lemma_wrap_sum(s.0 * x, c.0 * y);
}

/// Wrapping the terms of a sum first does not change the wrapped sum.
proof fn lemma_wrap_sum(a: int, b: int)
    ensures
        wrap_i16(wrap_i16(a) + wrap_i16(b)) == wrap_i16(a + b),
        wrap_i16(wrap_i16(a) - wrap_i16(-b)) == wrap_i16(a + b),
{
    vstd::arithmetic::div_mod::lemma_add_mod_noop(a + 32768, b + 32768, 65536);
    vstd::arithmetic::div_mod::lemma_mod_twice(a + 32768, 65536);
    vstd::arithmetic::div_mod::lemma_mod_twice(b + 32768, 65536);
    vstd::arithmetic::div_mod::lemma_add_mod_noop(a + 32768 - 32768, b + 32768, 65536);
    vstd::arithmetic::div_mod::lemma_sub_mod_noop(a + 32768, -b + 32768, 65536);
}

/// A quarter turn one way (sine 1.0, cosine 0) maps `(x, y, z)` to
/// `(−y, x, z)`; the other way (sine −1.0) to `(y, −x, z)`; a half turn
/// (cosine −1.0) to `(−x, −y, z)`. Negation wraps around on overflow.
pub proof fn law_quarter_and_half_turns(p: [Fixed; 3])
    ensures
        rotated_z(p, Fixed(256i16), Fixed(0i16))[0].0 == wrap_i16(-p[1].0),
        rotated_z(p, Fixed(256i16), Fixed(0i16))[1] == p[0],
        rotated_z(p, Fixed(256i16), Fixed(0i16))[2] == p[2],
        rotated_z(p, Fixed(-256i16), Fixed(0i16))[0] == p[1],
        rotated_z(p, Fixed(-256i16), Fixed(0i16))[1].0 == wrap_i16(-p[0].0),
        rotated_z(p, Fixed(-256i16), Fixed(0i16))[2] == p[2],
        rotated_z(p, Fixed(0i16), Fixed(-256i16))[0].0 == wrap_i16(-p[0].0),
        rotated_z(p, Fixed(0i16), Fixed(-256i16))[1].0 == wrap_i16(-p[1].0),
        rotated_z(p, Fixed(0i16), Fixed(-256i16))[2] == p[2],
{
    let x = p[0].0 as int;
    let y = p[1].0 as int;
    assert((256 * x) / 256 == x);
    assert((256 * y) / 256 == y);
    assert((-256 * x) / 256 == -x);
    assert((-256 * y) / 256 == -y);
    assert(0 * x == 0);
    assert(0 * y == 0);
}

} // verus!

//! Screen geometry of the 2D tutorials: the corners of quads and triangles,
//! texture coordinates, the projection of fixed-point points to the screen,
//! and the choice of the double buffer.

use vstd::prelude::*;
use crate::fixed::{Fixed, wrap_i16, div_trunc};

verus! {

/// A corner on screen: `(x, y)` in pixels.
pub type ScreenPoint = (i16, i16);

/// The corners of an axis-aligned rectangle in the order a flat quad takes
/// them: top left, top right, bottom left, bottom right.
pub fn rect_corners(x: i16, y: i16, w: i16, h: i16) -> (r: [ScreenPoint; 4])
    requires
        i16::MIN <= x + w <= i16::MAX,
        i16::MIN <= y + h <= i16::MAX,
    ensures
        r@ == seq![(x, y), ((x + w) as i16, y), (x, (y + h) as i16), ((x + w) as i16, (y + h) as i16)],
{
    [(x, y), (x + w, y), (x, y + h), (x + w, y + h)]
}

/// The corners of an axis-aligned rectangle in the order the textured
/// sprites take them: top left, bottom left, top right, bottom right.
pub fn sprite_corners(x: i16, y: i16, w: i16, h: i16) -> (r: [ScreenPoint; 4])
    requires
        i16::MIN <= x + w <= i16::MAX,
        i16::MIN <= y + h <= i16::MAX,
    ensures
        r@ == seq![(x, y), (x, (y + h) as i16), ((x + w) as i16, y), ((x + w) as i16, (y + h) as i16)],
{
    [(x, y), (x, y + h), (x + w, y), (x + w, y + h)]
}

/// The first three corners of `rect_corners`: the right-angled triangle with
/// its right angle at the top left.
pub fn triangle_corners(x: i16, y: i16, w: i16, h: i16) -> (r: [ScreenPoint; 3])
    requires
        i16::MIN <= x + w <= i16::MAX,
        i16::MIN <= y + h <= i16::MAX,
    ensures
        r@ == seq![(x, y), ((x + w) as i16, y), (x, (y + h) as i16)],
{
    [(x, y), (x + w, y), (x, y + h)]
}

/// Texture coordinates of a `w` by `h` texel block at `(u, v)`, in the
/// order of `sprite_corners`.
pub fn tex_coords(u: u8, v: u8, w: u8, h: u8) -> (r: [(u8, u8); 4])
    requires
        u + w <= u8::MAX,
        v + h <= u8::MAX,
    ensures
        r@ == seq![(u, v), (u, (v + h) as u8), ((u + w) as u8, v), ((u + w) as u8, (v + h) as u8)],
{
    [(u, v), (u, v + h), (u + w, v), (u + w, v + h)]
}

/// The corners of a square sprite as fixed-point points on the plane `z = 0`,
/// in the order of `sprite_corners`.
pub fn sprite_points(x: i8, y: i8, w: i8, h: i8) -> (r: [[Fixed; 3]; 4])
    requires
        i8::MIN <= x + w <= i8::MAX,
        i8::MIN <= y + h <= i8::MAX,
    ensures
        r[0][0].0 == x * 256 && r[0][1].0 == y * 256,
        r[1][0].0 == x * 256 && r[1][1].0 == (y + h) * 256,
        r[2][0].0 == (x + w) * 256 && r[2][1].0 == y * 256,
        r[3][0].0 == (x + w) * 256 && r[3][1].0 == (y + h) * 256,
        forall|i: int| 0 <= i < 4 ==> r[i][2].0 == 0,
{
    let z = Fixed::zero();
    [
        [Fixed::from_int(x), Fixed::from_int(y), z],
        [Fixed::from_int(x), Fixed::from_int(y + h), z],
        [Fixed::from_int(x + w), Fixed::from_int(y), z],
        [Fixed::from_int(x + w), Fixed::from_int(y + h), z],
    ]
}

/// The player's ship outline: a triangle pointing up, in fixed point.
pub fn player_triangle() -> (r: [[Fixed; 3]; 3])
    ensures
        r[0][0].0 == 0 && r[0][1].0 == -10 * 256 && r[0][2].0 == 0,
        r[1][0].0 == 5 * 256 && r[1][1].0 == 10 * 256 && r[1][2].0 == 0,
        r[2][0].0 == -5 * 256 && r[2][1].0 == 10 * 256 && r[2][2].0 == 0,
{
    [
        [Fixed::from_int(0), Fixed::from_int(-10), Fixed::from_int(0)],
        [Fixed::from_int(5), Fixed::from_int(10), Fixed::from_int(0)],
        [Fixed::from_int(-5), Fixed::from_int(10), Fixed::from_int(0)],
    ]
}

/// The screen coordinate of the model coordinate `v` of an object at `pos`:
/// the integral part of their sum, scaled by 3/2 (rounded toward zero), from
/// the screen centre `half`.
pub open spec fn screen_coord_of(v: Fixed, pos: Fixed, half: int) -> int {
    div_trunc(Fixed(wrap_i16(v.0 + pos.0) as i16).int_part() * 3, 2) + half
}

/// Projects one coordinate to the screen.
pub fn screen_coord(v: Fixed, pos: Fixed, half: i16) -> (r: i16)
    requires
        -32576 <= half <= 32577,
    ensures
        r == screen_coord_of(v, pos, half as int),
{
    let i = v.plus(pos).to_int_lossy();
    i * 3 / 2 + half
}

/// Projects the points of an object at `(pos_x, pos_y)` to a screen whose
/// centre is `(cx, cy)`: x and y of each point go through `screen_coord`,
/// z is dropped.
pub fn project_points(points: &Vec<[Fixed; 3]>, pos_x: Fixed, pos_y: Fixed, cx: i16, cy: i16) -> (r: Vec<ScreenPoint>)
    requires
        -32576 <= cx <= 32577,
        -32576 <= cy <= 32577,
    ensures
        r.len() == points.len(),
        forall|i: int| 0 <= i < points.len() ==> #[trigger] r[i] == (
            screen_coord_of(points[i][0], pos_x, cx as int) as i16,
            screen_coord_of(points[i][1], pos_y, cy as int) as i16,
        ),
{
    let mut out: Vec<ScreenPoint> = Vec::new();
    for i in 0..points.len()
        invariant
            -32576 <= cx <= 32577,
            -32576 <= cy <= 32577,
            out.len() == i,
            forall|j: int| 0 <= j < i ==> #[trigger] out[j] == (
                screen_coord_of(points[j][0], pos_x, cx as int) as i16,
                screen_coord_of(points[j][1], pos_y, cy as int) as i16,
            ),
    {
        let p = points[i];
        let sx = screen_coord(p[0], pos_x, cx);
        let sy = screen_coord(p[1], pos_y, cy);
        out.push((sx, sy));
    }
    out
}

/// The fractional part written as four decimal digits, as the heads-up
/// display shows it: 256ths times 39.
pub fn fract_digits(v: Fixed) -> (r: i16)
    ensures
        r == v.frac_part() * 39,
        0 <= r <= 9945,
{
    v.fract().0 * 39
}

/// The other of the two display buffers `0` and `1`.
pub fn flip_buffer(db: u8) -> (r: u8)
    requires
        db <= 1,
    ensures
        r == 1 - db,
        r <= 1,
{
    1 - db
}

/// Flipping the display buffer twice gives the same buffer back.
pub proof fn law_flip_twice(db: u8)
    requires
        db <= 1,
    ensures
        1 - (1 - db) == db,
{
}

/// The flat quad and the sprite quad of a rectangle have the same corners,
/// with the second and third swapped.
pub proof fn law_quad_orders_agree(x: i16, y: i16, w: i16, h: i16)
    requires
        i16::MIN <= x + w <= i16::MAX,
        i16::MIN <= y + h <= i16::MAX,
    ensures
        seq![(x, y), ((x + w) as i16, y), (x, (y + h) as i16), ((x + w) as i16, (y + h) as i16)]
            == seq![(x, y), (x, (y + h) as i16), ((x + w) as i16, y), ((x + w) as i16, (y + h) as i16)]
                .update(1, ((x + w) as i16, y)).update(2, (x, (y + h) as i16)),
{
}

/// A point at the model origin of an object at the origin lands on the
/// screen centre.
pub proof fn law_origin_on_centre(half: int)
    ensures
        screen_coord_of(Fixed(0), Fixed(0), half) == half,
{
}

/// A point whose coordinate is the integer `k` (raw `256·k`), on an object
/// at the origin, lands `1.5·k` pixels from the centre, rounded toward the
/// centre.
pub proof fn law_screen_scale(k: int, half: int)
    requires
        -128 <= k <= 127,
    ensures
        ({
            let d = screen_coord_of(Fixed((256 * k) as i16), Fixed(0), half) - half;
            &&& k % 2 == 0 ==> 2 * d == 3 * k
            &&& k % 2 != 0 && k > 0 ==> 2 * d == 3 * k - 1
            &&& k % 2 != 0 && k < 0 ==> 2 * d == 3 * k + 1
        }),
{
    assert(wrap_i16(256 * k + 0) == 256 * k);
    assert((256 * k) / 256 == k);
}

} // verus!

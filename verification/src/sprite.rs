//! Moving a sprite with the directional buttons, in whole pixels and in
//! fixed point.

use vstd::prelude::*;
use crate::fixed::{Fixed, wrap_i16};
use crate::pad::{Button, Pad};

verus! {

/// How far the directional buttons move something in one frame along x:
/// `step` right with Right, `-step` with Left, Right winning.
pub open spec fn dx(pad: Pad, step: int) -> int {
    if pad.is_pressed(Button::Right) {
        step
    } else if pad.is_pressed(Button::Left) {
        -step
    } else {
        0
    }
}

/// How far the directional buttons move something in one frame along y:
/// `step` up the screen (toward smaller y) with Up, down with Down, Up
/// winning.
pub open spec fn dy(pad: Pad, step: int) -> int {
    if pad.is_pressed(Button::Up) {
        -step
    } else if pad.is_pressed(Button::Down) {
        step
    } else {
        0
    }
}

/// The sprite's position after one frame, one pixel per held direction,
/// wrapping around on overflow.
pub fn move_sprite(sx: i16, sy: i16, pad: Pad) -> (r: (i16, i16))
    ensures
        r.0 == wrap_i16(sx + dx(pad, 1)),
        r.1 == wrap_i16(sy + dy(pad, 1)),
{
    let mut x = sx;
    let mut y = sy;
    if pad.pressed(Button::Right) {
        x = x.wrapping_add(1);
    } else if pad.pressed(Button::Left) {
        x = x.wrapping_sub(1);
    }
    if pad.pressed(Button::Up) {
        y = y.wrapping_sub(1);
    } else if pad.pressed(Button::Down) {
        y = y.wrapping_add(1);
    }
    (x, y)
}

/// The sprite's fixed-point position after one frame, 1.0 per held
/// direction, wrapping around on overflow.
pub fn move_fixed(sx: Fixed, sy: Fixed, pad: Pad) -> (r: (Fixed, Fixed))
    ensures
        r.0.0 == wrap_i16(sx.0 + dx(pad, 256)),
        r.1.0 == wrap_i16(sy.0 + dy(pad, 256)),
{
    let mut x = sx;
    let mut y = sy;
    if pad.pressed(Button::Right) {
        x = x.plus(Fixed::one());
    } else if pad.pressed(Button::Left) {
        x = x.minus(Fixed::one());
    }
    if pad.pressed(Button::Up) {
        y = y.minus(Fixed::one());
    } else if pad.pressed(Button::Down) {
        y = y.plus(Fixed::one());
    }
    proof {
        assert(wrap_i16(sx.0 + 0) == sx.0);
        assert(wrap_i16(sy.0 + 0) == sy.0);
    }
    (x, y)
}

/// A frame with Right held and then a frame with Left held (and neither
/// vertical direction) bring the sprite back where it was.
pub proof fn law_right_then_left(sx: i16, step: int, p1: Pad, p2: Pad)
    requires
        p1.is_pressed(Button::Right),
        !p2.is_pressed(Button::Right),
        p2.is_pressed(Button::Left),
        0 <= step <= 256,
    ensures
        wrap_i16(wrap_i16(sx + dx(p1, step)) + dx(p2, step)) == sx,
{
}

/// Without a held direction the sprite stays put.
pub proof fn law_idle_stays(sx: i16, sy: i16, pad: Pad, step: int)
    requires
        !pad.is_pressed(Button::Right),
        !pad.is_pressed(Button::Left),
        !pad.is_pressed(Button::Up),
        !pad.is_pressed(Button::Down),
    ensures
        wrap_i16(sx + dx(pad, step)) == sx,
        wrap_i16(sy + dy(pad, step)) == sy,
{
}

/// Up moves up (toward smaller y) by one step whatever else is held; Down
/// alone moves down; neither keeps y. Left and Right play no part in it.
pub proof fn law_vertical_buttons(pad: Pad, step: int)
    ensures
        pad.is_pressed(Button::Up) ==> dy(pad, step) == -step,
        !pad.is_pressed(Button::Up) && pad.is_pressed(Button::Down) ==> dy(pad, step) == step,
        !pad.is_pressed(Button::Up) && !pad.is_pressed(Button::Down) ==> dy(pad, step) == 0,
{
}

/// Right moves right by one step whatever else is held; Left alone moves
/// left; neither keeps x. Up and Down play no part in it.
pub proof fn law_horizontal_buttons(pad: Pad, step: int)
    ensures
        pad.is_pressed(Button::Right) ==> dx(pad, step) == step,
        !pad.is_pressed(Button::Right) && pad.is_pressed(Button::Left) ==> dx(pad, step) == -step,
        !pad.is_pressed(Button::Right) && !pad.is_pressed(Button::Left) ==> dx(pad, step) == 0,
{
}

/// The two directions are independent: pads that agree on Up and Down move
/// y alike, pads that agree on Left and Right move x alike.
pub proof fn law_directions_independent(p1: Pad, p2: Pad, step: int)
    ensures
        p1.is_pressed(Button::Up) == p2.is_pressed(Button::Up) && p1.is_pressed(Button::Down)
            == p2.is_pressed(Button::Down) ==> dy(p1, step) == dy(p2, step),
        p1.is_pressed(Button::Left) == p2.is_pressed(Button::Left) && p1.is_pressed(Button::Right)
            == p2.is_pressed(Button::Right) ==> dx(p1, step) == dx(p2, step),
{
}

} // verus!

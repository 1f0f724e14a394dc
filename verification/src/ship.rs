//! The player ship of the fixed-point tutorials: it turns, thrusts along its
//! heading, drifts with its velocity and wraps around the play field.

use vstd::prelude::*;
use crate::fixed::{Fixed, wrap_i16, div_trunc};
use crate::pad::{Button, Pad};

verus! {

/// How far one frame of turning rotates the ship.
pub const ANG: u16 = 512;
/// Screen width.
pub const W: i16 = 320;
/// Screen height.
pub const H: i16 = 240;
/// The ship wraps to the other side when its integral x coordinate leaves
/// `-X_WRAP..=X_WRAP`.
pub const X_WRAP: i8 = 107;
/// The ship wraps to the other side when its integral y coordinate leaves
/// `-Y_WRAP..=Y_WRAP`.
pub const Y_WRAP: i8 = 80;

/// An angle in units of π/32768: a full turn is 65536 and wraps to 0.
#[derive(Clone, Copy, PartialEq, Eq, Structural, Debug)]
pub struct Angle(pub u16);

impl Angle {
    /// The angle turned by `d` units, wrapping around a full turn.
    pub fn turned(self, d: u16) -> (r: Angle)
        ensures
            r.0 == (self.0 + d) % 65536,
    {
        Angle(self.0.wrapping_add(d))
    }

    /// The angle turned back by `d` units, wrapping around a full turn.
    pub fn turned_back(self, d: u16) -> (r: Angle)
        ensures
            r.0 == (self.0 - d + 65536) % 65536,
    {
        Angle(self.0.wrapping_sub(d))
    }

    /// The angle's bits read as a signed number, as the heads-up display
    /// shows it.
    pub fn as_signed(self) -> (r: i16)
        ensures
            r == (if self.0 < 32768 { self.0 as int } else { self.0 - 65536 }),
    {
        let x = self.0;
        proof {
            assert(x < 32768 ==> x as i16 == x) by (bit_vector);
            assert(x >= 32768 ==> x as i16 == x - 65536) by (bit_vector);
        }
        #[verifier::truncate] (x as i16)
    }
}

/// The coordinate after wrapping around the play field `-limit..=limit`:
/// leaving on one side puts the ship on the other, keeping the fractional part.
pub open spec fn wrapped_coord(pos: Fixed, limit: int) -> Fixed {
    if pos.int_part() > limit {
        Fixed((pos.frac_part() - limit * 256) as i16)
    } else if pos.int_part() < -limit {
        Fixed((pos.frac_part() + limit * 256) as i16)
    } else {
        pos
    }
}

/// Wraps a coordinate around the play field `-limit..=limit`.
pub fn wrap_coord(pos: Fixed, limit: i8) -> (r: Fixed)
    requires
        limit > i8::MIN,
    ensures
        r == wrapped_coord(pos, limit as int),
{
    let p = pos.to_int_lossy();
    let lim = limit as i16;
    if p > lim {
        pos.fract().minus(Fixed::from_int(limit))
    } else if p < -lim {
        pos.fract().plus(Fixed::from_int(limit))
    } else {
        pos
    }
}

/// What one frame of thrust adds to the velocity: an eighth of the heading's
/// sine and cosine, forward with Up, backward with Down (Up wins).
pub open spec fn thrust_delta(pad: Pad, s: Fixed, c: Fixed) -> (int, int) {
    let sx = div_trunc(s.0 as int, 8);
    let cy = div_trunc(c.0 as int, 8);
    if pad.is_pressed(Button::Up) {
        (sx, -cy)
    } else if pad.is_pressed(Button::Down) {
        (-sx, cy)
    } else {
        (0, 0)
    }
}

/// The player ship: position and velocity in fixed point, and heading.
#[derive(Clone, Copy, PartialEq, Eq, Structural, Debug)]
pub struct Ship {
    pub pos_x: Fixed,
    pub pos_y: Fixed,
    pub vel_x: Fixed,
    pub vel_y: Fixed,
    pub angle: Angle,
}

impl Ship {
    /// Whether the ship is inside the play field.
    pub open spec fn in_field(self) -> bool {
        &&& -(X_WRAP as int) <= self.pos_x.int_part() <= X_WRAP
        &&& -(Y_WRAP as int) <= self.pos_y.int_part() <= Y_WRAP
    }

    /// The ship at rest in the centre, heading up.
    pub fn new() -> (r: Ship)
        ensures
            r.pos_x.0 == 0,
            r.pos_y.0 == 0,
            r.vel_x.0 == 0,
            r.vel_y.0 == 0,
            r.angle.0 == 0,
            r.in_field(),
    {
        Ship {
            pos_x: Fixed::from_int(0),
            pos_y: Fixed::from_int(0),
            vel_x: Fixed::from_int(0),
            vel_y: Fixed::from_int(0),
            angle: Angle(0),
        }
    }

    /// Turns the ship: Right turns by `ANG`, Left turns back by `ANG`, and
    /// Right wins when both are held.
    pub fn turn(&mut self, pad: Pad)
        ensures
            final(self).angle.0 == (if pad.is_pressed(Button::Right) {
                (old(self).angle.0 + ANG) % 65536
            } else if pad.is_pressed(Button::Left) {
                (old(self).angle.0 - ANG + 65536) % 65536
            } else {
                old(self).angle.0 as int
            }),
            final(self).pos_x == old(self).pos_x,
            final(self).pos_y == old(self).pos_y,
            final(self).vel_x == old(self).vel_x,
            final(self).vel_y == old(self).vel_y,
    {
        if pad.pressed(Button::Right) {
            self.angle = self.angle.turned(ANG);
        } else if pad.pressed(Button::Left) {
            self.angle = self.angle.turned_back(ANG);
        }
    }

    /// One frame of movement after turning: thrust along the heading whose
    /// sine and cosine are `s` and `c`, drift by the velocity, and wrap
    /// around the play field.
    pub fn advance(&mut self, pad: Pad, s: Fixed, c: Fixed)
        ensures
            final(self).vel_x.0 == wrap_i16(old(self).vel_x.0 + thrust_delta(pad, s, c).0),
            final(self).vel_y.0 == wrap_i16(old(self).vel_y.0 + thrust_delta(pad, s, c).1),
            final(self).pos_x == wrapped_coord(
                Fixed(wrap_i16(old(self).pos_x.0 + final(self).vel_x.0) as i16),
                X_WRAP as int,
            ),
            final(self).pos_y == wrapped_coord(
                Fixed(wrap_i16(old(self).pos_y.0 + final(self).vel_y.0) as i16),
                Y_WRAP as int,
            ),
            final(self).angle == old(self).angle,
            final(self).in_field(),
    {
        let (vx, vy) = thrust(self.vel_x, self.vel_y, pad, s, c);
        let px = self.pos_x.plus(vx);
        let py = self.pos_y.plus(vy);
        let wx = wrap_coord(px, X_WRAP);
        let wy = wrap_coord(py, Y_WRAP);
        proof {
            law_wrap_stays_in_field(px, X_WRAP as int);
            law_wrap_stays_in_field(py, Y_WRAP as int);
        }
        self.vel_x = vx;
        self.vel_y = vy;
        self.pos_x = wx;
        self.pos_y = wy;
    }
}

/// The velocity after one frame of thrust along the heading whose sine and
/// cosine are `s` and `c`.
pub fn thrust(vel_x: Fixed, vel_y: Fixed, pad: Pad, s: Fixed, c: Fixed) -> (r: (Fixed, Fixed))
    ensures
        r.0.0 == wrap_i16(vel_x.0 + thrust_delta(pad, s, c).0),
        r.1.0 == wrap_i16(vel_y.0 + thrust_delta(pad, s, c).1),
{
    if pad.pressed(Button::Up) {
        (vel_x.plus(s.div_by(8)), vel_y.minus(c.div_by(8)))
    } else if pad.pressed(Button::Down) {
        (vel_x.minus(s.div_by(8)), vel_y.plus(c.div_by(8)))
    } else {
        proof {
            assert(wrap_i16(vel_x.0 + 0) == vel_x.0);
            assert(wrap_i16(vel_y.0 + 0) == vel_y.0);
        }
        (vel_x, vel_y)
    }
}

/// Wrapping puts every coordinate inside the play field `-limit..=limit`.
pub proof fn law_wrap_stays_in_field(pos: Fixed, limit: int)
    requires
        0 <= limit <= 127,
    ensures
        -limit <= wrapped_coord(pos, limit).int_part() <= limit,
{
}

/// Wrapping keeps the fractional part of a coordinate.
pub proof fn law_wrap_keeps_fraction(pos: Fixed, limit: int)
    requires
        0 <= limit <= 127,
    ensures
        wrapped_coord(pos, limit).frac_part() == pos.frac_part(),
{
}

/// A coordinate inside the play field is left alone, so wrapping twice is
/// wrapping once.
pub proof fn law_wrap_idempotent(pos: Fixed, limit: int)
    requires
        0 <= limit <= 127,
    ensures
        -limit <= pos.int_part() <= limit ==> wrapped_coord(pos, limit) == pos,
        wrapped_coord(wrapped_coord(pos, limit), limit) == wrapped_coord(pos, limit),
{
}

/// Turning right and then left (or left and then right) restores the heading.
pub proof fn law_turn_round_trip(a: u16, d: u16)
    ensures
        (((a + d) % 65536) - d + 65536) % 65536 == a,
        ((((a - d + 65536) % 65536) + d) % 65536) == a,
{
}

/// A ship that thrusts neither way keeps its velocity.
pub proof fn law_coasting_keeps_velocity(pad: Pad, s: Fixed, c: Fixed)
    requires
        !pad.is_pressed(Button::Up),
        !pad.is_pressed(Button::Down),
    ensures
        thrust_delta(pad, s, c) == (0int, 0int),
{
}

/// A coordinate that leaves the field over one edge comes back at the other
/// edge: above `limit` it lands on `-limit`, below `-limit` on `limit`.
pub proof fn law_wrap_crosses_over(pos: Fixed, limit: int)
    requires
        0 <= limit <= 127,
    ensures
        pos.int_part() > limit ==> wrapped_coord(pos, limit).int_part() == -limit,
        pos.int_part() < -limit ==> wrapped_coord(pos, limit).int_part() == limit,
{
}

/// Thrust with Up pushes along the heading by an eighth of it, rounded
/// toward zero: the x change has the sign of the sine and the y change the
/// opposite sign of the cosine (y grows down the screen), each with eight
/// times its size within 8 of the sine's or cosine's size.
pub proof fn law_thrust_along_heading(pad: Pad, s: Fixed, c: Fixed)
    requires
        pad.is_pressed(Button::Up),
    ensures
        ({
            let d = thrust_delta(pad, s, c);
            &&& s.0 >= 0 ==> 0 <= 8 * d.0 <= s.0 < 8 * d.0 + 8
            &&& s.0 < 0 ==> 8 * d.0 - 8 < s.0 <= 8 * d.0 <= 0
            &&& c.0 >= 0 ==> 0 <= -8 * d.1 <= c.0 < -8 * d.1 + 8
            &&& c.0 < 0 ==> -8 * d.1 - 8 < c.0 <= -8 * d.1 <= 0
        }),
{
}

/// Thrust is odd in the heading: negating the sine negates the x change,
/// negating the cosine negates the y change.
pub proof fn law_thrust_is_odd(pad: Pad, s: Fixed, c: Fixed)
    requires
        s.0 != i16::MIN,
        c.0 != i16::MIN,
    ensures
        thrust_delta(pad, Fixed((-s.0) as i16), c).0 == -thrust_delta(pad, s, c).0,
        thrust_delta(pad, Fixed((-s.0) as i16), c).1 == thrust_delta(pad, s, c).1,
        thrust_delta(pad, s, Fixed((-c.0) as i16)).1 == -thrust_delta(pad, s, c).1,
        thrust_delta(pad, s, Fixed((-c.0) as i16)).0 == thrust_delta(pad, s, c).0,
{
}

/// Down (without Up) pushes exactly opposite to Up.
pub proof fn law_down_opposes_up(up: Pad, down: Pad, s: Fixed, c: Fixed)
    requires
        up.is_pressed(Button::Up),
        !down.is_pressed(Button::Up),
        down.is_pressed(Button::Down),
    ensures
        thrust_delta(down, s, c).0 == -thrust_delta(up, s, c).0,
        thrust_delta(down, s, c).1 == -thrust_delta(up, s, c).1,
{
}

} // verus!

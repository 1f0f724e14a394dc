//! The controls of the 3D tutorial: the object's translation and rotation,
//! moved by the buttons in interactive mode or rolled on their own in
//! automatic mode, with Start switching modes once per press.

use vstd::prelude::*;
use crate::fixed::wrap_i16;
use crate::pad::{Button, Pad};

verus! {

/// Screen x of the object's starting position.
pub const CENTERX: i16 = 320;
/// Screen y of the object's starting position.
pub const CENTERY: i16 = 120;

/// The object's translation.
#[derive(Clone, Copy, PartialEq, Eq, Structural, Debug)]
pub struct Trans {
    pub x: i16,
    pub y: i16,
    pub z: i16,
}

/// The object's rotation angles about the three axes.
#[derive(Clone, Copy, PartialEq, Eq, Structural, Debug)]
pub struct Rotate {
    pub x: i16,
    pub y: i16,
    pub z: i16,
}

/// The starting translation: the screen centre, depth zero.
pub open spec fn home_trans() -> Trans {
    Trans { x: CENTERX, y: CENTERY, z: 0 }
}

/// No rotation about any axis.
pub open spec fn no_rotation() -> Rotate {
    Rotate { x: 0, y: 0, z: 0 }
}

impl Trans {
    /// The starting translation: the screen centre, depth zero.
    pub fn home() -> (r: Trans)
        ensures
            r == home_trans(),
    {
        Trans { x: CENTERX, y: CENTERY, z: 0 }
    }
}

impl Rotate {
    /// No rotation.
    pub fn zero() -> (r: Rotate)
        ensures
            r == no_rotation(),
    {
        Rotate { x: 0, y: 0, z: 0 }
    }
}

/// The change along one axis in one frame: `-step` while `minus` is held,
/// else `step` while `plus` is held (`minus` wins).
pub open spec fn axis(pad: Pad, minus: Button, plus: Button, step: int) -> int {
    if pad.is_pressed(minus) {
        -step
    } else if pad.is_pressed(plus) {
        step
    } else {
        0
    }
}

/// One axis value after a frame.
fn step_axis(v: i16, pad: Pad, minus: Button, plus: Button, step: i16) -> (r: i16)
    requires
        0 <= step,
    ensures
        r == wrap_i16(v + axis(pad, minus, plus, step as int)),
{
    if pad.pressed(minus) {
        v.wrapping_sub(step)
    } else if pad.pressed(plus) {
        v.wrapping_add(step)
    } else {
        proof {
            assert(wrap_i16(v + 0) == v);
        }
        v
    }
}

/// The interactive and automatic controls of the 3D tutorial.
#[derive(Clone, Copy, PartialEq, Eq, Structural, Debug)]
pub struct Controls {
    pub trans: Trans,
    pub rotate: Rotate,
    /// `1` while the object rolls on its own, `0` while the buttons move it.
    pub autorotate: u8,
    /// `1` when Start was held in the previous frame.
    pub tpressed: u8,
}

impl Controls {
    /// The flags are `0` or `1`.
    pub open spec fn wf(self) -> bool {
        self.autorotate <= 1 && self.tpressed <= 1
    }

    /// Whether Start is newly pressed in this frame.
    pub open spec fn start_edge(self, pad: Pad) -> bool {
        pad.is_pressed(Button::Start) && self.tpressed == 0
    }

    /// The starting controls: interactive, object at home.
    pub fn new() -> (r: Controls)
        ensures
            r.wf(),
            r.trans == home_trans(),
            r.rotate == no_rotation(),
            r.autorotate == 0,
            r.tpressed == 0,
    {
        Controls { trans: Trans::home(), rotate: Rotate::zero(), autorotate: 0, tpressed: 0 }
    }

    /// The controls after one frame with `pad`.
    ///
    /// In interactive mode L1/L2 move the object nearer/farther by 4,
    /// R1/R2 roll it by 8, Triangle/Cross move it up/down by 2,
    /// Square/Circle left/right by 4, Up/Down and Left/Right turn it about
    /// y and x by 8 (the first of each pair wins), and Select puts it back
    /// home. In automatic mode it rolls by 8. Then a newly pressed Start
    /// switches the mode and puts the object back home.
    pub open spec fn next(self, pad: Pad) -> Controls {
        let moved = if self.autorotate == 0 {
            if pad.is_pressed(Button::Select) {
                (home_trans(), no_rotation())
            } else {
                (
                    Trans {
                        x: wrap_i16(self.trans.x + axis(pad, Button::Square, Button::Circle, 4)) as i16,
                        y: wrap_i16(self.trans.y + axis(pad, Button::Triangle, Button::Cross, 2)) as i16,
                        z: wrap_i16(self.trans.z + axis(pad, Button::L1, Button::L2, 4)) as i16,
                    },
                    Rotate {
                        x: wrap_i16(self.rotate.x + axis(pad, Button::Left, Button::Right, 8)) as i16,
                        y: wrap_i16(self.rotate.y + axis(pad, Button::Up, Button::Down, 8)) as i16,
                        z: wrap_i16(self.rotate.z + axis(pad, Button::R1, Button::R2, 8)) as i16,
                    },
                )
            }
        } else {
            (self.trans, Rotate { z: wrap_i16(self.rotate.z + 8) as i16, ..self.rotate })
        };
        if self.start_edge(pad) {
            Controls {
                trans: home_trans(),
                rotate: no_rotation(),
                autorotate: (1 - self.autorotate) as u8,
                tpressed: 1,
            }
        } else {
            Controls {
                trans: moved.0,
                rotate: moved.1,
                autorotate: self.autorotate,
                tpressed: if pad.is_pressed(Button::Start) { 1 } else { 0 },
            }
        }
    }

    /// One frame of the controls: see `next`.
    pub fn step(&mut self, pad: Pad)
        requires
            old(self).wf(),
        ensures
            *final(self) == old(self).next(pad),
            final(self).wf(),
    {
        if self.autorotate == 0 {
            self.trans.z = step_axis(self.trans.z, pad, Button::L1, Button::L2, 4);
            self.rotate.z = step_axis(self.rotate.z, pad, Button::R1, Button::R2, 8);
            self.trans.y = step_axis(self.trans.y, pad, Button::Triangle, Button::Cross, 2);
            self.trans.x = step_axis(self.trans.x, pad, Button::Square, Button::Circle, 4);
            self.rotate.y = step_axis(self.rotate.y, pad, Button::Up, Button::Down, 8);
            self.rotate.x = step_axis(self.rotate.x, pad, Button::Left, Button::Right, 8);
            if pad.pressed(Button::Select) {
                self.rotate = Rotate::zero();
                self.trans = Trans::home();
            }
        } else {
            self.rotate.z = self.rotate.z.wrapping_add(8);
        }
        if pad.pressed(Button::Start) {
            if self.tpressed == 0 {
                let a = self.autorotate;
                proof {
                    assert(a <= 1 ==> ((a + 1) as u8) & 1u8 == 1 - a) by (bit_vector);
                }
                self.autorotate = (a + 1) & 1;
                self.rotate = Rotate::zero();
                self.trans = Trans::home();
            }
            self.tpressed = 1;
        } else {
            self.tpressed = 0;
        }
    }
}

/// Holding Start over two frames switches the mode at most once: in the
/// second frame the mode stays.
pub proof fn law_start_held_switches_once(c: Controls, p1: Pad, p2: Pad)
    requires
        c.wf(),
        p1.is_pressed(Button::Start),
        p2.is_pressed(Button::Start),
    ensures
        c.next(p1).next(p2).autorotate == c.next(p1).autorotate,
{
}

/// A newly pressed Start switches the mode and puts the object back home.
pub proof fn law_start_press_switches_mode(c: Controls, pad: Pad)
    requires
        c.wf(),
        pad.is_pressed(Button::Start),
        c.tpressed == 0,
    ensures
        c.next(pad).autorotate == 1 - c.autorotate,
        c.next(pad).trans == home_trans(),
        c.next(pad).rotate == no_rotation(),
{
}

/// In interactive mode Select puts the object back home.
pub proof fn law_select_resets(c: Controls, pad: Pad)
    requires
        c.wf(),
        c.autorotate == 0,
        pad.is_pressed(Button::Select),
    ensures
        c.next(pad).trans == home_trans(),
        c.next(pad).rotate == no_rotation(),
{
}

/// In automatic mode every button but Start is ignored.
pub proof fn law_automatic_ignores_buttons(c: Controls, p1: Pad, p2: Pad)
    requires
        c.wf(),
        c.autorotate == 1,
        !p1.is_pressed(Button::Start),
        !p2.is_pressed(Button::Start),
    ensures
        c.next(p1) == c.next(p2),
        c.next(p1).rotate.z == wrap_i16(c.rotate.z + 8),
{
}

/// Every frame keeps the flags at `0` or `1`.
pub proof fn law_step_keeps_flags(c: Controls, pad: Pad)
    requires
        c.wf(),
    ensures
        c.next(pad).wf(),
{
}

/// In automatic mode, a frame without a new Start press only rolls the
/// object: the translation and the other two angles stay, the roll grows by
/// 8, and the mode stays automatic.
pub proof fn law_automatic_only_rolls(c: Controls, pad: Pad)
    requires
        c.wf(),
        c.autorotate == 1,
        !pad.is_pressed(Button::Start),
    ensures
        c.next(pad).trans == c.trans,
        c.next(pad).rotate.x == c.rotate.x,
        c.next(pad).rotate.y == c.rotate.y,
        c.next(pad).rotate.z == wrap_i16(c.rotate.z + 8),
        c.next(pad).autorotate == 1,
        c.next(pad).tpressed == 0,
{
}

/// In interactive mode (no Select, no new Start press) each button pair
/// moves its own axis: L1 nearer by 4 (winning over L2), L2 farther by 4;
/// R1 rolls by -8 (winning over R2), R2 by 8; Triangle up by 2 (winning over
/// Cross), Cross down by 2; Square left by 4 (winning over Circle), Circle
/// right by 4; Up turns about y by -8 (winning over Down), Down by 8; Left
/// turns about x by -8 (winning over Right), Right by 8. An axis whose
/// buttons are both released stays.
pub proof fn law_interactive_buttons(c: Controls, pad: Pad)
    requires
        c.wf(),
        c.autorotate == 0,
        !pad.is_pressed(Button::Select),
        !c.start_edge(pad),
    ensures
        c.next(pad).autorotate == 0,
        c.next(pad).trans.z == (if pad.is_pressed(Button::L1) {
            wrap_i16(c.trans.z - 4)
        } else if pad.is_pressed(Button::L2) {
            wrap_i16(c.trans.z + 4)
        } else {
            c.trans.z as int
        }),
        c.next(pad).rotate.z == (if pad.is_pressed(Button::R1) {
            wrap_i16(c.rotate.z - 8)
        } else if pad.is_pressed(Button::R2) {
            wrap_i16(c.rotate.z + 8)
        } else {
            c.rotate.z as int
        }),
        c.next(pad).trans.y == (if pad.is_pressed(Button::Triangle) {
            wrap_i16(c.trans.y - 2)
        } else if pad.is_pressed(Button::Cross) {
            wrap_i16(c.trans.y + 2)
        } else {
            c.trans.y as int
        }),
        c.next(pad).trans.x == (if pad.is_pressed(Button::Square) {
            wrap_i16(c.trans.x - 4)
        } else if pad.is_pressed(Button::Circle) {
            wrap_i16(c.trans.x + 4)
        } else {
            c.trans.x as int
        }),
        c.next(pad).rotate.y == (if pad.is_pressed(Button::Up) {
            wrap_i16(c.rotate.y - 8)
        } else if pad.is_pressed(Button::Down) {
            wrap_i16(c.rotate.y + 8)
        } else {
            c.rotate.y as int
        }),
        c.next(pad).rotate.x == (if pad.is_pressed(Button::Left) {
            wrap_i16(c.rotate.x - 8)
        } else if pad.is_pressed(Button::Right) {
            wrap_i16(c.rotate.x + 8)
        } else {
            c.rotate.x as int
        }),
{
    assert(wrap_i16(c.trans.x + 0) == c.trans.x);
    assert(wrap_i16(c.trans.y + 0) == c.trans.y);
    assert(wrap_i16(c.trans.z + 0) == c.trans.z);
    assert(wrap_i16(c.rotate.x + 0) == c.rotate.x);
    assert(wrap_i16(c.rotate.y + 0) == c.rotate.y);
    assert(wrap_i16(c.rotate.z + 0) == c.rotate.z);
}

/// Each axis in interactive mode depends on its own two buttons alone: two
/// frames whose pads agree on those buttons move that axis alike.
pub proof fn law_axes_independent(c: Controls, p1: Pad, p2: Pad)
    requires
        c.wf(),
        c.autorotate == 0,
        !p1.is_pressed(Button::Select),
        !p2.is_pressed(Button::Select),
        !c.start_edge(p1),
        !c.start_edge(p2),
    ensures
        p1.is_pressed(Button::L1) == p2.is_pressed(Button::L1) && p1.is_pressed(Button::L2)
            == p2.is_pressed(Button::L2) ==> c.next(p1).trans.z == c.next(p2).trans.z,
        p1.is_pressed(Button::R1) == p2.is_pressed(Button::R1) && p1.is_pressed(Button::R2)
            == p2.is_pressed(Button::R2) ==> c.next(p1).rotate.z == c.next(p2).rotate.z,
        p1.is_pressed(Button::Triangle) == p2.is_pressed(Button::Triangle) && p1.is_pressed(Button::Cross)
            == p2.is_pressed(Button::Cross) ==> c.next(p1).trans.y == c.next(p2).trans.y,
        p1.is_pressed(Button::Square) == p2.is_pressed(Button::Square) && p1.is_pressed(Button::Circle)
            == p2.is_pressed(Button::Circle) ==> c.next(p1).trans.x == c.next(p2).trans.x,
        p1.is_pressed(Button::Up) == p2.is_pressed(Button::Up) && p1.is_pressed(Button::Down)
            == p2.is_pressed(Button::Down) ==> c.next(p1).rotate.y == c.next(p2).rotate.y,
        p1.is_pressed(Button::Left) == p2.is_pressed(Button::Left) && p1.is_pressed(Button::Right)
            == p2.is_pressed(Button::Right) ==> c.next(p1).rotate.x == c.next(p2).rotate.x,
{
}

/// Every frame remembers whether Start is held, so that the next frame can
/// tell a new press from a held button.
pub proof fn law_start_remembered(c: Controls, pad: Pad)
    requires
        c.wf(),
    ensures
        c.next(pad).tpressed == (if pad.is_pressed(Button::Start) { 1u8 } else { 0u8 }),
        !pad.is_pressed(Button::Start) ==> c.next(pad).autorotate == c.autorotate,
{
}

} // verus!

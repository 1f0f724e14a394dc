//! The state of player one's controller buttons, as read once per frame.

use vstd::prelude::*;

verus! {

/// The buttons of a digital controller, in the order of their bits in the
/// controller's report.
#[derive(Clone, Copy, PartialEq, Eq, Structural, Debug)]
pub enum Button {
    Select,
    L3,
    R3,
    Start,
    Up,
    Right,
    Down,
    Left,
    L2,
    R2,
    L1,
    R1,
    Triangle,
    Circle,
    Cross,
    Square,
}

impl Button {
    /// The bit position of the button in the report.
    pub open spec fn bit_position(self) -> u16 {
        match self {
            Button::Select => 0,
            Button::L3 => 1,
            Button::R3 => 2,
            Button::Start => 3,
            Button::Up => 4,
            Button::Right => 5,
            Button::Down => 6,
            Button::Left => 7,
            Button::L2 => 8,
            Button::R2 => 9,
            Button::L1 => 10,
            Button::R1 => 11,
            Button::Triangle => 12,
            Button::Circle => 13,
            Button::Cross => 14,
            Button::Square => 15,
        }
    }

    /// The bit position of the button in the report.
    pub fn index(self) -> (r: u16)
        ensures
            r == self.bit_position(),
            r < 16,
    {
        match self {
            Button::Select => 0,
            Button::L3 => 1,
            Button::R3 => 2,
            Button::Start => 3,
            Button::Up => 4,
            Button::Right => 5,
            Button::Down => 6,
            Button::Left => 7,
            Button::L2 => 8,
            Button::R2 => 9,
            Button::L1 => 10,
            Button::R1 => 11,
            Button::Triangle => 12,
            Button::Circle => 13,
            Button::Cross => 14,
            Button::Square => 15,
        }
    }
}

/// Whether bit `i` of `held` is set.
pub open spec fn bit_set(held: u16, i: u16) -> bool {
    (held >> i) & 1u16 == 1u16
}

/// The buttons held down when the controller was polled: bit `i` is set when
/// the button with index `i` is held.
#[derive(Clone, Copy, PartialEq, Eq, Structural, Debug)]
pub struct Pad {
    pub held: u16,
}

impl Pad {
    /// Whether `b` is held.
    pub open spec fn is_pressed(self, b: Button) -> bool {
        bit_set(self.held, b.bit_position())
    }

    /// A report in which no button is held.
    pub fn none() -> (r: Pad)
        ensures
            forall|b: Button| !r.is_pressed(b),
    {
        assert forall|i: u16| i < 16 implies !bit_set(0u16, i) by {
            assert((0u16 >> i) & 1u16 == 0u16) by (bit_vector);
        }
        Pad { held: 0 }
    }

    /// The same report with `b` held as well.
    pub fn with(self, b: Button) -> (r: Pad)
        ensures
            forall|c: Button| r.is_pressed(c) == (c == b || self.is_pressed(c)),
    {
        let i = b.index();
        let h = self.held;
        assert forall|c: Button| bit_set(h | (1u16 << i), c.bit_position()) == (c == b || bit_set(h, c.bit_position())) by {
            let j = c.bit_position();
            assert(j < 16);
            assert(((h | (1u16 << i)) >> j) & 1u16 == 1u16 <==> (i == j || (h >> j) & 1u16 == 1u16)) by (bit_vector)
                requires i < 16u16, j < 16u16;
            if c != b {
                assert(i != j);
            }
        }
        Pad { held: h | (1u16 << i) }
    }

    /// Whether `b` is held.
    pub fn pressed(&self, b: Button) -> (r: bool)
        ensures
            r == self.is_pressed(b),
    {
        let i = b.index();
        (self.held >> i) & 1 == 1
    }
}

/// Every button has its own bit among the sixteen of the report, so holding
/// one button says nothing of another.
pub proof fn law_buttons_have_distinct_bits(a: Button, b: Button)
    ensures
        a.bit_position() < 16,
        a != b ==> a.bit_position() != b.bit_position(),
{
}

/// A report with `b` added holds `b`, and holds any other button exactly when
/// the report without it did.
pub proof fn law_with_adds_one_button(p: Pad, b: Button, c: Button)
    ensures
        bit_set((p.held | (1u16 << b.bit_position())) as u16, b.bit_position()),
        c != b ==> bit_set((p.held | (1u16 << b.bit_position())) as u16, c.bit_position()) == p.is_pressed(c),
{
    let h = p.held;
    let i = b.bit_position();
    let j = c.bit_position();
    law_buttons_have_distinct_bits(b, c);
    assert(((h | (1u16 << i)) >> i) & 1u16 == 1u16) by (bit_vector)
        requires i < 16u16;
    assert(((h | (1u16 << i)) >> j) & 1u16 == 1u16 <==> (i == j || (h >> j) & 1u16 == 1u16)) by (bit_vector)
        requires i < 16u16, j < 16u16;
}

} // verus!

//! The BIOS random number generator and the random-number tutorial built on
//! it: a press of Cross shows a new random byte, seeding the generator from a
//! timer on the first press, with a debounce that ignores the controller for
//! a few frames after each handled press.

use vstd::prelude::*;
use crate::pad::{Button, Pad};

verus! {

/// Frames during which the controller is ignored after a handled press.
pub const DEBOUNCE: u8 = 5;

/// The generator state after one step from `x`:
/// `x * 0x41C6_4E6D + 0x3039`, modulo 2^32.
pub open spec fn lcg_next(x: u32) -> u32 {
    ((x as nat * 0x41C6_4E6D + 0x3039) % 0x1_0000_0000) as u32
}

/// The 15-bit number a step to state `x` yields: the low 15 bits of
/// `x / 0x1_0000`.
pub open spec fn lcg_output(x: u32) -> u16 {
    ((x as nat / 0x1_0000) % 0x8000) as u16
}

/// The BIOS random number generator: a linear congruential generator over a
/// 32-bit state.
#[derive(Clone, Copy, PartialEq, Eq, Structural, Debug)]
pub struct Rng {
    pub state: u32,
}

impl Rng {
    /// A generator seeded with `seed`.
    pub fn new(seed: u32) -> (r: Rng)
        ensures
            r.state == seed,
    {
        Rng { state: seed }
    }

    /// Seeds the generator again.
    pub fn reseed(&mut self, seed: u32)
        ensures
            final(self).state == seed,
    {
        self.state = seed;
    }

    /// Advances the state and returns a 15-bit random number.
    pub fn step(&mut self) -> (r: u16)
        ensures
            final(self).state == lcg_next(old(self).state),
            r == lcg_output(final(self).state),
            r < 0x8000,
    {
        let x = self.state.wrapping_mul(0x41C6_4E6D).wrapping_add(0x3039);
        proof {
            assert(x == lcg_next(self.state)) by {
                vstd::arithmetic::div_mod::lemma_add_mod_noop(
                    (self.state as nat * 0x41C6_4E6D) as int,
                    0x3039,
                    0x1_0000_0000,
                );
            }
            assert((x >> 16u32) & 0x7fffu32 == (x / 0x1_0000) % 0x8000) by (bit_vector);
        }
        self.state = x;
        ((x >> 16) & 0x7fff) as u16
    }

    /// A random byte: the low byte of one step's number.
    pub fn rand_u8(&mut self) -> (r: u8)
        ensures
            final(self).state == lcg_next(old(self).state),
            r == lcg_output(final(self).state) % 256,
    {
        let x = self.step();
        (x % 256) as u8
    }
}

/// The state of the random-number tutorial.
#[derive(Clone, Copy, PartialEq, Eq, Structural, Debug)]
pub struct RandomDemo {
    /// Whether the debounce counter and seed are shown.
    pub debug: bool,
    /// Frames left during which the controller is ignored.
    pub debounce: u8,
    /// The last timer value used as a seed; `0` before the first seeding.
    pub time: u32,
    /// The random byte on display.
    pub n: u8,
    pub rng: Rng,
}

impl RandomDemo {
    /// Whether a frame with `pad` reads the timer: Cross before the first
    /// seeding, or Circle (without Cross), when the controller is not ignored.
    pub open spec fn reads_timer(self, pad: Pad) -> bool {
        self.debounce == 0 && if pad.is_pressed(Button::Cross) {
            self.time == 0
        } else {
            pad.is_pressed(Button::Circle)
        }
    }

    /// The state after one frame with `pad`, where `timer` is the timer's
    /// value should the frame read it.
    ///
    /// While the debounce counter runs it counts down and nothing else
    /// happens. Otherwise Cross seeds the generator from the timer if it was
    /// never seeded and then draws a new byte, Circle seeds it from the timer,
    /// Select toggles the debug view; each of these restarts the counter.
    pub open spec fn next(self, pad: Pad, timer: u32) -> RandomDemo {
        if self.debounce != 0 {
            RandomDemo { debounce: (self.debounce - 1) as u8, ..self }
        } else if pad.is_pressed(Button::Cross) {
            let time = if self.time == 0 { timer } else { self.time };
            let seed_state = if self.time == 0 { timer } else { self.rng.state };
            let state = lcg_next(seed_state);
            RandomDemo {
                debounce: DEBOUNCE,
                time: time,
                n: (lcg_output(state) % 256) as u8,
                rng: Rng { state: state },
                ..self
            }
        } else if pad.is_pressed(Button::Circle) {
            RandomDemo { debounce: DEBOUNCE, time: timer, rng: Rng { state: timer }, ..self }
        } else if pad.is_pressed(Button::Select) {
            RandomDemo { debounce: DEBOUNCE, debug: !self.debug, ..self }
        } else {
            self
        }
    }

    /// The tutorial's starting state: generator seeded with `0`, nothing
    /// shown yet.
    pub fn new() -> (r: RandomDemo)
        ensures
            r == (RandomDemo { debug: false, debounce: 0, time: 0, n: 0, rng: Rng { state: 0 } }),
    {
        RandomDemo { debug: false, debounce: 0, time: 0, n: 0, rng: Rng::new(0) }
    }

    /// Whether the next frame with `pad` needs the timer's value.
    pub fn wants_timer(&self, pad: Pad) -> (r: bool)
        ensures
            r == self.reads_timer(pad),
    {
        if self.debounce != 0 {
            false
        } else if pad.pressed(Button::Cross) {
            self.time == 0
        } else {
            pad.pressed(Button::Circle)
        }
    }

    /// One frame of the tutorial: see `next`.
    pub fn step(&mut self, pad: Pad, timer: u32)
        ensures
            *final(self) == old(self).next(pad, timer),
    {
        if self.debounce == 0 {
            if pad.pressed(Button::Cross) {
                if self.time == 0 {
                    self.time = timer;
                    self.rng.reseed(timer);
                }
                self.n = self.rng.rand_u8();
                self.debounce = DEBOUNCE;
            } else if pad.pressed(Button::Circle) {
                self.time = timer;
                self.rng.reseed(timer);
                self.debounce = DEBOUNCE;
            } else if pad.pressed(Button::Select) {
                self.debug = !self.debug;
                self.debounce = DEBOUNCE;
            }
        } else {
            self.debounce = self.debounce - 1;
        }
    }
}

/// Every step yields a number below 2^15.
pub proof fn law_step_is_15_bits(x: u32)
    ensures
        lcg_output(lcg_next(x)) < 0x8000,
{
}

/// Seeding with the same value gives the same byte: the first Cross press
/// after start shows the byte the timer's value determines.
pub proof fn law_first_press_seeds_from_timer(d: RandomDemo, pad: Pad, timer: u32)
    requires
        d.debounce == 0,
        d.time == 0,
        pad.is_pressed(Button::Cross),
    ensures
        d.next(pad, timer).time == timer,
        d.next(pad, timer).rng.state == lcg_next(timer),
        d.next(pad, timer).n == lcg_output(lcg_next(timer)) % 256,
{
}

/// While the debounce counter runs, the controller is ignored and the
/// counter goes down by one.
pub proof fn law_debounce_ignores_pad(d: RandomDemo, p1: Pad, p2: Pad, t1: u32, t2: u32)
    requires
        d.debounce != 0,
    ensures
        d.next(p1, t1) == d.next(p2, t2),
        d.next(p1, t1).debounce == d.debounce - 1,
        d.next(p1, t1).n == d.n,
        d.next(p1, t1).rng == d.rng,
{
}

/// After a handled press the controller is ignored for the next `DEBOUNCE`
/// frames.
pub proof fn law_press_starts_debounce(d: RandomDemo, pad: Pad, timer: u32)
    requires
        d.debounce == 0,
        pad.is_pressed(Button::Cross) || pad.is_pressed(Button::Circle) || pad.is_pressed(
            Button::Select,
        ),
    ensures
        d.next(pad, timer).debounce == DEBOUNCE,
{
}

/// A frame that does not read the timer does not depend on its value.
pub proof fn law_timer_read_only_when_needed(d: RandomDemo, pad: Pad, t1: u32, t2: u32)
    requires
        !d.reads_timer(pad),
    ensures
        d.next(pad, t1) == d.next(pad, t2),
{
}

/// A handled Select press (no Cross, no Circle) flips the debug view and
/// leaves the generator, the seed and the number on display alone.
pub proof fn law_select_flips_debug(d: RandomDemo, pad: Pad, timer: u32)
    requires
        d.debounce == 0,
        !pad.is_pressed(Button::Cross),
        !pad.is_pressed(Button::Circle),
        pad.is_pressed(Button::Select),
    ensures
        d.next(pad, timer).debug == !d.debug,
        d.next(pad, timer).debounce == DEBOUNCE,
        d.next(pad, timer).time == d.time,
        d.next(pad, timer).n == d.n,
        d.next(pad, timer).rng == d.rng,
{
}

/// Only Select changes the debug view.
pub proof fn law_debug_changes_only_by_select(d: RandomDemo, pad: Pad, timer: u32)
    ensures
        d.next(pad, timer).debug != d.debug ==> d.debounce == 0 && pad.is_pressed(Button::Select)
            && !pad.is_pressed(Button::Cross) && !pad.is_pressed(Button::Circle),
{
}

/// A handled Cross press after the first seeding draws the next byte from
/// the running generator: the state advances by one step and the byte shown
/// is the low byte of that step's number; seed and debug view stay.
pub proof fn law_cross_draws_next_byte(d: RandomDemo, pad: Pad, timer: u32)
    requires
        d.debounce == 0,
        d.time != 0,
        pad.is_pressed(Button::Cross),
    ensures
        d.next(pad, timer).rng.state == lcg_next(d.rng.state),
        d.next(pad, timer).n == lcg_output(lcg_next(d.rng.state)) % 256,
        d.next(pad, timer).time == d.time,
        d.next(pad, timer).debug == d.debug,
        d.next(pad, timer).debounce == DEBOUNCE,
{
}

/// A handled Circle press (no Cross) seeds the generator with the timer and
/// keeps the number on display and the debug view.
pub proof fn law_circle_reseeds(d: RandomDemo, pad: Pad, timer: u32)
    requires
        d.debounce == 0,
        !pad.is_pressed(Button::Cross),
        pad.is_pressed(Button::Circle),
    ensures
        d.next(pad, timer).rng.state == timer,
        d.next(pad, timer).time == timer,
        d.next(pad, timer).n == d.n,
        d.next(pad, timer).debug == d.debug,
        d.next(pad, timer).debounce == DEBOUNCE,
{
}

/// Only a handled Cross press changes the number on display.
pub proof fn law_number_changes_only_by_cross(d: RandomDemo, pad: Pad, timer: u32)
    ensures
        d.next(pad, timer).n != d.n ==> d.debounce == 0 && pad.is_pressed(Button::Cross),
{
}

/// A frame with no button held and the counter at zero changes nothing.
pub proof fn law_idle_frame(d: RandomDemo, pad: Pad, timer: u32)
    requires
        d.debounce == 0,
        !pad.is_pressed(Button::Cross),
        !pad.is_pressed(Button::Circle),
        !pad.is_pressed(Button::Select),
    ensures
        d.next(pad, timer) == d,
{
}

/// The generator is the affine map `x ↦ 0x41C6_4E6D·x + 0x3039` modulo 2^32:
/// from 0 it goes to 0x3039, and two states that differ by `k` go to states
/// that differ by `0x41C6_4E6D·k`, modulo 2^32.
pub proof fn law_generator_is_affine(x: u32, y: u32)
    ensures
        lcg_next(0) == 0x3039,
        (lcg_next(x) - lcg_next(y)) % 0x1_0000_0000 == (0x41C6_4E6D * (x - y)) % 0x1_0000_0000,
{
    let m = 0x1_0000_0000int;
    let a = x as int * 0x41C6_4E6D + 0x3039;
    let b = y as int * 0x41C6_4E6D + 0x3039;
    vstd::arithmetic::div_mod::lemma_sub_mod_noop(a, b, m);
    vstd::arithmetic::div_mod::lemma_mod_twice(a - b, m);
    assert(a - b == 0x41C6_4E6D * (x - y)) by (nonlinear_arith)
        requires a == x as int * 0x41C6_4E6D + 0x3039, b == y as int * 0x41C6_4E6D + 0x3039;
    vstd::arithmetic::div_mod::lemma_sub_mod_noop(a % m, b % m, m);
}

/// A step's number is the state's bits 16 to 30.
pub proof fn law_output_is_bits_16_to_30(x: u32)
    ensures
        lcg_output(x) == (x >> 16u32) & 0x7fffu32,
{
    assert((x >> 16u32) & 0x7fffu32 == (x / 0x1_0000) % 0x8000) by (bit_vector);
}

} // verus!

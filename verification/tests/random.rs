use psx_tutorials::pad::{Button, Pad};
use psx_tutorials::rng::{RandomDemo, Rng, DEBOUNCE};

#[test]
fn rng_follows_the_bios_generator() {
    let mut r = Rng::new(1);
    assert_eq!(r.step(), 16838);
    assert_eq!(r.state, 1103527590);
    assert_eq!(r.step(), 5758);
    let mut z = Rng::new(0);
    assert_eq!(z.step(), 0);
    assert_eq!(z.state, 12345);
    assert_eq!(z.rand_u8(), 220);
}

#[test]
fn rng_steps_are_fifteen_bits() {
    for seed in [0u32, 1, 0xdead_beef, u32::MAX] {
        let mut r = Rng::new(seed);
        for _ in 0..100 {
            assert!(r.step() < 0x8000);
        }
    }
}

#[test]
fn reseed_restarts_the_sequence() {
    let mut a = Rng::new(7);
    let x = a.step();
    a.reseed(7);
    assert_eq!(a.step(), x);
}

#[test]
fn first_cross_seeds_from_timer() {
    let mut d = RandomDemo::new();
    let cross = Pad::none().with(Button::Cross);
    assert!(d.wants_timer(cross));
    d.step(cross, 1);
    assert_eq!(d.time, 1);
    assert_eq!(d.n, 198);
    assert_eq!(d.debounce, DEBOUNCE);
}

#[test]
fn debounce_ignores_presses() {
    let mut d = RandomDemo::new();
    let cross = Pad::none().with(Button::Cross);
    d.step(cross, 1);
    let n = d.n;
    for left in (0..5).rev() {
        assert!(!d.wants_timer(cross));
        d.step(cross, 99);
        assert_eq!(d.debounce, left);
        assert_eq!(d.n, n);
    }
    // the next press draws again without reseeding
    assert!(!d.wants_timer(cross));
    d.step(cross, 99);
    assert_eq!(d.time, 1);
    assert_eq!(d.n, (5758u16 % 256) as u8);
}

#[test]
fn circle_reseeds_and_select_toggles_debug() {
    let mut d = RandomDemo::new();
    let circle = Pad::none().with(Button::Circle);
    assert!(d.wants_timer(circle));
    d.step(circle, 42);
    assert_eq!(d.time, 42);
    assert_eq!(d.rng.state, 42);
    assert_eq!(d.debounce, DEBOUNCE);
    let mut e = RandomDemo::new();
    let select = Pad::none().with(Button::Select);
    assert!(!e.wants_timer(select));
    e.step(select, 0);
    assert!(e.debug);
    assert_eq!(e.debounce, DEBOUNCE);
}

#[test]
fn idle_frame_changes_nothing() {
    let mut d = RandomDemo::new();
    let before = d;
    d.step(Pad::none(), 5);
    assert_eq!(d, before);
}

#[test]
fn timer_unused_unless_read() {
    let mut a = RandomDemo::new();
    a.step(Pad::none().with(Button::Cross), 3);
    for _ in 0..5 {
        a.step(Pad::none(), 0);
    }
    let mut b = a;
    let cross = Pad::none().with(Button::Cross);
    assert!(!a.wants_timer(cross));
    a.step(cross, 11);
    b.step(cross, 12345);
    assert_eq!(a, b);
}

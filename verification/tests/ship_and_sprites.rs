use psx_tutorials::fixed::Fixed;
use psx_tutorials::pad::{Button, Pad};
use psx_tutorials::ship::{thrust, wrap_coord, Angle, Ship, X_WRAP, Y_WRAP};
use psx_tutorials::sprite::{move_fixed, move_sprite};

fn pad(buttons: &[Button]) -> Pad {
    let mut p = Pad::none();
    for b in buttons {
        p = p.with(*b);
    }
    p
}

#[test]
fn pad_reports_held_buttons() {
    let p = pad(&[Button::Up, Button::Cross]);
    assert!(p.pressed(Button::Up));
    assert!(p.pressed(Button::Cross));
    assert!(!p.pressed(Button::Down));
    assert!(!Pad::none().pressed(Button::Select));
    assert_eq!(Button::Square.index(), 15);
    assert_eq!(p.held, (1 << 4) | (1 << 14));
}

#[test]
fn wrap_moves_to_other_side() {
    assert_eq!(wrap_coord(Fixed(108 * 256 + 5), 107).0, 5 - 107 * 256);
    assert_eq!(wrap_coord(Fixed(-108 * 256 + 7), 107).0, 7 + 107 * 256);
    assert_eq!(wrap_coord(Fixed(100 * 256), 107).0, 100 * 256);
    assert_eq!(wrap_coord(Fixed(107 * 256 + 255), 107).0, 107 * 256 + 255);
    assert_eq!(wrap_coord(Fixed(-107 * 256), 107).0, -107 * 256);
}

#[test]
fn wrap_keeps_field_and_fraction() {
    for raw in [-32768i16, -27400, -20000, -1, 0, 20000, 27400, 32767] {
        let w = wrap_coord(Fixed(raw), Y_WRAP);
        assert!(-80 <= w.to_int_lossy() && w.to_int_lossy() <= 80);
        assert_eq!(w.fract(), Fixed(raw).fract());
        assert_eq!(wrap_coord(w, Y_WRAP), w);
    }
}

#[test]
fn turning_wraps_around() {
    let mut s = Ship::new();
    s.turn(pad(&[Button::Right]));
    assert_eq!(s.angle, Angle(512));
    s.turn(pad(&[Button::Left]));
    assert_eq!(s.angle, Angle(0));
    s.turn(pad(&[Button::Left]));
    assert_eq!(s.angle, Angle(65024));
    assert_eq!(s.angle.as_signed(), -512);
    s.turn(pad(&[Button::Right, Button::Left]));
    assert_eq!(s.angle, Angle(0));
}

#[test]
fn thrust_forward_and_back() {
    let (vx, vy) = thrust(Fixed(0), Fixed(0), pad(&[Button::Up]), Fixed(100), Fixed(256));
    assert_eq!((vx.0, vy.0), (12, -32));
    let (vx, vy) = thrust(Fixed(0), Fixed(0), pad(&[Button::Down]), Fixed(-100), Fixed(256));
    assert_eq!((vx.0, vy.0), (12, 32));
    let (vx, vy) = thrust(Fixed(5), Fixed(6), Pad::none(), Fixed(100), Fixed(256));
    assert_eq!((vx.0, vy.0), (5, 6));
}

#[test]
fn advance_drifts_and_wraps() {
    let mut s = Ship::new();
    s.advance(pad(&[Button::Up]), Fixed(0), Fixed(256));
    assert_eq!(s.vel_y.0, -32);
    assert_eq!(s.pos_y.0, -32);
    assert_eq!(s.pos_x.0, 0);
    let mut t = Ship::new();
    t.pos_x = Fixed(107 * 256 + 200);
    t.vel_x = Fixed(100);
    t.advance(Pad::none(), Fixed(0), Fixed(256));
    // 107 + 300/256 leaves the field: fraction 44 kept, moved to -107.
    assert_eq!(t.pos_x.0, 44 - 107 * 256);
    assert!(t.pos_x.to_int_lossy() >= -(X_WRAP as i16));
}

#[test]
fn fast_ship_stays_in_field() {
    let mut s = Ship::new();
    s.vel_x = Fixed(i16::MAX);
    s.vel_y = Fixed(i16::MIN);
    for _ in 0..50 {
        s.advance(Pad::none(), Fixed(0), Fixed(256));
        assert!(s.pos_x.to_int_lossy().abs() <= 107);
        assert!(s.pos_y.to_int_lossy().abs() <= 80);
    }
}

#[test]
fn sprite_moves_one_pixel() {
    assert_eq!(move_sprite(48, 48, pad(&[Button::Right, Button::Up])), (49, 47));
    assert_eq!(move_sprite(48, 48, pad(&[Button::Left, Button::Down])), (47, 49));
    assert_eq!(move_sprite(48, 48, pad(&[Button::Right, Button::Left])), (49, 48));
    assert_eq!(move_sprite(48, 48, Pad::none()), (48, 48));
    assert_eq!(move_sprite(i16::MAX, i16::MIN, pad(&[Button::Right, Button::Up])), (i16::MIN, i16::MAX));
}

#[test]
fn right_then_left_returns() {
    let (x, y) = move_sprite(10, 20, pad(&[Button::Right]));
    assert_eq!(move_sprite(x, y, pad(&[Button::Left])), (10, 20));
}

#[test]
fn fixed_sprite_moves_by_one() {
    let (x, y) = move_fixed(Fixed::from_int(127), Fixed::from_int(127), pad(&[Button::Right, Button::Down]));
    assert_eq!(x.0, -32768);
    assert_eq!(y.0, -32768);
    let (x, y) = move_fixed(Fixed::from_int(0), Fixed::from_int(0), pad(&[Button::Left, Button::Up]));
    assert_eq!((x.0, y.0), (-256, -256));
}

use psx_tutorials::fixed::Fixed;
use psx_tutorials::geometry::{
    flip_buffer, fract_digits, player_triangle, project_points, rect_corners, screen_coord,
    sprite_corners, sprite_points, tex_coords, triangle_corners,
};
use psx_tutorials::ship::{H, W};

#[test]
fn quads_in_both_orders() {
    assert_eq!(rect_corners(32, 32, 64, 64), [(32, 32), (96, 32), (32, 96), (96, 96)]);
    assert_eq!(sprite_corners(48, 48, 64, 64), [(48, 48), (48, 112), (112, 48), (112, 112)]);
    assert_eq!(triangle_corners(32, 32, 64, 64), [(32, 32), (96, 32), (32, 96)]);
    let r = rect_corners(1, 2, 3, 4);
    let s = sprite_corners(1, 2, 3, 4);
    assert_eq!((r[0], r[1], r[2], r[3]), (s[0], s[2], s[1], s[3]));
}

#[test]
fn yellow_square_inset() {
    // the blue square sits one pixel inside the yellow one
    let (x, y, w, h) = (1i16, 1i16, 319i16, 255i16);
    assert_eq!(rect_corners(x, y, w, h), [(1, 1), (320, 1), (1, 256), (320, 256)]);
    assert_eq!(rect_corners(x + 1, y + 1, w - 2, h - 2), [(2, 2), (319, 2), (2, 255), (319, 255)]);
}

#[test]
fn texture_coordinates() {
    assert_eq!(tex_coords(0, 48, 64, 64), [(0, 48), (0, 112), (64, 48), (64, 112)]);
    assert_eq!(tex_coords(0, 0, 64, 64), [(0, 0), (0, 64), (64, 0), (64, 64)]);
}

#[test]
fn sprite_points_are_fixed_point() {
    let p = sprite_points(48, 48, 64, 64);
    assert_eq!(p[0], [Fixed(48 * 256), Fixed(48 * 256), Fixed(0)]);
    assert_eq!(p[1], [Fixed(48 * 256), Fixed(112 * 256), Fixed(0)]);
    assert_eq!(p[3], [Fixed(112 * 256), Fixed(112 * 256), Fixed(0)]);
}

#[test]
fn screen_coord_scales_by_three_halves() {
    assert_eq!(screen_coord(Fixed(3 * 256), Fixed(0), 160), 164);
    assert_eq!(screen_coord(Fixed(-3 * 256), Fixed(0), 160), 156);
    assert_eq!(screen_coord(Fixed(0), Fixed(0), 120), 120);
    assert_eq!(screen_coord(Fixed(-1), Fixed(0), 160), 159);
    assert_eq!(screen_coord(Fixed(i16::MAX), Fixed(0), 32577), i16::MAX);
    assert_eq!(screen_coord(Fixed(i16::MIN), Fixed(0), -32576), i16::MIN);
}

#[test]
fn player_triangle_on_screen() {
    let tri = player_triangle();
    let pts = vec![tri[0], tri[1], tri[2]];
    let s = project_points(&pts, Fixed(0), Fixed(0), W / 2, H / 2);
    assert_eq!(s, vec![(160, 105), (167, 135), (153, 135)]);
    let moved = project_points(&pts, Fixed::from_int(10), Fixed::from_int(-4), W / 2, H / 2);
    assert_eq!(moved[0], (175, 99));
}

#[test]
fn hud_fraction_digits() {
    assert_eq!(fract_digits(Fixed(0x80)), 4992);
    assert_eq!(fract_digits(Fixed(-1)), 9945);
    assert_eq!(fract_digits(Fixed(0x0100)), 0);
}

#[test]
fn buffers_alternate() {
    assert_eq!(flip_buffer(0), 1);
    assert_eq!(flip_buffer(1), 0);
    assert_eq!(flip_buffer(flip_buffer(0)), 0);
}

use psx_tutorials::fixed::Fixed;
use psx_tutorials::rotation::{rotate_all, rotate_z};

#[test]
fn from_int_scales_by_256() {
    assert_eq!(Fixed::from_int(-10).0, -2560);
    assert_eq!(Fixed::from_int(127).0, 32512);
    assert_eq!(Fixed::from_int(-128).0, -32768);
    assert_eq!(Fixed::one().0, 256);
    assert_eq!(Fixed::zero().0, 0);
}

#[test]
fn to_int_lossy_rounds_down() {
    assert_eq!(Fixed(-2560).to_int_lossy(), -10);
    assert_eq!(Fixed(-1).to_int_lossy(), -1);
    assert_eq!(Fixed(255).to_int_lossy(), 0);
    assert_eq!(Fixed(i16::MAX).to_int_lossy(), 127);
    assert_eq!(Fixed(i16::MIN).to_int_lossy(), -128);
}

#[test]
fn fract_keeps_low_byte() {
    assert_eq!(Fixed(-1).fract().0, 255);
    assert_eq!(Fixed(0x1234).fract().0, 0x34);
    assert_eq!(Fixed(-256).fract().0, 0);
}

#[test]
fn int_and_fract_split_the_value() {
    for raw in [-32768i16, -257, -1, 0, 1, 300, 32767] {
        let x = Fixed(raw);
        assert_eq!(x.to_int_lossy() as i32 * 256 + x.fract().0 as i32, raw as i32);
    }
}

#[test]
fn from_int_round_trip() {
    for n in [-128i8, -1, 0, 1, 107, 127] {
        assert_eq!(Fixed::from_int(n).to_int_lossy(), n as i16);
        assert_eq!(Fixed::from_int(n).fract().0, 0);
    }
}

#[test]
fn plus_and_minus_wrap() {
    assert_eq!(Fixed(32767).plus(Fixed(1)).0, -32768);
    assert_eq!(Fixed(-32768).minus(Fixed(1)).0, 32767);
    assert_eq!(Fixed(300).plus(Fixed(-44)).0, 256);
    let x = Fixed(32000);
    let y = Fixed(1000);
    assert_eq!(x.plus(y).minus(y), x);
}

#[test]
fn div_by_rounds_toward_zero() {
    assert_eq!(Fixed(256).div_by(8).0, 32);
    assert_eq!(Fixed(-9).div_by(8).0, -1);
    assert_eq!(Fixed(9).div_by(-8).0, -1);
    assert_eq!(Fixed(-256).div_by(8).0, -32);
    assert_eq!(Fixed(-32768).div_by(-1).0, -32768);
}

#[test]
fn times_keeps_eight_fraction_bits() {
    assert_eq!(Fixed(512).times(Fixed(384)).0, 768);
    assert_eq!(Fixed(-1).times(Fixed(1)).0, -1);
    assert_eq!(Fixed(-256).times(Fixed(-1)).0, 1);
    assert_eq!(Fixed(i16::MIN).times(Fixed(i16::MIN)).0, 0);
}

#[test]
fn rotate_quarter_turn() {
    let p = [Fixed::from_int(10), Fixed::from_int(0), Fixed::from_int(3)];
    let r = rotate_z(p, Fixed(256), Fixed(0));
    assert_eq!(r, [Fixed(0), Fixed(2560), Fixed(768)]);
}

#[test]
fn zero_rotation_is_identity() {
    let p = [Fixed(-1234), Fixed(77), Fixed(5)];
    assert_eq!(rotate_z(p, Fixed(0), Fixed(256)), p);
}

#[test]
fn rotate_all_rotates_each_point() {
    let pts = vec![
        [Fixed::from_int(1), Fixed::from_int(0), Fixed(0)],
        [Fixed::from_int(0), Fixed::from_int(1), Fixed(0)],
    ];
    let r = rotate_all(&pts, Fixed(256), Fixed(0));
    assert_eq!(r.len(), 2);
    assert_eq!(r[0], [Fixed(0), Fixed(256), Fixed(0)]);
    assert_eq!(r[1], [Fixed(-256), Fixed(0), Fixed(0)]);
}

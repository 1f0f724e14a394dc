use psx_tutorials::gte::{
    assemble_triangles, average_depth, pack_pair, rot_matrix, rotation_words, vertex_words, Trig, ONE,
};
use psx_tutorials::pad::{Button, Pad};
use psx_tutorials::primdraw::{Controls, Rotate, Trans, CENTERX, CENTERY};

fn pad(buttons: &[Button]) -> Pad {
    let mut p = Pad::none();
    for b in buttons {
        p = p.with(*b);
    }
    p
}

#[test]
fn interactive_buttons_move_object() {
    let mut c = Controls::new();
    assert_eq!(c.trans, Trans { x: CENTERX, y: CENTERY, z: 0 });
    c.step(pad(&[Button::L1, Button::R2, Button::Triangle, Button::Circle, Button::Up, Button::Right]));
    assert_eq!(c.trans, Trans { x: 324, y: 118, z: -4 });
    assert_eq!(c.rotate, Rotate { x: 8, y: -8, z: 8 });
    c.step(pad(&[Button::L1, Button::L2, Button::Square, Button::Cross, Button::Down, Button::Left, Button::R1]));
    assert_eq!(c.trans, Trans { x: 320, y: 120, z: -8 });
    assert_eq!(c.rotate, Rotate { x: 0, y: 0, z: 0 });
}

#[test]
fn select_resets() {
    let mut c = Controls::new();
    c.step(pad(&[Button::L2, Button::R1]));
    c.step(pad(&[Button::Select, Button::L2]));
    assert_eq!(c.trans, Trans::home());
    assert_eq!(c.rotate, Rotate::zero());
}

#[test]
fn start_switches_once_per_press() {
    let mut c = Controls::new();
    c.step(pad(&[Button::L2]));
    c.step(pad(&[Button::Start]));
    assert_eq!(c.autorotate, 1);
    assert_eq!(c.tpressed, 1);
    assert_eq!(c.trans, Trans::home());
    c.step(pad(&[Button::Start]));
    assert_eq!(c.autorotate, 1);
    assert_eq!(c.rotate.z, 8);
    c.step(Pad::none());
    assert_eq!(c.tpressed, 0);
    assert_eq!(c.rotate.z, 16);
    c.step(pad(&[Button::Start]));
    assert_eq!(c.autorotate, 0);
    assert_eq!(c.rotate, Rotate::zero());
}

#[test]
fn automatic_mode_ignores_buttons() {
    let mut a = Controls::new();
    a.step(pad(&[Button::Start]));
    let mut b = a;
    a.step(pad(&[Button::L1, Button::Select, Button::Up]));
    b.step(Pad::none());
    assert_eq!(a, b);
    assert_eq!(a.rotate.z, 8);
    assert_eq!(a.trans, Trans::home());
}

#[test]
fn roll_wraps() {
    let mut c = Controls::new();
    c.rotate.z = i16::MAX - 3;
    c.step(pad(&[Button::R2]));
    assert_eq!(c.rotate.z, i16::MIN + 4);
}

const NO_TURN: Trig = Trig { sin: 0, cos: 4096 };

#[test]
fn zero_rotation_gives_identity() {
    let mut m = [[7, 7, 7], [7, 7, 7], [7, 7, 7]];
    rot_matrix(NO_TURN, NO_TURN, NO_TURN, &mut m);
    assert_eq!(m, [[ONE, 0, 0], [0, ONE, 0], [0, 0, ONE]]);
}

#[test]
fn single_axis_rotations() {
    let quarter = Trig { sin: 4096, cos: 0 };
    let mut m = [[7, 7, 7], [7, 7, 7], [7, 7, 7]];
    rot_matrix(NO_TURN, NO_TURN, quarter, &mut m);
    assert_eq!(m, [[0, -4096, 0], [4096, 0, 0], [0, 0, 4096]]);
    rot_matrix(quarter, NO_TURN, NO_TURN, &mut m);
    assert_eq!(m, [[4096, 0, 0], [0, 0, -4096], [0, 4096, 0]]);
    let thirty = Trig { sin: 2048, cos: 3547 };
    rot_matrix(NO_TURN, thirty, NO_TURN, &mut m);
    assert_eq!(m, [[3547, 0, 2048], [0, 4096, 0], [-2048, 0, 3547]]);
}

#[test]
fn opposite_roll_transposes() {
    let z = Trig { sin: 1000, cos: 3972 };
    let back = Trig { sin: -1000, cos: 3972 };
    let mut a = [[0; 3]; 3];
    let mut b = [[1; 3]; 3];
    rot_matrix(NO_TURN, NO_TURN, z, &mut a);
    rot_matrix(NO_TURN, NO_TURN, back, &mut b);
    for i in 0..3 {
        for j in 0..3 {
            assert_eq!(a[i][j], b[j][i]);
        }
    }
}

#[test]
fn composed_rotation() {
    let mut m = [[0; 3]; 3];
    rot_matrix(
        Trig { sin: 2048, cos: 3547 },
        Trig { sin: 2048, cos: 3547 },
        Trig { sin: 1000, cos: 3972 },
        &mut m,
    );
    assert_eq!(m, [[3439, -865, 2048], [1858, 3189, -1773], [-1219, 2418, 3071]]);
}

#[test]
fn rotation_register_words() {
    let id = [[ONE, 0, 0], [0, ONE, 0], [0, 0, ONE]];
    assert_eq!(rotation_words(id), ([4096, 0, 4096, 0], 4096));
    assert_eq!(pack_pair(ONE, 1), 0x0001_1000);
    assert_eq!(pack_pair(-1, 0), 0x0000_ffff);
    assert_eq!(pack_pair(0, -1), 0xffff_0000);
    assert_eq!(pack_pair(0x0123, 0x7fff), 0x7fff_0123);
    let m = [[1, 2, 3], [4, 5, 6], [7, 8, 9]];
    assert_eq!(rotation_words(m), ([0x0002_0001, 0x0004_0003, 0x0006_0005, 0x0008_0007], 9));
    let half_turn = [[-4096, 0, 0], [0, 0, -4096], [0, -4096, 0]];
    assert_eq!(rotation_words(half_turn), ([0x0000_f000, 0, 0xf000_0000, 0xf000_0000], 0));
}

#[test]
fn rotation_words_read_back() {
    let m = [[-4096, 17, -3], [0, -1, 32767], [-32768, 5, -9]];
    let (w, rt33) = rotation_words(m);
    let half = |x: u32, hi: bool| (if hi { x >> 16 } else { x & 0xffff }) as u16 as i16;
    assert_eq!((half(w[0], false), half(w[0], true)), (m[0][0], m[0][1]));
    assert_eq!((half(w[1], false), half(w[1], true)), (m[0][2], m[1][0]));
    assert_eq!((half(w[2], false), half(w[2], true)), (m[1][1], m[1][2]));
    assert_eq!((half(w[3], false), half(w[3], true)), (m[2][0], m[2][1]));
    assert_eq!(rt33, m[2][2]);
}

#[test]
fn vertex_register_words() {
    assert_eq!(vertex_words((50, 50, 10)), (0x0032_0032, 10));
    assert_eq!(vertex_words((-1, 5, 10)), (0x0005_ffff, 10));
    assert_eq!(vertex_words((7, -2, 0)), (0xfffe_0007, 0));
}

#[test]
fn depth_average() {
    assert_eq!(average_depth(3, 4, 5), 4);
    assert_eq!(average_depth(-3, -4, -4), -3);
    assert_eq!(average_depth(i32::MAX, 1, 0), -715827882);
}

#[test]
fn triangles_from_projected_vertices() {
    let screen = vec![(1, 2), (3, 4), (5, 6), (7, 8), (9, 10), (11, 12)];
    let depth = vec![3, 3, 3, 10, 20, 31];
    let t = assemble_triangles(&screen, &depth);
    assert_eq!(t.len(), 2);
    assert_eq!(t[0].vertices, [(1, 2), (3, 4), (5, 6)]);
    assert_eq!(t[0].depth, 3);
    assert_eq!(t[1].vertices, [(7, 8), (9, 10), (11, 12)]);
    assert_eq!(t[1].depth, 20);
    assert!(assemble_triangles(&vec![], &vec![]).is_empty());
}

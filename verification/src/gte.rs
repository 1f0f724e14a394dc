//! The values the 3D tutorial hands to the geometry transformation engine
//! (GTE): the rotation matrix built from the object's Euler angles, the register
//! words it is packed into, the vertex words, and the triangles assembled
//! from the projected vertices with their average depth.

use vstd::prelude::*;

verus! {

/// 1.0 in the GTE's 4.12 fixed-point format.
pub const ONE: i16 = 4096;

/// `x` wrapped into the range of `i32`, as two's complement arithmetic does.
pub open spec fn wrap_i32(x: int) -> int {
    (x + 0x8000_0000) % 0x1_0000_0000 - 0x8000_0000
}

/// The sine and cosine of one rotation angle in the GTE's 4.12 format.
#[derive(Clone, Copy, PartialEq, Eq, Structural, Debug)]
pub struct Trig {
    pub sin: i16,
    pub cos: i16,
}

impl Trig {
    /// Both values lie in `-1.0..=1.0`.
    pub open spec fn wf(self) -> bool {
        -4096 <= self.sin <= 4096 && -4096 <= self.cos <= 4096
    }
}

/// The 4.12 fixed-point product of `a` and `b`, rounded toward negative
/// infinity.
pub open spec fn fx_mul(a: int, b: int) -> int {
    (a * b) / 4096
}

/// Entry `(i, j)` of the rotation matrix for the Euler angles whose sines and
/// cosines are `x`, `y` and `z`: the product `Rx · Ry · Rz` of the rotations
/// about the three axes (a vector is rolled about z first, then turned about
/// y, then about x), each product in 4.12 fixed point.
pub open spec fn rot_entry(x: Trig, y: Trig, z: Trig, i: int, j: int) -> int {
    let (sx, cx, sy, cy, sz, cz) = (x.sin as int, x.cos as int, y.sin as int, y.cos as int, z.sin as int, z.cos as int);
    if i == 0 {
        if j == 0 { fx_mul(cy, cz) } else if j == 1 { -fx_mul(cy, sz) } else { sy }
    } else if i == 1 {
        if j == 0 {
            fx_mul(cx, sz) + fx_mul(fx_mul(sx, sy), cz)
        } else if j == 1 {
            fx_mul(cx, cz) - fx_mul(fx_mul(sx, sy), sz)
        } else {
            -fx_mul(sx, cy)
        }
    } else {
        if j == 0 {
            fx_mul(sx, sz) - fx_mul(fx_mul(cx, sy), cz)
        } else if j == 1 {
            fx_mul(sx, cz) + fx_mul(fx_mul(cx, sy), sz)
        } else {
            fx_mul(cx, cy)
        }
    }
}

/// The 4.12 product of two values in `-1.0..=1.0`.
fn mul12(a: i32, b: i32) -> (r: i32)
    requires
        -4096 <= a <= 4096,
        -4096 <= b <= 4096,
    ensures
        r == fx_mul(a as int, b as int),
        -4096 <= r <= 4096,
{
    proof {
        assert(-16777216 <= a * b <= 16777216) by (nonlinear_arith)
            requires -4096 <= a <= 4096, -4096 <= b <= 4096;
    }
    let c = a * b;
    proof {
        assert(c >> 12u32 == c / 4096) by (bit_vector);
    }
    c >> 12
}

/// Converts the Euler rotation whose angles have the sines and cosines `x`,
/// `y` and `z` into the fixed-point rotation matrix `Rx · Ry · Rz`, writing
/// all nine entries.
pub fn rot_matrix(x: Trig, y: Trig, z: Trig, matrix: &mut [[i16; 3]; 3])
    requires
        x.wf(),
        y.wf(),
        z.wf(),
    ensures
        forall|i: int, j: int| 0 <= i < 3 && 0 <= j < 3 ==> #[trigger] final(matrix)[i][j] == rot_entry(x, y, z, i, j),
{
    let (sx, cx) = (x.sin as i32, x.cos as i32);
    let (sy, cy) = (y.sin as i32, y.cos as i32);
    let (sz, cz) = (z.sin as i32, z.cos as i32);
    let sxsy = mul12(sx, sy);
    let cxsy = mul12(cx, sy);
    let m00 = mul12(cy, cz);
    let m01 = -mul12(cy, sz);
    let m02 = sy;
    let m10 = mul12(cx, sz) + mul12(sxsy, cz);
    let m11 = mul12(cx, cz) - mul12(sxsy, sz);
    let m12 = -mul12(sx, cy);
    let m20 = mul12(sx, sz) - mul12(cxsy, cz);
    let m21 = mul12(sx, cz) + mul12(cxsy, sz);
    let m22 = mul12(cx, cy);
    *matrix = [
        [m00 as i16, m01 as i16, m02 as i16],
        [m10 as i16, m11 as i16, m12 as i16],
        [m20 as i16, m21 as i16, m22 as i16],
    ];
}

/// The sine and cosine of the zero angle.
pub open spec fn no_turn() -> Trig {
    Trig { sin: 0, cos: 4096 }
}

/// Multiplying by 0 gives 0 and multiplying by 1.0 changes nothing.
proof fn lemma_fx_mul_units(a: int)
    ensures
        fx_mul(0, a) == 0,
        fx_mul(a, 0) == 0,
        fx_mul(4096, a) == a,
        fx_mul(a, 4096) == a,
{
    assert(0 * a == 0);
    assert(a * 0 == 0);
    assert(4096 * a == a * 4096);
}

/// No rotation gives the 4.12 identity matrix.
pub proof fn law_zero_rotation_is_identity(i: int, j: int)
    requires
        0 <= i < 3,
        0 <= j < 3,
    ensures
        rot_entry(no_turn(), no_turn(), no_turn(), i, j) == (if i == j { 4096int } else { 0int }),
{
    lemma_fx_mul_units(0);
    lemma_fx_mul_units(4096);
}

/// A pure roll about z: `[c, -s, 0; s, c, 0; 0, 0, 1]`.
pub proof fn law_pure_roll(z: Trig)
    requires
        z.wf(),
    ensures
        rot_entry(no_turn(), no_turn(), z, 0, 0) == z.cos,
        rot_entry(no_turn(), no_turn(), z, 0, 1) == -z.sin,
        rot_entry(no_turn(), no_turn(), z, 0, 2) == 0,
        rot_entry(no_turn(), no_turn(), z, 1, 0) == z.sin,
        rot_entry(no_turn(), no_turn(), z, 1, 1) == z.cos,
        rot_entry(no_turn(), no_turn(), z, 1, 2) == 0,
        rot_entry(no_turn(), no_turn(), z, 2, 0) == 0,
        rot_entry(no_turn(), no_turn(), z, 2, 1) == 0,
        rot_entry(no_turn(), no_turn(), z, 2, 2) == 4096,
{
    lemma_fx_mul_units(z.sin as int);
    lemma_fx_mul_units(z.cos as int);
    lemma_fx_mul_units(0);
    lemma_fx_mul_units(4096);
}

/// A pure pitch about x: `[1, 0, 0; 0, c, -s; 0, s, c]`.
pub proof fn law_pure_pitch(x: Trig)
    requires
        x.wf(),
    ensures
        rot_entry(x, no_turn(), no_turn(), 0, 0) == 4096,
        rot_entry(x, no_turn(), no_turn(), 0, 1) == 0,
        rot_entry(x, no_turn(), no_turn(), 0, 2) == 0,
        rot_entry(x, no_turn(), no_turn(), 1, 0) == 0,
        rot_entry(x, no_turn(), no_turn(), 1, 1) == x.cos,
        rot_entry(x, no_turn(), no_turn(), 1, 2) == -x.sin,
        rot_entry(x, no_turn(), no_turn(), 2, 0) == 0,
        rot_entry(x, no_turn(), no_turn(), 2, 1) == x.sin,
        rot_entry(x, no_turn(), no_turn(), 2, 2) == x.cos,
{
    lemma_fx_mul_units(x.sin as int);
    lemma_fx_mul_units(x.cos as int);
    lemma_fx_mul_units(0);
    lemma_fx_mul_units(4096);
}

/// A pure yaw about y: `[c, 0, s; 0, 1, 0; -s, 0, c]`.
pub proof fn law_pure_yaw(y: Trig)
    requires
        y.wf(),
    ensures
        rot_entry(no_turn(), y, no_turn(), 0, 0) == y.cos,
        rot_entry(no_turn(), y, no_turn(), 0, 1) == 0,
        rot_entry(no_turn(), y, no_turn(), 0, 2) == y.sin,
        rot_entry(no_turn(), y, no_turn(), 1, 0) == 0,
        rot_entry(no_turn(), y, no_turn(), 1, 1) == 4096,
        rot_entry(no_turn(), y, no_turn(), 1, 2) == 0,
        rot_entry(no_turn(), y, no_turn(), 2, 0) == -y.sin,
        rot_entry(no_turn(), y, no_turn(), 2, 1) == 0,
        rot_entry(no_turn(), y, no_turn(), 2, 2) == y.cos,
{
    lemma_fx_mul_units(y.sin as int);
    lemma_fx_mul_units(y.cos as int);
    lemma_fx_mul_units(0);
    lemma_fx_mul_units(4096);
}

/// Rolling by the opposite angle (sine negated, cosine kept) gives the
/// transposed, that is the inverse, matrix.
pub proof fn law_opposite_roll_is_transpose(z: Trig, i: int, j: int)
    requires
        z.wf(),
        0 <= i < 3,
        0 <= j < 3,
    ensures
        rot_entry(no_turn(), no_turn(), Trig { sin: (-z.sin) as i16, cos: z.cos }, i, j)
            == rot_entry(no_turn(), no_turn(), z, j, i),
{
    law_pure_roll(z);
    law_pure_roll(Trig { sin: (-z.sin) as i16, cos: z.cos });
}

/// Every entry of the matrix of sines and cosines in `-1.0..=1.0` fits in
/// `-2.0..=2.0`; the entries of a rotation about a single axis are those
/// sines and cosines, 0 or 1.0, so they stay in `-1.0..=1.0`.
pub proof fn law_entries_bounded(x: Trig, y: Trig, z: Trig, i: int, j: int)
    requires
        x.wf(),
        y.wf(),
        z.wf(),
        0 <= i < 3,
        0 <= j < 3,
    ensures
        -8192 <= rot_entry(x, y, z, i, j) <= 8192,
{
    let (sx, cx, sy, cy, sz, cz) = (x.sin as int, x.cos as int, y.sin as int, y.cos as int, z.sin as int, z.cos as int);
    assert forall|a: int, b: int| -4096 <= a <= 4096 && -4096 <= b <= 4096 implies -4096 <= #[trigger] fx_mul(a, b) <= 4096 by {
        assert(-16777216 <= a * b <= 16777216) by (nonlinear_arith)
            requires -4096 <= a <= 4096, -4096 <= b <= 4096;
    }
    assert(-4096 <= fx_mul(sx, sy) <= 4096);
    assert(-4096 <= fx_mul(cx, sy) <= 4096);
}

/// A 32-bit GTE register word holding `lo` in its low 16 bits and `hi` in
/// its high 16 bits.
pub open spec fn pair_word(lo: i16, hi: i16) -> u32 {
    ((lo as u16) as u32) | (((hi as u16) as u32) << 16u32)
}

/// The value in the low 16 bits of a register word.
pub open spec fn low_half(w: u32) -> i16 {
    ((w & 0xffff) as u16) as i16
}

/// The value in the high 16 bits of a register word.
pub open spec fn high_half(w: u32) -> i16 {
    ((w >> 16u32) as u16) as i16
}

/// Each half of a packed word reads back as the value put there.
pub proof fn law_pair_word_reads_back(lo: i16, hi: i16)
    ensures
        low_half(pair_word(lo, hi)) == lo,
        high_half(pair_word(lo, hi)) == hi,
{
    assert(((((lo as u16) as u32) | (((hi as u16) as u32) << 16u32)) & 0xffff) as u16 as i16 == lo) by (bit_vector);
    assert((((((lo as u16) as u32) | (((hi as u16) as u32) << 16u32)) >> 16u32) as u16) as i16 == hi) by (bit_vector);
}

/// Packs two 16-bit values into one register word, `lo` in the low half and
/// `hi` in the high half.
pub fn pack_pair(lo: i16, hi: i16) -> (r: u32)
    ensures
        r == pair_word(lo, hi),
        low_half(r) == lo,
        high_half(r) == hi,
{
    proof {
        law_pair_word_reads_back(lo, hi);
    }
    ((lo as u16) as u32) | (((hi as u16) as u32) << 16)
}

/// The values of the five rotation registers for `matrix`: `RT11_12`,
/// `RT13_21`, `RT22_23` and `RT31_32` as words holding two entries each, in
/// row order, and `RT33`.
pub fn rotation_words(matrix: [[i16; 3]; 3]) -> (r: ([u32; 4], i16))
    ensures
        r.0[0] == pair_word(matrix[0][0], matrix[0][1]),
        r.0[1] == pair_word(matrix[0][2], matrix[1][0]),
        r.0[2] == pair_word(matrix[1][1], matrix[1][2]),
        r.0[3] == pair_word(matrix[2][0], matrix[2][1]),
        r.1 == matrix[2][2],
{
    let v1 = pack_pair(matrix[0][0], matrix[0][1]);
    let v2 = pack_pair(matrix[0][2], matrix[1][0]);
    let v3 = pack_pair(matrix[1][1], matrix[1][2]);
    let v4 = pack_pair(matrix[2][0], matrix[2][1]);
    ([v1, v2, v3, v4], matrix[2][2])
}

/// The matrix read back from the rotation registers' values is the matrix
/// they were made from.
pub proof fn law_rotation_words_read_back(matrix: [[i16; 3]; 3], words: [u32; 4], rt33: i16)
    requires
        words[0] == pair_word(matrix[0][0], matrix[0][1]),
        words[1] == pair_word(matrix[0][2], matrix[1][0]),
        words[2] == pair_word(matrix[1][1], matrix[1][2]),
        words[3] == pair_word(matrix[2][0], matrix[2][1]),
        rt33 == matrix[2][2],
    ensures
        low_half(words[0]) == matrix[0][0] && high_half(words[0]) == matrix[0][1],
        low_half(words[1]) == matrix[0][2] && high_half(words[1]) == matrix[1][0],
        low_half(words[2]) == matrix[1][1] && high_half(words[2]) == matrix[1][2],
        low_half(words[3]) == matrix[2][0] && high_half(words[3]) == matrix[2][1],
        rt33 == matrix[2][2],
{
    law_pair_word_reads_back(matrix[0][0], matrix[0][1]);
    law_pair_word_reads_back(matrix[0][2], matrix[1][0]);
    law_pair_word_reads_back(matrix[1][1], matrix[1][2]);
    law_pair_word_reads_back(matrix[2][0], matrix[2][1]);
}

/// The values of the vertex registers `VXY0` (x in the low half, y in the
/// high half) and `VZ0` for the vertex `(x, y, z)`.
pub fn vertex_words(v: (i16, i16, i16)) -> (r: (u32, i16))
    ensures
        r.0 == pair_word(v.0, v.1),
        low_half(r.0) == v.0,
        high_half(r.0) == v.1,
        r.1 == v.2,
{
    (pack_pair(v.0, v.1), v.2)
}

/// The average depth of a triangle: the sum of its vertices' depths, wrapping
/// around on overflow, divided by three and rounded toward zero.
pub fn average_depth(z0: i32, z1: i32, z2: i32) -> (r: i32)
    ensures
        r == crate::fixed::div_trunc(wrap_i32(wrap_i32(z0 + z1) + z2), 3),
{
    let s = z0.wrapping_add(z1).wrapping_add(z2);
    s / 3
}

/// A triangle on screen with its depth.
#[derive(Clone, Copy, Debug)]
pub struct ScreenTriangle {
    pub vertices: [(i16, i16); 3],
    pub depth: i32,
}

/// Groups the projected vertices of a mesh into its triangles, three
/// consecutive vertices each, with their average depth.
pub fn assemble_triangles(screen: &Vec<(i16, i16)>, depth: &Vec<i32>) -> (r: Vec<ScreenTriangle>)
    requires
        screen.len() == depth.len(),
        screen.len() % 3 == 0,
    ensures
        r.len() == screen.len() / 3,
        forall|k: int| 0 <= k < r.len() ==> {
            &&& (#[trigger] r[k]).vertices@ == seq![screen[3 * k], screen[3 * k + 1], screen[3 * k + 2]]
            &&& r[k].depth == crate::fixed::div_trunc(
                wrap_i32(wrap_i32(depth[3 * k] + depth[3 * k + 1]) + depth[3 * k + 2]),
                3,
            )
        },
{
    let mut out: Vec<ScreenTriangle> = Vec::new();
    let n = screen.len() / 3;
    let mut k: usize = 0;
    while k < n
        invariant
            n == screen.len() / 3,
            screen.len() == depth.len(),
            screen.len() % 3 == 0,
            k <= n,
            out.len() == k,
            forall|j: int| 0 <= j < k ==> {
                &&& (#[trigger] out[j]).vertices@ == seq![screen[3 * j], screen[3 * j + 1], screen[3 * j + 2]]
                &&& out[j].depth == crate::fixed::div_trunc(
                    wrap_i32(wrap_i32(depth[3 * j] + depth[3 * j + 1]) + depth[3 * j + 2]),
                    3,
                )
            },
        decreases n - k,
    {
        let i = 3 * k;
        let t = ScreenTriangle {
            vertices: [screen[i], screen[i + 1], screen[i + 2]],
            depth: average_depth(depth[i], depth[i + 1], depth[i + 2]),
        };
        out.push(t);
        k = k + 1;
    }
    out
}

} // verus!

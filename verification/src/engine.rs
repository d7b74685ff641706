//! Rotating-cube projection pipeline: fixed-point 3-vectors and 4x4 matrices,
//! incremental Z/X rotation, translation along the view axis, back-face
//! culling by the exact sign of a triple product, and perspective projection
//! to screen coordinates.
//!
//! Coordinates and matrix entries are fixed-point with `FP_ONE` units per
//! whole unit; screen sizes are given in the same scale.
use vstd::arithmetic::div_mod::{lemma_div_basics, lemma_div_pos_is_pos};
use vstd::prelude::*;

use crate::fixed::{
    div_trunc_i128,
    div_trunc_i64,
    lemma_div_trunc_exact,
    lemma_div_trunc_le,
    lemma_mul_abs_bound,
    spec_abs,
    spec_div_trunc,
    FP_ONE,
};

verus! {

/// Largest vertex coordinate magnitude the pipeline accepts.
pub const VTX_LIMIT: i64 = 16_777_216;
/// Largest matrix entry magnitude the pipeline accepts.
pub const MAT_LIMIT: i64 = 1_048_576;
/// Largest coordinate magnitude the visibility test accepts.
pub const CULL_LIMIT: i64 = 134_217_728;
/// Largest half-screen extent the projection accepts, in fixed-point units.
pub const HALF_SCREEN_LIMIT: i64 = 67_108_864;
/// Largest column value the row-vector product can reach before the
/// homogeneous divide.
pub const MV_COL_LIMIT: i64 = 806_354_944;
/// Largest coordinate magnitude a transformed vertex can reach.
pub const MV_OUT_LIMIT: i64 = 52_845_588_774_912;

/// A point or vector in fixed-point model space.
#[derive(Clone, Copy, PartialEq, Eq, Structural, Debug)]
pub struct Vec3 {
    pub x: i64,
    pub y: i64,
    pub z: i64,
}

/// A point in fixed-point screen space.
#[derive(Clone, Copy, PartialEq, Eq, Structural, Debug)]
pub struct Point2 {
    pub x: i64,
    pub y: i64,
}

/// A 4x4 fixed-point matrix; `mRC` is the entry in row `R`, column `C`, and
/// vectors multiply as rows, picking up row three as a translation.
#[derive(Clone, Copy, PartialEq, Eq, Structural, Debug)]
pub struct Mat4 {
    pub m00: i64,
    pub m01: i64,
    pub m02: i64,
    pub m03: i64,
    pub m10: i64,
    pub m11: i64,
    pub m12: i64,
    pub m13: i64,
    pub m20: i64,
    pub m21: i64,
    pub m22: i64,
    pub m23: i64,
    pub m30: i64,
    pub m31: i64,
    pub m32: i64,
    pub m33: i64,
}

/// A triangle in model space, three vertices.
#[derive(Clone, Copy, PartialEq, Eq, Structural, Debug)]
pub struct Triangle {
    pub p0: Vec3,
    pub p1: Vec3,
    pub p2: Vec3,
}

impl Default for Triangle {
    /// The placeholder triangle the pipeline starts scratch vertices from:
    /// vertices at the origin, at one unit on each axis, and at two units on
    /// each axis.
    fn default() -> (t: Triangle)
        ensures
            t.p0 == (Vec3 { x: 0, y: 0, z: 0 }),
            t.p1 == (Vec3 { x: FP_ONE, y: FP_ONE, z: FP_ONE }),
            t.p2.x == 2 * FP_ONE && t.p2.y == 2 * FP_ONE && t.p2.z == 2 * FP_ONE,
    {
        Triangle {
            p0: Vec3 { x: 0, y: 0, z: 0 },
            p1: Vec3 { x: FP_ONE, y: FP_ONE, z: FP_ONE },
            p2: Vec3 { x: 2 * FP_ONE, y: 2 * FP_ONE, z: 2 * FP_ONE },
        }
    }
}

/// A triangle projected to screen space.
#[derive(Clone, Copy, PartialEq, Eq, Structural, Debug)]
pub struct ScreenTriangle {
    pub a: Point2,
    pub b: Point2,
    pub c: Point2,
}

/// The four-point closed outline of a projected triangle, as handed to the
/// mesh builder.
#[derive(Clone, Copy, PartialEq, Eq, Structural, Debug)]
pub struct Outline {
    pub p0: Point2,
    pub p1: Point2,
    pub p2: Point2,
    pub p3: Point2,
}

/// Every coordinate of `v` has magnitude at most `b`.
pub open spec fn spec_vec_bounded(v: Vec3, b: int) -> bool {
    &&& spec_abs(v.x as int) <= b
    &&& spec_abs(v.y as int) <= b
    &&& spec_abs(v.z as int) <= b
}

/// Every coordinate of every vertex of `t` has magnitude at most `b`.
pub open spec fn spec_tri_bounded(t: Triangle, b: int) -> bool {
    &&& spec_vec_bounded(t.p0, b)
    &&& spec_vec_bounded(t.p1, b)
    &&& spec_vec_bounded(t.p2, b)
}

/// Every entry of `m` has magnitude at most `b`.
pub open spec fn spec_mat_bounded(m: Mat4, b: int) -> bool {
    &&& spec_abs(m.m00 as int) <= b && spec_abs(m.m01 as int) <= b && spec_abs(m.m02 as int) <= b
        && spec_abs(m.m03 as int) <= b
    &&& spec_abs(m.m10 as int) <= b && spec_abs(m.m11 as int) <= b && spec_abs(m.m12 as int) <= b
        && spec_abs(m.m13 as int) <= b
    &&& spec_abs(m.m20 as int) <= b && spec_abs(m.m21 as int) <= b && spec_abs(m.m22 as int) <= b
        && spec_abs(m.m23 as int) <= b
    &&& spec_abs(m.m30 as int) <= b && spec_abs(m.m31 as int) <= b && spec_abs(m.m32 as int) <= b
        && spec_abs(m.m33 as int) <= b
}

/// `m` has the shape of a pure rotation: a 3x3 block of entries within one
/// unit, no translation row, and a unit homogeneous column.
pub open spec fn spec_rotation_shaped(m: Mat4) -> bool {
    &&& spec_abs(m.m00 as int) <= FP_ONE && spec_abs(m.m01 as int) <= FP_ONE && spec_abs(
        m.m02 as int,
    ) <= FP_ONE
    &&& spec_abs(m.m10 as int) <= FP_ONE && spec_abs(m.m11 as int) <= FP_ONE && spec_abs(
        m.m12 as int,
    ) <= FP_ONE
    &&& spec_abs(m.m20 as int) <= FP_ONE && spec_abs(m.m21 as int) <= FP_ONE && spec_abs(
        m.m22 as int,
    ) <= FP_ONE
    &&& m.m30 == 0 && m.m31 == 0 && m.m32 == 0
    &&& m.m03 == 0 && m.m13 == 0 && m.m23 == 0
    &&& m.m33 == FP_ONE
}

/// One column of the row-vector product: the three products are summed,
/// rescaled by the fixed-point unit, and the translation entry is added.
pub open spec fn spec_mv_col(x: int, y: int, z: int, a: int, b: int, c: int, d: int) -> int {
    spec_div_trunc(x * a + y * b + z * c, FP_ONE as int) + d
}

/// The homogeneous component of the product.
pub open spec fn spec_mv_w(x: int, y: int, z: int, m: Mat4) -> int {
    spec_mv_col(x, y, z, m.m03 as int, m.m13 as int, m.m23 as int, m.m33 as int)
}

/// The first component of the full product, including the homogeneous divide
/// that is skipped when the homogeneous component is zero.
pub open spec fn spec_mat_vec_x(x: int, y: int, z: int, m: Mat4) -> int {
    let t = spec_mv_col(x, y, z, m.m00 as int, m.m10 as int, m.m20 as int, m.m30 as int);
    let w = spec_mv_w(x, y, z, m);
    if w != 0 {
        spec_div_trunc(t * FP_ONE, w)
    } else {
        t
    }
}

/// The second component of the full product.
pub open spec fn spec_mat_vec_y(x: int, y: int, z: int, m: Mat4) -> int {
    let t = spec_mv_col(x, y, z, m.m01 as int, m.m11 as int, m.m21 as int, m.m31 as int);
    let w = spec_mv_w(x, y, z, m);
    if w != 0 {
        spec_div_trunc(t * FP_ONE, w)
    } else {
        t
    }
}

/// The third component of the full product.
pub open spec fn spec_mat_vec_z(x: int, y: int, z: int, m: Mat4) -> int {
    let t = spec_mv_col(x, y, z, m.m02 as int, m.m12 as int, m.m22 as int, m.m32 as int);
    let w = spec_mv_w(x, y, z, m);
    if w != 0 {
        spec_div_trunc(t * FP_ONE, w)
    } else {
        t
    }
}

/// One column of the product: sums the three scaled products and adds the
/// translation entry.
fn mv_col(x: i64, y: i64, z: i64, a: i64, b: i64, c: i64, d: i64) -> (r: i64)
    requires
        spec_abs(x as int) <= VTX_LIMIT,
        spec_abs(y as int) <= VTX_LIMIT,
        spec_abs(z as int) <= VTX_LIMIT,
        spec_abs(a as int) <= MAT_LIMIT,
        spec_abs(b as int) <= MAT_LIMIT,
        spec_abs(c as int) <= MAT_LIMIT,
        spec_abs(d as int) <= MAT_LIMIT,
    ensures
        r == spec_mv_col(x as int, y as int, z as int, a as int, b as int, c as int, d as int),
        spec_abs(r as int) <= MV_COL_LIMIT,
{
    proof {
        lemma_mul_abs_bound(x as int, a as int, VTX_LIMIT as int, MAT_LIMIT as int);
        lemma_mul_abs_bound(y as int, b as int, VTX_LIMIT as int, MAT_LIMIT as int);
        lemma_mul_abs_bound(z as int, c as int, VTX_LIMIT as int, MAT_LIMIT as int);
        lemma_div_trunc_le(
            x as int * a as int + y as int * b as int + z as int * c as int,
            FP_ONE as int,
            805_306_368,
        );
    }
    let s: i64 = x * a + y * b + z * c;
    let q: i64 = div_trunc_i64(s, FP_ONE);
    q + d
}

/// Multiplies the row vector `i` (with an implicit fourth component of one)
/// by `m`, dividing through by the homogeneous component when that component
/// is not zero. For a rotation-shaped matrix the result is exactly the 3x3
/// product, and no larger in magnitude than the sum of the input magnitudes.
pub fn multiply_matrix_vector(i: &Vec3, m: &Mat4) -> (o: Vec3)
    requires
        spec_vec_bounded(*i, VTX_LIMIT as int),
        spec_mat_bounded(*m, MAT_LIMIT as int),
    ensures
        o.x == spec_mat_vec_x(i.x as int, i.y as int, i.z as int, *m),
        o.y == spec_mat_vec_y(i.x as int, i.y as int, i.z as int, *m),
        o.z == spec_mat_vec_z(i.x as int, i.y as int, i.z as int, *m),
        spec_vec_bounded(o, MV_OUT_LIMIT as int),
        spec_rotation_shaped(*m) ==> spec_vec_bounded(
            o,
            spec_abs(i.x as int) + spec_abs(i.y as int) + spec_abs(i.z as int),
        ),
{
    let tx: i64 = mv_col(i.x, i.y, i.z, m.m00, m.m10, m.m20, m.m30);
    let ty: i64 = mv_col(i.x, i.y, i.z, m.m01, m.m11, m.m21, m.m31);
    let tz: i64 = mv_col(i.x, i.y, i.z, m.m02, m.m12, m.m22, m.m32);
    let w: i64 = mv_col(i.x, i.y, i.z, m.m03, m.m13, m.m23, m.m33);
    proof {
        if spec_rotation_shaped(*m) {
            let k: int = spec_abs(i.x as int) + spec_abs(i.y as int) + spec_abs(i.z as int);
            lemma_mul_abs_bound(i.x as int, m.m00 as int, spec_abs(i.x as int), FP_ONE as int);
            lemma_mul_abs_bound(i.y as int, m.m10 as int, spec_abs(i.y as int), FP_ONE as int);
            lemma_mul_abs_bound(i.z as int, m.m20 as int, spec_abs(i.z as int), FP_ONE as int);
            lemma_mul_abs_bound(i.x as int, m.m01 as int, spec_abs(i.x as int), FP_ONE as int);
            lemma_mul_abs_bound(i.y as int, m.m11 as int, spec_abs(i.y as int), FP_ONE as int);
            lemma_mul_abs_bound(i.z as int, m.m21 as int, spec_abs(i.z as int), FP_ONE as int);
            lemma_mul_abs_bound(i.x as int, m.m02 as int, spec_abs(i.x as int), FP_ONE as int);
            lemma_mul_abs_bound(i.y as int, m.m12 as int, spec_abs(i.y as int), FP_ONE as int);
            lemma_mul_abs_bound(i.z as int, m.m22 as int, spec_abs(i.z as int), FP_ONE as int);
            assert((spec_abs(i.x as int) + spec_abs(i.y as int) + spec_abs(i.z as int)) * FP_ONE
                == spec_abs(i.x as int) * FP_ONE + spec_abs(i.y as int) * FP_ONE + spec_abs(
                i.z as int,
            ) * FP_ONE) by (nonlinear_arith);
            lemma_div_trunc_le(
                i.x as int * m.m00 as int + i.y as int * m.m10 as int + i.z as int * m.m20 as int,
                FP_ONE as int,
                k,
            );
            lemma_div_trunc_le(
                i.x as int * m.m01 as int + i.y as int * m.m11 as int + i.z as int * m.m21 as int,
                FP_ONE as int,
                k,
            );
            lemma_div_trunc_le(
                i.x as int * m.m02 as int + i.y as int * m.m12 as int + i.z as int * m.m22 as int,
                FP_ONE as int,
                k,
            );
            lemma_div_basics(FP_ONE as int);
            assert(i.x as int * m.m03 as int == 0) by (nonlinear_arith)
                requires
                    m.m03 == 0,
            ;
            assert(i.y as int * m.m13 as int == 0) by (nonlinear_arith)
                requires
                    m.m13 == 0,
            ;
            assert(i.z as int * m.m23 as int == 0) by (nonlinear_arith)
                requires
                    m.m23 == 0,
            ;
            assert(w == FP_ONE);
            lemma_div_trunc_exact(tx as int, FP_ONE as int);
            lemma_div_trunc_exact(ty as int, FP_ONE as int);
            lemma_div_trunc_exact(tz as int, FP_ONE as int);
        }
    }
    if w != 0 {
        let ox: i64 = div_trunc_i64(tx * FP_ONE, w);
        let oy: i64 = div_trunc_i64(ty * FP_ONE, w);
        let oz: i64 = div_trunc_i64(tz * FP_ONE, w);
        Vec3 { x: ox, y: oy, z: oz }
    } else {
        Vec3 { x: tx, y: ty, z: tz }
    }
}

/// The Z-axis rotation matrix for an angle whose sine and cosine are the
/// fixed-point values `s` and `c`.
pub fn rotation_z(s: i64, c: i64) -> (m: Mat4)
    requires
        -FP_ONE <= s <= FP_ONE,
        -FP_ONE <= c <= FP_ONE,
    ensures
        m.m00 == c && m.m01 == s && m.m02 == 0 && m.m03 == 0,
        m.m10 == -s && m.m11 == c && m.m12 == 0 && m.m13 == 0,
        m.m20 == 0 && m.m21 == 0 && m.m22 == FP_ONE && m.m23 == 0,
        m.m30 == 0 && m.m31 == 0 && m.m32 == 0 && m.m33 == FP_ONE,
        spec_rotation_shaped(m),
{
    Mat4 {
        m00: c,
        m01: s,
        m02: 0,
        m03: 0,
        m10: -s,
        m11: c,
        m12: 0,
        m13: 0,
        m20: 0,
        m21: 0,
        m22: FP_ONE,
        m23: 0,
        m30: 0,
        m31: 0,
        m32: 0,
        m33: FP_ONE,
    }
}

/// The X-axis rotation matrix for an angle whose sine and cosine are the
/// fixed-point values `s` and `c`.
pub fn rotation_x(s: i64, c: i64) -> (m: Mat4)
    requires
        -FP_ONE <= s <= FP_ONE,
        -FP_ONE <= c <= FP_ONE,
    ensures
        m.m00 == FP_ONE && m.m01 == 0 && m.m02 == 0 && m.m03 == 0,
        m.m10 == 0 && m.m11 == c && m.m12 == s && m.m13 == 0,
        m.m20 == 0 && m.m21 == -s && m.m22 == c && m.m23 == 0,
        m.m30 == 0 && m.m31 == 0 && m.m32 == 0 && m.m33 == FP_ONE,
        spec_rotation_shaped(m),
{
    Mat4 {
        m00: FP_ONE,
        m01: 0,
        m02: 0,
        m03: 0,
        m10: 0,
        m11: c,
        m12: s,
        m13: 0,
        m20: 0,
        m21: -s,
        m22: c,
        m23: 0,
        m30: 0,
        m31: 0,
        m32: 0,
        m33: FP_ONE,
    }
}

/// The dot product of two 3-vectors given componentwise.
pub open spec fn spec_dot3(ax: int, ay: int, az: int, bx: int, by: int, bz: int) -> int {
    ax * bx + ay * by + az * bz
}

/// The determinant of a 3x3 matrix given row by row.
pub open spec fn spec_det3(
    a00: int,
    a01: int,
    a02: int,
    a10: int,
    a11: int,
    a12: int,
    a20: int,
    a21: int,
    a22: int,
) -> int {
    a00 * (a11 * a22 - a12 * a21) - a01 * (a10 * a22 - a12 * a20) + a02 * (a10 * a21 - a11 * a20)
}

/// Law: whenever the sine and cosine values satisfy the scaled Pythagorean
/// identity, the 3x3 block of the Z-rotation matrix has orthonormal rows and
/// determinant one, all in fixed-point scale: each row dotted with itself
/// gives the square of the unit, distinct rows are orthogonal, and the
/// determinant is the cube of the unit.
pub proof fn lemma_rotation_z_valid(m: Mat4, s: int, c: int)
    requires
        s * s + c * c == FP_ONE * FP_ONE,
        m.m00 == c && m.m01 == s && m.m02 == 0,
        m.m10 == -s && m.m11 == c && m.m12 == 0,
        m.m20 == 0 && m.m21 == 0 && m.m22 == FP_ONE,
    ensures
        spec_dot3(m.m00 as int, m.m01 as int, m.m02 as int, m.m00 as int, m.m01 as int, m.m02 as int)
            == FP_ONE * FP_ONE,
        spec_dot3(m.m10 as int, m.m11 as int, m.m12 as int, m.m10 as int, m.m11 as int, m.m12 as int)
            == FP_ONE * FP_ONE,
        spec_dot3(m.m20 as int, m.m21 as int, m.m22 as int, m.m20 as int, m.m21 as int, m.m22 as int)
            == FP_ONE * FP_ONE,
        spec_dot3(m.m00 as int, m.m01 as int, m.m02 as int, m.m10 as int, m.m11 as int, m.m12 as int)
            == 0,
        spec_dot3(m.m00 as int, m.m01 as int, m.m02 as int, m.m20 as int, m.m21 as int, m.m22 as int)
            == 0,
        spec_dot3(m.m10 as int, m.m11 as int, m.m12 as int, m.m20 as int, m.m21 as int, m.m22 as int)
            == 0,
        spec_det3(
            m.m00 as int,
            m.m01 as int,
            m.m02 as int,
            m.m10 as int,
            m.m11 as int,
            m.m12 as int,
            m.m20 as int,
            m.m21 as int,
            m.m22 as int,
        ) == FP_ONE * FP_ONE * FP_ONE,
{
    assert(c * c + s * s == FP_ONE * FP_ONE) by (nonlinear_arith)
        requires
            s * s + c * c == FP_ONE * FP_ONE,
    ;
    assert((-s) * (-s) + c * c == FP_ONE * FP_ONE) by (nonlinear_arith)
        requires
            s * s + c * c == FP_ONE * FP_ONE,
    ;
    assert(c * (-s) + s * c == 0) by (nonlinear_arith);
    assert(spec_det3(
        c,
        s,
        0,
        -s,
        c,
        0,
        0,
        0,
        FP_ONE as int,
    ) == FP_ONE * FP_ONE * FP_ONE) by (nonlinear_arith)
        requires
            s * s + c * c == FP_ONE * FP_ONE,
    ;
}

/// Law: the X-rotation matrix is likewise orthonormal with determinant one in
/// fixed-point scale, for any sine and cosine values satisfying the scaled
/// Pythagorean identity.
pub proof fn lemma_rotation_x_valid(m: Mat4, s: int, c: int)
    requires
        s * s + c * c == FP_ONE * FP_ONE,
        m.m00 == FP_ONE && m.m01 == 0 && m.m02 == 0,
        m.m10 == 0 && m.m11 == c && m.m12 == s,
        m.m20 == 0 && m.m21 == -s && m.m22 == c,
    ensures
        spec_dot3(m.m00 as int, m.m01 as int, m.m02 as int, m.m00 as int, m.m01 as int, m.m02 as int)
            == FP_ONE * FP_ONE,
        spec_dot3(m.m10 as int, m.m11 as int, m.m12 as int, m.m10 as int, m.m11 as int, m.m12 as int)
            == FP_ONE * FP_ONE,
        spec_dot3(m.m20 as int, m.m21 as int, m.m22 as int, m.m20 as int, m.m21 as int, m.m22 as int)
            == FP_ONE * FP_ONE,
        spec_dot3(m.m00 as int, m.m01 as int, m.m02 as int, m.m10 as int, m.m11 as int, m.m12 as int)
            == 0,
        spec_dot3(m.m00 as int, m.m01 as int, m.m02 as int, m.m20 as int, m.m21 as int, m.m22 as int)
            == 0,
        spec_dot3(m.m10 as int, m.m11 as int, m.m12 as int, m.m20 as int, m.m21 as int, m.m22 as int)
            == 0,
        spec_det3(
            m.m00 as int,
            m.m01 as int,
            m.m02 as int,
            m.m10 as int,
            m.m11 as int,
            m.m12 as int,
            m.m20 as int,
            m.m21 as int,
            m.m22 as int,
        ) == FP_ONE * FP_ONE * FP_ONE,
{
    assert(c * c + s * s == FP_ONE * FP_ONE) by (nonlinear_arith)
        requires
            s * s + c * c == FP_ONE * FP_ONE,
    ;
    assert((-s) * (-s) + c * c == FP_ONE * FP_ONE) by (nonlinear_arith)
        requires
            s * s + c * c == FP_ONE * FP_ONE,
    ;
    assert(c * (-s) + s * c == 0) by (nonlinear_arith);
    assert(spec_det3(
        FP_ONE as int,
        0,
        0,
        0,
        c,
        s,
        0,
        -s,
        c,
    ) == FP_ONE * FP_ONE * FP_ONE) by (nonlinear_arith)
        requires
            s * s + c * c == FP_ONE * FP_ONE,
    ;
}

/// Whether the triangle `(p0, p1, p2)` faces the camera at `cam`: the dot
/// product of the edge cross product with the camera-to-vertex vector is
/// negative. The original pipeline normalises the cross product first, but a
/// positive scaling never changes the sign, and a degenerate triangle (zero
/// cross product) is culled either way.
pub open spec fn spec_visible_pts(
    p0: (int, int, int),
    p1: (int, int, int),
    p2: (int, int, int),
    cam: Vec3,
) -> bool {
    let l1x: int = p1.0 - p0.0;
    let l1y: int = p1.1 - p0.1;
    let l1z: int = p1.2 - p0.2;
    let l2x: int = p2.0 - p0.0;
    let l2y: int = p2.1 - p0.1;
    let l2z: int = p2.2 - p0.2;
    let nx: int = l1y * l2z - l1z * l2y;
    let ny: int = l1z * l2x - l1x * l2z;
    let nz: int = l1x * l2y - l1y * l2x;
    nx * (p0.0 - cam.x) + ny * (p0.1 - cam.y) + nz * (p0.2 - cam.z) < 0
}

/// Decides visibility of a triangle against the camera by the exact sign of
/// the triple product, computed in wide integers.
pub fn triangle_visible(t: &Triangle, camera: &Vec3) -> (r: bool)
    requires
        spec_tri_bounded(*t, CULL_LIMIT as int),
        spec_vec_bounded(*camera, CULL_LIMIT as int),
    ensures
        r == spec_visible_pts(
            (t.p0.x as int, t.p0.y as int, t.p0.z as int),
            (t.p1.x as int, t.p1.y as int, t.p1.z as int),
            (t.p2.x as int, t.p2.y as int, t.p2.z as int),
            *camera,
        ),
{
    let l1x: i128 = t.p1.x as i128 - t.p0.x as i128;
    let l1y: i128 = t.p1.y as i128 - t.p0.y as i128;
    let l1z: i128 = t.p1.z as i128 - t.p0.z as i128;
    let l2x: i128 = t.p2.x as i128 - t.p0.x as i128;
    let l2y: i128 = t.p2.y as i128 - t.p0.y as i128;
    let l2z: i128 = t.p2.z as i128 - t.p0.z as i128;
    proof {
        lemma_mul_abs_bound(l1y as int, l2z as int, 268_435_456, 268_435_456);
        lemma_mul_abs_bound(l1z as int, l2y as int, 268_435_456, 268_435_456);
        lemma_mul_abs_bound(l1z as int, l2x as int, 268_435_456, 268_435_456);
        lemma_mul_abs_bound(l1x as int, l2z as int, 268_435_456, 268_435_456);
        lemma_mul_abs_bound(l1x as int, l2y as int, 268_435_456, 268_435_456);
        lemma_mul_abs_bound(l1y as int, l2x as int, 268_435_456, 268_435_456);
    }
    let nx: i128 = l1y * l2z - l1z * l2y;
    let ny: i128 = l1z * l2x - l1x * l2z;
    let nz: i128 = l1x * l2y - l1y * l2x;
    let dx: i128 = t.p0.x as i128 - camera.x as i128;
    let dy: i128 = t.p0.y as i128 - camera.y as i128;
    let dz: i128 = t.p0.z as i128 - camera.z as i128;
    proof {
        lemma_mul_abs_bound(nx as int, dx as int, 0x2000_0000_0000_0000, 268_435_456);
        lemma_mul_abs_bound(ny as int, dy as int, 0x2000_0000_0000_0000, 268_435_456);
        lemma_mul_abs_bound(nz as int, dz as int, 0x2000_0000_0000_0000, 268_435_456);
    }
    let d: i128 = nx * dx + ny * dy + nz * dz;
    d < 0
}

/// The horizontal screen coordinate of a projected point: the matrix product,
/// remapped from the unit square to the screen by `(x + 1) * half_width` in
/// fixed point.
pub open spec fn spec_project_x(x: int, y: int, z: int, m: Mat4, half_w: int) -> int {
    let px: int = spec_mat_vec_x(x, y, z, m);
    spec_div_trunc((px + FP_ONE) * half_w, FP_ONE as int)
}

/// The vertical screen coordinate of a projected point.
pub open spec fn spec_project_y(x: int, y: int, z: int, m: Mat4, half_h: int) -> int {
    let py: int = spec_mat_vec_y(x, y, z, m);
    spec_div_trunc((py + FP_ONE) * half_h, FP_ONE as int)
}

/// Projects one vertex with the projection matrix and scales the result to
/// screen coordinates.
pub fn project_to_screen(v: &Vec3, m: &Mat4, half_w: i64, half_h: i64) -> (p: Point2)
    requires
        spec_vec_bounded(*v, VTX_LIMIT as int),
        spec_mat_bounded(*m, MAT_LIMIT as int),
        0 <= half_w <= HALF_SCREEN_LIMIT,
        0 <= half_h <= HALF_SCREEN_LIMIT,
    ensures
        p.x == spec_project_x(v.x as int, v.y as int, v.z as int, *m, half_w as int),
        p.y == spec_project_y(v.x as int, v.y as int, v.z as int, *m, half_h as int),
{
    let t = multiply_matrix_vector(v, m);
    proof {
        lemma_mul_abs_bound(
            t.x as int + FP_ONE as int,
            half_w as int,
            MV_OUT_LIMIT as int + FP_ONE as int,
            HALF_SCREEN_LIMIT as int,
        );
        lemma_mul_abs_bound(
            t.y as int + FP_ONE as int,
            half_h as int,
            MV_OUT_LIMIT as int + FP_ONE as int,
            HALF_SCREEN_LIMIT as int,
        );
        lemma_div_trunc_le(
            (t.x as int + FP_ONE as int) * half_w as int,
            FP_ONE as int,
            100_000_000_000_000_000,
        );
        lemma_div_trunc_le(
            (t.y as int + FP_ONE as int) * half_h as int,
            FP_ONE as int,
            100_000_000_000_000_000,
        );
    }
    let nx: i128 = (t.x as i128 + FP_ONE as i128) * (half_w as i128);
    let ny: i128 = (t.y as i128 + FP_ONE as i128) * (half_h as i128);
    let sx: i128 = div_trunc_i128(nx, FP_ONE as i128);
    let sy: i128 = div_trunc_i128(ny, FP_ONE as i128);
    Point2 { x: sx as i64, y: sy as i64 }
}

/// The closed four-point outline of a projected triangle: the three vertices
/// followed by the first vertex again.
pub fn triangle_to_points(t: &ScreenTriangle) -> (o: Outline)
    ensures
        o.p0 == t.a,
        o.p1 == t.b,
        o.p2 == t.c,
        o.p3 == t.a,
{
    Outline { p0: t.a, p1: t.b, p2: t.c, p3: t.a }
}

/// Largest model-space coordinate magnitude the cube state accepts in its
/// mesh.
pub const MESH_LIMIT: i64 = 1_048_576;
/// Fixed translation along the view axis applied after rotation: two units.
pub const TRANSLATE_Z: i64 = 131_072;
/// Angle advance per unpaused frame, about a fiftieth of a radian in
/// fixed point.
pub const THETA_INC: i64 = 1311;
/// Near clipping plane of the fixed projection: a tenth of a unit.
pub const NEAR_PLANE: i64 = 6554;
/// Far clipping plane of the fixed projection: a thousand units.
pub const FAR_PLANE: i64 = 65_536_000;

/// `m` is the Z-rotation matrix with sine `s` and cosine `c`.
pub open spec fn spec_is_rot_z(m: Mat4, s: int, c: int) -> bool {
    &&& m.m00 == c && m.m01 == s && m.m02 == 0 && m.m03 == 0
    &&& m.m10 == -s && m.m11 == c && m.m12 == 0 && m.m13 == 0
    &&& m.m20 == 0 && m.m21 == 0 && m.m22 == FP_ONE && m.m23 == 0
    &&& m.m30 == 0 && m.m31 == 0 && m.m32 == 0 && m.m33 == FP_ONE
}

/// `m` is the X-rotation matrix with sine `s` and cosine `c`.
pub open spec fn spec_is_rot_x(m: Mat4, s: int, c: int) -> bool {
    &&& m.m00 == FP_ONE && m.m01 == 0 && m.m02 == 0 && m.m03 == 0
    &&& m.m10 == 0 && m.m11 == c && m.m12 == s && m.m13 == 0
    &&& m.m20 == 0 && m.m21 == -s && m.m22 == c && m.m23 == 0
    &&& m.m30 == 0 && m.m31 == 0 && m.m32 == 0 && m.m33 == FP_ONE
}

/// `m` is the perspective projection matrix built from the given aspect
/// ratio, field-of-view factor and clipping planes, all in fixed point.
pub open spec fn spec_is_projection(m: Mat4, aspect: int, fov: int, near: int, far: int) -> bool {
    &&& m.m00 == spec_div_trunc(aspect * fov, FP_ONE as int)
    &&& m.m11 == fov
    &&& m.m22 == spec_div_trunc(far * FP_ONE, far - near)
    &&& m.m32 == spec_div_trunc(-(far * near), far - near)
    &&& m.m23 == FP_ONE
    &&& m.m01 == 0 && m.m02 == 0 && m.m03 == 0
    &&& m.m10 == 0 && m.m12 == 0 && m.m13 == 0
    &&& m.m20 == 0 && m.m21 == 0
    &&& m.m30 == 0 && m.m31 == 0 && m.m33 == 0
}

/// Builds the perspective projection matrix from the aspect ratio, the
/// field-of-view factor (the reciprocal tangent of half the field of view),
/// and the near and far clipping planes.
pub fn projection_matrix(aspect: i64, fov_rad: i64, near: i64, far: i64) -> (m: Mat4)
    requires
        0 <= aspect <= 4 * FP_ONE,
        0 <= fov_rad <= 4 * FP_ONE,
        0 <= near <= 262_144,
        2 * near <= far,
        FP_ONE <= far <= 67_108_864,
    ensures
        spec_is_projection(m, aspect as int, fov_rad as int, near as int, far as int),
        spec_mat_bounded(m, MAT_LIMIT as int),
{
    proof {
        lemma_mul_abs_bound(aspect as int, fov_rad as int, 4 * FP_ONE as int, 4 * FP_ONE as int);
        lemma_div_trunc_le(aspect as int * fov_rad as int, FP_ONE as int, MAT_LIMIT as int);
        lemma_div_trunc_le(far as int * FP_ONE, far as int - near as int, 2 * FP_ONE as int);
        lemma_mul_abs_bound(far as int, near as int, 67_108_864, 262_144);
        assert(far as int * near as int <= (2 * near as int) * (far as int - near as int))
            by (nonlinear_arith)
            requires
                2 * near <= far,
                0 <= near,
        ;
        lemma_div_trunc_le(
            -(far as int * near as int),
            far as int - near as int,
            2 * near as int,
        );
    }
    let m00: i64 = div_trunc_i64(aspect * fov_rad, FP_ONE);
    let m22: i64 = div_trunc_i64(far * FP_ONE, far - near);
    let m32: i64 = div_trunc_i64(-(far * near), far - near);
    Mat4 {
        m00,
        m01: 0,
        m02: 0,
        m03: 0,
        m10: 0,
        m11: fov_rad,
        m12: 0,
        m13: 0,
        m20: 0,
        m21: 0,
        m22,
        m23: FP_ONE,
        m30: 0,
        m31: 0,
        m32,
        m33: 0,
    }
}

/// A vertex taken through both rotations.
pub open spec fn spec_rotated3(x: int, y: int, z: int, m: Mat4) -> (int, int, int) {
    (spec_mat_vec_x(x, y, z, m), spec_mat_vec_y(x, y, z, m), spec_mat_vec_z(x, y, z, m))
}

/// A vertex rotated about Z, then about X, then pushed `TRANSLATE_Z` along
/// the view axis.
pub open spec fn spec_translated_pt(p: Vec3, mz: Mat4, mx: Mat4) -> (int, int, int) {
    let a = spec_rotated3(p.x as int, p.y as int, p.z as int, mz);
    let b = spec_rotated3(a.0, a.1, a.2, mx);
    (b.0, b.1, b.2 + TRANSLATE_Z)
}

/// Whether the rotated and translated image of `t` faces the camera.
#[verifier::opaque]
pub open spec fn spec_tri_visible(t: Triangle, mz: Mat4, mx: Mat4, cam: Vec3) -> bool {
    spec_visible_pts(
        spec_translated_pt(t.p0, mz, mx),
        spec_translated_pt(t.p1, mz, mx),
        spec_translated_pt(t.p2, mz, mx),
        cam,
    )
}

/// `st` is exactly the screen image of `t` under the two rotations, the
/// translation, the projection and the screen scaling.
#[verifier::opaque]
pub open spec fn spec_matches_screen(
    st: ScreenTriangle,
    t: Triangle,
    mz: Mat4,
    mx: Mat4,
    proj: Mat4,
    hw: int,
    hh: int,
) -> bool {
    let q0 = spec_translated_pt(t.p0, mz, mx);
    let q1 = spec_translated_pt(t.p1, mz, mx);
    let q2 = spec_translated_pt(t.p2, mz, mx);
    &&& st.a.x == spec_project_x(q0.0, q0.1, q0.2, proj, hw) && st.a.y == spec_project_y(
        q0.0,
        q0.1,
        q0.2,
        proj,
        hh,
    )
    &&& st.b.x == spec_project_x(q1.0, q1.1, q1.2, proj, hw) && st.b.y == spec_project_y(
        q1.0,
        q1.1,
        q1.2,
        proj,
        hh,
    )
    &&& st.c.x == spec_project_x(q2.0, q2.1, q2.2, proj, hw) && st.c.y == spec_project_y(
        q2.0,
        q2.1,
        q2.2,
        proj,
        hh,
    )
}

/// How many triangles of `s` face the camera after rotation and translation.
pub open spec fn spec_count_visible(s: Seq<Triangle>, mz: Mat4, mx: Mat4, cam: Vec3) -> nat
    decreases s.len(),
{
    if s.len() == 0 {
        0
    } else {
        spec_count_visible(s.drop_last(), mz, mx, cam) + (if spec_tri_visible(
            s.last(),
            mz,
            mx,
            cam,
        ) {
            1nat
        } else {
            0nat
        })
    }
}

/// The twelve model-space triangles of the unit cube, two per face.
pub open spec fn spec_cube_mesh() -> Seq<Triangle> {
    seq![
        tri_lit(0, 0, 0, 0, FP_ONE, 0, FP_ONE, FP_ONE, 0),
        tri_lit(0, 0, 0, FP_ONE, FP_ONE, 0, FP_ONE, 0, 0),
        tri_lit(FP_ONE, 0, 0, FP_ONE, FP_ONE, 0, FP_ONE, FP_ONE, FP_ONE),
        tri_lit(FP_ONE, 0, 0, FP_ONE, FP_ONE, FP_ONE, FP_ONE, 0, FP_ONE),
        tri_lit(FP_ONE, 0, FP_ONE, FP_ONE, FP_ONE, FP_ONE, 0, FP_ONE, FP_ONE),
        tri_lit(FP_ONE, 0, FP_ONE, 0, FP_ONE, FP_ONE, 0, 0, FP_ONE),
        tri_lit(0, 0, FP_ONE, 0, FP_ONE, FP_ONE, 0, FP_ONE, 0),
        tri_lit(0, 0, FP_ONE, 0, FP_ONE, 0, 0, 0, 0),
        tri_lit(0, FP_ONE, 0, 0, FP_ONE, FP_ONE, FP_ONE, FP_ONE, FP_ONE),
        tri_lit(0, FP_ONE, 0, FP_ONE, FP_ONE, FP_ONE, FP_ONE, FP_ONE, 0),
        tri_lit(FP_ONE, 0, FP_ONE, 0, 0, FP_ONE, 0, 0, 0),
        tri_lit(FP_ONE, 0, FP_ONE, 0, 0, 0, FP_ONE, 0, 0),
    ]
}

/// A triangle written out coordinate by coordinate.
pub open spec fn tri_lit(
    ax: i64,
    ay: i64,
    az: i64,
    bx: i64,
    by: i64,
    bz: i64,
    cx: i64,
    cy: i64,
    cz: i64,
) -> Triangle {
    Triangle {
        p0: Vec3 { x: ax, y: ay, z: az },
        p1: Vec3 { x: bx, y: by, z: bz },
        p2: Vec3 { x: cx, y: cy, z: cz },
    }
}

/// Takes one triangle through both rotations and the translation, culls it
/// against the camera, and projects it to the screen exactly when it is
/// visible: a triangle whose face turns away from the camera comes back as
/// `None` and is never handed on to the mesh builder.
pub fn process_triangle(
    tri: &Triangle,
    mz: &Mat4,
    mx: &Mat4,
    proj: &Mat4,
    cam: &Vec3,
    half_w: i64,
    half_h: i64,
) -> (res: Option<ScreenTriangle>)
    requires
        spec_tri_bounded(*tri, MESH_LIMIT as int),
        spec_rotation_shaped(*mz),
        spec_rotation_shaped(*mx),
        spec_mat_bounded(*proj, MAT_LIMIT as int),
        spec_vec_bounded(*cam, VTX_LIMIT as int),
        0 <= half_w <= HALF_SCREEN_LIMIT,
        0 <= half_h <= HALF_SCREEN_LIMIT,
    ensures
        res is Some <==> spec_tri_visible(*tri, *mz, *mx, *cam),
        res is Some ==> spec_matches_screen(
            res->Some_0,
            *tri,
            *mz,
            *mx,
            *proj,
            half_w as int,
            half_h as int,
        ),
{
    let rz0 = multiply_matrix_vector(&tri.p0, mz);
    let rz1 = multiply_matrix_vector(&tri.p1, mz);
    let rz2 = multiply_matrix_vector(&tri.p2, mz);
    let rx0 = multiply_matrix_vector(&rz0, mx);
    let rx1 = multiply_matrix_vector(&rz1, mx);
    let rx2 = multiply_matrix_vector(&rz2, mx);
    let translated = Triangle {
        p0: Vec3 { x: rx0.x, y: rx0.y, z: rx0.z + TRANSLATE_Z },
        p1: Vec3 { x: rx1.x, y: rx1.y, z: rx1.z + TRANSLATE_Z },
        p2: Vec3 { x: rx2.x, y: rx2.y, z: rx2.z + TRANSLATE_Z },
    };
    proof {
        reveal(spec_tri_visible);
        reveal(spec_matches_screen);
        assert((translated.p0.x as int, translated.p0.y as int, translated.p0.z as int)
            == spec_translated_pt(tri.p0, *mz, *mx));
        assert((translated.p1.x as int, translated.p1.y as int, translated.p1.z as int)
            == spec_translated_pt(tri.p1, *mz, *mx));
        assert((translated.p2.x as int, translated.p2.y as int, translated.p2.z as int)
            == spec_translated_pt(tri.p2, *mz, *mx));
    }
    let visible = triangle_visible(&translated, cam);
    if visible {
        let a = project_to_screen(&translated.p0, proj, half_w, half_h);
        let b = project_to_screen(&translated.p1, proj, half_w, half_h);
        let c = project_to_screen(&translated.p2, proj, half_w, half_h);
        Some(ScreenTriangle { a, b, c })
    } else {
        None
    }
}

/// The rotating-cube demo: the model mesh, the fixed projection matrix, the
/// two per-frame rotation matrices, the accumulated angle, the pause flag and
/// the camera position.
pub struct CubeState {
    pub mesh: Vec<Triangle>,
    pub matrix: Mat4,
    pub m_rotate_x: Mat4,
    pub m_rotate_z: Mat4,
    pub f_theta: i64,
    pub paused: bool,
    pub camera: Vec3,
}

impl CubeState {
    /// Every mesh vertex is within the model range, both rotation matrices
    /// are rotation-shaped, the projection entries are within the matrix
    /// range, and the camera is within the vertex range.
    pub open spec fn wf(self) -> bool {
        &&& forall|i: int|
            0 <= i < self.mesh@.len() ==> spec_tri_bounded(
                #[trigger] self.mesh@[i],
                MESH_LIMIT as int,
            )
        &&& spec_rotation_shaped(self.m_rotate_z)
        &&& spec_rotation_shaped(self.m_rotate_x)
        &&& spec_mat_bounded(self.matrix, MAT_LIMIT as int)
        &&& spec_vec_bounded(self.camera, VTX_LIMIT as int)
    }

    /// A fresh cube demo for a screen of the given fixed-point size: the unit
    /// cube mesh, the projection matrix for the screen's aspect ratio and the
    /// given field-of-view factor, identity-angle rotations, angle zero,
    /// running, camera at the origin.
    pub fn new(screen_w: i64, screen_h: i64, fov_rad: i64) -> (s: CubeState)
        requires
            FP_ONE <= screen_w <= 134_217_728,
            0 <= screen_h <= 134_217_728,
            screen_h <= 4 * screen_w,
            0 <= fov_rad <= 4 * FP_ONE,
        ensures
            s.wf(),
            s.mesh@ == spec_cube_mesh(),
            spec_is_projection(
                s.matrix,
                spec_div_trunc(screen_h as int * FP_ONE, screen_w as int),
                fov_rad as int,
                NEAR_PLANE as int,
                FAR_PLANE as int,
            ),
            spec_is_rot_z(s.m_rotate_z, 0, FP_ONE as int),
            spec_is_rot_x(s.m_rotate_x, 0, FP_ONE as int),
            s.f_theta == 0,
            !s.paused,
            s.camera == (Vec3 { x: 0, y: 0, z: 0 }),
    {
        proof {
            assert(screen_h as int * FP_ONE <= (4 * FP_ONE) * screen_w) by (nonlinear_arith)
                requires
                    screen_h <= 4 * screen_w,
                    0 <= screen_w,
            ;
            lemma_div_trunc_le(screen_h as int * FP_ONE, screen_w as int, 4 * FP_ONE as int);
            lemma_div_pos_is_pos(screen_h as int * FP_ONE, screen_w as int);
        }
        let aspect: i64 = div_trunc_i64(screen_h * FP_ONE, screen_w);
        let matrix = projection_matrix(aspect, fov_rad, NEAR_PLANE, FAR_PLANE);
        let rotate_z_matrix = rotation_z(0, FP_ONE);
        let rotate_x_matrix = rotation_x(0, FP_ONE);
        let cube: Vec<Triangle> = vec![
            Triangle {
                p0: Vec3 { x: 0, y: 0, z: 0 },
                p1: Vec3 { x: 0, y: FP_ONE, z: 0 },
                p2: Vec3 { x: FP_ONE, y: FP_ONE, z: 0 },
            },
            Triangle {
                p0: Vec3 { x: 0, y: 0, z: 0 },
                p1: Vec3 { x: FP_ONE, y: FP_ONE, z: 0 },
                p2: Vec3 { x: FP_ONE, y: 0, z: 0 },
            },
            Triangle {
                p0: Vec3 { x: FP_ONE, y: 0, z: 0 },
                p1: Vec3 { x: FP_ONE, y: FP_ONE, z: 0 },
                p2: Vec3 { x: FP_ONE, y: FP_ONE, z: FP_ONE },
            },
            Triangle {
                p0: Vec3 { x: FP_ONE, y: 0, z: 0 },
                p1: Vec3 { x: FP_ONE, y: FP_ONE, z: FP_ONE },
                p2: Vec3 { x: FP_ONE, y: 0, z: FP_ONE },
            },
            Triangle {
                p0: Vec3 { x: FP_ONE, y: 0, z: FP_ONE },
                p1: Vec3 { x: FP_ONE, y: FP_ONE, z: FP_ONE },
                p2: Vec3 { x: 0, y: FP_ONE, z: FP_ONE },
            },
            Triangle {
                p0: Vec3 { x: FP_ONE, y: 0, z: FP_ONE },
                p1: Vec3 { x: 0, y: FP_ONE, z: FP_ONE },
                p2: Vec3 { x: 0, y: 0, z: FP_ONE },
            },
            Triangle {
                p0: Vec3 { x: 0, y: 0, z: FP_ONE },
                p1: Vec3 { x: 0, y: FP_ONE, z: FP_ONE },
                p2: Vec3 { x: 0, y: FP_ONE, z: 0 },
            },
            Triangle {
                p0: Vec3 { x: 0, y: 0, z: FP_ONE },
                p1: Vec3 { x: 0, y: FP_ONE, z: 0 },
                p2: Vec3 { x: 0, y: 0, z: 0 },
            },
            Triangle {
                p0: Vec3 { x: 0, y: FP_ONE, z: 0 },
                p1: Vec3 { x: 0, y: FP_ONE, z: FP_ONE },
                p2: Vec3 { x: FP_ONE, y: FP_ONE, z: FP_ONE },
            },
            Triangle {
                p0: Vec3 { x: 0, y: FP_ONE, z: 0 },
                p1: Vec3 { x: FP_ONE, y: FP_ONE, z: FP_ONE },
                p2: Vec3 { x: FP_ONE, y: FP_ONE, z: 0 },
            },
            Triangle {
                p0: Vec3 { x: FP_ONE, y: 0, z: FP_ONE },
                p1: Vec3 { x: 0, y: 0, z: FP_ONE },
                p2: Vec3 { x: 0, y: 0, z: 0 },
            },
            Triangle {
                p0: Vec3 { x: FP_ONE, y: 0, z: FP_ONE },
                p1: Vec3 { x: 0, y: 0, z: 0 },
                p2: Vec3 { x: FP_ONE, y: 0, z: 0 },
            },
        ];
        proof {
            assert(cube@ =~= spec_cube_mesh());
        }
        CubeState {
            mesh: cube,
            matrix,
            f_theta: 0,
            m_rotate_x: rotate_x_matrix,
            m_rotate_z: rotate_z_matrix,
            paused: false,
            camera: Vec3 { x: 0, y: 0, z: 0 },
        }
    }

    /// One frame of bookkeeping: the pause key stops the demo, the resume key
    /// restarts it (and wins when both are down), and while running the angle
    /// advances by `THETA_INC` and both rotation matrices are rebuilt from
    /// the sine and cosine samples the caller supplies for the new angle
    /// (`sin_z`, `cos_z`) and for half of it (`sin_x`, `cos_x`).
    pub fn update(
        &mut self,
        pause_pressed: bool,
        resume_pressed: bool,
        sin_z: i64,
        cos_z: i64,
        sin_x: i64,
        cos_x: i64,
    )
        requires
            old(self).wf(),
            -FP_ONE <= sin_z <= FP_ONE,
            -FP_ONE <= cos_z <= FP_ONE,
            -FP_ONE <= sin_x <= FP_ONE,
            -FP_ONE <= cos_x <= FP_ONE,
            old(self).f_theta <= i64::MAX - THETA_INC,
        ensures
            final(self).wf(),
            final(self).mesh@ == old(self).mesh@,
            final(self).matrix == old(self).matrix,
            final(self).camera == old(self).camera,
            final(self).paused == (if resume_pressed {
                false
            } else if pause_pressed {
                true
            } else {
                old(self).paused
            }),
            final(self).paused ==> final(self).f_theta == old(self).f_theta
                && final(self).m_rotate_z == old(self).m_rotate_z
                && final(self).m_rotate_x == old(self).m_rotate_x,
            !final(self).paused ==> final(self).f_theta == old(self).f_theta + THETA_INC
                && spec_is_rot_z(final(self).m_rotate_z, sin_z as int, cos_z as int)
                && spec_is_rot_x(final(self).m_rotate_x, sin_x as int, cos_x as int),
    {
        if pause_pressed {
            self.paused = true;
        }
        if resume_pressed {
            self.paused = false;
        }
        if !self.paused {
            self.f_theta = self.f_theta + THETA_INC;
            self.m_rotate_z = rotation_z(sin_z, cos_z);
            self.m_rotate_x = rotation_x(sin_x, cos_x);
        }
    }

    /// Rotates, translates, culls and projects the whole mesh for one frame.
    /// The result holds exactly the triangles that face the camera, each
    /// mapped to screen coordinates: everything in the result is the image of
    /// a visible triangle, and every visible triangle appears in it.
    pub fn frame_points(&self, half_w: i64, half_h: i64) -> (r: Vec<ScreenTriangle>)
        requires
            self.wf(),
            0 <= half_w <= HALF_SCREEN_LIMIT,
            0 <= half_h <= HALF_SCREEN_LIMIT,
        ensures
            r@.len() == spec_count_visible(
                self.mesh@,
                self.m_rotate_z,
                self.m_rotate_x,
                self.camera,
            ),
    {
        let mut out: Vec<ScreenTriangle> = Vec::new();
        let mut idx: usize = 0;
        while idx < self.mesh.len()
            invariant
                self.wf(),
                0 <= half_w <= HALF_SCREEN_LIMIT,
                0 <= half_h <= HALF_SCREEN_LIMIT,
                idx <= self.mesh@.len(),
                out@.len() == spec_count_visible(
                    self.mesh@.take(idx as int),
                    self.m_rotate_z,
                    self.m_rotate_x,
                    self.camera,
                ),
            decreases self.mesh@.len() - idx,
        {
            let tri: Triangle = self.mesh[idx];
            let processed = process_triangle(
                &tri,
                &self.m_rotate_z,
                &self.m_rotate_x,
                &self.matrix,
                &self.camera,
                half_w,
                half_h,
            );
            match processed {
                Some(st) => {
                    out.push(st);
                },
                None => {
                },
            }
            proof {
                assert(self.mesh@.take(idx as int + 1).drop_last() =~= self.mesh@.take(
                    idx as int,
                ));
                assert(self.mesh@.take(idx as int + 1).last() == self.mesh@[idx as int]);
            }
            idx = idx + 1;
        }
        proof {
            assert(self.mesh@.take(self.mesh@.len() as int) =~= self.mesh@);
        }
        out
    }
}

} // verus!
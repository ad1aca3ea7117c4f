//! Fixed-point vectors, quaternions and 4x4 affine matrices.
//!
//! A `Mat4` field `mRC` is the entry at row `R`, column `C`; the last row of
//! an affine matrix is `(0, 0, 0, FX_ONE)`.  Matrix products saturate each
//! entry into the scalar range, so multiplication is total.

use vstd::prelude::*;

use crate::fixed::{
    clamp128, div_trunc128, in_range, lemma_mul_bound, spec_clamp, spec_div_trunc, FX_MAX, FX_ONE,
};

verus! {

/// A three-component fixed-point vector.
#[derive(Clone, Copy, PartialEq, Eq, Structural, Debug)]
pub struct Vec3 {
    pub x: i64,
    pub y: i64,
    pub z: i64,
}

/// A fixed-point quaternion, `w` the scalar part.
#[derive(Clone, Copy, PartialEq, Eq, Structural, Debug)]
pub struct Quat {
    pub x: i64,
    pub y: i64,
    pub z: i64,
    pub w: i64,
}

/// A 4x4 fixed-point matrix, `mRC` the entry at row `R`, column `C`.
#[derive(Clone, Copy, PartialEq, Eq, Structural, Debug)]
pub struct Mat4 {
    pub m00: i64, pub m01: i64, pub m02: i64, pub m03: i64,
    pub m10: i64, pub m11: i64, pub m12: i64, pub m13: i64,
    pub m20: i64, pub m21: i64, pub m22: i64, pub m23: i64,
    pub m30: i64, pub m31: i64, pub m32: i64, pub m33: i64,
}

impl Vec3 {
    /// All components inside the scalar range.
    pub open spec fn wf(self) -> bool {
        in_range(self.x as int) && in_range(self.y as int) && in_range(self.z as int)
    }

    /// Build a vector, saturating each component.
    pub fn new(x: i64, y: i64, z: i64) -> (v: Vec3)
        ensures
            v.x as int == spec_clamp(x as int),
            v.y as int == spec_clamp(y as int),
            v.z as int == spec_clamp(z as int),
            v.wf(),
    {
        Vec3 { x: clamp128(x as i128), y: clamp128(y as i128), z: clamp128(z as i128) }
    }

    /// The zero vector.
    pub fn zero() -> (v: Vec3)
        ensures
            v == (Vec3 { x: 0, y: 0, z: 0 }),
            v.wf(),
    {
        Vec3 { x: 0, y: 0, z: 0 }
    }

    /// The all-ones vector (unit scale).
    pub fn one() -> (v: Vec3)
        ensures
            v == (Vec3 { x: FX_ONE, y: FX_ONE, z: FX_ONE }),
            v.wf(),
    {
        Vec3 { x: FX_ONE, y: FX_ONE, z: FX_ONE }
    }
}

impl Quat {
    /// All components inside the scalar range.
    pub open spec fn wf(self) -> bool {
        in_range(self.x as int) && in_range(self.y as int) && in_range(self.z as int)
            && in_range(self.w as int)
    }

    /// Build a quaternion, saturating each component.
    pub fn new(x: i64, y: i64, z: i64, w: i64) -> (q: Quat)
        ensures
            q.x as int == spec_clamp(x as int),
            q.y as int == spec_clamp(y as int),
            q.z as int == spec_clamp(z as int),
            q.w as int == spec_clamp(w as int),
            q.wf(),
    {
        Quat {
            x: clamp128(x as i128),
            y: clamp128(y as i128),
            z: clamp128(z as i128),
            w: clamp128(w as i128),
        }
    }

    /// The identity rotation.
    pub fn identity() -> (q: Quat)
        ensures
            q == (Quat { x: 0, y: 0, z: 0, w: FX_ONE }),
            q.wf(),
    {
        Quat { x: 0, y: 0, z: 0, w: FX_ONE }
    }
}

/// Squared norm of a quaternion, exact.
pub open spec fn spec_quat_norm_sq(q: Quat) -> int {
    (q.x as int) * (q.x as int) + (q.y as int) * (q.y as int) + (q.z as int) * (q.z as int)
        + (q.w as int) * (q.w as int)
}

/// Dot product of two quaternions, exact.
pub open spec fn spec_quat_dot(a: Quat, b: Quat) -> int {
    (a.x as int) * (b.x as int) + (a.y as int) * (b.y as int) + (a.z as int) * (b.z as int)
        + (a.w as int) * (b.w as int)
}

/// The componentwise sum of two quaternions: twice their unnormalized
/// midpoint.
pub open spec fn spec_quat_sum(a: Quat, b: Quat) -> Quat
    recommends
        a.wf(),
        b.wf(),
{
    Quat {
        x: (a.x as int + b.x as int) as i64,
        y: (a.y as int + b.y as int) as i64,
        z: (a.z as int + b.z as int) as i64,
        w: (a.w as int + b.w as int) as i64,
    }
}

/// The componentwise negation of a quaternion.
pub open spec fn spec_quat_neg(q: Quat) -> Quat {
    Quat {
        x: (0 - q.x as int) as i64,
        y: (0 - q.y as int) as i64,
        z: (0 - q.z as int) as i64,
        w: (0 - q.w as int) as i64,
    }
}

/// Exact dot product of two quaternions, in extended precision.
pub fn quat_dot128(a: &Quat, b: &Quat) -> (r: i128)
    requires
        a.wf(),
        b.wf(),
    ensures
        r as int == spec_quat_dot(*a, *b),
{
    qprod(a.x, b.x) + qprod(a.y, b.y) + qprod(a.z, b.z) + qprod(a.w, b.w)
}

/// Negate a quaternion.
pub fn quat_neg(q: &Quat) -> (r: Quat)
    requires
        q.wf(),
    ensures
        r == spec_quat_neg(*q),
        r.wf(),
{
    Quat { x: -q.x, y: -q.y, z: -q.z, w: -q.w }
}

/// One entry of a matrix product: a row-column dot, rescaled and saturated.
pub open spec fn spec_fx_rc4(a0: int, a1: int, a2: int, a3: int, b0: int, b1: int, b2: int, b3: int) -> int {
    spec_clamp(spec_div_trunc(a0 * b0 + a1 * b1 + a2 * b2 + a3 * b3, FX_ONE as int))
}

/// The fixed-point matrix product.
pub open spec fn spec_mat_mul(a: Mat4, b: Mat4) -> Mat4 {
    Mat4 {
        m00: spec_fx_rc4(a.m00 as int, a.m01 as int, a.m02 as int, a.m03 as int, b.m00 as int, b.m10 as int, b.m20 as int, b.m30 as int) as i64,
        m01: spec_fx_rc4(a.m00 as int, a.m01 as int, a.m02 as int, a.m03 as int, b.m01 as int, b.m11 as int, b.m21 as int, b.m31 as int) as i64,
        m02: spec_fx_rc4(a.m00 as int, a.m01 as int, a.m02 as int, a.m03 as int, b.m02 as int, b.m12 as int, b.m22 as int, b.m32 as int) as i64,
        m03: spec_fx_rc4(a.m00 as int, a.m01 as int, a.m02 as int, a.m03 as int, b.m03 as int, b.m13 as int, b.m23 as int, b.m33 as int) as i64,
        m10: spec_fx_rc4(a.m10 as int, a.m11 as int, a.m12 as int, a.m13 as int, b.m00 as int, b.m10 as int, b.m20 as int, b.m30 as int) as i64,
        m11: spec_fx_rc4(a.m10 as int, a.m11 as int, a.m12 as int, a.m13 as int, b.m01 as int, b.m11 as int, b.m21 as int, b.m31 as int) as i64,
        m12: spec_fx_rc4(a.m10 as int, a.m11 as int, a.m12 as int, a.m13 as int, b.m02 as int, b.m12 as int, b.m22 as int, b.m32 as int) as i64,
        m13: spec_fx_rc4(a.m10 as int, a.m11 as int, a.m12 as int, a.m13 as int, b.m03 as int, b.m13 as int, b.m23 as int, b.m33 as int) as i64,
        m20: spec_fx_rc4(a.m20 as int, a.m21 as int, a.m22 as int, a.m23 as int, b.m00 as int, b.m10 as int, b.m20 as int, b.m30 as int) as i64,
        m21: spec_fx_rc4(a.m20 as int, a.m21 as int, a.m22 as int, a.m23 as int, b.m01 as int, b.m11 as int, b.m21 as int, b.m31 as int) as i64,
        m22: spec_fx_rc4(a.m20 as int, a.m21 as int, a.m22 as int, a.m23 as int, b.m02 as int, b.m12 as int, b.m22 as int, b.m32 as int) as i64,
        m23: spec_fx_rc4(a.m20 as int, a.m21 as int, a.m22 as int, a.m23 as int, b.m03 as int, b.m13 as int, b.m23 as int, b.m33 as int) as i64,
        m30: spec_fx_rc4(a.m30 as int, a.m31 as int, a.m32 as int, a.m33 as int, b.m00 as int, b.m10 as int, b.m20 as int, b.m30 as int) as i64,
        m31: spec_fx_rc4(a.m30 as int, a.m31 as int, a.m32 as int, a.m33 as int, b.m01 as int, b.m11 as int, b.m21 as int, b.m31 as int) as i64,
        m32: spec_fx_rc4(a.m30 as int, a.m31 as int, a.m32 as int, a.m33 as int, b.m02 as int, b.m12 as int, b.m22 as int, b.m32 as int) as i64,
        m33: spec_fx_rc4(a.m30 as int, a.m31 as int, a.m32 as int, a.m33 as int, b.m03 as int, b.m13 as int, b.m23 as int, b.m33 as int) as i64,
    }
}

/// The identity matrix.
pub open spec fn spec_mat_identity() -> Mat4 {
    Mat4 {
        m00: FX_ONE, m01: 0, m02: 0, m03: 0,
        m10: 0, m11: FX_ONE, m12: 0, m13: 0,
        m20: 0, m21: 0, m22: FX_ONE, m23: 0,
        m30: 0, m31: 0, m32: 0, m33: FX_ONE,
    }
}

/// Exact product of two in-range scalars, in extended precision.
fn qprod(a: i64, b: i64) -> (r: i128)
    requires
        in_range(a as int),
        in_range(b as int),
    ensures
        r as int == (a as int) * (b as int),
        -((FX_MAX as int) * (FX_MAX as int)) <= r as int <= (FX_MAX as int) * (FX_MAX as int),
{
    proof {
        lemma_mul_bound(a as int, b as int, FX_MAX as int);
    }
    (a as i128) * (b as i128)
}

/// One entry of a matrix product.
fn fx_rc4(a0: i64, a1: i64, a2: i64, a3: i64, b0: i64, b1: i64, b2: i64, b3: i64) -> (r: i64)
    requires
        in_range(a0 as int), in_range(a1 as int), in_range(a2 as int), in_range(a3 as int),
        in_range(b0 as int), in_range(b1 as int), in_range(b2 as int), in_range(b3 as int),
    ensures
        r as int == spec_fx_rc4(a0 as int, a1 as int, a2 as int, a3 as int, b0 as int, b1 as int, b2 as int, b3 as int),
        in_range(r as int),
{
    let s: i128 = qprod(a0, b0) + qprod(a1, b1) + qprod(a2, b2) + qprod(a3, b3);
    clamp128(div_trunc128(s, FX_ONE as i128))
}

impl Mat4 {
    /// All entries inside the scalar range.
    pub open spec fn wf(self) -> bool {
        in_range(self.m00 as int) && in_range(self.m01 as int) && in_range(self.m02 as int) && in_range(self.m03 as int)
            && in_range(self.m10 as int) && in_range(self.m11 as int) && in_range(self.m12 as int) && in_range(self.m13 as int)
            && in_range(self.m20 as int) && in_range(self.m21 as int) && in_range(self.m22 as int) && in_range(self.m23 as int)
            && in_range(self.m30 as int) && in_range(self.m31 as int) && in_range(self.m32 as int) && in_range(self.m33 as int)
    }

    /// Build a matrix from row-major entries, saturating each.
    pub fn new(e: [i64; 16]) -> (m: Mat4)
        ensures
            m.m00 as int == spec_clamp(e[0] as int), m.m01 as int == spec_clamp(e[1] as int),
            m.m02 as int == spec_clamp(e[2] as int), m.m03 as int == spec_clamp(e[3] as int),
            m.m10 as int == spec_clamp(e[4] as int), m.m11 as int == spec_clamp(e[5] as int),
            m.m12 as int == spec_clamp(e[6] as int), m.m13 as int == spec_clamp(e[7] as int),
            m.m20 as int == spec_clamp(e[8] as int), m.m21 as int == spec_clamp(e[9] as int),
            m.m22 as int == spec_clamp(e[10] as int), m.m23 as int == spec_clamp(e[11] as int),
            m.m30 as int == spec_clamp(e[12] as int), m.m31 as int == spec_clamp(e[13] as int),
            m.m32 as int == spec_clamp(e[14] as int), m.m33 as int == spec_clamp(e[15] as int),
            m.wf(),
    {
        Mat4 {
            m00: clamp128(e[0] as i128), m01: clamp128(e[1] as i128), m02: clamp128(e[2] as i128), m03: clamp128(e[3] as i128),
            m10: clamp128(e[4] as i128), m11: clamp128(e[5] as i128), m12: clamp128(e[6] as i128), m13: clamp128(e[7] as i128),
            m20: clamp128(e[8] as i128), m21: clamp128(e[9] as i128), m22: clamp128(e[10] as i128), m23: clamp128(e[11] as i128),
            m30: clamp128(e[12] as i128), m31: clamp128(e[13] as i128), m32: clamp128(e[14] as i128), m33: clamp128(e[15] as i128),
        }
    }

    /// The identity matrix.
    pub fn identity() -> (m: Mat4)
        ensures
            m == spec_mat_identity(),
            m.wf(),
    {
        Mat4 {
            m00: FX_ONE, m01: 0, m02: 0, m03: 0,
            m10: 0, m11: FX_ONE, m12: 0, m13: 0,
            m20: 0, m21: 0, m22: FX_ONE, m23: 0,
            m30: 0, m31: 0, m32: 0, m33: FX_ONE,
        }
    }

    /// Matrix product `self * o`.
    pub fn mul(&self, o: &Mat4) -> (r: Mat4)
        requires
            self.wf(),
            o.wf(),
        ensures
            r == spec_mat_mul(*self, *o),
            r.wf(),
    {
        Mat4 {
            m00: fx_rc4(self.m00, self.m01, self.m02, self.m03, o.m00, o.m10, o.m20, o.m30),
            m01: fx_rc4(self.m00, self.m01, self.m02, self.m03, o.m01, o.m11, o.m21, o.m31),
            m02: fx_rc4(self.m00, self.m01, self.m02, self.m03, o.m02, o.m12, o.m22, o.m32),
            m03: fx_rc4(self.m00, self.m01, self.m02, self.m03, o.m03, o.m13, o.m23, o.m33),
            m10: fx_rc4(self.m10, self.m11, self.m12, self.m13, o.m00, o.m10, o.m20, o.m30),
            m11: fx_rc4(self.m10, self.m11, self.m12, self.m13, o.m01, o.m11, o.m21, o.m31),
            m12: fx_rc4(self.m10, self.m11, self.m12, self.m13, o.m02, o.m12, o.m22, o.m32),
            m13: fx_rc4(self.m10, self.m11, self.m12, self.m13, o.m03, o.m13, o.m23, o.m33),
            m20: fx_rc4(self.m20, self.m21, self.m22, self.m23, o.m00, o.m10, o.m20, o.m30),
            m21: fx_rc4(self.m20, self.m21, self.m22, self.m23, o.m01, o.m11, o.m21, o.m31),
            m22: fx_rc4(self.m20, self.m21, self.m22, self.m23, o.m02, o.m12, o.m22, o.m32),
            m23: fx_rc4(self.m20, self.m21, self.m22, self.m23, o.m03, o.m13, o.m23, o.m33),
            m30: fx_rc4(self.m30, self.m31, self.m32, self.m33, o.m00, o.m10, o.m20, o.m30),
            m31: fx_rc4(self.m30, self.m31, self.m32, self.m33, o.m01, o.m11, o.m21, o.m31),
            m32: fx_rc4(self.m30, self.m31, self.m32, self.m33, o.m02, o.m12, o.m22, o.m32),
            m33: fx_rc4(self.m30, self.m31, self.m32, self.m33, o.m03, o.m13, o.m23, o.m33),
        }
    }
}

/// Check that a vector lies inside the scalar range.
pub fn vec3_in_range(v: &Vec3) -> (b: bool)
    ensures
        b == v.wf(),
{
    v.x >= -FX_MAX && v.x <= FX_MAX && v.y >= -FX_MAX && v.y <= FX_MAX && v.z >= -FX_MAX
        && v.z <= FX_MAX
}

/// Check that a quaternion lies inside the scalar range.
pub fn quat_in_range(q: &Quat) -> (b: bool)
    ensures
        b == q.wf(),
{
    q.x >= -FX_MAX && q.x <= FX_MAX && q.y >= -FX_MAX && q.y <= FX_MAX && q.z >= -FX_MAX
        && q.z <= FX_MAX && q.w >= -FX_MAX && q.w <= FX_MAX
}

/// Check that every matrix entry lies inside the scalar range.
pub fn mat_in_range(m: &Mat4) -> (b: bool)
    ensures
        b == m.wf(),
{
    m.m00 >= -FX_MAX && m.m00 <= FX_MAX && m.m01 >= -FX_MAX && m.m01 <= FX_MAX
        && m.m02 >= -FX_MAX && m.m02 <= FX_MAX && m.m03 >= -FX_MAX && m.m03 <= FX_MAX
        && m.m10 >= -FX_MAX && m.m10 <= FX_MAX && m.m11 >= -FX_MAX && m.m11 <= FX_MAX
        && m.m12 >= -FX_MAX && m.m12 <= FX_MAX && m.m13 >= -FX_MAX && m.m13 <= FX_MAX
        && m.m20 >= -FX_MAX && m.m20 <= FX_MAX && m.m21 >= -FX_MAX && m.m21 <= FX_MAX
        && m.m22 >= -FX_MAX && m.m22 <= FX_MAX && m.m23 >= -FX_MAX && m.m23 <= FX_MAX
        && m.m30 >= -FX_MAX && m.m30 <= FX_MAX && m.m31 >= -FX_MAX && m.m31 <= FX_MAX
        && m.m32 >= -FX_MAX && m.m32 <= FX_MAX && m.m33 >= -FX_MAX && m.m33 <= FX_MAX
}

/// A pure translation matrix.
pub open spec fn spec_mat_translation(t: Vec3) -> Mat4 {
    Mat4 {
        m00: FX_ONE, m01: 0, m02: 0, m03: t.x,
        m10: 0, m11: FX_ONE, m12: 0, m13: t.y,
        m20: 0, m21: 0, m22: FX_ONE, m23: t.z,
        m30: 0, m31: 0, m32: 0, m33: FX_ONE,
    }
}

/// A pure scale matrix.
pub open spec fn spec_mat_scale(s: Vec3) -> Mat4 {
    Mat4 {
        m00: s.x, m01: 0, m02: 0, m03: 0,
        m10: 0, m11: s.y, m12: 0, m13: 0,
        m20: 0, m21: 0, m22: s.z, m23: 0,
        m30: 0, m31: 0, m32: 0, m33: FX_ONE,
    }
}

/// One rotation-matrix entry: `FX_ONE * num / norm_sq`, saturated.
pub open spec fn spec_rot_entry(num: int, n: int) -> int
    recommends
        n > 0,
{
    spec_clamp(spec_div_trunc((FX_ONE as int) * num, n))
}

/// The rotation matrix of a quaternion.
///
/// The formula divides by the squared norm, so the quaternion need not be
/// normalized; a degenerate (zero) quaternion rotates by nothing.
pub open spec fn spec_mat_rotation(q: Quat) -> Mat4 {
    let n = spec_quat_norm_sq(q);
    let x = q.x as int;
    let y = q.y as int;
    let z = q.z as int;
    let w = q.w as int;
    if n == 0 {
        spec_mat_identity()
    } else {
        Mat4 {
            m00: spec_rot_entry(n - 2 * (y * y + z * z), n) as i64,
            m01: spec_rot_entry(2 * (x * y - z * w), n) as i64,
            m02: spec_rot_entry(2 * (x * z + y * w), n) as i64,
            m03: 0,
            m10: spec_rot_entry(2 * (x * y + z * w), n) as i64,
            m11: spec_rot_entry(n - 2 * (x * x + z * z), n) as i64,
            m12: spec_rot_entry(2 * (y * z - x * w), n) as i64,
            m13: 0,
            m20: spec_rot_entry(2 * (x * z - y * w), n) as i64,
            m21: spec_rot_entry(2 * (y * z + x * w), n) as i64,
            m22: spec_rot_entry(n - 2 * (x * x + y * y), n) as i64,
            m23: 0,
            m30: 0, m31: 0, m32: 0, m33: FX_ONE,
        }
    }
}

/// Translation matrix of a vector.
pub fn mat_translation(t: &Vec3) -> (m: Mat4)
    requires
        t.wf(),
    ensures
        m == spec_mat_translation(*t),
        m.wf(),
{
    Mat4 {
        m00: FX_ONE, m01: 0, m02: 0, m03: t.x,
        m10: 0, m11: FX_ONE, m12: 0, m13: t.y,
        m20: 0, m21: 0, m22: FX_ONE, m23: t.z,
        m30: 0, m31: 0, m32: 0, m33: FX_ONE,
    }
}

/// Scale matrix of a vector.
pub fn mat_scale(s: &Vec3) -> (m: Mat4)
    requires
        s.wf(),
    ensures
        m == spec_mat_scale(*s),
        m.wf(),
{
    Mat4 {
        m00: s.x, m01: 0, m02: 0, m03: 0,
        m10: 0, m11: s.y, m12: 0, m13: 0,
        m20: 0, m21: 0, m22: s.z, m23: 0,
        m30: 0, m31: 0, m32: 0, m33: FX_ONE,
    }
}

/// One off-diagonal rotation entry from an extended numerator.
fn rot_entry(num: i128, n: i128) -> (r: i64)
    requires
        n > 0,
        -(0x1000000000000000000000000 as i128) <= num <= 0x1000000000000000000000000 as i128,
    ensures
        r as int == spec_rot_entry(num as int, n as int),
        in_range(r as int),
{
    proof {
        assert(-(0x10000000000000000000000000000 as int) <= (FX_ONE as int) * (num as int)
            <= 0x10000000000000000000000000000 as int) by (nonlinear_arith)
            requires
                -(0x1000000000000000000000000 as int) <= num as int
                    <= 0x1000000000000000000000000 as int,
        ;
    }
    clamp128(div_trunc128((FX_ONE as i128) * num, n))
}

/// Rotation matrix of a quaternion.
pub fn mat_rotation(q: &Quat) -> (m: Mat4)
    requires
        q.wf(),
    ensures
        m == spec_mat_rotation(*q),
        m.wf(),
{
    let xx = qprod(q.x, q.x);
    let yy = qprod(q.y, q.y);
    let zz = qprod(q.z, q.z);
    let ww = qprod(q.w, q.w);
    let xy = qprod(q.x, q.y);
    let xz = qprod(q.x, q.z);
    let xw = qprod(q.x, q.w);
    let yz = qprod(q.y, q.z);
    let yw = qprod(q.y, q.w);
    let zw = qprod(q.z, q.w);
    proof {
        lemma_mul_bound(q.x as int, q.x as int, FX_MAX as int);
        assert((q.x as int) * (q.x as int) >= 0) by (nonlinear_arith);
        assert((q.y as int) * (q.y as int) >= 0) by (nonlinear_arith);
        assert((q.z as int) * (q.z as int) >= 0) by (nonlinear_arith);
        assert((q.w as int) * (q.w as int) >= 0) by (nonlinear_arith);
    }
    let n = xx + yy + zz + ww;
    if n == 0 {
        Mat4::identity()
    } else {
        Mat4 {
            m00: rot_entry(n - 2 * (yy + zz), n),
            m01: rot_entry(2 * (xy - zw), n),
            m02: rot_entry(2 * (xz + yw), n),
            m03: 0,
            m10: rot_entry(2 * (xy + zw), n),
            m11: rot_entry(n - 2 * (xx + zz), n),
            m12: rot_entry(2 * (yz - xw), n),
            m13: 0,
            m20: rot_entry(2 * (xz - yw), n),
            m21: rot_entry(2 * (yz + xw), n),
            m22: rot_entry(n - 2 * (xx + yy), n),
            m23: 0,
            m30: 0, m31: 0, m32: 0, m33: FX_ONE,
        }
    }
}

} // verus!

//! Local transforms: translation, rotation and scale.
//!
//! A transform converts to the affine matrix `T * R * S`; composition is
//! carried out in matrix space, so it agrees with the matrix product by
//! definition, entry for entry.

use vstd::prelude::*;

use crate::math::{
    mat_rotation, mat_scale, mat_translation, spec_mat_identity, spec_mat_mul, spec_mat_rotation,
    spec_mat_scale, spec_mat_translation, spec_quat_norm_sq, Mat4, Quat, Vec3,
};
use crate::fixed::{spec_div_trunc, FX_ONE};

verus! {

/// A decomposed local transform.
#[derive(Clone, Copy, PartialEq, Eq, Structural, Debug)]
pub struct Transform {
    pub translation: Vec3,
    pub rotation: Quat,
    pub scale: Vec3,
}

/// The affine matrix of a transform: translation times rotation times scale.
pub open spec fn spec_to_matrix(t: Transform) -> Mat4 {
    spec_mat_mul(
        spec_mat_mul(spec_mat_translation(t.translation), spec_mat_rotation(t.rotation)),
        spec_mat_scale(t.scale),
    )
}

/// Composition of two transforms, parent first.
pub open spec fn spec_compose(a: Transform, b: Transform) -> Mat4 {
    spec_mat_mul(spec_to_matrix(a), spec_to_matrix(b))
}

impl Transform {
    /// All components inside the scalar range.
    pub open spec fn wf(self) -> bool {
        self.translation.wf() && self.rotation.wf() && self.scale.wf()
    }

    /// The identity transform.
    pub fn identity() -> (t: Transform)
        ensures
            t.translation == (Vec3 { x: 0, y: 0, z: 0 }),
            t.rotation == (Quat { x: 0, y: 0, z: 0, w: FX_ONE }),
            t.scale == (Vec3 { x: FX_ONE, y: FX_ONE, z: FX_ONE }),
            t.wf(),
    {
        Transform { translation: Vec3::zero(), rotation: Quat::identity(), scale: Vec3::one() }
    }

    /// Convert to the affine matrix `T * R * S`.
    pub fn to_matrix(&self) -> (m: Mat4)
        requires
            self.wf(),
        ensures
            m == spec_to_matrix(*self),
            m.wf(),
    {
        let t = mat_translation(&self.translation);
        let r = mat_rotation(&self.rotation);
        let s = mat_scale(&self.scale);
        t.mul(&r).mul(&s)
    }

    /// Compose two transforms, parent first.
    ///
    /// The result is the product of the two converted matrices, which is what
    /// every downstream consumer works in.
    pub fn compose(&self, child: &Transform) -> (m: Mat4)
        requires
            self.wf(),
            child.wf(),
        ensures
            m == spec_compose(*self, *child),
            m.wf(),
    {
        let a = self.to_matrix();
        let b = child.to_matrix();
        a.mul(&b)
    }
}

/// Composing two transforms yields exactly the product of their matrices.
///
/// Holds of every pair of transforms, entry for entry, with no tolerance:
/// composition is carried out in matrix space.
pub proof fn lemma_compose_is_matrix_product(a: Transform, b: Transform)
    ensures
        spec_compose(a, b) == spec_mat_mul(spec_to_matrix(a), spec_to_matrix(b)),
{
}

/// The identity transform converts to the identity matrix.
pub proof fn lemma_identity_matrix()
    ensures
        spec_to_matrix(
            Transform {
                translation: Vec3 { x: 0, y: 0, z: 0 },
                rotation: Quat { x: 0, y: 0, z: 0, w: FX_ONE },
                scale: Vec3 { x: FX_ONE, y: FX_ONE, z: FX_ONE },
            },
        ) == spec_mat_identity(),
{
    let t = Transform {
        translation: Vec3 { x: 0, y: 0, z: 0 },
        rotation: Quat { x: 0, y: 0, z: 0, w: FX_ONE },
        scale: Vec3 { x: FX_ONE, y: FX_ONE, z: FX_ONE },
    };
    assert(spec_quat_norm_sq(t.rotation) == 4294967296);
    assert(spec_div_trunc((65536 * 4294967296) as int, 4294967296 as int) == 65536) by (nonlinear_arith);
    assert(spec_mat_rotation(t.rotation) == spec_mat_identity());
    assert(spec_mat_translation(t.translation) == spec_mat_identity());
    assert(spec_mat_scale(t.scale) == spec_mat_identity());
    assert(spec_div_trunc((65536 * 65536) as int, 65536 as int) == 65536) by (nonlinear_arith);
    assert(spec_mat_mul(spec_mat_identity(), spec_mat_identity()) == spec_mat_identity());
}

} // verus!

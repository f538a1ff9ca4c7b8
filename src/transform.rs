//! The model transform policy: the order in which the pose is applied.
//!
//! The model matrix is the product `Translate(x, y, z) * RotateY(rot_y) *
//! RotateX(rot_x) * Scale(5)`. Applied to a vertex, the rightmost factor acts
//! first: the mesh, pivoting at the origin, is scaled, then rotated about its
//! local X axis, then about its local Y axis, then placed in the world. The
//! order is fixed; the backend multiplies the factors with the frame's
//! values.
use vstd::prelude::*;

verus! {

/// Uniform scale of the mesh.
pub const MODEL_SCALE: u32 = 5;

/// One factor of the model matrix.
#[derive(Clone, Copy, Debug, PartialEq, Eq)]
pub enum ModelTransform {
    /// Translation by the frame's `(x, y, z)`.
    Translate,
    /// Rotation about the Y axis by the frame's `rot_y`.
    RotateY,
    /// Rotation about the X axis by the frame's `rot_x`.
    RotateX,
    /// Uniform scale by this factor.
    Scale(u32),
}

/// The factors of the model matrix, left to right.
pub open spec fn model_factors() -> Seq<ModelTransform> {
    seq![
        ModelTransform::Translate,
        ModelTransform::RotateY,
        ModelTransform::RotateX,
        ModelTransform::Scale(MODEL_SCALE),
    ]
}

/// The factors of the model matrix, left to right; their product, taken in
/// this order, is the model matrix.
pub fn model_transform_order() -> (r: Vec<ModelTransform>)
    ensures
        r@ == model_factors(),
{
    let r = vec![
        ModelTransform::Translate,
        ModelTransform::RotateY,
        ModelTransform::RotateX,
        ModelTransform::Scale(MODEL_SCALE),
    ];
    assert(r@ =~= model_factors());
    r
}

/// Applied to a vertex, the factors act from right to left: the scale acts
/// first, the X rotation before the Y rotation, and the translation last.
pub proof fn lemma_scale_first_translate_last()
    ensures
        model_factors().last() == ModelTransform::Scale(MODEL_SCALE),
        model_factors().first() == ModelTransform::Translate,
        model_factors().len() == 4,
        model_factors()[1] == ModelTransform::RotateY,
        model_factors()[2] == ModelTransform::RotateX,
{
}

} // verus!

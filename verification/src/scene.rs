//! The scene-side values the shaded pass reads each frame.
//!
//! The pass moves these values around but never looks inside a matrix, a
//! material's textures or a light's parameters — those live on the GPU side
//! of the external interface. Each such payload is therefore carried as an
//! opaque token, while everything the pass does decide on (presence, identity
//! fallback, visibility membership) is explicit.

use vstd::prelude::*;

verus! {

/// A handle into the mesh asset storage. The storage resolves it to a loaded
/// GPU mesh, or reports that the asset has not finished loading.
#[derive(Clone, Copy, Debug, PartialEq, Eq, Structural)]
pub struct MeshHandle(pub u64);

/// A mesh already resident on the GPU, ready to bind.
#[derive(Clone, Copy, Debug, PartialEq, Eq, Structural)]
pub struct GpuMesh(pub u64);

/// A material: the set of textures a draw binds. Opaque to the pass.
#[derive(Clone, Copy, Debug, PartialEq, Eq, Structural)]
pub struct Material(pub u64);

/// A camera's projection. Opaque to the pass.
#[derive(Clone, Copy, Debug, PartialEq, Eq, Structural)]
pub struct Camera(pub u64);

/// A light's parameters. Opaque to the pass.
#[derive(Clone, Copy, Debug, PartialEq, Eq, Structural)]
pub struct Light(pub u64);

/// The joint matrices driving a skinned mesh. Opaque to the pass.
#[derive(Clone, Copy, Debug, PartialEq, Eq, Structural)]
pub struct JointTransforms(pub u64);

/// A model transform. A concrete matrix is carried as an opaque token;
/// `Identity` is the transform used when an entity has none.
#[derive(Clone, Copy, Debug, PartialEq, Eq, Structural)]
pub enum Transform {
    Identity,
    Matrix(u64),
}

/// Marks an entity as hidden: the shaded pass must not draw it.
#[derive(Clone, Copy, Debug, PartialEq, Eq, Structural)]
pub struct Hidden;

/// Marks an entity as hidden through its parent; treated like [`Hidden`].
#[derive(Clone, Copy, Debug, PartialEq, Eq, Structural)]
pub struct HiddenPropagate;

/// Selects which camera entity renders the frame. With no target, or a
/// target that lacks a camera or transform, the pass falls back to the first
/// usable camera in the scene.
#[derive(Clone, Copy, Debug, PartialEq, Eq, Structural)]
pub struct ActiveCamera {
    pub entity: Option<u64>,
}

/// A precomputed culling result. Entities in `visible_unordered` may be drawn
/// in any order; entities in `visible_ordered` must be drawn after them, in
/// the given sequence (typically back to front, for blending).
#[derive(Clone, Debug)]
pub struct Visibility {
    pub visible_unordered: Vec<u64>,
    pub visible_ordered: Vec<u64>,
}

} // verus!

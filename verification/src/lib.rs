//! A verified core for two render passes of a real-time renderer: a shaded
//! mesh pass and a skybox pass.
//!
//! Each pass follows a two-phase contract: a one-time build step that lays out
//! GPU resources (shader programs, pipeline state, uniform binders), and a
//! per-frame pair of operations — `prepare`, which refreshes frame-indexed
//! uniform data and decides between re-recording and reusing draw commands,
//! and a draw step, which plans the draw calls for the frame.
//!
//! The GPU device, the shader compiler and the entity-component store are
//! external collaborators. This crate models them as explicit values — a
//! factory with create/destroy accounting, component stores with a sequence
//! view, and draw plans as plain data — so that the pass logic itself (feature
//! toggling, visibility-aware draw ordering, graceful degradation on missing
//! components, uniform-change detection, and release of GPU resources on the
//! build failure path) is stated in contracts and proved.

pub mod color;
pub mod shaded;
pub mod skybox;
pub mod device;
pub mod scene;
pub mod store;

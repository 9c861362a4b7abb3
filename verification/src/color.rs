//! Color values carried through the passes.
//!
//! The passes never do color arithmetic: colors are compared for equality and
//! handed on to uniform uploads. Channels are therefore held as plain
//! integers, in thousandths of full intensity (0 is black, 1000 is full).

use vstd::prelude::*;

verus! {

/// An opaque-capable color with an alpha channel, used for per-entity tints
/// and the ambient term. Channels are thousandths of full intensity.
#[derive(Clone, Copy, Debug, PartialEq, Eq, Structural)]
pub struct Rgba {
    pub r: u32,
    pub g: u32,
    pub b: u32,
    pub a: u32,
}

/// A color without alpha, used for the skybox gradient endpoints.
/// Channels are thousandths of full intensity.
#[derive(Clone, Copy, Debug, PartialEq, Eq, Structural)]
pub struct Rgb {
    pub r: u32,
    pub g: u32,
    pub b: u32,
}

/// The tint applied when an entity carries no tint component: fully opaque
/// white, which leaves the material's own colors unchanged.
pub open spec fn spec_opaque_white() -> Rgba {
    Rgba { r: 1000, g: 1000, b: 1000, a: 1000 }
}

/// Executable counterpart of [`spec_opaque_white`].
pub fn opaque_white() -> (c: Rgba)
    ensures
        c == spec_opaque_white(),
{
    Rgba { r: 1000, g: 1000, b: 1000, a: 1000 }
}

} // verus!

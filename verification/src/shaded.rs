//! The shaded mesh pass: draws lit meshes with a simple shading technique,
//! with optional vertex skinning, vertex-color tints and transparency.
//!
//! The pass has two phases. `compile` runs once and lays out the effect —
//! program variant, one raw vertex buffer per attribute (the separate
//! layout), uniform blocks, texture slots and the color output. `apply` runs
//! every frame: it resolves the camera, gathers the light and ambient data
//! uploaded once per frame, and plans one draw call per visible entity.
//!
//! Entity selection has two mutually exclusive strategies. Without a
//! visibility result, every entity joining a mesh handle, a material and a
//! transform is drawn, except those flagged hidden; missing components
//! simply fail the join. With a visibility result, the order-independent set
//! is drawn first and the ordered list after it, in its given sequence, and
//! only a missing or unloaded mesh skips an ordered entity — a missing
//! material, transform, joints or tint degrades to the material defaults,
//! the identity transform, no joints or an opaque white tint.

use vstd::prelude::*;

use crate::color::{opaque_white, spec_opaque_white, Rgba};
use crate::device::BuildError;
use crate::scene::{
    ActiveCamera, Camera, GpuMesh, Hidden, HiddenPropagate, JointTransforms, Light, Material,
    MeshHandle, Transform, Visibility,
};
use crate::store::{lemma_lookup_none, lookup, Store};

verus! {

/// Which color channels a blended output writes.
#[derive(Clone, Copy, Debug, PartialEq, Eq, Structural)]
pub struct ColorMask {
    pub red: bool,
    pub green: bool,
    pub blue: bool,
    pub alpha: bool,
}

/// The mask writing every channel.
pub open spec fn spec_color_mask_all() -> ColorMask {
    ColorMask { red: true, green: true, blue: true, alpha: true }
}

impl ColorMask {
    /// The mask writing every channel.
    pub fn all() -> (m: ColorMask)
        ensures
            m == spec_color_mask_all(),
    {
        ColorMask { red: true, green: true, blue: true, alpha: true }
    }
}

/// A preset blend state for the color output.
#[derive(Clone, Copy, Debug, PartialEq, Eq, Structural)]
pub enum Blend {
    /// Source-alpha blending, the default for transparency.
    Alpha,
    /// Additive blending.
    Add,
    /// Multiplicative blending.
    Multiply,
    /// Inverted blending.
    Invert,
}

/// How the depth buffer is used by the output.
#[derive(Clone, Copy, Debug, PartialEq, Eq, Structural)]
pub enum DepthMode {
    /// Test against the depth buffer without writing it.
    LessEqualTest,
    /// Test against the depth buffer and write passing fragments.
    LessEqualWrite,
}

/// The transparency setting a descriptor starts with: every channel written,
/// alpha blending, and a less-equal depth test that writes.
pub open spec fn spec_default_transparency() -> Option<(ColorMask, Blend, Option<DepthMode>)> {
    Some((spec_color_mask_all(), Blend::Alpha, Some(DepthMode::LessEqualWrite)))
}

/// Executable counterpart of [`spec_default_transparency`].
pub fn default_transparency() -> (t: Option<(ColorMask, Blend, Option<DepthMode>)>)
    ensures
        t == spec_default_transparency(),
{
    Some((ColorMask::all(), Blend::Alpha, Some(DepthMode::LessEqualWrite)))
}

/// The one-time configuration of a shaded mesh pass: whether meshes are
/// skinned, and the transparency setting of the color output. Pure data; it
/// owns no GPU resources and may be cloned freely before the compile step.
#[derive(Clone, Copy, Debug, PartialEq)]
pub struct DrawShadedSeparate {
    pub skinning: bool,
    pub transparency: Option<(ColorMask, Blend, Option<DepthMode>)>,
}

/// The descriptor after toggling transparency. Turning it off clears the
/// setting; turning it on reinstates the default only when it was off, and
/// leaves an already-enabled setting untouched.
pub open spec fn spec_with_transparency(d: DrawShadedSeparate, input: bool) -> DrawShadedSeparate {
    if input {
        if d.transparency is None {
            DrawShadedSeparate { skinning: d.skinning, transparency: spec_default_transparency() }
        } else {
            d
        }
    } else {
        DrawShadedSeparate { skinning: d.skinning, transparency: None }
    }
}

/// The descriptor after setting explicit transparency values.
pub open spec fn spec_with_transparency_settings(
    d: DrawShadedSeparate,
    mask: ColorMask,
    blend: Blend,
    depth: Option<DepthMode>,
) -> DrawShadedSeparate {
    DrawShadedSeparate { skinning: d.skinning, transparency: Some((mask, blend, depth)) }
}

impl Default for DrawShadedSeparate {
    fn default() -> (d: Self)
        ensures
            d.skinning == false,
            d.transparency == spec_default_transparency(),
    {
        DrawShadedSeparate { skinning: false, transparency: default_transparency() }
    }
}

impl DrawShadedSeparate {
    /// A descriptor without skinning and with the default transparency.
    pub fn new() -> (d: Self)
        ensures
            d.skinning == false,
            d.transparency == spec_default_transparency(),
    {
        Default::default()
    }

    /// Enables vertex skinning.
    pub fn with_vertex_skinning(self) -> (r: Self)
        ensures
            r.skinning == true,
            r.transparency == self.transparency,
    {
        DrawShadedSeparate { skinning: true, transparency: self.transparency }
    }

    /// Transparency is enabled by default. Passing `false` disables it;
    /// passing `true` reinstates the default settings when it was disabled,
    /// and does nothing when it is already enabled.
    pub fn with_transparency(self, input: bool) -> (r: Self)
        ensures
            r == spec_with_transparency(self, input),
    {
        if input {
            if self.transparency.is_none() {
                DrawShadedSeparate { skinning: self.skinning, transparency: default_transparency() }
            } else {
                self
            }
        } else {
            DrawShadedSeparate { skinning: self.skinning, transparency: None }
        }
    }

    /// Sets the transparency settings to explicit values.
    pub fn with_transparency_settings(
        self,
        mask: ColorMask,
        blend: Blend,
        depth: Option<DepthMode>,
    ) -> (r: Self)
        ensures
            r == spec_with_transparency_settings(self, mask, blend, depth),
    {
        DrawShadedSeparate { skinning: self.skinning, transparency: Some((mask, blend, depth)) }
    }
}

/// Law: disabling transparency and enabling it again yields exactly the
/// default transparency — never none, and never a stale custom value from
/// before the disable.
pub proof fn lemma_transparency_reset(d: DrawShadedSeparate)
    ensures
        spec_with_transparency(spec_with_transparency(d, false), true).transparency
            == spec_default_transparency(),
{
}

/// Law: enabling transparency when custom settings are already in place is a
/// no-op — the custom mask, blend and depth values are kept.
pub proof fn lemma_transparency_enable_keeps_settings(
    d: DrawShadedSeparate,
    mask: ColorMask,
    blend: Blend,
    depth: Option<DepthMode>,
)
    ensures
        spec_with_transparency(spec_with_transparency_settings(d, mask, blend, depth), true)
            == spec_with_transparency_settings(d, mask, blend, depth),
{
}

/// The program variant the effect compiles.
#[derive(Clone, Copy, Debug, PartialEq, Eq, Structural)]
pub enum Program {
    /// The plain vertex and fragment program.
    Plain,
    /// The skinning-augmented program variant.
    Skinned,
}

/// A vertex attribute fed through its own buffer (the separate layout).
#[derive(Clone, Copy, Debug, PartialEq, Eq, Structural)]
pub enum VertexAttr {
    Position,
    Normal,
    TexCoord,
    JointIds,
    JointWeights,
}

/// One raw vertex buffer declaration: the attribute and its element stride
/// in bytes.
#[derive(Clone, Copy, Debug, PartialEq, Eq, Structural)]
pub struct VertexBufferDecl {
    pub attr: VertexAttr,
    pub stride: u32,
}

/// A uniform block the effect declares.
#[derive(Clone, Copy, Debug, PartialEq, Eq, Structural)]
pub enum UniformBlock {
    /// The per-draw vertex arguments (model, view and projection data).
    VertexArgs,
    /// The joint matrices of a skinned draw.
    JointTransforms,
    /// The per-frame light array and ambient color.
    LightArgs,
}

/// A texture sampler slot the material system fills.
#[derive(Clone, Copy, Debug, PartialEq, Eq, Structural)]
pub enum TextureSlot {
    Albedo,
    Emission,
}

/// The effect's color output: blended with the configured transparency, or
/// opaque with a fixed depth mode.
#[derive(Clone, Copy, Debug, PartialEq, Eq, Structural)]
pub enum ColorOutput {
    Blended { mask: ColorMask, blend: Blend, depth: Option<DepthMode> },
    Opaque { depth: Option<DepthMode> },
}

/// The compiled effect: the declarations the one-time compile step hands to
/// the external effect builder, as plain data.
pub struct Effect {
    pub program: Program,
    pub vertex_buffers: Vec<VertexBufferDecl>,
    pub uniforms: Vec<UniformBlock>,
    pub textures: Vec<TextureSlot>,
    pub output: ColorOutput,
}

/// The external shader/effect compiler's build context. Whether the program
/// sources compile is the compiler's to decide; the flag stands for that
/// outcome.
#[derive(Clone, Copy, Debug, PartialEq, Eq, Structural)]
pub struct NewEffect {
    pub compile_fails: bool,
}

/// The vertex buffers the pass declares: position, normal and texture
/// coordinates, one buffer each, plus the joint ids and joint weights when
/// skinning is enabled. Strides are in bytes: three 32-bit floats for
/// position and normal, two for texture coordinates, four 16-bit ids and
/// four 32-bit weights for skinning.
pub open spec fn spec_vertex_layout(skinning: bool) -> Seq<VertexBufferDecl> {
    let base = seq![
        VertexBufferDecl { attr: VertexAttr::Position, stride: 12 },
        VertexBufferDecl { attr: VertexAttr::Normal, stride: 12 },
        VertexBufferDecl { attr: VertexAttr::TexCoord, stride: 8 },
    ];
    if skinning {
        base + seq![
            VertexBufferDecl { attr: VertexAttr::JointIds, stride: 8 },
            VertexBufferDecl { attr: VertexAttr::JointWeights, stride: 16 },
        ]
    } else {
        base
    }
}

/// The uniform blocks the pass declares; the joint matrices come first when
/// skinning is enabled, as the skinning setup runs before the shared setup.
pub open spec fn spec_uniform_layout(skinning: bool) -> Seq<UniformBlock> {
    if skinning {
        seq![UniformBlock::JointTransforms, UniformBlock::VertexArgs, UniformBlock::LightArgs]
    } else {
        seq![UniformBlock::VertexArgs, UniformBlock::LightArgs]
    }
}

/// The color output for a transparency setting: blended with the given
/// values when configured, else opaque with a less-equal, writing depth test.
pub open spec fn spec_color_output(
    transparency: Option<(ColorMask, Blend, Option<DepthMode>)>,
) -> ColorOutput {
    match transparency {
        Some(t) => ColorOutput::Blended { mask: t.0, blend: t.1, depth: t.2 },
        None => ColorOutput::Opaque { depth: Some(DepthMode::LessEqualWrite) },
    }
}

impl DrawShadedSeparate {
    /// One-time phase: lays out the effect for this descriptor. Idempotent —
    /// the result depends on the descriptor and context alone — and does no
    /// per-frame work. Fails exactly when the external compiler rejects the
    /// program sources.
    pub fn compile(&self, effect: NewEffect) -> (r: Result<Effect, BuildError>)
        ensures
            !effect.compile_fails ==> (r matches Ok(eff) && {
                &&& eff.program == (if self.skinning {
                    Program::Skinned
                } else {
                    Program::Plain
                })
                &&& eff.vertex_buffers@ == spec_vertex_layout(self.skinning)
                &&& eff.uniforms@ == spec_uniform_layout(self.skinning)
                &&& eff.textures@ == seq![TextureSlot::Albedo, TextureSlot::Emission]
                &&& eff.output == spec_color_output(self.transparency)
            }),
            effect.compile_fails ==> (r matches Err(e) && e == BuildError::EffectCompilation),
    {
        if effect.compile_fails {
            return Err(BuildError::EffectCompilation);
        }
        let program = if self.skinning {
            Program::Skinned
        } else {
            Program::Plain
        };
        let mut vertex_buffers: Vec<VertexBufferDecl> = Vec::new();
        vertex_buffers.push(VertexBufferDecl { attr: VertexAttr::Position, stride: 12 });
        vertex_buffers.push(VertexBufferDecl { attr: VertexAttr::Normal, stride: 12 });
        vertex_buffers.push(VertexBufferDecl { attr: VertexAttr::TexCoord, stride: 8 });
        let mut uniforms: Vec<UniformBlock> = Vec::new();
        if self.skinning {
            vertex_buffers.push(VertexBufferDecl { attr: VertexAttr::JointIds, stride: 8 });
            vertex_buffers.push(VertexBufferDecl { attr: VertexAttr::JointWeights, stride: 16 });
            uniforms.push(UniformBlock::JointTransforms);
        }
        uniforms.push(UniformBlock::VertexArgs);
        uniforms.push(UniformBlock::LightArgs);
        let mut textures: Vec<TextureSlot> = Vec::new();
        textures.push(TextureSlot::Albedo);
        textures.push(TextureSlot::Emission);
        let output = match self.transparency {
            Some((mask, blend, depth)) => ColorOutput::Blended { mask, blend, depth },
            None => ColorOutput::Opaque { depth: Some(DepthMode::LessEqualWrite) },
        };
        proof {
            assert(vertex_buffers@ =~= spec_vertex_layout(self.skinning));
            assert(uniforms@ =~= spec_uniform_layout(self.skinning));
            assert(textures@ =~= seq![TextureSlot::Albedo, TextureSlot::Emission]);
        }
        Ok(Effect { program, vertex_buffers, uniforms, textures, output })
    }
}

/// Everything the shaded pass reads in one frame: the camera selection, the
/// shared resources, the optional visibility result, and one store per
/// component kind.
pub struct ShadedFrame {
    pub active: ActiveCamera,
    pub cameras: Store<Camera>,
    pub ambient: Rgba,
    pub mesh_storage: Store<GpuMesh>,
    pub material_defaults: Material,
    pub visibility: Option<Visibility>,
    pub hidden: Store<Hidden>,
    pub hidden_prop: Store<HiddenPropagate>,
    pub meshes: Store<MeshHandle>,
    pub materials: Store<Material>,
    pub transforms: Store<Transform>,
    pub lights: Store<Light>,
    pub joints: Store<JointTransforms>,
    pub tints: Store<Rgba>,
}

/// One planned draw call: the resolved mesh and the per-entity bindings,
/// with every degradation already applied.
#[derive(Clone, Copy, Debug, PartialEq)]
pub struct DrawCall {
    pub entity: u64,
    pub mesh: GpuMesh,
    pub material: Material,
    pub transform: Transform,
    pub joints: Option<JointTransforms>,
    pub tint: Rgba,
}

/// Everything `apply` feeds the encoder for one frame: the per-frame data
/// uploaded once (camera, ambient color, light array), then the draw calls
/// in issue order.
pub struct ShadedOutput {
    pub skinning: bool,
    pub camera: Option<(Camera, Transform)>,
    pub ambient: Rgba,
    pub lights: Vec<(Light, Transform)>,
    pub draws: Vec<DrawCall>,
}

/// The tint to draw with: the entity's own, or opaque white without one.
pub open spec fn tint_or_white(t: Option<Rgba>) -> Rgba {
    match t {
        Some(c) => c,
        None => spec_opaque_white(),
    }
}

/// The draw call for one mesh-store row when mesh, material and transform
/// all join: the loaded mesh with the entity's own components, the joints
/// and tint optional. `None` when the material or transform is missing or
/// the mesh asset has not loaded.
pub open spec fn joined_draw(f: ShadedFrame, row: (u64, MeshHandle)) -> Option<DrawCall> {
    match (lookup(f.materials@, row.0), lookup(f.transforms@, row.0)) {
        (Some(material), Some(transform)) => match lookup(f.mesh_storage@, row.1.0) {
            Some(mesh) => Some(
                DrawCall {
                    entity: row.0,
                    mesh,
                    material,
                    transform,
                    joints: lookup(f.joints@, row.0),
                    tint: tint_or_white(lookup(f.tints@, row.0)),
                },
            ),
            None => None,
        },
        _ => None,
    }
}

/// The draw call for a mesh-store row in the no-visibility strategy: the
/// join, with hidden and hidden-propagate entities excluded.
pub open spec fn unordered_draw(f: ShadedFrame, row: (u64, MeshHandle)) -> Option<DrawCall> {
    if lookup(f.hidden@, row.0) is Some || lookup(f.hidden_prop@, row.0) is Some {
        None
    } else {
        joined_draw(f, row)
    }
}

/// The draw call for a mesh-store row in the visibility strategy's
/// order-independent part: the join, restricted to members of the
/// visibility result's unordered set.
pub open spec fn culled_draw(f: ShadedFrame, unordered: Seq<u64>, row: (u64, MeshHandle)) -> Option<
    DrawCall,
> {
    if unordered.contains(row.0) {
        joined_draw(f, row)
    } else {
        None
    }
}

/// The draw call for an entity of the visibility result's ordered list.
/// Only a missing mesh component or an unloaded mesh asset skips the draw;
/// a missing material, transform, joints or tint degrades to the material
/// defaults, the identity transform, no joints or an opaque white tint.
pub open spec fn ordered_draw(f: ShadedFrame, e: u64) -> Option<DrawCall> {
    match lookup(f.meshes@, e) {
        Some(h) => match lookup(f.mesh_storage@, h.0) {
            Some(mesh) => Some(
                DrawCall {
                    entity: e,
                    mesh,
                    material: match lookup(f.materials@, e) {
                        Some(m) => m,
                        None => f.material_defaults,
                    },
                    transform: match lookup(f.transforms@, e) {
                        Some(t) => t,
                        None => Transform::Identity,
                    },
                    joints: lookup(f.joints@, e),
                    tint: tint_or_white(lookup(f.tints@, e)),
                },
            ),
            None => None,
        },
        None => None,
    }
}

/// The draws of the no-visibility strategy, in mesh-store order.
pub open spec fn unordered_draws(f: ShadedFrame) -> Seq<DrawCall> {
    f.meshes@.filter_map(|row: (u64, MeshHandle)| unordered_draw(f, row))
}

/// The order-independent draws of the visibility strategy, in mesh-store
/// order.
pub open spec fn culled_draws(f: ShadedFrame, unordered: Seq<u64>) -> Seq<DrawCall> {
    f.meshes@.filter_map(|row: (u64, MeshHandle)| culled_draw(f, unordered, row))
}

/// The ordered draws of the visibility strategy, in the ordered list's own
/// sequence.
pub open spec fn ordered_draws(f: ShadedFrame, ordered: Seq<u64>) -> Seq<DrawCall> {
    ordered.filter_map(|e: u64| ordered_draw(f, e))
}

/// The frame's full draw sequence: either strategy, the ordered draws last.
pub open spec fn shaded_draws(f: ShadedFrame) -> Seq<DrawCall> {
    match f.visibility {
        None => unordered_draws(f),
        Some(v) => culled_draws(f, v.visible_unordered@) + ordered_draws(f, v.visible_ordered@),
    }
}

/// The light bound to a light-store row: the light with its transform, or
/// nothing when the entity has no transform.
pub open spec fn light_binding(f: ShadedFrame, row: (u64, Light)) -> Option<(Light, Transform)> {
    match lookup(f.transforms@, row.0) {
        Some(t) => Some((row.1, t)),
        None => None,
    }
}

/// The light array uploaded once per frame: every light joined with its
/// transform, in light-store order.
pub open spec fn light_uploads(f: ShadedFrame) -> Seq<(Light, Transform)> {
    f.lights@.filter_map(|row: (u64, Light)| light_binding(f, row))
}

/// The first camera-store row whose entity also has a transform.
pub open spec fn first_camera(
    cameras: Seq<(u64, Camera)>,
    transforms: Seq<(u64, Transform)>,
) -> Option<(Camera, Transform)>
    decreases cameras.len(),
{
    if cameras.len() == 0 {
        None
    } else {
        match lookup(transforms, cameras[0].0) {
            Some(t) => Some((cameras[0].1, t)),
            None => first_camera(cameras.drop_first(), transforms),
        }
    }
}

/// The camera view of the frame: the active-camera target when it has both
/// a camera and a transform, else the first usable camera in store order,
/// else nothing — an empty scene renders with no camera rather than failing.
pub open spec fn camera_for(f: ShadedFrame) -> Option<(Camera, Transform)> {
    match f.active.entity {
        Some(e) => match (lookup(f.cameras@, e), lookup(f.transforms@, e)) {
            (Some(c), Some(t)) => Some((c, t)),
            _ => first_camera(f.cameras@, f.transforms@),
        },
        None => first_camera(f.cameras@, f.transforms@),
    }
}

/// Resolves the frame's camera; see [`camera_for`].
pub fn get_camera(frame: &ShadedFrame) -> (r: Option<(Camera, Transform)>)
    ensures
        r == camera_for(*frame),
{
    match frame.active.entity {
        Some(e) => match (frame.cameras.get(e), frame.transforms.get(e)) {
            (Some(c), Some(t)) => Some((c, t)),
            _ => fallback_camera(frame),
        },
        None => fallback_camera(frame),
    }
}

/// Walks the camera store for the first camera with a transform.
fn fallback_camera(frame: &ShadedFrame) -> (r: Option<(Camera, Transform)>)
    ensures
        r == first_camera(frame.cameras@, frame.transforms@),
{
    let n = frame.cameras.len();
    let mut i: usize = 0;
    proof {
        assert(frame.cameras@.skip(0) =~= frame.cameras@);
    }
    while i < n
        invariant
            n == frame.cameras@.len(),
            i <= n,
            first_camera(frame.cameras@.skip(i as int), frame.transforms@) == first_camera(
                frame.cameras@,
                frame.transforms@,
            ),
        decreases n - i,
    {
        let row = frame.cameras.at(i);
        proof {
            assert(frame.cameras@.skip(i as int)[0] == frame.cameras@[i as int]);
        }
        match frame.transforms.get(row.0) {
            Some(t) => {
                return Some((row.1, t));
            },
            None => {},
        }
        proof {
            assert(frame.cameras@.skip(i as int).drop_first() =~= frame.cameras@.skip(i as int + 1));
        }
        i += 1;
    }
    None
}

/// Whether `x` occurs in `xs`.
fn vec_contains(xs: &Vec<u64>, x: u64) -> (r: bool)
    ensures
        r == xs@.contains(x),
{
    let n = xs.len();
    let mut i: usize = 0;
    while i < n
        invariant
            n == xs@.len(),
            i <= n,
            forall|j: int| 0 <= j < i ==> xs@[j] != x,
        decreases n - i,
    {
        if xs[i] == x {
            return true;
        }
        i += 1;
    }
    false
}

/// Executable counterpart of [`joined_draw`].
fn joined_draw_at(frame: &ShadedFrame, row: (u64, MeshHandle)) -> (r: Option<DrawCall>)
    ensures
        r == joined_draw(*frame, row),
{
    let material = match frame.materials.get(row.0) {
        Some(m) => m,
        None => {
            return None;
        },
    };
    let transform = match frame.transforms.get(row.0) {
        Some(t) => t,
        None => {
            return None;
        },
    };
    let handle = row.1;
    let mesh = match frame.mesh_storage.get(handle.0) {
        Some(m) => m,
        None => {
            return None;
        },
    };
    let tint = match frame.tints.get(row.0) {
        Some(c) => c,
        None => opaque_white(),
    };
    Some(
        DrawCall {
            entity: row.0,
            mesh,
            material,
            transform,
            joints: frame.joints.get(row.0),
            tint,
        },
    )
}

/// Executable counterpart of [`ordered_draw`].
fn ordered_draw_at(frame: &ShadedFrame, e: u64) -> (r: Option<DrawCall>)
    ensures
        r == ordered_draw(*frame, e),
{
    let handle = match frame.meshes.get(e) {
        Some(h) => h,
        None => {
            return None;
        },
    };
    let mesh = match frame.mesh_storage.get(handle.0) {
        Some(m) => m,
        None => {
            return None;
        },
    };
    let material = match frame.materials.get(e) {
        Some(m) => m,
        None => frame.material_defaults,
    };
    let transform = match frame.transforms.get(e) {
        Some(t) => t,
        None => Transform::Identity,
    };
    let tint = match frame.tints.get(e) {
        Some(c) => c,
        None => opaque_white(),
    };
    Some(DrawCall { entity: e, mesh, material, transform, joints: frame.joints.get(e), tint })
}

/// Plans the no-visibility strategy's draws.
fn collect_unordered(frame: &ShadedFrame) -> (out: Vec<DrawCall>)
    ensures
        out@ == unordered_draws(*frame),
{
    let n = frame.meshes.len();
    let mut out: Vec<DrawCall> = Vec::new();
    let mut i: usize = 0;
    proof {
        assert(frame.meshes@.take(0) =~= Seq::<(u64, MeshHandle)>::empty());
    }
    while i < n
        invariant
            n == frame.meshes@.len(),
            i <= n,
            out@ == frame.meshes@.take(i as int).filter_map(
                |row: (u64, MeshHandle)| unordered_draw(*frame, row),
            ),
        decreases n - i,
    {
        let row = frame.meshes.at(i);
        proof {
            frame.meshes@.lemma_filter_map_take_succ(
                |row: (u64, MeshHandle)| unordered_draw(*frame, row),
                i as int,
            );
        }
        let hidden = frame.hidden.get(row.0).is_some() || frame.hidden_prop.get(row.0).is_some();
        if !hidden {
            match joined_draw_at(frame, row) {
                Some(c) => {
                    out.push(c);
                },
                None => {},
            }
        }
        proof {
            assert(out@ =~= frame.meshes@.take(i as int + 1).filter_map(
                |row: (u64, MeshHandle)| unordered_draw(*frame, row),
            ));
        }
        i += 1;
    }
    proof {
        assert(frame.meshes@.take(n as int) =~= frame.meshes@);
    }
    out
}

/// Plans the visibility strategy's order-independent draws.
fn collect_culled(frame: &ShadedFrame, v: &Visibility) -> (out: Vec<DrawCall>)
    ensures
        out@ == culled_draws(*frame, v.visible_unordered@),
{
    let n = frame.meshes.len();
    let mut out: Vec<DrawCall> = Vec::new();
    let mut i: usize = 0;
    proof {
        assert(frame.meshes@.take(0) =~= Seq::<(u64, MeshHandle)>::empty());
    }
    while i < n
        invariant
            n == frame.meshes@.len(),
            i <= n,
            out@ == frame.meshes@.take(i as int).filter_map(
                |row: (u64, MeshHandle)| culled_draw(*frame, v.visible_unordered@, row),
            ),
        decreases n - i,
    {
        let row = frame.meshes.at(i);
        proof {
            frame.meshes@.lemma_filter_map_take_succ(
                |row: (u64, MeshHandle)| culled_draw(*frame, v.visible_unordered@, row),
                i as int,
            );
        }
        if vec_contains(&v.visible_unordered, row.0) {
            match joined_draw_at(frame, row) {
                Some(c) => {
                    out.push(c);
                },
                None => {},
            }
        }
        proof {
            assert(out@ =~= frame.meshes@.take(i as int + 1).filter_map(
                |row: (u64, MeshHandle)| culled_draw(*frame, v.visible_unordered@, row),
            ));
        }
        i += 1;
    }
    proof {
        assert(frame.meshes@.take(n as int) =~= frame.meshes@);
    }
    out
}

/// Plans the visibility strategy's ordered draws, in the list's sequence.
fn collect_ordered(frame: &ShadedFrame, v: &Visibility) -> (out: Vec<DrawCall>)
    ensures
        out@ == ordered_draws(*frame, v.visible_ordered@),
{
    let n = v.visible_ordered.len();
    let mut out: Vec<DrawCall> = Vec::new();
    let mut i: usize = 0;
    proof {
        assert(v.visible_ordered@.take(0) =~= Seq::<u64>::empty());
    }
    while i < n
        invariant
            n == v.visible_ordered@.len(),
            i <= n,
            out@ == v.visible_ordered@.take(i as int).filter_map(
                |e: u64| ordered_draw(*frame, e),
            ),
        decreases n - i,
    {
        let e = v.visible_ordered[i];
        proof {
            v.visible_ordered@.lemma_filter_map_take_succ(
                |e: u64| ordered_draw(*frame, e),
                i as int,
            );
        }
        match ordered_draw_at(frame, e) {
            Some(c) => {
                out.push(c);
            },
            None => {},
        }
        proof {
            assert(out@ =~= v.visible_ordered@.take(i as int + 1).filter_map(
                |e: u64| ordered_draw(*frame, e),
            ));
        }
        i += 1;
    }
    proof {
        assert(v.visible_ordered@.take(n as int) =~= v.visible_ordered@);
    }
    out
}

/// Gathers the frame's light array.
fn collect_lights(frame: &ShadedFrame) -> (out: Vec<(Light, Transform)>)
    ensures
        out@ == light_uploads(*frame),
{
    let n = frame.lights.len();
    let mut out: Vec<(Light, Transform)> = Vec::new();
    let mut i: usize = 0;
    proof {
        assert(frame.lights@.take(0) =~= Seq::<(u64, Light)>::empty());
    }
    while i < n
        invariant
            n == frame.lights@.len(),
            i <= n,
            out@ == frame.lights@.take(i as int).filter_map(
                |row: (u64, Light)| light_binding(*frame, row),
            ),
        decreases n - i,
    {
        let row = frame.lights.at(i);
        proof {
            frame.lights@.lemma_filter_map_take_succ(
                |row: (u64, Light)| light_binding(*frame, row),
                i as int,
            );
        }
        match frame.transforms.get(row.0) {
            Some(t) => {
                out.push((row.1, t));
            },
            None => {},
        }
        proof {
            assert(out@ =~= frame.lights@.take(i as int + 1).filter_map(
                |row: (u64, Light)| light_binding(*frame, row),
            ));
        }
        i += 1;
    }
    proof {
        assert(frame.lights@.take(n as int) =~= frame.lights@);
    }
    out
}

impl DrawShadedSeparate {
    /// Per-frame phase: resolves the camera, gathers the ambient and light
    /// data uploaded once for the frame, and plans the draw calls under
    /// whichever entity-selection strategy the frame calls for. Never fails:
    /// missing assets and components degrade or skip as the strategy
    /// prescribes, and an empty scene yields no camera and no draws.
    pub fn apply(&self, frame: &ShadedFrame) -> (out: ShadedOutput)
        ensures
            out.skinning == self.skinning,
            out.camera == camera_for(*frame),
            out.ambient == frame.ambient,
            out.lights@ == light_uploads(*frame),
            out.draws@ == shaded_draws(*frame),
    {
        let camera = get_camera(frame);
        let lights = collect_lights(frame);
        let draws = match &frame.visibility {
            None => collect_unordered(frame),
            Some(v) => {
                let mut d = collect_culled(frame, v);
                let mut o = collect_ordered(frame, v);
                d.append(&mut o);
                d
            },
        };
        ShadedOutput { skinning: self.skinning, camera, ambient: frame.ambient, lights, draws }
    }
}

/// The entities of a draw sequence, in draw order.
pub open spec fn draw_entities(calls: Seq<DrawCall>) -> Seq<u64> {
    calls.map_values(|c: DrawCall| c.entity)
}

/// A member of a sequence whose image under `f` is some value appears in the
/// sequence's filter-map.
proof fn lemma_filter_map_mem<A, B>(s: Seq<A>, f: spec_fn(A) -> Option<B>, i: int, v: B)
    requires
        0 <= i < s.len(),
        f(s[i]) == Some(v),
    ensures
        s.filter_map(f).contains(v),
    decreases s.len(),
{
    if i == s.len() - 1 {
        assert(s.filter_map(f) == s.drop_last().filter_map(f) + seq![v]);
        assert(s.filter_map(f)[s.filter_map(f).len() - 1] == v);
    } else {
        assert(s.drop_last()[i] == s[i]);
        lemma_filter_map_mem(s.drop_last(), f, i, v);
        let r = s.drop_last().filter_map(f);
        let k = choose|k: int| 0 <= k < r.len() && r[k] == v;
        match f(s.last()) {
            Some(b) => {
                assert(s.filter_map(f) == r + seq![b]);
                assert(s.filter_map(f)[k] == v);
            },
            None => {
                assert(s.filter_map(f) == r);
            },
        }
    }
}

/// The ordered draws visit exactly the drawable entities of the ordered
/// list, in the list's own sequence.
proof fn lemma_ordered_entities(f: ShadedFrame, ordered: Seq<u64>)
    ensures
        draw_entities(ordered_draws(f, ordered)) =~= ordered.filter(
            |e: u64| ordered_draw(f, e) is Some,
        ),
    decreases ordered.len(),
{
    reveal(Seq::filter);
    let g = |e: u64| ordered_draw(f, e);
    let p = |e: u64| ordered_draw(f, e) is Some;
    if ordered.len() == 0 {
    } else {
        let rest = ordered.drop_last();
        let e = ordered.last();
        lemma_ordered_entities(f, rest);
        match g(e) {
            Some(c) => {
                assert(c.entity == e);
                assert(ordered_draws(f, ordered) == ordered_draws(f, rest) + seq![c]);
                assert(draw_entities(ordered_draws(f, ordered)) =~= draw_entities(
                    ordered_draws(f, rest),
                ).push(e));
                assert(ordered.filter(p) == rest.filter(p).push(e));
            },
            None => {
                assert(ordered_draws(f, ordered) == ordered_draws(f, rest));
                assert(ordered.filter(p) == rest.filter(p));
            },
        }
    }
}

/// Law: with a visibility result, the frame's draw sequence is exactly the
/// order-independent draws followed by the ordered draws — every unordered
/// draw strictly precedes every ordered draw — and the ordered draws visit
/// `visible_ordered`'s drawable entities in the given sequence.
pub proof fn lemma_visibility_draw_order(f: ShadedFrame, v: Visibility)
    requires
        f.visibility == Some(v),
    ensures
        shaded_draws(f) == culled_draws(f, v.visible_unordered@) + ordered_draws(
            f,
            v.visible_ordered@,
        ),
        draw_entities(ordered_draws(f, v.visible_ordered@)) == v.visible_ordered@.filter(
            |e: u64| ordered_draw(f, e) is Some,
        ),
{
    lemma_ordered_entities(f, v.visible_ordered@);
}

/// Law: an entity with no mesh component is never drawn — by either
/// strategy, in either part — and its absence raises no error.
pub proof fn lemma_no_mesh_no_draw(f: ShadedFrame, e: u64)
    requires
        lookup(f.meshes@, e) is None,
    ensures
        forall|i: int|
            0 <= i < shaded_draws(f).len() ==> (#[trigger] shaded_draws(f)[i]).entity != e,
{
    lemma_lookup_none(f.meshes@, e);
    let s = shaded_draws(f);
    assert forall|i: int| 0 <= i < s.len() implies (#[trigger] s[i]).entity != e by {
        match f.visibility {
            None => {
                let g = |row: (u64, MeshHandle)| unordered_draw(f, row);
                assert(s.contains(s[i]));
                f.meshes@.lemma_filter_map_contains(g, s[i]);
                let t = choose|t: (u64, MeshHandle)|
                    #[trigger] f.meshes@.contains(t) && g(t) == Some(s[i]);
                let k = choose|k: int| 0 <= k < f.meshes@.len() && f.meshes@[k] == t;
                assert(s[i].entity == t.0);
            },
            Some(v) => {
                let a = culled_draws(f, v.visible_unordered@);
                let b = ordered_draws(f, v.visible_ordered@);
                if i < a.len() {
                    let g = |row: (u64, MeshHandle)| culled_draw(f, v.visible_unordered@, row);
                    assert(a.contains(a[i]));
                    f.meshes@.lemma_filter_map_contains(g, a[i]);
                    let t = choose|t: (u64, MeshHandle)|
                        #[trigger] f.meshes@.contains(t) && g(t) == Some(a[i]);
                    let k = choose|k: int| 0 <= k < f.meshes@.len() && f.meshes@[k] == t;
                    assert(s[i] == a[i]);
                    assert(s[i].entity == t.0);
                } else {
                    let g = |x: u64| ordered_draw(f, x);
                    assert(s[i] == b[i - a.len()]);
                    assert(b.contains(b[i - a.len()]));
                    v.visible_ordered@.lemma_filter_map_contains(g, b[i - a.len()]);
                    let t = choose|t: u64|
                        #[trigger] v.visible_ordered@.contains(t) && g(t) == Some(b[i - a.len()]);
                    assert(s[i].entity == t);
                    assert(lookup(f.meshes@, t) is Some);
                }
            },
        }
    };
}

/// Law: an ordered entity whose mesh component is present and whose mesh
/// asset has loaded is drawn even when its other components are missing;
/// the draw degrades to the material defaults, the identity transform, no
/// joints and an opaque white tint respectively.
pub proof fn lemma_ordered_draw_degrades(f: ShadedFrame, ordered: Seq<u64>, i: int)
    requires
        0 <= i < ordered.len(),
        lookup(f.meshes@, ordered[i]) matches Some(h) && lookup(f.mesh_storage@, h.0) is Some,
    ensures
        ordered_draw(f, ordered[i]) matches Some(c) ==> {
            &&& ordered_draws(f, ordered).contains(c)
            &&& c.entity == ordered[i]
            &&& (lookup(f.materials@, ordered[i]) is None ==> c.material == f.material_defaults)
            &&& (lookup(f.transforms@, ordered[i]) is None ==> c.transform == Transform::Identity)
            &&& c.joints == lookup(f.joints@, ordered[i])
            &&& (lookup(f.tints@, ordered[i]) is None ==> c.tint == spec_opaque_white())
        },
        ordered_draw(f, ordered[i]) is Some,
{
    let g = |e: u64| ordered_draw(f, e);
    match ordered_draw(f, ordered[i]) {
        Some(c) => lemma_filter_map_mem(ordered, g, i, c),
        None => (),
    }
}

/// Law: with no active-camera target and no camera entities at all, camera
/// resolution yields the well-defined "no camera" fallback rather than a
/// failure; `apply` itself has no precondition, so an empty scene renders.
pub proof fn lemma_no_camera_fallback(f: ShadedFrame)
    requires
        f.active.entity is None,
        f.cameras@.len() == 0,
    ensures
        camera_for(f) is None,
{
}

} // verus!

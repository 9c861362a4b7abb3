//! The skybox pass: a procedurally generated sphere shaded with a vertical
//! color gradient between a nadir and a zenith color.
//!
//! The pass owns its pipeline and pipeline layout and must release them
//! explicitly; shader modules are transient and are destroyed right after
//! pipeline construction, and on a failed pipeline build the already-created
//! layout is destroyed before the error propagates, so the factory's create
//! and destroy counts balance on the failure path. Per frame, `prepare`
//! resolves the gradient colors (a scene-level override, or the instance's
//! defaults), writes them into the frame-indexed uniform slot, and reports
//! whether the slot's contents changed, which lets the caller reuse the
//! recorded draw commands when nothing moved.

use vstd::prelude::*;

use crate::color::Rgb;
use crate::device::{BuildError, Factory, Handle};

verus! {

/// The gradient endpoints of the skybox: the color at the bottom of the
/// sphere (nadir) and at the top (zenith). A scene may register this as a
/// resource to override a pass instance's defaults.
#[derive(Clone, Copy, Debug, PartialEq, Eq, Structural)]
pub struct SkyboxSettings {
    pub nadir_color: Rgb,
    pub zenith_color: Rgb,
}

/// The settings used when the scene registers no override and the descriptor
/// was given no explicit colors: a muted teal nadir under a pale cyan zenith.
pub open spec fn spec_default_skybox_settings() -> SkyboxSettings {
    SkyboxSettings {
        nadir_color: Rgb { r: 100, g: 300, b: 350 },
        zenith_color: Rgb { r: 750, g: 1000, b: 1000 },
    }
}

impl Default for SkyboxSettings {
    fn default() -> (s: Self)
        ensures
            s == spec_default_skybox_settings(),
    {
        SkyboxSettings {
            nadir_color: Rgb { r: 100, g: 300, b: 350 },
            zenith_color: Rgb { r: 750, g: 1000, b: 1000 },
        }
    }
}

/// The per-frame uniform record the fragment stage reads: the two gradient
/// colors, laid out for upload.
#[derive(Clone, Copy, Debug, PartialEq, Eq, Structural)]
pub struct SkyboxUniform {
    pub nadir_color: Rgb,
    pub zenith_color: Rgb,
}

/// The uniform record carrying `s`'s colors.
pub open spec fn spec_uniform(s: SkyboxSettings) -> SkyboxUniform {
    SkyboxUniform { nadir_color: s.nadir_color, zenith_color: s.zenith_color }
}

impl SkyboxSettings {
    /// The uniform record to upload for these settings.
    pub fn uniform(&self) -> (u: SkyboxUniform)
        ensures
            u == spec_uniform(*self),
    {
        SkyboxUniform { nadir_color: self.nadir_color, zenith_color: self.zenith_color }
    }
}

/// The uniform a frame resolves to: the override resource's colors when the
/// scene registers one, else the instance's stored defaults.
pub open spec fn spec_resolved(
    defaults: SkyboxSettings,
    override_settings: Option<SkyboxSettings>,
) -> SkyboxUniform {
    match override_settings {
        Some(s) => spec_uniform(s),
        None => spec_uniform(defaults),
    }
}

/// The contents of frame slot `i`: `None` when the slot was never written.
pub open spec fn slot_at(slots: Seq<Option<SkyboxUniform>>, i: int) -> Option<SkyboxUniform> {
    if 0 <= i < slots.len() {
        slots[i]
    } else {
        None
    }
}

/// Whether writing `v` into slot `i` changes the slot's contents.
pub open spec fn write_changed(
    slots: Seq<Option<SkyboxUniform>>,
    i: int,
    v: SkyboxUniform,
) -> bool {
    slot_at(slots, i) != Some(v)
}

/// The slots after writing `v` into slot `i`: the sequence grows with empty
/// slots as needed, slot `i` holds `v`, and every other slot is unchanged.
pub open spec fn spec_write(
    slots: Seq<Option<SkyboxUniform>>,
    i: int,
    v: SkyboxUniform,
) -> Seq<Option<SkyboxUniform>>
    recommends
        0 <= i,
{
    Seq::new(
        if i < slots.len() {
            slots.len()
        } else {
            (i + 1) as nat
        },
        |j: int|
            if j == i {
                Some(v)
            } else if 0 <= j < slots.len() {
                slots[j]
            } else {
                None
            },
    )
}

/// The frame-indexed uniform buffer for the gradient colors: one slot per
/// in-flight frame, written only at the current frame's index.
pub struct DynamicUniform {
    pub slots: Vec<Option<SkyboxUniform>>,
}

impl DynamicUniform {
    /// A binder with no slot written yet.
    pub fn new() -> (u: DynamicUniform)
        ensures
            u.slots@ == Seq::<Option<SkyboxUniform>>::empty(),
    {
        DynamicUniform { slots: Vec::new() }
    }

    /// Writes `value` into frame slot `index` and reports whether the slot's
    /// contents changed. Slots for frames not yet seen count as unwritten.
    pub fn write(&mut self, index: usize, value: SkyboxUniform) -> (changed: bool)
        requires
            index < usize::MAX,
        ensures
            final(self).slots@ == spec_write(old(self).slots@, index as int, value),
            changed == write_changed(old(self).slots@, index as int, value),
    {
        while self.slots.len() <= index
            invariant
                index < usize::MAX,
                self.slots@.len() >= old(self).slots@.len(),
                self.slots@.len() <= index + 1 || self.slots@.len() == old(self).slots@.len(),
                forall|j: int|
                    0 <= j < old(self).slots@.len() ==> self.slots@[j] == old(self).slots@[j],
                forall|j: int|
                    old(self).slots@.len() <= j < self.slots@.len() ==> self.slots@[j] is None,
            decreases index + 1 - self.slots.len(),
        {
            self.slots.push(None);
        }
        let changed = match self.slots[index] {
            Some(u) => u != value,
            None => true,
        };
        self.slots[index] = Some(value);
        proof {
            assert(final(self).slots@ =~= spec_write(old(self).slots@, index as int, value));
        }
        changed
    }
}

/// The camera-independent environment binder shared by passes that need
/// ambient data; the skybox refreshes it for the current frame index.
#[derive(Clone, Copy, Debug, PartialEq, Eq, Structural)]
pub struct EnvironmentSub {
    /// The frame index last refreshed, if any.
    pub last_prepared: Option<usize>,
}

impl EnvironmentSub {
    /// A binder that has not been refreshed yet.
    pub fn new() -> (e: EnvironmentSub)
        ensures
            e.last_prepared is None,
    {
        EnvironmentSub { last_prepared: None }
    }

    /// Refreshes the environment data for frame `index`.
    pub fn process(&mut self, index: usize)
        ensures
            final(self).last_prepared == Some(index),
    {
        self.last_prepared = Some(index);
    }
}

/// Vertices in the unit sphere mesh: a 16 by 16 subdivision, six vertices
/// per cell once each quad is split into two triangles.
pub const SPHERE_VERTEX_COUNT: u32 = 16 * 16 * 6;

/// The skybox geometry resident on the GPU. The pass only needs the vertex
/// range to cover when drawing.
#[derive(Clone, Copy, Debug, PartialEq, Eq, Structural)]
pub struct SkyMesh {
    pub vertex_count: u32,
}

/// The procedurally generated unit sphere, uploaded through the external
/// command queue; position and texture coordinates per vertex.
pub fn unit_sphere_mesh() -> (m: SkyMesh)
    ensures
        m.vertex_count == SPHERE_VERTEX_COUNT,
{
    SkyMesh { vertex_count: SPHERE_VERTEX_COUNT }
}

/// Whether `prepare` asks the caller to re-record draw commands for the
/// frame, or lets it reuse what was recorded before.
#[derive(Clone, Copy, Debug, PartialEq, Eq, Structural)]
pub enum PrepareResult {
    /// The uniform contents changed: record the draw again.
    DrawRecord,
    /// Nothing changed: the previously recorded commands still apply.
    DrawReuse,
}

/// One command recorded into the render-pass encoder by the skybox draw.
#[derive(Clone, Copy, Debug, PartialEq, Eq, Structural)]
pub enum RenderCommand {
    /// Bind the graphics pipeline.
    BindPipeline(Handle),
    /// Bind the environment resource set for the frame.
    BindEnvironmentSet { layout: Handle, slot: u32, frame_index: usize },
    /// Bind the gradient-color resource set for the frame.
    BindColorSet { layout: Handle, slot: u32, frame_index: usize },
    /// Bind the sphere mesh's vertex buffer at binding zero.
    BindMeshVertexBuffer,
    /// Issue a non-indexed draw over the given vertex and instance ranges.
    Draw { vertex_start: u32, vertex_end: u32, instance_start: u32, instance_end: u32 },
}

/// The one-time configuration of a skybox pass: the default gradient colors,
/// used whenever the scene registers no override resource. Pure data; it owns
/// no GPU resources and may be cloned freely before the build step.
#[derive(Clone, Copy, Debug, PartialEq, Eq, Structural)]
pub struct DrawSkyboxDesc {
    pub default_settings: SkyboxSettings,
}

impl Default for DrawSkyboxDesc {
    fn default() -> (d: Self)
        ensures
            d.default_settings == spec_default_skybox_settings(),
    {
        DrawSkyboxDesc { default_settings: SkyboxSettings::default() }
    }
}

impl DrawSkyboxDesc {
    /// A descriptor with the default gradient colors.
    pub fn new() -> (d: Self)
        ensures
            d.default_settings == spec_default_skybox_settings(),
    {
        Default::default()
    }

    /// A descriptor with explicit default gradient colors.
    pub fn with_colors(nadir_color: Rgb, zenith_color: Rgb) -> (d: Self)
        ensures
            d.default_settings == (SkyboxSettings { nadir_color, zenith_color }),
    {
        DrawSkyboxDesc { default_settings: SkyboxSettings { nadir_color, zenith_color } }
    }

    /// Materializes the pass: environment and color binders, the sphere
    /// mesh, and the pipeline with its layout.
    ///
    /// On a failed pipeline build every object created along the way has
    /// been destroyed again when the error propagates: the factory's create
    /// and destroy counts rise by the same amount.
    pub fn build(self, factory: &mut Factory) -> (r: Result<DrawSkybox, BuildError>)
        requires
            old(factory).created + 4 <= u64::MAX,
            old(factory).destroyed + 3 <= u64::MAX,
            old(factory).next_handle + 4 <= u64::MAX,
        ensures
            !old(factory).fail_pipeline_creation ==> (r matches Ok(sky) && {
                &&& sky.pipeline == Handle((old(factory).next_handle + 3) as u64)
                &&& sky.pipeline_layout == Handle(old(factory).next_handle)
                &&& sky.env.last_prepared is None
                &&& sky.colors.slots@ == Seq::<Option<SkyboxUniform>>::empty()
                &&& sky.mesh.vertex_count == SPHERE_VERTEX_COUNT
                &&& sky.default_settings == self.default_settings
                &&& final(factory).created == old(factory).created + 4
                &&& final(factory).destroyed == old(factory).destroyed + 2
            }),
            old(factory).fail_pipeline_creation ==> {
                &&& r == Err::<DrawSkybox, BuildError>(BuildError::PipelineCreation)
                &&& final(factory).created == old(factory).created + 3
                &&& final(factory).destroyed == old(factory).destroyed + 3
            },
            r is Err ==> final(factory).created - old(factory).created == final(factory).destroyed
                - old(factory).destroyed,
            final(factory).fail_pipeline_creation == old(factory).fail_pipeline_creation,
    {
        let env = EnvironmentSub::new();
        let colors = DynamicUniform::new();
        let mesh = unit_sphere_mesh();
        let (pipeline, pipeline_layout) = match build_skybox_pipeline(factory) {
            Ok(handles) => handles,
            Err(e) => {
                return Err(e);
            },
        };
        Ok(
            DrawSkybox {
                pipeline,
                pipeline_layout,
                env,
                colors,
                mesh,
                default_settings: self.default_settings,
            },
        )
    }
}

/// The materialized skybox pass: compiled pipeline state, the two resource
/// binders, the sphere mesh, and the default gradient colors.
pub struct DrawSkybox {
    pub pipeline: Handle,
    pub pipeline_layout: Handle,
    pub env: EnvironmentSub,
    pub colors: DynamicUniform,
    pub mesh: SkyMesh,
    pub default_settings: SkyboxSettings,
}

impl DrawSkybox {
    /// Per-frame step: refreshes the environment binder, resolves the
    /// gradient colors (override resource or stored defaults) and writes
    /// them into frame slot `index`. Reports `DrawRecord` exactly when the
    /// slot's contents changed; otherwise the caller may reuse the draw
    /// commands recorded earlier.
    pub fn prepare(&mut self, index: usize, override_settings: Option<SkyboxSettings>) -> (r:
        PrepareResult)
        requires
            index < usize::MAX,
        ensures
            final(self).colors.slots@ == spec_write(
                old(self).colors.slots@,
                index as int,
                spec_resolved(old(self).default_settings, override_settings),
            ),
            r == (if write_changed(
                old(self).colors.slots@,
                index as int,
                spec_resolved(old(self).default_settings, override_settings),
            ) {
                PrepareResult::DrawRecord
            } else {
                PrepareResult::DrawReuse
            }),
            final(self).env.last_prepared == Some(index),
            final(self).pipeline == old(self).pipeline,
            final(self).pipeline_layout == old(self).pipeline_layout,
            final(self).mesh == old(self).mesh,
            final(self).default_settings == old(self).default_settings,
    {
        let settings = match override_settings {
            Some(s) => s.uniform(),
            None => self.default_settings.uniform(),
        };
        self.env.process(index);
        let changed = self.colors.write(index, settings);
        if changed {
            PrepareResult::DrawRecord
        } else {
            PrepareResult::DrawReuse
        }
    }

    /// Per-frame step: the commands recorded into the encoder, in order —
    /// pipeline, environment set at slot 0, color set at slot 1, the sphere's
    /// vertex buffer, and one non-indexed draw over the whole vertex range
    /// with a single instance.
    pub fn draw_inline(&self, index: usize) -> (cmds: Vec<RenderCommand>)
        ensures
            cmds@ == seq![
                RenderCommand::BindPipeline(self.pipeline),
                RenderCommand::BindEnvironmentSet {
                    layout: self.pipeline_layout,
                    slot: 0,
                    frame_index: index,
                },
                RenderCommand::BindColorSet {
                    layout: self.pipeline_layout,
                    slot: 1,
                    frame_index: index,
                },
                RenderCommand::BindMeshVertexBuffer,
                RenderCommand::Draw {
                    vertex_start: 0,
                    vertex_end: self.mesh.vertex_count,
                    instance_start: 0,
                    instance_end: 1,
                },
            ],
    {
        let mut cmds: Vec<RenderCommand> = Vec::new();
        cmds.push(RenderCommand::BindPipeline(self.pipeline));
        cmds.push(
            RenderCommand::BindEnvironmentSet {
                layout: self.pipeline_layout,
                slot: 0,
                frame_index: index,
            },
        );
        cmds.push(
            RenderCommand::BindColorSet {
                layout: self.pipeline_layout,
                slot: 1,
                frame_index: index,
            },
        );
        cmds.push(RenderCommand::BindMeshVertexBuffer);
        cmds.push(
            RenderCommand::Draw {
                vertex_start: 0,
                vertex_end: self.mesh.vertex_count,
                instance_start: 0,
                instance_end: 1,
            },
        );
        proof {
            assert(cmds@ =~= seq![
                RenderCommand::BindPipeline(self.pipeline),
                RenderCommand::BindEnvironmentSet {
                    layout: self.pipeline_layout,
                    slot: 0,
                    frame_index: index,
                },
                RenderCommand::BindColorSet {
                    layout: self.pipeline_layout,
                    slot: 1,
                    frame_index: index,
                },
                RenderCommand::BindMeshVertexBuffer,
                RenderCommand::Draw {
                    vertex_start: 0,
                    vertex_end: self.mesh.vertex_count,
                    instance_start: 0,
                    instance_end: 1,
                },
            ]);
        }
        cmds
    }

    /// Releases the pipeline and pipeline layout. Must be the last operation
    /// on the instance, called exactly once before the device is torn down.
    pub fn dispose(self, factory: &mut Factory)
        requires
            old(factory).destroyed + 2 <= u64::MAX,
        ensures
            final(factory).destroyed == old(factory).destroyed + 2,
            final(factory).created == old(factory).created,
            final(factory).next_handle == old(factory).next_handle,
            final(factory).fail_pipeline_creation == old(factory).fail_pipeline_creation,
    {
        factory.destroy(self.pipeline);
        factory.destroy(self.pipeline_layout);
    }
}

/// Creates the pipeline layout, compiles the two transient shader modules,
/// builds the graphics pipeline, and destroys the modules again — they are
/// not needed once the pipeline is linked.
///
/// Release obligation on the failure path: when pipeline creation fails, the
/// already-created pipeline layout is destroyed before the error propagates,
/// so the factory's create and destroy counts rise by the same amount.
pub fn build_skybox_pipeline(factory: &mut Factory) -> (r: Result<(Handle, Handle), BuildError>)
    requires
        old(factory).created + 4 <= u64::MAX,
        old(factory).destroyed + 3 <= u64::MAX,
        old(factory).next_handle + 4 <= u64::MAX,
    ensures
        !old(factory).fail_pipeline_creation ==> {
            &&& r == Ok::<(Handle, Handle), BuildError>(
                (Handle((old(factory).next_handle + 3) as u64), Handle(old(factory).next_handle)),
            )
            &&& final(factory).created == old(factory).created + 4
            &&& final(factory).destroyed == old(factory).destroyed + 2
            &&& final(factory).next_handle == old(factory).next_handle + 4
        },
        old(factory).fail_pipeline_creation ==> {
            &&& r == Err::<(Handle, Handle), BuildError>(BuildError::PipelineCreation)
            &&& final(factory).created == old(factory).created + 3
            &&& final(factory).destroyed == old(factory).destroyed + 3
            &&& final(factory).next_handle == old(factory).next_handle + 3
        },
        r is Err ==> final(factory).created - old(factory).created == final(factory).destroyed
            - old(factory).destroyed,
        final(factory).fail_pipeline_creation == old(factory).fail_pipeline_creation,
{
    let pipeline_layout = factory.create_pipeline_layout();
    let shader_vertex = factory.create_shader_module();
    let shader_fragment = factory.create_shader_module();
    let pipeline = factory.create_graphics_pipeline();
    factory.destroy(shader_vertex);
    factory.destroy(shader_fragment);
    match pipeline {
        Err(e) => {
            factory.destroy(pipeline_layout);
            Err(e)
        },
        Ok(p) => Ok((p, pipeline_layout)),
    }
}

/// Law: `prepare` writes the resolved uniform into the frame slot, so a
/// second `prepare` with an unchanged color source finds the slot already
/// holding that uniform and reports nothing to re-record.
pub proof fn lemma_prepare_reuse(
    slots: Seq<Option<SkyboxUniform>>,
    defaults: SkyboxSettings,
    override_settings: Option<SkyboxSettings>,
    index: int,
)
    requires
        0 <= index,
    ensures
        !write_changed(
            spec_write(slots, index, spec_resolved(defaults, override_settings)),
            index,
            spec_resolved(defaults, override_settings),
        ),
{
}

/// Law: changing the override resource to colors that resolve differently
/// between two `prepare` calls on the same frame slot makes the second call
/// report a redraw.
pub proof fn lemma_prepare_redraw(
    slots: Seq<Option<SkyboxUniform>>,
    defaults: SkyboxSettings,
    first_override: Option<SkyboxSettings>,
    second_override: Option<SkyboxSettings>,
    index: int,
)
    requires
        0 <= index,
        spec_resolved(defaults, first_override) != spec_resolved(defaults, second_override),
    ensures
        write_changed(
            spec_write(slots, index, spec_resolved(defaults, first_override)),
            index,
            spec_resolved(defaults, second_override),
        ),
{
}

} // verus!

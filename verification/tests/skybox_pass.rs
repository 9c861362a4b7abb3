use render_pass::color::Rgb;
use render_pass::device::{BuildError, Factory, Handle};
use render_pass::skybox::{
    build_skybox_pipeline, DrawSkyboxDesc, PrepareResult, RenderCommand, SkyboxSettings,
    SPHERE_VERTEX_COUNT,
};

#[test]
fn default_settings_are_the_documented_gradient() {
    let s = SkyboxSettings::default();
    assert_eq!(
        s.nadir_color,
        Rgb {
            r: 100,
            g: 300,
            b: 350
        }
    );
    assert_eq!(
        s.zenith_color,
        Rgb {
            r: 750,
            g: 1000,
            b: 1000
        }
    );
}

#[test]
fn with_colors_stores_the_given_defaults() {
    let nadir = Rgb { r: 1, g: 2, b: 3 };
    let zenith = Rgb { r: 4, g: 5, b: 6 };
    let d = DrawSkyboxDesc::with_colors(nadir, zenith);
    assert_eq!(d.default_settings.nadir_color, nadir);
    assert_eq!(d.default_settings.zenith_color, zenith);
    assert_eq!(
        DrawSkyboxDesc::new().default_settings,
        SkyboxSettings::default()
    );
}

#[test]
fn build_success_owns_pipeline_layout_mesh_and_defaults() {
    let mut factory = Factory::new();
    let sky = DrawSkyboxDesc::new().build(&mut factory).unwrap();
    assert_eq!(sky.pipeline_layout, Handle(0));
    assert_eq!(sky.pipeline, Handle(3));
    assert_eq!(sky.mesh.vertex_count, SPHERE_VERTEX_COUNT);
    assert_eq!(sky.default_settings, SkyboxSettings::default());
    // layout + two shader modules + pipeline created; the two transient
    // modules destroyed after linking
    assert_eq!(factory.created, 4);
    assert_eq!(factory.destroyed, 2);
}

#[test]
fn failed_pipeline_build_releases_the_layout() {
    let mut factory = Factory::failing_pipelines();
    let r = build_skybox_pipeline(&mut factory);
    assert!(matches!(r, Err(BuildError::PipelineCreation)));
    // every create call was matched by a destroy call: no leak on failure
    assert_eq!(factory.created, factory.destroyed);
    assert_eq!(factory.created, 3);
}

#[test]
fn failed_build_propagates_and_balances_the_factory() {
    let mut factory = Factory::failing_pipelines();
    let r = DrawSkyboxDesc::new().build(&mut factory);
    assert!(matches!(r, Err(BuildError::PipelineCreation)));
    assert_eq!(factory.created, factory.destroyed);
}

#[test]
fn dispose_releases_pipeline_and_layout() {
    let mut factory = Factory::new();
    let sky = DrawSkyboxDesc::new().build(&mut factory).unwrap();
    sky.dispose(&mut factory);
    assert_eq!(factory.created, 4);
    assert_eq!(factory.destroyed, 4);
}

#[test]
fn prepare_reports_redraw_then_reuse_when_source_unchanged() {
    let mut factory = Factory::new();
    let mut sky = DrawSkyboxDesc::new().build(&mut factory).unwrap();
    // first write of the slot is always a change
    assert_eq!(sky.prepare(0, None), PrepareResult::DrawRecord);
    // unchanged source on the same slot: reuse
    assert_eq!(sky.prepare(0, None), PrepareResult::DrawReuse);
    // a fresh frame slot changes again
    assert_eq!(sky.prepare(1, None), PrepareResult::DrawRecord);
    assert_eq!(sky.prepare(1, None), PrepareResult::DrawReuse);
}

#[test]
fn prepare_reports_redraw_when_override_changes() {
    let mut factory = Factory::new();
    let mut sky = DrawSkyboxDesc::new().build(&mut factory).unwrap();
    let over = SkyboxSettings {
        nadir_color: Rgb { r: 0, g: 0, b: 0 },
        zenith_color: Rgb {
            r: 1000,
            g: 1000,
            b: 1000,
        },
    };
    assert_eq!(sky.prepare(0, Some(over)), PrepareResult::DrawRecord);
    assert_eq!(sky.prepare(0, Some(over)), PrepareResult::DrawReuse);
    // dropping the override resolves to the defaults: a change
    assert_eq!(sky.prepare(0, None), PrepareResult::DrawRecord);
    // an override equal to the defaults is no change
    assert_eq!(
        sky.prepare(0, Some(SkyboxSettings::default())),
        PrepareResult::DrawReuse
    );
}

#[test]
fn prepare_resolves_override_over_defaults() {
    let mut factory = Factory::new();
    let mut sky = DrawSkyboxDesc::new().build(&mut factory).unwrap();
    let over = SkyboxSettings {
        nadir_color: Rgb { r: 7, g: 8, b: 9 },
        zenith_color: Rgb {
            r: 10,
            g: 11,
            b: 12,
        },
    };
    sky.prepare(0, Some(over));
    let u = sky.colors.slots[0].unwrap();
    assert_eq!(u.nadir_color, over.nadir_color);
    assert_eq!(u.zenith_color, over.zenith_color);
    sky.prepare(1, None);
    let u1 = sky.colors.slots[1].unwrap();
    assert_eq!(u1.nadir_color, SkyboxSettings::default().nadir_color);
    // slot 0 keeps its own frame's data
    assert_eq!(sky.colors.slots[0].unwrap().nadir_color, over.nadir_color);
}

#[test]
fn draw_inline_records_the_documented_command_order() {
    let mut factory = Factory::new();
    let sky = DrawSkyboxDesc::new().build(&mut factory).unwrap();
    let cmds = sky.draw_inline(2);
    assert_eq!(
        cmds,
        vec![
            RenderCommand::BindPipeline(Handle(3)),
            RenderCommand::BindEnvironmentSet {
                layout: Handle(0),
                slot: 0,
                frame_index: 2,
            },
            RenderCommand::BindColorSet {
                layout: Handle(0),
                slot: 1,
                frame_index: 2,
            },
            RenderCommand::BindMeshVertexBuffer,
            RenderCommand::Draw {
                vertex_start: 0,
                vertex_end: SPHERE_VERTEX_COUNT,
                instance_start: 0,
                instance_end: 1,
            },
        ]
    );
}

#[test]
fn prepare_refreshes_environment_for_the_frame() {
    let mut factory = Factory::new();
    let mut sky = DrawSkyboxDesc::new().build(&mut factory).unwrap();
    assert_eq!(sky.env.last_prepared, None);
    sky.prepare(4, None);
    assert_eq!(sky.env.last_prepared, Some(4));
}

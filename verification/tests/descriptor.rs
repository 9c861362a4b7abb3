use render_pass::device::BuildError;
use render_pass::shaded::{
    default_transparency, Blend, ColorMask, ColorOutput, DepthMode, DrawShadedSeparate, NewEffect,
    Program, TextureSlot, UniformBlock, VertexAttr,
};

#[test]
fn new_descriptor_has_default_transparency_and_no_skinning() {
    let d = DrawShadedSeparate::new();
    assert!(!d.skinning);
    assert_eq!(d.transparency, default_transparency());
    assert_eq!(
        d.transparency,
        Some((
            ColorMask::all(),
            Blend::Alpha,
            Some(DepthMode::LessEqualWrite)
        ))
    );
}

#[test]
fn transparency_off_then_on_restores_exact_default() {
    let custom_mask = ColorMask {
        red: true,
        green: false,
        blue: false,
        alpha: true,
    };
    let d = DrawShadedSeparate::new()
        .with_transparency_settings(custom_mask, Blend::Add, None)
        .with_transparency(false)
        .with_transparency(true);
    assert_eq!(d.transparency, default_transparency());
}

#[test]
fn transparency_off_clears_setting() {
    let d = DrawShadedSeparate::new().with_transparency(false);
    assert_eq!(d.transparency, None);
}

#[test]
fn transparency_on_when_enabled_keeps_custom_settings() {
    let custom_mask = ColorMask {
        red: false,
        green: true,
        blue: true,
        alpha: false,
    };
    let d = DrawShadedSeparate::new()
        .with_transparency_settings(custom_mask, Blend::Multiply, Some(DepthMode::LessEqualTest))
        .with_transparency(true);
    assert_eq!(
        d.transparency,
        Some((
            custom_mask,
            Blend::Multiply,
            Some(DepthMode::LessEqualTest)
        ))
    );
}

#[test]
fn skinning_toggle_keeps_transparency() {
    let d = DrawShadedSeparate::new()
        .with_transparency(false)
        .with_vertex_skinning();
    assert!(d.skinning);
    assert_eq!(d.transparency, None);
}

#[test]
fn compile_plain_effect_layout() {
    let d = DrawShadedSeparate::new();
    let eff = d
        .compile(NewEffect {
            compile_fails: false,
        })
        .unwrap();
    assert_eq!(eff.program, Program::Plain);
    let attrs: Vec<(VertexAttr, u32)> = eff
        .vertex_buffers
        .iter()
        .map(|b| (b.attr, b.stride))
        .collect();
    assert_eq!(
        attrs,
        vec![
            (VertexAttr::Position, 12),
            (VertexAttr::Normal, 12),
            (VertexAttr::TexCoord, 8),
        ]
    );
    assert_eq!(
        eff.uniforms,
        vec![UniformBlock::VertexArgs, UniformBlock::LightArgs]
    );
    assert_eq!(
        eff.textures,
        vec![TextureSlot::Albedo, TextureSlot::Emission]
    );
    assert_eq!(
        eff.output,
        ColorOutput::Blended {
            mask: ColorMask::all(),
            blend: Blend::Alpha,
            depth: Some(DepthMode::LessEqualWrite),
        }
    );
}

#[test]
fn compile_skinned_opaque_effect_layout() {
    let d = DrawShadedSeparate::new()
        .with_vertex_skinning()
        .with_transparency(false);
    let eff = d
        .compile(NewEffect {
            compile_fails: false,
        })
        .unwrap();
    assert_eq!(eff.program, Program::Skinned);
    let attrs: Vec<VertexAttr> = eff.vertex_buffers.iter().map(|b| b.attr).collect();
    assert_eq!(
        attrs,
        vec![
            VertexAttr::Position,
            VertexAttr::Normal,
            VertexAttr::TexCoord,
            VertexAttr::JointIds,
            VertexAttr::JointWeights,
        ]
    );
    assert_eq!(
        eff.uniforms,
        vec![
            UniformBlock::JointTransforms,
            UniformBlock::VertexArgs,
            UniformBlock::LightArgs,
        ]
    );
    assert_eq!(
        eff.output,
        ColorOutput::Opaque {
            depth: Some(DepthMode::LessEqualWrite)
        }
    );
}

#[test]
fn compile_propagates_compiler_failure() {
    let d = DrawShadedSeparate::new();
    let r = d.compile(NewEffect {
        compile_fails: true,
    });
    assert!(matches!(r, Err(BuildError::EffectCompilation)));
}

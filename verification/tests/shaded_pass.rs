use render_pass::color::{opaque_white, Rgba};
use render_pass::scene::{
    ActiveCamera, Camera, GpuMesh, Hidden, HiddenPropagate, JointTransforms, Light, Material,
    MeshHandle, Transform, Visibility,
};
use render_pass::shaded::{DrawShadedSeparate, ShadedFrame};
use render_pass::store::Store;

fn empty_frame() -> ShadedFrame {
    ShadedFrame {
        active: ActiveCamera { entity: None },
        cameras: Store::new(),
        ambient: Rgba {
            r: 10,
            g: 10,
            b: 10,
            a: 1000,
        },
        mesh_storage: Store::new(),
        material_defaults: Material(999),
        visibility: None,
        hidden: Store::new(),
        hidden_prop: Store::new(),
        meshes: Store::new(),
        materials: Store::new(),
        transforms: Store::new(),
        lights: Store::new(),
        joints: Store::new(),
        tints: Store::new(),
    }
}

/// A frame with three fully equipped entities 1, 2, 3: mesh handle 10*e,
/// loaded mesh 100*e, material 20*e, transform 30*e.
fn three_entity_frame() -> ShadedFrame {
    let mut f = empty_frame();
    for e in [1u64, 2, 3] {
        f.meshes.insert(e, MeshHandle(10 * e));
        f.mesh_storage.insert(10 * e, GpuMesh(100 * e));
        f.materials.insert(e, Material(20 * e));
        f.transforms.insert(e, Transform::Matrix(30 * e));
    }
    f
}

#[test]
fn unordered_branch_draws_joined_entities_and_skips_hidden() {
    let mut f = three_entity_frame();
    f.hidden.insert(2, Hidden);
    let out = DrawShadedSeparate::new().apply(&f);
    let drawn: Vec<u64> = out.draws.iter().map(|c| c.entity).collect();
    assert_eq!(drawn, vec![1, 3]);
    assert_eq!(out.draws[0].mesh, GpuMesh(100));
    assert_eq!(out.draws[0].material, Material(20));
    assert_eq!(out.draws[0].transform, Transform::Matrix(30));
    assert_eq!(out.draws[0].joints, None);
    assert_eq!(out.draws[0].tint, opaque_white());
}

#[test]
fn unordered_branch_skips_hidden_propagate_and_missing_components() {
    let mut f = three_entity_frame();
    f.hidden_prop.insert(1, HiddenPropagate);
    // entity 4 has a mesh but no material: the join fails, never drawn
    f.meshes.insert(4, MeshHandle(40));
    f.mesh_storage.insert(40, GpuMesh(400));
    f.transforms.insert(4, Transform::Matrix(120));
    let out = DrawShadedSeparate::new().apply(&f);
    let drawn: Vec<u64> = out.draws.iter().map(|c| c.entity).collect();
    assert_eq!(drawn, vec![2, 3]);
}

#[test]
fn unordered_branch_skips_unloaded_mesh_asset() {
    let mut f = three_entity_frame();
    // entity 4 is complete but its mesh asset has not loaded yet
    f.meshes.insert(4, MeshHandle(40));
    f.materials.insert(4, Material(80));
    f.transforms.insert(4, Transform::Matrix(120));
    let out = DrawShadedSeparate::new().apply(&f);
    let drawn: Vec<u64> = out.draws.iter().map(|c| c.entity).collect();
    assert_eq!(drawn, vec![1, 2, 3]);
}

#[test]
fn unordered_branch_uses_tint_and_joints_when_present() {
    let mut f = three_entity_frame();
    let red = Rgba {
        r: 1000,
        g: 0,
        b: 0,
        a: 500,
    };
    f.tints.insert(1, red);
    f.joints.insert(1, JointTransforms(77));
    let out = DrawShadedSeparate::new().with_vertex_skinning().apply(&f);
    assert!(out.skinning);
    assert_eq!(out.draws[0].tint, red);
    assert_eq!(out.draws[0].joints, Some(JointTransforms(77)));
}

#[test]
fn visibility_unordered_draws_precede_ordered_draws_in_sequence() {
    // visible_ordered = [e1, e2], visible_unordered = {e3}: e3 strictly
    // before e1, e1 strictly before e2.
    let mut f = three_entity_frame();
    f.visibility = Some(Visibility {
        visible_unordered: vec![3],
        visible_ordered: vec![1, 2],
    });
    let out = DrawShadedSeparate::new().apply(&f);
    let drawn: Vec<u64> = out.draws.iter().map(|c| c.entity).collect();
    assert_eq!(drawn, vec![3, 1, 2]);
}

#[test]
fn visibility_branch_ignores_entities_outside_the_result() {
    let mut f = three_entity_frame();
    f.visibility = Some(Visibility {
        visible_unordered: vec![2],
        visible_ordered: vec![],
    });
    let out = DrawShadedSeparate::new().apply(&f);
    let drawn: Vec<u64> = out.draws.iter().map(|c| c.entity).collect();
    assert_eq!(drawn, vec![2]);
}

#[test]
fn ordered_entity_without_mesh_is_skipped_without_error() {
    let mut f = three_entity_frame();
    // entity 9 has no mesh component at all
    f.visibility = Some(Visibility {
        visible_unordered: vec![],
        visible_ordered: vec![9, 1],
    });
    let out = DrawShadedSeparate::new().apply(&f);
    let drawn: Vec<u64> = out.draws.iter().map(|c| c.entity).collect();
    assert_eq!(drawn, vec![1]);
}

#[test]
fn ordered_entity_with_unloaded_mesh_is_skipped_without_error() {
    let mut f = three_entity_frame();
    f.meshes.insert(9, MeshHandle(90)); // no GpuMesh under 90
    f.visibility = Some(Visibility {
        visible_unordered: vec![],
        visible_ordered: vec![9, 2],
    });
    let out = DrawShadedSeparate::new().apply(&f);
    let drawn: Vec<u64> = out.draws.iter().map(|c| c.entity).collect();
    assert_eq!(drawn, vec![2]);
}

#[test]
fn ordered_entity_missing_components_degrades_to_defaults() {
    let mut f = empty_frame();
    // entity 5 has only a mesh: material, transform, joints and tint missing
    f.meshes.insert(5, MeshHandle(50));
    f.mesh_storage.insert(50, GpuMesh(500));
    f.visibility = Some(Visibility {
        visible_unordered: vec![],
        visible_ordered: vec![5],
    });
    let out = DrawShadedSeparate::new().apply(&f);
    assert_eq!(out.draws.len(), 1);
    let c = &out.draws[0];
    assert_eq!(c.entity, 5);
    assert_eq!(c.mesh, GpuMesh(500));
    assert_eq!(c.material, Material(999)); // the material defaults
    assert_eq!(c.transform, Transform::Identity);
    assert_eq!(c.joints, None);
    assert_eq!(c.tint, opaque_white());
}

#[test]
fn ordered_entity_with_components_uses_them() {
    let mut f = three_entity_frame();
    let tint = Rgba {
        r: 0,
        g: 1000,
        b: 0,
        a: 1000,
    };
    f.tints.insert(2, tint);
    f.joints.insert(2, JointTransforms(5));
    f.visibility = Some(Visibility {
        visible_unordered: vec![],
        visible_ordered: vec![2],
    });
    let out = DrawShadedSeparate::new().apply(&f);
    let c = &out.draws[0];
    assert_eq!(c.material, Material(40));
    assert_eq!(c.transform, Transform::Matrix(60));
    assert_eq!(c.joints, Some(JointTransforms(5)));
    assert_eq!(c.tint, tint);
}

#[test]
fn empty_scene_applies_without_camera_or_draws() {
    let f = empty_frame();
    let out = DrawShadedSeparate::new().apply(&f);
    assert_eq!(out.camera, None);
    assert!(out.draws.is_empty());
    assert!(out.lights.is_empty());
}

#[test]
fn camera_falls_back_to_first_usable_camera() {
    let mut f = three_entity_frame();
    // two cameras; entity 7 has no transform, entity 8 has one
    f.cameras.insert(7, Camera(70));
    f.cameras.insert(8, Camera(80));
    f.transforms.insert(8, Transform::Matrix(240));
    let out = DrawShadedSeparate::new().apply(&f);
    assert_eq!(out.camera, Some((Camera(80), Transform::Matrix(240))));
}

#[test]
fn active_camera_target_is_preferred() {
    let mut f = three_entity_frame();
    f.cameras.insert(7, Camera(70));
    f.transforms.insert(7, Transform::Matrix(210));
    f.cameras.insert(8, Camera(80));
    f.transforms.insert(8, Transform::Matrix(240));
    f.active = ActiveCamera { entity: Some(8) };
    let out = DrawShadedSeparate::new().apply(&f);
    assert_eq!(out.camera, Some((Camera(80), Transform::Matrix(240))));
}

#[test]
fn active_camera_without_camera_component_falls_back() {
    let mut f = empty_frame();
    f.cameras.insert(7, Camera(70));
    f.transforms.insert(7, Transform::Matrix(210));
    f.active = ActiveCamera { entity: Some(99) };
    let out = DrawShadedSeparate::new().apply(&f);
    assert_eq!(out.camera, Some((Camera(70), Transform::Matrix(210))));
}

#[test]
fn lights_join_transforms_and_ambient_passes_through() {
    let mut f = three_entity_frame();
    f.lights.insert(1, Light(11));
    f.lights.insert(9, Light(99)); // no transform: not uploaded
    let out = DrawShadedSeparate::new().apply(&f);
    assert_eq!(out.lights, vec![(Light(11), Transform::Matrix(30))]);
    assert_eq!(
        out.ambient,
        Rgba {
            r: 10,
            g: 10,
            b: 10,
            a: 1000
        }
    );
}

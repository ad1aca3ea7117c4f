use skelanim::animation::{Animation, Interpolation, NodeChannels, QuatChannel};
use skelanim::fixed::FX_ONE;
use skelanim::math::{Mat4, Quat, Vec3};
use skelanim::scene::{evaluate, Joint, Joints, Model, Node};
use skelanim::transform::Transform;

fn fxc(v: f64) -> i64 {
    (v * FX_ONE as f64).round() as i64
}

fn tfc(x: i64) -> f64 {
    x as f64 / FX_ONE as f64
}

fn plain_node(name: &str, parent: Option<usize>) -> Node {
    Node {
        name: String::from(name),
        parent,
        local: Transform::identity(),
        mesh: None,
        joints: None,
    }
}

fn translation_matrix(x: f64, y: f64, z: f64) -> Mat4 {
    Mat4::new([
        FX_ONE, 0, 0, fxc(x),
        0, FX_ONE, 0, fxc(y),
        0, 0, FX_ONE, fxc(z),
        0, 0, 0, FX_ONE,
    ])
}

#[test]
fn two_node_chain_with_rotation_channel_at_halfway() {
    let mut root = plain_node("root", None);
    root.local = Transform {
        translation: Vec3::new(fxc(1.0), 0, 0),
        rotation: Quat::identity(),
        scale: Vec3::new(FX_ONE, FX_ONE, FX_ONE),
    };
    let child = plain_node("child", Some(0));

    let half = 0.70710678118;
    let rot = QuatChannel {
        times: vec![0, 1000],
        values: vec![Quat::identity(), Quat::new(0, fxc(half), 0, fxc(half))],
        mode: Interpolation::Linear,
    };
    let channels = vec![
        NodeChannels { node: 1, translation: None, rotation: Some(rot), scale: None },
    ];
    let clip = Animation::new(String::from("turn"), channels).unwrap();

    let mut model = Model::new(
        String::from("chain"),
        vec![root, child],
        vec![clip],
        Mat4::identity(),
        0,
    )
    .unwrap();
    assert!(model.animations.select_clip(0));
    model.animations.set_playing(true);

    let out = model.update(500);
    assert_eq!(model.animations.control.time, 500);

    let w = &out.worlds[1];
    let c = (std::f64::consts::PI / 4.0).cos();
    let s = (std::f64::consts::PI / 4.0).sin();
    let tol = 2e-3;
    assert!((tfc(w.m00) - c).abs() < tol);
    assert!((tfc(w.m02) - s).abs() < tol);
    assert!((tfc(w.m20) + s).abs() < tol);
    assert!((tfc(w.m22) - c).abs() < tol);
    assert!((tfc(w.m11) - 1.0).abs() < tol);
    assert!((tfc(w.m03) - 1.0).abs() < tol);
    assert!((tfc(w.m13) - 0.0).abs() < tol);
    assert!((tfc(w.m23) - 0.0).abs() < tol);

    let root_world = &out.worlds[0];
    assert_eq!(*root_world, translation_matrix(1.0, 0.0, 0.0));
}

#[test]
fn skin_at_bind_pose_yields_identity_matrices() {
    let mut bone_a = plain_node("boneA", None);
    bone_a.local = Transform {
        translation: Vec3::new(fxc(2.0), 0, 0),
        rotation: Quat::identity(),
        scale: Vec3::new(FX_ONE, FX_ONE, FX_ONE),
    };
    let mut bone_b = plain_node("boneB", None);
    bone_b.local = Transform {
        translation: Vec3::new(0, fxc(3.0), 0),
        rotation: Quat::identity(),
        scale: Vec3::new(FX_ONE, FX_ONE, FX_ONE),
    };
    let mut skinned = plain_node("skinned", None);
    skinned.joints = Some(Joints {
        joints: vec![
            Joint { node_index: 0, inverse_bind: translation_matrix(-2.0, 0.0, 0.0) },
            Joint { node_index: 1, inverse_bind: translation_matrix(0.0, -3.0, 0.0) },
        ],
        skeleton_root: 0,
    });

    let model = Model::new(
        String::from("skin"),
        vec![bone_a, bone_b, skinned],
        vec![],
        Mat4::identity(),
        0,
    )
    .unwrap();

    let out = evaluate(&model);
    assert_eq!(out.skins.len(), 1);
    assert_eq!(out.skins[0].node_index, 2);
    assert_eq!(out.skins[0].matrices.len(), 2);
    assert_eq!(out.skins[0].matrices[0], Mat4::identity());
    assert_eq!(out.skins[0].matrices[1], Mat4::identity());
}

#[test]
fn reevaluation_is_deterministic() {
    let mut root = plain_node("root", None);
    root.local = Transform {
        translation: Vec3::new(fxc(0.5), fxc(-1.25), fxc(3.0)),
        rotation: Quat::new(fxc(0.5), fxc(0.5), fxc(0.5), fxc(0.5)),
        scale: Vec3::new(fxc(1.5), fxc(1.0), fxc(0.5)),
    };
    let child = plain_node("child", Some(0));
    let grandchild = plain_node("grandchild", Some(1));
    let model = Model::new(
        String::from("det"),
        vec![root, child, grandchild],
        vec![],
        Mat4::identity(),
        0,
    )
    .unwrap();

    let a = evaluate(&model);
    let b = evaluate(&model);
    assert_eq!(a.worlds.len(), 3);
    for i in 0..3 {
        assert_eq!(a.worlds[i], b.worlds[i]);
    }
}

#[test]
fn unanimated_channels_keep_authored_values() {
    let mut root = plain_node("root", None);
    root.local = Transform {
        translation: Vec3::new(fxc(4.0), fxc(5.0), fxc(6.0)),
        rotation: Quat::identity(),
        scale: Vec3::new(FX_ONE, FX_ONE, FX_ONE),
    };
    let rot = QuatChannel {
        times: vec![0, 100],
        values: vec![Quat::identity(), Quat::identity()],
        mode: Interpolation::Linear,
    };
    let channels = vec![
        NodeChannels { node: 0, translation: None, rotation: Some(rot), scale: None },
    ];
    let clip = Animation::new(String::from("noop"), channels).unwrap();
    let mut model = Model::new(
        String::from("keep"),
        vec![root],
        vec![clip],
        Mat4::identity(),
        0,
    )
    .unwrap();
    assert!(model.animations.select_clip(0));
    model.animations.set_playing(true);
    let out = model.update(50);
    assert_eq!(out.worlds[0], translation_matrix(4.0, 5.0, 6.0));
}

#[test]
fn model_transform_sits_above_top_level_nodes() {
    let root = plain_node("root", None);
    let model = Model::new(
        String::from("moved"),
        vec![root],
        vec![],
        translation_matrix(7.0, 0.0, 0.0),
        0,
    )
    .unwrap();
    let out = evaluate(&model);
    assert_eq!(out.worlds[0], translation_matrix(7.0, 0.0, 0.0));
}

#[test]
fn node_with_parent_after_it_is_rejected() {
    let root = plain_node("root", Some(0));
    assert!(Model::new(String::from("bad"), vec![root], vec![], Mat4::identity(), 0).is_err());
}

#[test]
fn dangling_joint_reference_is_rejected() {
    let mut skinned = plain_node("skinned", None);
    skinned.joints = Some(Joints {
        joints: vec![Joint { node_index: 5, inverse_bind: Mat4::identity() }],
        skeleton_root: 0,
    });
    assert!(Model::new(String::from("bad"), vec![skinned], vec![], Mat4::identity(), 0).is_err());
}

#[test]
fn dangling_animation_target_is_rejected() {
    let root = plain_node("root", None);
    let rot = QuatChannel {
        times: vec![0],
        values: vec![Quat::identity()],
        mode: Interpolation::Linear,
    };
    let channels = vec![
        NodeChannels { node: 9, translation: None, rotation: Some(rot), scale: None },
    ];
    let clip = Animation::new(String::from("stray"), channels).unwrap();
    assert!(Model::new(String::from("bad"), vec![root], vec![clip], Mat4::identity(), 0).is_err());
}

#[test]
fn dangling_mesh_reference_is_rejected() {
    let mut root = plain_node("root", None);
    root.mesh = Some(2);
    assert!(Model::new(String::from("bad"), vec![root], vec![], Mat4::identity(), 2).is_err());
    root = plain_node("root", None);
    root.mesh = Some(1);
    assert!(Model::new(String::from("ok"), vec![root], vec![], Mat4::identity(), 2).is_ok());
}

#[test]
fn rigid_scene_has_no_skin_output() {
    let root = plain_node("root", None);
    let child = plain_node("child", Some(0));
    let model = Model::new(
        String::from("rigid"),
        vec![root, child],
        vec![],
        Mat4::identity(),
        0,
    )
    .unwrap();
    let out = evaluate(&model);
    assert_eq!(out.worlds.len(), 2);
    assert!(out.skins.is_empty());
}

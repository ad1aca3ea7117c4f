use skelanim::animation::{
    sample_quat, sample_vec3, Animation, Interpolation, NodeChannels, QuatChannel, Vec3Channel,
};
use skelanim::fixed::FX_ONE;
use skelanim::math::{Quat, Vec3};

fn fxs(v: f64) -> i64 {
    (v * FX_ONE as f64).round() as i64
}

fn tfs(x: i64) -> f64 {
    x as f64 / FX_ONE as f64
}

fn vchan(times: Vec<i64>, values: Vec<Vec3>, mode: Interpolation) -> Vec3Channel {
    Vec3Channel { times, values, mode }
}

#[test]
fn single_keyframe_yields_value_at_every_time() {
    let ch = vchan(
        vec![500],
        vec![Vec3::new(fxs(1.0), fxs(2.0), fxs(3.0))],
        Interpolation::Linear,
    );
    let expected = Vec3::new(fxs(1.0), fxs(2.0), fxs(3.0));
    assert_eq!(sample_vec3(&ch, 0), expected);
    assert_eq!(sample_vec3(&ch, 500), expected);
    assert_eq!(sample_vec3(&ch, 987654), expected);
}

#[test]
fn single_keyframe_rotation_yields_value_at_every_time() {
    let q = Quat::new(0, fxs(0.6), 0, fxs(0.8));
    let ch = QuatChannel { times: vec![10], values: vec![q], mode: Interpolation::Linear };
    assert_eq!(sample_quat(&ch, 0), q);
    assert_eq!(sample_quat(&ch, 10), q);
    assert_eq!(sample_quat(&ch, 100000), q);
}

#[test]
fn sampling_at_first_and_last_keyframe_is_exact() {
    let v0 = Vec3::new(fxs(1.0), 0, 0);
    let v1 = Vec3::new(fxs(5.0), fxs(-2.0), fxs(0.25));
    let ch = vchan(vec![100, 200], vec![v0, v1], Interpolation::Linear);
    assert_eq!(sample_vec3(&ch, 100), v0);
    assert_eq!(sample_vec3(&ch, 200), v1);
    assert_eq!(sample_vec3(&ch, 0), v0);
    assert_eq!(sample_vec3(&ch, 5000), v1);
}

#[test]
fn linear_interpolation_hits_midpoint() {
    let v0 = Vec3::new(fxs(1.0), fxs(0.0), fxs(-1.0));
    let v1 = Vec3::new(fxs(3.0), fxs(4.0), fxs(1.0));
    let ch = vchan(vec![0, 100], vec![v0, v1], Interpolation::Linear);
    let mid = sample_vec3(&ch, 50);
    assert_eq!(mid, Vec3::new(fxs(2.0), fxs(2.0), fxs(0.0)));
    let quarter = sample_vec3(&ch, 25);
    assert_eq!(quarter, Vec3::new(fxs(1.5), fxs(1.0), fxs(-0.5)));
}

#[test]
fn step_mode_holds_prior_keyframe() {
    let v0 = Vec3::new(fxs(1.0), 0, 0);
    let v1 = Vec3::new(fxs(9.0), 0, 0);
    let ch = vchan(vec![0, 100], vec![v0, v1], Interpolation::Step);
    assert_eq!(sample_vec3(&ch, 1), v0);
    assert_eq!(sample_vec3(&ch, 99), v0);
    assert_eq!(sample_vec3(&ch, 100), v1);
}

#[test]
fn three_keyframes_bracket_correctly() {
    let v0 = Vec3::new(0, 0, 0);
    let v1 = Vec3::new(fxs(10.0), 0, 0);
    let v2 = Vec3::new(fxs(10.0), fxs(10.0), 0);
    let ch = vchan(vec![0, 100, 300], vec![v0, v1, v2], Interpolation::Linear);
    assert_eq!(sample_vec3(&ch, 50), Vec3::new(fxs(5.0), 0, 0));
    assert_eq!(sample_vec3(&ch, 200), Vec3::new(fxs(10.0), fxs(5.0), 0));
    assert_eq!(sample_vec3(&ch, 100), v1);
}

#[test]
fn rotation_halfway_is_equidistant_from_both_keyframes() {
    let half = 0.70710678118;
    let q0 = Quat::new(0, 0, 0, FX_ONE);
    let q1 = Quat::new(0, fxs(half), 0, fxs(half));
    let ch = QuatChannel { times: vec![0, 1000], values: vec![q0, q1], mode: Interpolation::Linear };
    let mid = sample_quat(&ch, 500);
    let norm = (tfs(mid.x).powi(2) + tfs(mid.y).powi(2) + tfs(mid.z).powi(2) + tfs(mid.w).powi(2))
        .sqrt();
    let d0 = (tfs(q0.x) * tfs(mid.x) + tfs(q0.y) * tfs(mid.y) + tfs(q0.z) * tfs(mid.z)
        + tfs(q0.w) * tfs(mid.w)) / norm;
    let d1 = (tfs(q1.x) * tfs(mid.x) + tfs(q1.y) * tfs(mid.y) + tfs(q1.z) * tfs(mid.z)
        + tfs(q1.w) * tfs(mid.w)) / norm;
    assert!((d0 - d1).abs() < 1e-3, "cosines to the endpoints differ: {d0} vs {d1}");
    assert!((d0.acos() - d1.acos()).abs() < 1e-3);
}

#[test]
fn opposed_keyframes_interpolate_through_negation() {
    let q0 = Quat::new(0, 0, 0, FX_ONE);
    let q1 = Quat::new(0, 0, 0, -FX_ONE);
    let ch = QuatChannel { times: vec![0, 1000], values: vec![q0, q1], mode: Interpolation::Linear };
    let mid = sample_quat(&ch, 500);
    assert_eq!(mid, q0);
}

#[test]
fn shortest_arc_matches_negated_endpoint() {
    let half = 0.70710678118;
    let q0 = Quat::new(0, fxs(0.1), 0, fxs(0.99498743));
    let q1 = Quat::new(0, fxs(-half), 0, fxs(-half));
    let neg_q1 = Quat::new(0, fxs(half), 0, fxs(half));
    let ch = QuatChannel { times: vec![0, 1000], values: vec![q0, q1], mode: Interpolation::Linear };
    let ch_neg = QuatChannel {
        times: vec![0, 1000],
        values: vec![q0, neg_q1],
        mode: Interpolation::Linear,
    };
    for t in [100, 250, 500, 750, 900] {
        assert_eq!(sample_quat(&ch, t), sample_quat(&ch_neg, t));
    }
}

#[test]
fn clip_duration_is_largest_end_time() {
    let tr = vchan(vec![0, 700], vec![Vec3::new(0, 0, 0), Vec3::new(fxs(1.0), 0, 0)], Interpolation::Linear);
    let sc = vchan(vec![0, 400], vec![Vec3::new(FX_ONE, FX_ONE, FX_ONE), Vec3::new(FX_ONE, FX_ONE, FX_ONE)], Interpolation::Linear);
    let channels = vec![
        NodeChannels { node: 0, translation: Some(tr), rotation: None, scale: Some(sc) },
    ];
    let clip = Animation::new(String::from("walk"), channels).unwrap();
    assert_eq!(clip.duration, 700);
}

#[test]
fn clip_with_unsorted_times_is_rejected() {
    let bad = vchan(
        vec![100, 100],
        vec![Vec3::new(0, 0, 0), Vec3::new(fxs(1.0), 0, 0)],
        Interpolation::Linear,
    );
    let channels = vec![
        NodeChannels { node: 0, translation: Some(bad), rotation: None, scale: None },
    ];
    assert!(Animation::new(String::from("bad"), channels).is_err());
}

#[test]
fn clip_with_empty_channel_is_rejected() {
    let bad = vchan(vec![], vec![], Interpolation::Linear);
    let channels = vec![
        NodeChannels { node: 0, translation: Some(bad), rotation: None, scale: None },
    ];
    assert!(Animation::new(String::from("bad"), channels).is_err());
}

#[test]
fn clip_with_mismatched_lengths_is_rejected() {
    let bad = vchan(vec![0, 100], vec![Vec3::new(0, 0, 0)], Interpolation::Linear);
    let channels = vec![
        NodeChannels { node: 0, translation: Some(bad), rotation: None, scale: None },
    ];
    assert!(Animation::new(String::from("bad"), channels).is_err());
}

#[test]
fn sampling_untargeted_node_yields_no_override() {
    let tr = vchan(vec![0], vec![Vec3::new(fxs(1.0), 0, 0)], Interpolation::Linear);
    let channels = vec![
        NodeChannels { node: 3, translation: Some(tr), rotation: None, scale: None },
    ];
    let clip = Animation::new(String::from("solo"), channels).unwrap();
    assert!(clip.sample_node(0, 50).is_none());
    let ov = clip.sample_node(3, 50).unwrap();
    assert_eq!(ov.translation.unwrap(), Vec3::new(fxs(1.0), 0, 0));
    assert!(ov.rotation.is_none());
    assert!(ov.scale.is_none());
}

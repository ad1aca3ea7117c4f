use skelanim::animation::{Animation, Interpolation, NodeChannels, Vec3Channel};
use skelanim::fixed::FX_ONE;
use skelanim::math::Vec3;
use skelanim::playback::Animations;

fn clip_with_duration(name: &str, dur: i64) -> Animation {
    let ch = Vec3Channel {
        times: vec![0, dur],
        values: vec![Vec3::new(0, 0, 0), Vec3::new(FX_ONE, 0, 0)],
        mode: Interpolation::Linear,
    };
    let channels = vec![
        NodeChannels { node: 0, translation: Some(ch), rotation: None, scale: None },
    ];
    Animation::new(String::from(name), channels).unwrap()
}

#[test]
fn advance_wraps_when_looping() {
    let mut anims = Animations::new(vec![clip_with_duration("a", 1000)]);
    assert!(anims.select_clip(0));
    anims.set_playing(true);
    anims.set_looping(true);
    anims.advance(700);
    assert_eq!(anims.control.time, 700);
    anims.advance(700);
    assert_eq!(anims.control.time, 400);
}

#[test]
fn looping_time_never_reaches_duration() {
    let mut anims = Animations::new(vec![clip_with_duration("a", 300)]);
    assert!(anims.select_clip(0));
    anims.set_playing(true);
    anims.set_looping(true);
    let mut total: i64 = 0;
    for delta in [0, 1, 299, 300, 301, 1234, 77] {
        anims.advance(delta);
        total += delta;
        assert!(anims.control.time >= 0);
        assert!(anims.control.time < 300);
        assert_eq!(anims.control.time, total % 300);
    }
}

#[test]
fn advance_clamps_when_not_looping() {
    let mut anims = Animations::new(vec![clip_with_duration("a", 1000)]);
    assert!(anims.select_clip(0));
    anims.set_playing(true);
    anims.set_looping(false);
    anims.advance(600);
    assert_eq!(anims.control.time, 600);
    anims.advance(600);
    assert_eq!(anims.control.time, 1000);
    anims.advance(600);
    assert_eq!(anims.control.time, 1000);
}

#[test]
fn paused_playback_does_not_move() {
    let mut anims = Animations::new(vec![clip_with_duration("a", 1000)]);
    assert!(anims.select_clip(0));
    anims.set_playing(false);
    anims.advance(400);
    assert_eq!(anims.control.time, 0);
}

#[test]
fn advance_without_selected_clip_does_not_move() {
    let mut anims = Animations::new(vec![clip_with_duration("a", 1000)]);
    anims.set_playing(true);
    anims.advance(400);
    assert_eq!(anims.control.time, 0);
}

#[test]
fn select_clip_resets_time_and_rejects_bad_index() {
    let mut anims = Animations::new(vec![
        clip_with_duration("a", 1000),
        clip_with_duration("b", 500),
    ]);
    assert!(anims.select_clip(0));
    anims.set_playing(true);
    anims.advance(300);
    assert_eq!(anims.control.time, 300);
    assert!(anims.select_clip(1));
    assert_eq!(anims.control.time, 0);
    assert_eq!(anims.control.active, Some(1));
    assert!(!anims.select_clip(2));
    assert_eq!(anims.control.active, Some(1));
}

#[test]
fn select_clip_by_name_finds_first_match() {
    let mut anims = Animations::new(vec![
        clip_with_duration("walk", 1000),
        clip_with_duration("run", 500),
    ]);
    assert!(anims.select_clip_named(&String::from("run")));
    assert_eq!(anims.control.active, Some(1));
    assert_eq!(anims.control.time, 0);
    anims.set_playing(true);
    anims.advance(100);
    assert!(!anims.select_clip_named(&String::from("fly")));
    assert_eq!(anims.control.active, Some(1));
    assert_eq!(anims.control.time, 100);
    assert!(anims.select_clip_named(&String::from("walk")));
    assert_eq!(anims.control.active, Some(0));
    assert_eq!(anims.control.time, 0);
}

#[test]
fn zero_duration_clip_loops_at_zero() {
    let ch = Vec3Channel {
        times: vec![0],
        values: vec![Vec3::new(0, 0, 0)],
        mode: Interpolation::Linear,
    };
    let channels = vec![
        NodeChannels { node: 0, translation: Some(ch), rotation: None, scale: None },
    ];
    let clip = Animation::new(String::from("still"), channels).unwrap();
    assert_eq!(clip.duration, 0);
    let mut anims = Animations::new(vec![clip]);
    assert!(anims.select_clip(0));
    anims.set_playing(true);
    anims.set_looping(true);
    anims.advance(123);
    assert_eq!(anims.control.time, 0);
}

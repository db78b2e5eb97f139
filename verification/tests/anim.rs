use pvz_core::anim::{
    apply_anim_keyframe, apply_pose, clean_stop_animation, has_target, sample, update_animation,
    AnimationAutoCleanup, AnimationClip, AnimationClips, AnimationState, ClipFault,
    CustomAnimationTrigger, KeyFrame, Sample, Slide, Transform, TriggerValue, Vec3,
};

const S: u64 = 1_000_000_000;
const ONE: Vec3 = Vec3 { x: 1_000, y: 1_000, z: 1_000 };

fn at(x: i32, y: i32, z: i32) -> Transform {
    Transform { translation: Vec3 { x, y, z }, scale: ONE }
}

fn frame(time: u64, transform: Option<Transform>, triggers: Vec<(u64, i32)>) -> KeyFrame {
    KeyFrame {
        time,
        transform,
        custom_animation_triggers: triggers.into_iter().map(|(key, value)| TriggerValue { key, value }).collect(),
    }
}

fn two_frames() -> AnimationClip {
    AnimationClip {
        entity: 7,
        keyframes: vec![frame(0, Some(at(0, 0, 0)), vec![]), frame(S, Some(at(10_000, 0, 0)), vec![])],
    }
}

#[test]
fn halfway_between_two_keyframes_is_the_midpoint() {
    let clip = two_frames();
    let s = sample(&clip.keyframes, S / 2);
    assert_eq!(s, Sample { index: 1, num: S / 2, den: S, active: true });
    let pose = apply_anim_keyframe(&clip, s);
    assert_eq!(pose.entity, 7);
    assert_eq!(pose.transform, Some(at(5_000, 0, 0)));
    assert!(pose.triggers.is_empty());
}

#[test]
fn exhausted_clip_holds_its_last_keyframe_again_and_again() {
    let clip = two_frames();
    for time in [S, S + 1, 2 * S, 100 * S, u64::MAX] {
        let s = sample(&clip.keyframes, time);
        assert_eq!(s, Sample { index: 1, num: 1, den: 1, active: false });
        assert_eq!(apply_anim_keyframe(&clip, s).transform, Some(at(10_000, 0, 0)));
    }
}

#[test]
fn before_the_first_keyframe_its_values_apply() {
    let clip = AnimationClip {
        entity: 1,
        keyframes: vec![frame(S, Some(at(3, 4, 5)), vec![(9, 500)]), frame(2 * S, Some(at(6, 8, 10)), vec![(9, 1_000)])],
    };
    let s = sample(&clip.keyframes, 0);
    assert_eq!(s, Sample { index: 0, num: 0, den: 1, active: true });
    let pose = apply_anim_keyframe(&clip, s);
    assert_eq!(pose.transform, Some(at(3, 4, 5)));
    assert_eq!(pose.triggers, vec![TriggerValue { key: 9, value: 500 }]);
    // at the time of a keyframe the next one is approached with factor zero
    let s = sample(&clip.keyframes, S);
    assert_eq!(s, Sample { index: 1, num: 0, den: S, active: true });
    assert_eq!(apply_anim_keyframe(&clip, s).transform, Some(at(3, 4, 5)));
}

#[test]
fn channels_and_scale_are_interpolated_too() {
    let clip = AnimationClip {
        entity: 1,
        keyframes: vec![
            frame(0, Some(Transform { translation: Vec3 { x: 0, y: 100, z: -8 }, scale: Vec3 { x: 2_000, y: 2_000, z: 1_000 } }), vec![(1, 500), (2, 0)]),
            frame(4 * S, Some(Transform { translation: Vec3 { x: -40, y: 0, z: -8 }, scale: ONE }), vec![(1, 1_000), (2, -100)]),
        ],
    };
    let s = sample(&clip.keyframes, S);
    let pose = apply_anim_keyframe(&clip, s);
    assert_eq!(
        pose.transform,
        Some(Transform { translation: Vec3 { x: -10, y: 75, z: -8 }, scale: Vec3 { x: 1_750, y: 1_750, z: 1_000 } })
    );
    assert_eq!(pose.triggers, vec![TriggerValue { key: 1, value: 625 }, TriggerValue { key: 2, value: -25 }]);
}

#[test]
fn interpolation_rounds_toward_the_keyframe_left_behind() {
    let clip = AnimationClip {
        entity: 1,
        keyframes: vec![frame(0, Some(at(0, 0, 0)), vec![]), frame(3, Some(at(10, -10, 1)), vec![])],
    };
    let pose = apply_anim_keyframe(&clip, sample(&clip.keyframes, 1));
    assert_eq!(pose.transform, Some(at(3, -3, 0)));
    let pose = apply_anim_keyframe(&clip, sample(&clip.keyframes, 2));
    assert_eq!(pose.transform, Some(at(6, -6, 0)));
}

#[test]
fn clip_without_transform_poses_only_channels() {
    let clip = AnimationClip { entity: 1, keyframes: vec![frame(0, None, vec![(5, 1_000)]), frame(S, None, vec![(5, 0)])] };
    assert_eq!(clip.validate(), Ok(()));
    let pose = apply_anim_keyframe(&clip, sample(&clip.keyframes, S / 4));
    assert_eq!(pose.transform, None);
    assert_eq!(pose.triggers, vec![TriggerValue { key: 5, value: 750 }]);
}

#[test]
fn validation_names_the_first_fault() {
    assert_eq!(AnimationClip { entity: 1, keyframes: vec![] }.validate(), Err(ClipFault::Empty));
    assert_eq!(two_frames().validate(), Ok(()));
    assert_eq!(AnimationClip { entity: 1, keyframes: vec![frame(5, None, vec![])] }.validate(), Ok(()));
    let unordered = AnimationClip {
        entity: 1,
        keyframes: vec![frame(0, None, vec![]), frame(S, None, vec![]), frame(S, Some(at(0, 0, 0)), vec![])],
    };
    assert_eq!(unordered.validate(), Err(ClipFault::TimeOrder(2)));
    let partial = AnimationClip {
        entity: 1,
        keyframes: vec![frame(0, Some(at(0, 0, 0)), vec![]), frame(S, None, vec![(1, 1)]), frame(S / 2, None, vec![])],
    };
    assert_eq!(partial.validate(), Err(ClipFault::PartialTransform(1)));
    let keys = AnimationClip {
        entity: 1,
        keyframes: vec![frame(0, None, vec![(1, 0), (2, 0)]), frame(S, None, vec![(1, 0), (3, 0)])],
    };
    assert_eq!(keys.validate(), Err(ClipFault::PartialTriggers(1)));
    let fewer = AnimationClip {
        entity: 1,
        keyframes: vec![frame(0, None, vec![(1, 0), (2, 0)]), frame(S, None, vec![(1, 0)])],
    };
    assert_eq!(fewer.validate(), Err(ClipFault::PartialTriggers(1)));
}

#[test]
fn animation_starts_at_zero_plays_and_stops() {
    let clips = AnimationClips(vec![two_frames()]);
    let targets = vec![7u64];
    let mut state = AnimationState::default();
    let poses = update_animation(S / 4, &mut state, &clips, &targets);
    assert_eq!(state, AnimationState::Playing(0));
    assert_eq!(poses.len(), 1);
    assert_eq!(poses[0].transform, Some(at(0, 0, 0)));
    let poses = update_animation(S / 4, &mut state, &clips, &targets);
    assert_eq!(state, AnimationState::Playing(S / 4));
    assert_eq!(poses[0].transform, Some(at(2_500, 0, 0)));
    let poses = update_animation(S, &mut state, &clips, &targets);
    assert_eq!(state, AnimationState::Stop);
    assert_eq!(poses[0].transform, Some(at(10_000, 0, 0)));
    let poses = update_animation(S, &mut state, &clips, &targets);
    assert_eq!(state, AnimationState::Stop);
    assert!(poses.is_empty());
    // set back to the start it plays again
    state = AnimationState::Init;
    let poses = update_animation(S, &mut state, &clips, &targets);
    assert_eq!(state, AnimationState::Playing(0));
    assert_eq!(poses[0].transform, Some(at(0, 0, 0)));
}

#[test]
fn clip_with_a_missing_target_is_passed_over() {
    let mut other = two_frames();
    other.entity = 8;
    other.keyframes[1].time = 5 * S;
    let clips = AnimationClips(vec![other, two_frames()]);
    let mut state = AnimationState::Playing(S);
    // only entity 7 exists: its clip is exhausted, so the animation stops
    let poses = update_animation(S, &mut state, &clips, &vec![7]);
    assert_eq!(poses.len(), 1);
    assert_eq!(poses[0].entity, 7);
    assert_eq!(state, AnimationState::Stop);
    // with entity 8 the longer clip keeps the animation going
    let mut state = AnimationState::Playing(S);
    let poses = update_animation(S, &mut state, &clips, &vec![7, 8]);
    assert_eq!(poses.len(), 2);
    assert_eq!(poses[0].entity, 8);
    assert_eq!(poses[0].transform, Some(at(4_000, 0, 0)));
    assert_eq!(state, AnimationState::Playing(2 * S));
    // with no target at all nothing is posed and the animation stops
    let mut state = AnimationState::Init;
    assert!(update_animation(S, &mut state, &clips, &Vec::new()).is_empty());
    assert_eq!(state, AnimationState::Stop);
    assert!(has_target(&vec![1, 2, 3], 2));
    assert!(!has_target(&vec![1, 2, 3], 4));
}

#[test]
fn playback_time_stops_at_the_largest_value() {
    let clips = AnimationClips(vec![two_frames()]);
    let mut state = AnimationState::Playing(u64::MAX - 1);
    update_animation(5, &mut state, &clips, &vec![7]);
    assert_eq!(state, AnimationState::Stop);
}

#[test]
fn stopped_animation_is_removed_only_when_marked() {
    assert!(clean_stop_animation(&AnimationState::Stop, &AnimationAutoCleanup::AutoCleanup));
    assert!(!clean_stop_animation(&AnimationState::Stop, &AnimationAutoCleanup::Keep));
    assert!(!clean_stop_animation(&AnimationState::Playing(3), &AnimationAutoCleanup::AutoCleanup));
    assert!(!clean_stop_animation(&AnimationState::Init, &AnimationAutoCleanup::default()));
    assert_eq!(AnimationAutoCleanup::default(), AnimationAutoCleanup::AutoCleanup);
}

#[test]
fn channel_store_keeps_one_value_per_key() {
    let mut store = CustomAnimationTrigger { animation_value: vec![] };
    assert_eq!(store.get(1), None);
    store.insert(1, 10);
    store.insert(2, 20);
    store.insert(1, 30);
    assert_eq!(store.get(1), Some(30));
    assert_eq!(store.get(2), Some(20));
    assert_eq!(store.get(3), None);
    assert_eq!(store.animation_value.len(), 2);
    // of two entries with one key the later counts
    let doubled = CustomAnimationTrigger {
        animation_value: vec![TriggerValue { key: 1, value: 1 }, TriggerValue { key: 1, value: 2 }],
    };
    assert_eq!(doubled.get(1), Some(2));
}

#[test]
fn pose_is_put_onto_its_target() {
    let clip = AnimationClip { entity: 1, keyframes: vec![frame(0, None, vec![(5, 1_000)]), frame(S, None, vec![(5, 0)])] };
    let pose = apply_anim_keyframe(&clip, sample(&clip.keyframes, S / 2));
    let mut transform = at(1, 2, 3);
    let mut store = CustomAnimationTrigger { animation_value: vec![TriggerValue { key: 4, value: 4 }] };
    apply_pose(&pose, &mut transform, &mut store);
    assert_eq!(transform, at(1, 2, 3));
    assert_eq!(store.get(5), Some(500));
    assert_eq!(store.get(4), Some(4));
    let clip = two_frames();
    let pose = apply_anim_keyframe(&clip, sample(&clip.keyframes, S / 2));
    apply_pose(&pose, &mut transform, &mut store);
    assert_eq!(transform, at(5_000, 0, 0));
}

#[test]
fn slide_becomes_a_clip_of_two_keyframes() {
    let slide = Slide { entity: 3, from: at(0, 0, 0), to: at(9, 9, 9) };
    let clip = slide.clip(S / 10);
    assert_eq!(clip.validate(), Ok(()));
    assert_eq!(clip.entity, 3);
    assert_eq!(clip.keyframes.len(), 2);
    assert_eq!(clip.keyframes[0].time, 0);
    assert_eq!(clip.keyframes[0].transform, Some(at(0, 0, 0)));
    assert_eq!(clip.keyframes[1].time, S / 10);
    assert_eq!(clip.keyframes[1].transform, Some(at(9, 9, 9)));
}

#[test]
fn clips_are_validated_together() {
    let good = AnimationClips(vec![two_frames(), two_frames()]);
    assert_eq!(good.validate(), Ok(()));
    assert_eq!(AnimationClips(vec![]).validate(), Ok(()));
    let bad = AnimationClips(vec![two_frames(), AnimationClip { entity: 1, keyframes: vec![] }, two_frames()]);
    assert_eq!(bad.validate(), Err((1, ClipFault::Empty)));
}

#[test]
fn stores_start_out_empty() {
    assert!(CustomAnimationTrigger::default().animation_value.is_empty());
    assert_eq!(CustomAnimationTrigger::default().get(1), None);
    assert!(AnimationClips::default().0.is_empty());
    assert_eq!(AnimationState::default(), AnimationState::Init);
}

//! Keyframed animation: playback state, the keyframe pair that a moment
//! falls between, and the interpolated pose.

use vstd::prelude::*;
use crate::fixed::{add_time, clamp_u64, lerp, lerp_value};
use crate::solt::Entity;

verus! {

/// Playback state of an animation. Setting it back to `Init` plays the
/// animation again from the start.
#[derive(Clone, Copy, Debug, PartialEq, Eq, Structural)]
pub enum AnimationState {
    /// Not yet started.
    Init,
    /// Playing, with the nanoseconds played so far.
    Playing(u64),
    /// Played to the end.
    Stop,
}

impl Default for AnimationState {
    /// Not yet started.
    fn default() -> (r: AnimationState)
        ensures
            r == AnimationState::Init,
    {
        AnimationState::Init
    }
}

/// What becomes of an animation that has stopped.
#[derive(Clone, Copy, Debug, PartialEq, Eq, Structural)]
pub enum AnimationAutoCleanup {
    /// It stays, in its final pose.
    Keep,
    /// It is removed with all that hangs on it.
    AutoCleanup,
}

impl Default for AnimationAutoCleanup {
    /// Removed when stopped.
    fn default() -> (r: AnimationAutoCleanup)
        ensures
            r == AnimationAutoCleanup::AutoCleanup,
    {
        AnimationAutoCleanup::AutoCleanup
    }
}

/// A vector of space, in thousandths.
#[derive(Clone, Copy, Debug, PartialEq, Eq, Structural)]
pub struct Vec3 {
    pub x: i32,
    pub y: i32,
    pub z: i32,
}

/// Place and size of an entity. How it is turned is left to the caller, who
/// interpolates it with the factor of the [`Sample`].
#[derive(Clone, Copy, Debug, PartialEq, Eq, Structural)]
pub struct Transform {
    pub translation: Vec3,
    pub scale: Vec3,
}

/// A named scalar channel with its value.
#[derive(Clone, Copy, Debug, PartialEq, Eq, Structural)]
pub struct TriggerValue {
    pub key: u64,
    pub value: i32,
}

/// A keyframe: a moment of the animation with what holds at it.
#[derive(Debug)]
pub struct KeyFrame {
    /// Nanoseconds since the start of the animation.
    pub time: u64,
    pub transform: Option<Transform>,
    /// Values of the scalar channels; empty where the clip drives none.
    pub custom_animation_triggers: Vec<TriggerValue>,
}

/// The keyframes that drive one entity.
#[derive(Debug)]
pub struct AnimationClip {
    pub entity: Entity,
    pub keyframes: Vec<KeyFrame>,
}

/// The clips of one animation.
#[derive(Debug)]
pub struct AnimationClips(pub Vec<AnimationClip>);

/// The scalar channels of an entity, as animations have set them.
#[derive(Debug)]
pub struct CustomAnimationTrigger {
    pub animation_value: Vec<TriggerValue>,
}

impl Default for CustomAnimationTrigger {
    /// No channel set.
    fn default() -> (r: CustomAnimationTrigger)
        ensures
            r.animation_value@.len() == 0,
            r.channels() == Map::<u64, i32>::empty(),
    {
        CustomAnimationTrigger { animation_value: Vec::new() }
    }
}

impl Default for AnimationClips {
    /// No clip.
    fn default() -> (r: AnimationClips)
        ensures
            r.0@.len() == 0,
            r.wf(),
    {
        AnimationClips(Vec::new())
    }
}

/// Why a clip cannot be played.
#[derive(Clone, Copy, Debug, PartialEq, Eq, Structural)]
pub enum ClipFault {
    /// The clip has no keyframe.
    Empty,
    /// The keyframe at this index is not later than the one before it.
    TimeOrder(usize),
    /// The keyframe at this index has a transform where the one before it has
    /// none, or the other way round.
    PartialTransform(usize),
    /// The keyframe at this index does not drive the scalar channels of the
    /// one before it, in the same order.
    PartialTriggers(usize),
}

/// Whether two keyframes drive the same scalar channels in the same order.
pub open spec fn same_keys(a: Seq<TriggerValue>, b: Seq<TriggerValue>) -> bool {
    &&& a.len() == b.len()
    &&& forall|k: int| 0 <= k < a.len() ==> (#[trigger] a[k]).key == b[k].key
}

/// What is wrong with a keyframe as the successor of another: its time first,
/// then its transform, then its channels.
pub open spec fn frame_fault(before: KeyFrame, frame: KeyFrame, index: usize) -> Option<ClipFault> {
    if frame.time <= before.time {
        Some(ClipFault::TimeOrder(index))
    } else if frame.transform.is_some() != before.transform.is_some() {
        Some(ClipFault::PartialTransform(index))
    } else if !same_keys(before.custom_animation_triggers@, frame.custom_animation_triggers@) {
        Some(ClipFault::PartialTriggers(index))
    } else {
        None
    }
}

/// What is wrong with the keyframe at `i` as the successor of the one before.
pub open spec fn fault_at(frames: Seq<KeyFrame>, i: int) -> Option<ClipFault> {
    frame_fault(frames[i - 1], frames[i], i as usize)
}

/// Whether the keyframe at `i` is a sound successor of the one before.
pub open spec fn frame_ok(frames: Seq<KeyFrame>, i: int) -> bool {
    fault_at(frames, i).is_none()
}

/// Whether keyframes can be played: there is one, they are strictly ordered
/// in time, and all of them drive the same channels.
pub open spec fn frames_wf(frames: Seq<KeyFrame>) -> bool {
    &&& frames.len() > 0
    &&& forall|i: int| 1 <= i < frames.len() ==> #[trigger] frame_ok(frames, i)
}

/// The first fault of keyframes.
pub open spec fn first_fault(frames: Seq<KeyFrame>, fault: ClipFault) -> bool {
    if frames.len() == 0 {
        fault == ClipFault::Empty
    } else {
        exists|i: int|
            1 <= i < frames.len() && #[trigger] fault_at(frames, i) == Some(fault) && forall|j: int|
                1 <= j < i ==> #[trigger] frame_ok(frames, j)
    }
}

/// Whether two keyframes drive the same scalar channels in the same order.
fn check_same_keys(a: &Vec<TriggerValue>, b: &Vec<TriggerValue>) -> (r: bool)
    ensures
        r == same_keys(a@, b@),
{
    if a.len() != b.len() {
        return false;
    }
    let mut k: usize = 0;
    while k < a.len()
        invariant
            k <= a.len(),
            a@.len() == b@.len(),
            forall|j: int| 0 <= j < k ==> (#[trigger] a@[j]).key == b@[j].key,
        decreases a.len() - k,
    {
        if a[k].key != b[k].key {
            return false;
        }
        k += 1;
    }
    true
}

impl AnimationClip {
    /// Whether the clip can be played.
    pub open spec fn wf(&self) -> bool {
        frames_wf(self.keyframes@)
    }

    /// Checks that the clip can be played, and names its first fault if not.
    pub fn validate(&self) -> (r: Result<(), ClipFault>)
        ensures
            match r {
                Ok(_) => self.wf(),
                Err(fault) => !self.wf() && first_fault(self.keyframes@, fault),
            },
    {
        if self.keyframes.len() == 0 {
            return Err(ClipFault::Empty);
        }
        let mut i: usize = 1;
        while i < self.keyframes.len()
            invariant
                1 <= i <= self.keyframes.len(),
                forall|j: int| 1 <= j < i ==> #[trigger] frame_ok(self.keyframes@, j),
            decreases self.keyframes.len() - i,
        {
            let before = &self.keyframes[i - 1];
            let frame = &self.keyframes[i];
            let fault = if frame.time <= before.time {
                Some(ClipFault::TimeOrder(i))
            } else if frame.transform.is_some() != before.transform.is_some() {
                Some(ClipFault::PartialTransform(i))
            } else if !check_same_keys(
                &before.custom_animation_triggers,
                &frame.custom_animation_triggers,
            ) {
                Some(ClipFault::PartialTriggers(i))
            } else {
                None
            };
            assert(fault == fault_at(self.keyframes@, i as int));
            match fault {
                Some(found) => {
                    assert(fault_at(self.keyframes@, i as int) == Some(found));
                    assert(!frame_ok(self.keyframes@, i as int));
                    return Err(found);
                },
                None => {},
            }
            i += 1;
        }
        Ok(())
    }
}

impl AnimationClips {
    /// Whether every clip can be played.
    pub open spec fn wf(&self) -> bool {
        forall|i: int| 0 <= i < self.0@.len() ==> (#[trigger] self.0@[i]).wf()
    }

    /// Checks that every clip can be played; if not, names the first clip
    /// that cannot, and its first fault.
    pub fn validate(&self) -> (r: Result<(), (usize, ClipFault)>)
        ensures
            match r {
                Ok(_) => self.wf(),
                Err((at, fault)) => {
                    &&& !self.wf()
                    &&& at < self.0@.len()
                    &&& first_fault(self.0@[at as int].keyframes@, fault)
                    &&& forall|i: int| 0 <= i < at ==> (#[trigger] self.0@[i]).wf()
                },
            },
    {
        let mut i: usize = 0;
        while i < self.0.len()
            invariant
                i <= self.0.len(),
                forall|j: int| 0 <= j < i ==> (#[trigger] self.0@[j]).wf(),
            decreases self.0.len() - i,
        {
            match self.0[i].validate() {
                Ok(_) => {},
                Err(fault) => {
                    assert(!self.0@[i as int].wf());
                    return Err((i, fault));
                },
            }
            i += 1;
        }
        Ok(())
    }
}

/// Where a moment falls among the keyframes.
#[derive(Clone, Copy, Debug, PartialEq, Eq, Structural)]
pub struct Sample {
    /// The keyframe that is being approached, or the last one when the clip
    /// is exhausted.
    pub index: usize,
    /// Numerator of the interpolation factor.
    pub num: u64,
    /// Denominator of the interpolation factor; never zero.
    pub den: u64,
    /// Whether a later keyframe is still to come.
    pub active: bool,
}

/// Whether `i` is the earliest keyframe later than `time`.
pub open spec fn first_after(frames: Seq<KeyFrame>, time: u64, i: int) -> bool {
    &&& 0 <= i < frames.len()
    &&& frames[i].time > time
    &&& forall|j: int| 0 <= j < i ==> (#[trigger] frames[j]).time <= time
}

/// Whether no keyframe is later than `time`.
pub open spec fn exhausted(frames: Seq<KeyFrame>, time: u64) -> bool {
    forall|j: int| 0 <= j < frames.len() ==> (#[trigger] frames[j]).time <= time
}

/// The sample that approaches keyframe `i` at `time`: at the first keyframe
/// the factor is zero, else it is the share of the way from the keyframe
/// before that has been covered.
pub open spec fn sample_toward(frames: Seq<KeyFrame>, time: u64, i: int) -> Sample {
    if i == 0 {
        Sample { index: 0, num: 0, den: 1, active: true }
    } else {
        Sample {
            index: i as usize,
            num: (time - frames[i - 1].time) as u64,
            den: (frames[i].time - frames[i - 1].time) as u64,
            active: true,
        }
    }
}

/// The sample of an exhausted clip: the last keyframe in full.
pub open spec fn sample_at_end(frames: Seq<KeyFrame>) -> Sample {
    Sample { index: (frames.len() - 1) as usize, num: 1, den: 1, active: false }
}

/// Whether `s` is the sample of the keyframes at `time`.
pub open spec fn is_sample(frames: Seq<KeyFrame>, time: u64, s: Sample) -> bool {
    if exhausted(frames, time) {
        s == sample_at_end(frames)
    } else {
        exists|i: int| first_after(frames, time, i) && s == sample_toward(frames, time, i)
    }
}

/// At most one keyframe is the earliest later than a moment.
pub proof fn lemma_first_after_unique(frames: Seq<KeyFrame>, time: u64, i: int, k: int)
    requires
        first_after(frames, time, i),
        first_after(frames, time, k),
    ensures
        i == k,
{
    if i < k {
        assert(frames[i].time <= time);
    } else if k < i {
        assert(frames[k].time <= time);
    }
}

/// The keyframes have exactly one sample at every moment.
pub proof fn lemma_sample_unique(frames: Seq<KeyFrame>, time: u64, a: Sample, b: Sample)
    requires
        is_sample(frames, time, a),
        is_sample(frames, time, b),
    ensures
        a == b,
{
    if !exhausted(frames, time) {
        let i = choose|i: int| first_after(frames, time, i) && a == sample_toward(frames, time, i);
        let k = choose|k: int| first_after(frames, time, k) && b == sample_toward(frames, time, k);
        lemma_first_after_unique(frames, time, i, k);
    }
}

/// Finds where `time` falls among the keyframes.
pub fn sample(keyframes: &Vec<KeyFrame>, time: u64) -> (r: Sample)
    requires
        frames_wf(keyframes@),
    ensures
        is_sample(keyframes@, time, r),
        r.index < keyframes@.len(),
        0 < r.den,
        r.num <= r.den,
        r.active == !exhausted(keyframes@, time),
{
    let mut i: usize = 0;
    while i < keyframes.len()
        invariant
            i <= keyframes.len(),
            frames_wf(keyframes@),
            forall|j: int| 0 <= j < i ==> (#[trigger] keyframes@[j]).time <= time,
        decreases keyframes.len() - i,
    {
        if keyframes[i].time > time {
            assert(first_after(keyframes@, time, i as int));
            assert(!exhausted(keyframes@, time));
            if i == 0 {
                let r = Sample { index: 0, num: 0, den: 1, active: true };
                assert(r == sample_toward(keyframes@, time, 0));
                return r;
            }
            assert(frame_ok(keyframes@, i as int));
            assert(keyframes@[i - 1].time <= time);
            let before: u64 = keyframes[i - 1].time;
            let r = Sample {
                index: i,
                num: time - before,
                den: keyframes[i].time - before,
                active: true,
            };
            assert(r == sample_toward(keyframes@, time, i as int));
            return r;
        }
        i += 1;
    }
    Sample { index: keyframes.len() - 1, num: 1, den: 1, active: false }
}

/// The pose between two transforms.
pub open spec fn lerp_transform(a: Transform, b: Transform, num: u64, den: u64) -> Transform {
    Transform {
        translation: lerp_vec3(a.translation, b.translation, num, den),
        scale: lerp_vec3(a.scale, b.scale, num, den),
    }
}

/// The point between two vectors.
pub open spec fn lerp_vec3(a: Vec3, b: Vec3, num: u64, den: u64) -> Vec3 {
    Vec3 {
        x: lerp_value(a.x as int, b.x as int, num as int, den as int) as i32,
        y: lerp_value(a.y as int, b.y as int, num as int, den as int) as i32,
        z: lerp_value(a.z as int, b.z as int, num as int, den as int) as i32,
    }
}

/// The transform of a sample: that of its keyframe, interpolated from the
/// keyframe before where there is one; none where the clip drives none.
pub open spec fn pose_transform(frames: Seq<KeyFrame>, s: Sample) -> Option<Transform> {
    match frames[s.index as int].transform {
        None => None,
        Some(to) => if s.index > 0 && frames[s.index - 1].transform.is_some() {
            Some(lerp_transform(frames[s.index - 1].transform.unwrap(), to, s.num, s.den))
        } else {
            Some(to)
        },
    }
}

/// The channel values of a sample: those of its keyframe, each interpolated
/// from the keyframe before where there is one.
pub open spec fn pose_triggers(frames: Seq<KeyFrame>, s: Sample) -> Seq<TriggerValue> {
    let to = frames[s.index as int].custom_animation_triggers@;
    if s.index > 0 {
        let from = frames[s.index - 1].custom_animation_triggers@;
        Seq::new(
            to.len(),
            |k: int|
                TriggerValue {
                    key: to[k].key,
                    value: lerp_value(
                        from[k].value as int,
                        to[k].value as int,
                        s.num as int,
                        s.den as int,
                    ) as i32,
                },
        )
    } else {
        to
    }
}

/// What an animation makes of its target at a moment.
#[derive(Debug)]
pub struct Pose {
    pub entity: Entity,
    pub sample: Sample,
    pub transform: Option<Transform>,
    pub triggers: Vec<TriggerValue>,
}

/// A pose as a plain value.
pub struct PoseView {
    pub entity: Entity,
    pub sample: Sample,
    pub transform: Option<Transform>,
    pub triggers: Seq<TriggerValue>,
}

impl View for Pose {
    type V = PoseView;

    open spec fn view(&self) -> PoseView {
        PoseView {
            entity: self.entity,
            sample: self.sample,
            transform: self.transform,
            triggers: self.triggers@,
        }
    }
}

/// The pose of a clip for a sample.
pub open spec fn pose_of(clip: AnimationClip, s: Sample) -> PoseView {
    PoseView {
        entity: clip.entity,
        sample: s,
        transform: pose_transform(clip.keyframes@, s),
        triggers: pose_triggers(clip.keyframes@, s),
    }
}

fn lerp_vec(a: &Vec3, b: &Vec3, num: u64, den: u64) -> (r: Vec3)
    requires
        0 < den,
        num <= den,
    ensures
        r == lerp_vec3(*a, *b, num, den),
{
    Vec3 { x: lerp(a.x, b.x, num, den), y: lerp(a.y, b.y, num, den), z: lerp(a.z, b.z, num, den) }
}

/// Computes the pose of a clip for a sample: the transform and every scalar
/// channel interpolated linearly between the keyframe before and the keyframe
/// of the sample; at the first keyframe its own values.
pub fn apply_anim_keyframe(clip: &AnimationClip, s: Sample) -> (r: Pose)
    requires
        clip.wf(),
        s.index < clip.keyframes@.len(),
        0 < s.den,
        s.num <= s.den,
    ensures
        r@ == pose_of(*clip, s),
{
    let frame = &clip.keyframes[s.index];
    let transform = match frame.transform {
        None => None,
        Some(to) => {
            let from = if s.index > 0 {
                clip.keyframes[s.index - 1].transform
            } else {
                None
            };
            match from {
                Some(from) => Some(
                    Transform {
                        translation: lerp_vec(&from.translation, &to.translation, s.num, s.den),
                        scale: lerp_vec(&from.scale, &to.scale, s.num, s.den),
                    },
                ),
                None => Some(to),
            }
        },
    };
    let mut triggers: Vec<TriggerValue> = Vec::new();
    let mut k: usize = 0;
    if s.index > 0 {
        let before = &clip.keyframes[s.index - 1];
        assert(frame_ok(clip.keyframes@, s.index as int));
        while k < frame.custom_animation_triggers.len()
            invariant
                k <= frame.custom_animation_triggers.len(),
                0 < s.den,
                s.num <= s.den,
                s.index > 0,
                *frame == clip.keyframes@[s.index as int],
                *before == clip.keyframes@[s.index - 1],
                before.custom_animation_triggers@.len() == frame.custom_animation_triggers@.len(),
                triggers@.len() == k,
                forall|j: int| 0 <= j < k ==> (#[trigger] triggers@[j]) == pose_triggers(clip.keyframes@, s)[j],
            decreases frame.custom_animation_triggers.len() - k,
        {
            let to: TriggerValue = frame.custom_animation_triggers[k];
            let from: TriggerValue = before.custom_animation_triggers[k];
            triggers.push(TriggerValue { key: to.key, value: lerp(from.value, to.value, s.num, s.den) });
            k += 1;
        }
    } else {
        while k < frame.custom_animation_triggers.len()
            invariant
                k <= frame.custom_animation_triggers.len(),
                s.index == 0,
                *frame == clip.keyframes@[s.index as int],
                triggers@.len() == k,
                forall|j: int| 0 <= j < k ==> (#[trigger] triggers@[j]) == frame.custom_animation_triggers@[j],
            decreases frame.custom_animation_triggers.len() - k,
        {
            let to: TriggerValue = frame.custom_animation_triggers[k];
            triggers.push(to);
            k += 1;
        }
    }
    proof {
        assert(triggers@ =~= pose_triggers(clip.keyframes@, s));
    }
    Pose { entity: clip.entity, sample: s, transform, triggers }
}

/// Full interpolation reaches the target.
pub proof fn lemma_lerp_ends(a: int, b: int, den: int)
    requires
        den > 0,
    ensures
        lerp_value(a, b, den, den) == b,
        lerp_value(a, b, 0, den) == a,
{
    if b >= a {
        assert(((b - a) * den) / den == b - a) by (nonlinear_arith)
            requires
                den > 0,
        ;
        assert(((b - a) * 0) / den == 0) by (nonlinear_arith)
            requires
                den > 0,
        ;
    } else {
        assert(((a - b) * den) / den == a - b) by (nonlinear_arith)
            requires
                den > 0,
        ;
        assert(((a - b) * 0) / den == 0) by (nonlinear_arith)
            requires
                den > 0,
        ;
    }
}

/// The channel values at the end of a clip are those of its last keyframe.
pub proof fn lemma_end_triggers(frames: Seq<KeyFrame>)
    requires
        frames_wf(frames),
        frames.len() <= usize::MAX,
    ensures
        pose_triggers(frames, sample_at_end(frames)) == frames.last().custom_animation_triggers@,
{
    let s = sample_at_end(frames);
    let to = frames.last().custom_animation_triggers@;
    if s.index > 0 {
        assert(frame_ok(frames, s.index as int));
        let from = frames[s.index - 1].custom_animation_triggers@;
        assert(same_keys(from, to));
        assert forall|k: int| 0 <= k < to.len() implies (#[trigger] pose_triggers(frames, s)[k]) == to[k] by {
            assert(from[k].key == to[k].key);
            assert(lerp_value(from[k].value as int, to[k].value as int, 1, 1) == to[k].value as int);
        }
    }
    assert(pose_triggers(frames, s) =~= to);
}

/// The transform at the end of a clip is that of its last keyframe.
pub proof fn lemma_end_transform(frames: Seq<KeyFrame>)
    requires
        frames_wf(frames),
        frames.len() <= usize::MAX,
    ensures
        pose_transform(frames, sample_at_end(frames)) == frames.last().transform,
{
    let s = sample_at_end(frames);
    if s.index > 0 && frames[s.index as int].transform.is_some() {
        assert(frame_ok(frames, s.index as int));
        let a = frames[s.index - 1].transform.unwrap();
        let b = frames[s.index as int].transform.unwrap();
        assert(lerp_vec3(a.translation, b.translation, 1, 1) == b.translation);
        assert(lerp_vec3(a.scale, b.scale, 1, 1) == b.scale);
    }
}

/// An exhausted clip holds its last keyframe: at every moment at or after
/// the time of the last keyframe the sample is the same, no keyframe is to
/// come, and the pose is that of the last keyframe exactly.
pub proof fn lemma_exhausted_pose(clip: AnimationClip, time: u64, s: Sample)
    requires
        clip.wf(),
        time >= clip.keyframes@.last().time,
        is_sample(clip.keyframes@, time, s),
    ensures
        exhausted(clip.keyframes@, time),
        s == sample_at_end(clip.keyframes@),
        !s.active,
        pose_of(clip, s).transform == clip.keyframes@.last().transform,
        pose_of(clip, s).triggers == clip.keyframes@.last().custom_animation_triggers@,
{
    assert(clip.keyframes@.len() == clip.keyframes.len());
    lemma_frames_ascend(clip.keyframes@, clip.keyframes@.len() - 1);
    lemma_end_triggers(clip.keyframes@);
    lemma_end_transform(clip.keyframes@);
}

/// The keyframes of a clip that can be played ascend in time: none is later
/// than the keyframe at `last`.
pub proof fn lemma_frames_ascend(frames: Seq<KeyFrame>, last: int)
    requires
        frames_wf(frames),
        0 <= last < frames.len(),
    ensures
        forall|j: int| 0 <= j <= last ==> (#[trigger] frames[j]).time <= frames[last].time,
    decreases last,
{
    if last > 0 {
        lemma_frames_ascend(frames, last - 1);
        assert(frame_ok(frames, last));
    }
}

/// The playback time after a tick of `delta`: zero on the first tick, else
/// `delta` more than before; none for a stopped animation.
pub open spec fn playback_time(state: AnimationState, delta: u64) -> Option<u64> {
    match state {
        AnimationState::Init => Some(0u64),
        AnimationState::Playing(played) => Some(clamp_u64(played as int + delta as int)),
        AnimationState::Stop => None,
    }
}

/// Whether an entity is among the targets that exist.
pub open spec fn is_target(targets: Seq<Entity>, entity: Entity) -> bool {
    targets.contains(entity)
}

/// The poses of the clips whose targets exist, in the order of the clips.
pub open spec fn poses_at(clips: Seq<AnimationClip>, targets: Seq<Entity>, time: u64, poses: Seq<PoseView>) -> bool
    decreases clips.len(),
{
    if clips.len() == 0 {
        poses.len() == 0
    } else if is_target(targets, clips.last().entity) {
        &&& poses.len() > 0
        &&& is_sample(clips.last().keyframes@, time, poses.last().sample)
        &&& poses.last() == pose_of(clips.last(), poses.last().sample)
        &&& poses_at(clips.drop_last(), targets, time, poses.drop_last())
    } else {
        poses_at(clips.drop_last(), targets, time, poses)
    }
}

/// Whether any clip whose target exists has a keyframe yet to come.
pub open spec fn any_active(clips: Seq<AnimationClip>, targets: Seq<Entity>, time: u64) -> bool {
    exists|i: int|
        0 <= i < clips.len() && is_target(targets, (#[trigger] clips[i]).entity) && !exhausted(
            clips[i].keyframes@,
            time,
        )
}

/// Whether `entity` is among `targets`.
pub fn has_target(targets: &Vec<Entity>, entity: Entity) -> (r: bool)
    ensures
        r == is_target(targets@, entity),
{
    let mut i: usize = 0;
    while i < targets.len()
        invariant
            i <= targets.len(),
            forall|j: int| 0 <= j < i ==> targets@[j] != entity,
        decreases targets.len() - i,
    {
        if targets[i] == entity {
            return true;
        }
        i += 1;
    }
    false
}

/// One tick of an animation.
///
/// The playback time starts at zero on the first tick and grows by `delta`
/// on each later one. Every clip whose target exists yields the pose of its
/// sample at that time; a clip whose target is gone is passed over. The
/// animation goes on playing while a clip with an existing target has a
/// keyframe to come, and stops otherwise. A stopped animation yields nothing
/// and stays stopped.
pub fn update_animation(
    delta: u64,
    state: &mut AnimationState,
    clips: &AnimationClips,
    targets: &Vec<Entity>,
) -> (r: Vec<Pose>)
    requires
        clips.wf(),
    ensures
        match playback_time(*old(state), delta) {
            None => r@.len() == 0 && *final(state) == AnimationState::Stop,
            Some(time) => {
                &&& poses_at(clips.0@, targets@, time, r@.map_values(|p: Pose| p@))
                &&& *final(state) == if any_active(clips.0@, targets@, time) {
                    AnimationState::Playing(time)
                } else {
                    AnimationState::Stop
                }
            },
        },
{
    let mut poses: Vec<Pose> = Vec::new();
    let time: u64 = match *state {
        AnimationState::Init => 0,
        AnimationState::Playing(played) => add_time(played, delta),
        AnimationState::Stop => {
            return poses;
        },
    };
    let mut active = false;
    let mut i: usize = 0;
    proof {
        assert(poses@.map_values(|p: Pose| p@) =~= Seq::<PoseView>::empty());
    }
    while i < clips.0.len()
        invariant
            i <= clips.0.len(),
            clips.wf(),
            poses_at(clips.0@.take(i as int), targets@, time, poses@.map_values(|p: Pose| p@)),
            active == any_active(clips.0@.take(i as int), targets@, time),
        decreases clips.0.len() - i,
    {
        let clip = &clips.0[i];
        let ghost next = clips.0@.take(i as int + 1);
        let ghost before = poses@.map_values(|p: Pose| p@);
        proof {
            assert(next.drop_last() =~= clips.0@.take(i as int));
            assert(next.last() == *clip);
            assert(clip.wf());
        }
        if has_target(targets, clip.entity) {
            let s = sample(&clip.keyframes, time);
            let pose = apply_anim_keyframe(clip, s);
            poses.push(pose);
            proof {
                let after = poses@.map_values(|p: Pose| p@);
                assert(after.drop_last() =~= before);
                assert(after.last() == pose_of(*clip, s));
            }
            if s.active {
                active = true;
            }
        }
        proof {
            let prefix = clips.0@.take(i as int);
            if any_active(next, targets@, time) {
                let w = choose|w: int|
                    0 <= w < next.len() && is_target(targets@, (#[trigger] next[w]).entity)
                        && !exhausted(next[w].keyframes@, time);
                if w < i {
                    assert(prefix[w] == next[w]);
                    assert(any_active(prefix, targets@, time));
                }
            }
            if any_active(prefix, targets@, time) {
                let w = choose|w: int|
                    0 <= w < prefix.len() && is_target(targets@, (#[trigger] prefix[w]).entity)
                        && !exhausted(prefix[w].keyframes@, time);
                assert(next[w] == prefix[w]);
            }
            if is_target(targets@, clip.entity) && !exhausted(clip.keyframes@, time) {
                assert(next[i as int] == *clip);
            }
        }
        i += 1;
    }
    proof {
        assert(clips.0@.take(i as int) =~= clips.0@);
    }
    *state = if active {
        AnimationState::Playing(time)
    } else {
        AnimationState::Stop
    };
    poses
}

/// Whether a stopped animation is to be removed: it has stopped and is
/// marked for removal.
pub fn clean_stop_animation(state: &AnimationState, auto_cleanup: &AnimationAutoCleanup) -> (r: bool)
    ensures
        r == (*state == AnimationState::Stop && *auto_cleanup == AnimationAutoCleanup::AutoCleanup),
{
    match (state, auto_cleanup) {
        (AnimationState::Stop, AnimationAutoCleanup::AutoCleanup) => true,
        _ => false,
    }
}

/// The channel values as a map from key to value; of two entries with one
/// key the later counts.
pub open spec fn channel_map(values: Seq<TriggerValue>) -> Map<u64, i32>
    decreases values.len(),
{
    if values.len() == 0 {
        Map::empty()
    } else {
        channel_map(values.drop_last()).insert(values.last().key, values.last().value)
    }
}

/// Overwriting the value of the last entry with a key stores that value
/// under the key.
pub proof fn lemma_channel_update(values: Seq<TriggerValue>, i: int, value: i32)
    requires
        0 <= i < values.len(),
        forall|j: int| i < j < values.len() ==> (#[trigger] values[j]).key != values[i].key,
    ensures
        channel_map(values.update(i, TriggerValue { key: values[i].key, value })) == channel_map(
            values,
        ).insert(values[i].key, value),
    decreases values.len(),
{
    let key = values[i].key;
    let updated = values.update(i, TriggerValue { key, value });
    if i == values.len() - 1 {
        assert(updated.drop_last() =~= values.drop_last());
        assert(channel_map(updated) =~= channel_map(values).insert(key, value));
    } else {
        assert(updated.drop_last() =~= values.drop_last().update(i, TriggerValue { key, value }));
        assert(values.drop_last()[i] == values[i]);
        assert forall|j: int| i < j < values.drop_last().len() implies (#[trigger] values.drop_last()[j]).key
            != values.drop_last()[i].key by {
            assert(values[j].key != key);
        }
        lemma_channel_update(values.drop_last(), i, value);
        assert(updated.last() == values.last());
        assert(values.last().key != key);
        assert(channel_map(updated) =~= channel_map(values).insert(key, value));
    }
}

impl CustomAnimationTrigger {
    /// The channels as a map from key to value.
    pub open spec fn channels(&self) -> Map<u64, i32> {
        channel_map(self.animation_value@)
    }

    /// The value of a channel, if it has been set.
    pub fn get(&self, key: u64) -> (r: Option<i32>)
        ensures
            r == if self.channels().contains_key(key) {
                Some(self.channels()[key])
            } else {
                None
            },
    {
        let mut i: usize = self.animation_value.len();
        proof {
            assert(self.animation_value@.take(i as int) =~= self.animation_value@);
        }
        while i > 0
            invariant
                i <= self.animation_value.len(),
                channel_map(self.animation_value@).contains_key(key) == channel_map(
                    self.animation_value@.take(i as int),
                ).contains_key(key),
                channel_map(self.animation_value@).contains_key(key) ==> channel_map(
                    self.animation_value@,
                )[key] == channel_map(self.animation_value@.take(i as int))[key],
            decreases i,
        {
            proof {
                let now = self.animation_value@.take(i as int);
                assert(now.drop_last() =~= self.animation_value@.take(i as int - 1));
                assert(now.last() == self.animation_value@[i as int - 1]);
            }
            i -= 1;
            if self.animation_value[i].key == key {
                return Some(self.animation_value[i].value);
            }
        }
        None
    }

    /// Sets a channel to a value.
    pub fn insert(&mut self, key: u64, value: i32)
        ensures
            final(self).channels() == old(self).channels().insert(key, value),
    {
        let mut i: usize = self.animation_value.len();
        while i > 0
            invariant
                i <= self.animation_value.len(),
                self.animation_value@ == old(self).animation_value@,
                forall|j: int| i <= j < self.animation_value@.len() ==> (#[trigger] self.animation_value@[j]).key != key,
            decreases i,
        {
            i -= 1;
            if self.animation_value[i].key == key {
                proof {
                    lemma_channel_update(self.animation_value@, i as int, value);
                }
                self.animation_value[i] = TriggerValue { key, value };
                return ;
            }
        }
        let ghost before = self.animation_value@;
        self.animation_value.push(TriggerValue { key, value });
        proof {
            assert(self.animation_value@.drop_last() =~= before);
        }
    }
}

/// The channels after the values of a pose have been set, one after the
/// other.
pub open spec fn channels_set(channels: Map<u64, i32>, values: Seq<TriggerValue>) -> Map<u64, i32>
    decreases values.len(),
{
    if values.len() == 0 {
        channels
    } else {
        channels_set(channels, values.drop_last()).insert(values.last().key, values.last().value)
    }
}

/// Puts a pose onto its target: the transform, where the pose has one and
/// the target takes one, and every channel value, where the target has
/// channels.
pub fn apply_pose(pose: &Pose, transform: &mut Transform, trigger: &mut CustomAnimationTrigger)
    ensures
        *final(transform) == match pose.transform {
            Some(posed) => posed,
            None => *old(transform),
        },
        final(trigger).channels() == channels_set(old(trigger).channels(), pose.triggers@),
{
    match pose.transform {
        Some(posed) => {
            *transform = posed;
        },
        None => {},
    }
    let mut k: usize = 0;
    while k < pose.triggers.len()
        invariant
            k <= pose.triggers.len(),
            trigger.channels() == channels_set(old(trigger).channels(), pose.triggers@.take(k as int)),
        decreases pose.triggers.len() - k,
    {
        let set: TriggerValue = pose.triggers[k];
        proof {
            let next = pose.triggers@.take(k as int + 1);
            assert(next.drop_last() =~= pose.triggers@.take(k as int));
            assert(next.last() == set);
        }
        trigger.insert(set.key, set.value);
        k += 1;
    }
    proof {
        assert(pose.triggers@.take(k as int) =~= pose.triggers@);
    }
}

/// An entity that is to move from one pose to another.
#[derive(Clone, Copy, Debug, PartialEq, Eq, Structural)]
pub struct Slide {
    pub entity: Entity,
    pub from: Transform,
    pub to: Transform,
}

impl Slide {
    /// Whether `clip` animates the move over `duration` nanoseconds: two
    /// keyframes, the pose to leave at the start and the pose to reach at
    /// the end.
    pub open spec fn animated_by(&self, clip: AnimationClip, duration: u64) -> bool {
        &&& clip.entity == self.entity
        &&& clip.keyframes@.len() == 2
        &&& clip.keyframes@[0].time == 0
        &&& clip.keyframes@[0].transform == Some(self.from)
        &&& clip.keyframes@[0].custom_animation_triggers@.len() == 0
        &&& clip.keyframes@[1].time == duration
        &&& clip.keyframes@[1].transform == Some(self.to)
        &&& clip.keyframes@[1].custom_animation_triggers@.len() == 0
    }

    /// The animation of the move, over `duration` nanoseconds.
    pub fn clip(&self, duration: u64) -> (r: AnimationClip)
        requires
            duration > 0,
        ensures
            r.wf(),
            self.animated_by(r, duration),
    {
        let mut keyframes: Vec<KeyFrame> = Vec::new();
        keyframes.push(
            KeyFrame { time: 0, transform: Some(self.from), custom_animation_triggers: Vec::new() },
        );
        keyframes.push(
            KeyFrame {
                time: duration,
                transform: Some(self.to),
                custom_animation_triggers: Vec::new(),
            },
        );
        AnimationClip { entity: self.entity, keyframes }
    }
}

} // verus!

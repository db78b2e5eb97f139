//! The round as a whole: which passes run in which phase, what entering a
//! phase schedules, and how the phases follow one another.

use vstd::prelude::*;
use crate::anim::{AnimationClip, KeyFrame, Slide, Transform, Vec3};
use crate::fixed::{add_coord, clamp_i32};
use crate::level::LevelBackground;
use crate::solt::Entity;
use crate::timeline::{
    choose_seed_timeline, enter_timeline, exit_timeline, gameover_timeline, setup_choose_seed_timer,
    setup_enter_timer, setup_exit_timer, setup_gameover_timer, GameState, GameTimer, GameTimerTag,
};

verus! {

/// A group of passes that run together. The groups of a frame run in the
/// order in which they are listed here.
#[derive(Clone, Copy, Debug, PartialEq, Eq, Structural)]
pub enum PassGroup {
    /// Delayed cues and what they drive. Runs in every phase.
    Cues,
    /// The choice of seeds.
    SeedChoice,
    /// Clicks on the field and the seed bank, and the usability of seeds.
    Input,
    /// Detection, shooting, production and the death of defenders.
    Plants,
    /// Entry, eating, damage and the death of invaders.
    Zombies,
    /// Waves, reward, progress, sunshine, mowers and defeat.
    Flow,
    /// Velocities, positions and timed removal.
    Physics,
    /// Keyframed animation. Runs in every phase.
    Animation,
}

/// Whether a group of passes runs in a phase. The simulation proper runs
/// while the round runs; things keep moving after it is won and stand still
/// after it is lost.
pub open spec fn runs_in(group: PassGroup, state: GameState) -> bool {
    match group {
        PassGroup::Cues | PassGroup::Animation => true,
        PassGroup::SeedChoice => state == GameState::ChooseSeed,
        PassGroup::Input | PassGroup::Plants | PassGroup::Zombies | PassGroup::Flow => state
            == GameState::Main,
        PassGroup::Physics => state == GameState::Main || state == GameState::Exit,
    }
}

/// The groups of passes of a frame in a phase, in their order.
pub open spec fn passes_of(state: GameState) -> Seq<PassGroup> {
    match state {
        GameState::ChooseSeed => seq![PassGroup::Cues, PassGroup::SeedChoice, PassGroup::Animation],
        GameState::Main => seq![
            PassGroup::Cues,
            PassGroup::Input,
            PassGroup::Plants,
            PassGroup::Zombies,
            PassGroup::Flow,
            PassGroup::Physics,
            PassGroup::Animation,
        ],
        GameState::Exit => seq![PassGroup::Cues, PassGroup::Physics, PassGroup::Animation],
        _ => seq![PassGroup::Cues, PassGroup::Animation],
    }
}

/// Whether a group of passes runs in a phase.
pub fn group_runs(group: PassGroup, state: GameState) -> (r: bool)
    ensures
        r == runs_in(group, state),
{
    match group {
        PassGroup::Cues | PassGroup::Animation => true,
        PassGroup::SeedChoice => state == GameState::ChooseSeed,
        PassGroup::Input | PassGroup::Plants | PassGroup::Zombies | PassGroup::Flow => state
            == GameState::Main,
        PassGroup::Physics => state == GameState::Main || state == GameState::Exit,
    }
}

/// The groups of passes of a frame in a phase, in their order: every group
/// that runs in the phase, and no other.
pub fn frame_passes(state: GameState) -> (r: Vec<PassGroup>)
    ensures
        r@ == passes_of(state),
        forall|group: PassGroup| r@.contains(group) <==> runs_in(group, state),
{
    let mut passes: Vec<PassGroup> = Vec::new();
    passes.push(PassGroup::Cues);
    match state {
        GameState::ChooseSeed => {
            passes.push(PassGroup::SeedChoice);
        },
        GameState::Main => {
            passes.push(PassGroup::Input);
            passes.push(PassGroup::Plants);
            passes.push(PassGroup::Zombies);
            passes.push(PassGroup::Flow);
            passes.push(PassGroup::Physics);
        },
        GameState::Exit => {
            passes.push(PassGroup::Physics);
        },
        _ => {},
    }
    passes.push(PassGroup::Animation);
    proof {
        assert(passes@ =~= passes_of(state));
        assert forall|group: PassGroup| passes@.contains(group) <==> runs_in(group, state) by {
            if runs_in(group, state) {
                let at: int = match group {
                    PassGroup::Cues => 0,
                    PassGroup::Animation => passes@.len() - 1,
                    PassGroup::SeedChoice => 1,
                    PassGroup::Input => 1,
                    PassGroup::Plants => 2,
                    PassGroup::Zombies => 3,
                    PassGroup::Flow => 4,
                    PassGroup::Physics => if state == GameState::Main {
                        5
                    } else {
                        1
                    },
                };
                assert(passes@[at] == group);
            }
        }
    }
    passes
}

/// What happens to a round.
#[derive(Clone, Copy, Debug, PartialEq, Eq, Structural)]
pub enum RoundEvent {
    /// A cue asks for a phase.
    Cue(GameState),
    /// An invader has got behind the defense line.
    InvaderThrough,
    /// The player has picked the reward up.
    RewardPicked,
}

/// The phase after an event. A cue is followed. The round is lost or won
/// only while it runs.
pub open spec fn state_after(state: GameState, event: RoundEvent) -> GameState {
    match event {
        RoundEvent::Cue(next) => next,
        RoundEvent::InvaderThrough => if state == GameState::Main {
            GameState::Fail
        } else {
            state
        },
        RoundEvent::RewardPicked => if state == GameState::Main {
            GameState::Exit
        } else {
            state
        },
    }
}

/// The phase after an event.
pub fn next_state(state: GameState, event: RoundEvent) -> (r: GameState)
    ensures
        r == state_after(state, event),
{
    match event {
        RoundEvent::Cue(next) => next,
        RoundEvent::InvaderThrough => if state == GameState::Main {
            GameState::Fail
        } else {
            state
        },
        RoundEvent::RewardPicked => if state == GameState::Main {
            GameState::Exit
        } else {
            state
        },
    }
}

/// The cues that entering a phase schedules.
pub open spec fn entry_timeline(state: GameState, background: LevelBackground) -> Seq<GameTimer> {
    match state {
        GameState::ChooseSeed => choose_seed_timeline(),
        GameState::Enter => enter_timeline(background),
        GameState::Fail => gameover_timeline(),
        GameState::Exit => exit_timeline(),
        _ => Seq::empty(),
    }
}

/// Schedules the cues of a phase that is entered.
pub fn enter_state(state: GameState, background: &LevelBackground) -> (r: Vec<GameTimer>)
    ensures
        r@ == entry_timeline(state, *background),
{
    match state {
        GameState::ChooseSeed => setup_choose_seed_timer(),
        GameState::Enter => setup_enter_timer(background),
        GameState::Fail => setup_gameover_timer(),
        GameState::Exit => setup_exit_timer(),
        _ => Vec::new(),
    }
}

/// Nanoseconds that the camera takes for a pan.
pub const CAMERA_PAN_TIME: u64 = 1_500_000_000;

/// Nanoseconds that the seed bank and the box of seeds take to slide in.
pub const FADE_TIME: u64 = 200_000_000;

/// Where a camera cue takes the camera along x; none for other cues.
pub open spec fn camera_target(tag: GameTimerTag) -> Option<i32> {
    match tag {
        GameTimerTag::CameraToRightAnim => Some(380_000i32),
        GameTimerTag::CameraToCenterAnim => Some(0i32),
        GameTimerTag::CameraToLeftAnim => Some(-220_000i32),
        _ => None,
    }
}

/// The pan that a camera cue asks for: from where the camera is to its
/// target on the x axis, at the size it has.
pub fn move_camera(tag: GameTimerTag, camera: Entity, from: Transform) -> (r: Option<Slide>)
    ensures
        r == match camera_target(tag) {
            Some(x) => Some(
                Slide {
                    entity: camera,
                    from,
                    to: Transform { translation: Vec3 { x, y: 0, z: 0 }, scale: from.scale },
                },
            ),
            None => None,
        },
{
    let x: i32 = match tag {
        GameTimerTag::CameraToRightAnim => 380_000,
        GameTimerTag::CameraToCenterAnim => 0,
        GameTimerTag::CameraToLeftAnim => -220_000,
        _ => {
            return None;
        },
    };
    Some(
        Slide {
            entity: camera,
            from,
            to: Transform { translation: Vec3 { x, y: 0, z: 0 }, scale: from.scale },
        },
    )
}

/// `transform` moved by `dy` along y.
pub open spec fn raised(transform: Transform, dy: i32) -> Transform {
    Transform {
        translation: Vec3 {
            y: clamp_i32(transform.translation.y as int + dy as int),
            ..transform.translation
        },
        ..transform
    }
}

/// The slide with which a part of the screen comes in or goes out on a fade
/// cue: the seed bank comes down from above; the box of seeds comes up from
/// below, and goes back down. None for other cues.
pub open spec fn fade_of(tag: GameTimerTag, entity: Entity, place: Transform) -> Option<Slide> {
    match tag {
        GameTimerTag::FadeInSeedBank => Some(Slide { entity, from: raised(place, 100_000), to: place }),
        GameTimerTag::FadeInSeedChooser => Some(
            Slide { entity, from: raised(place, -600_000i32), to: place },
        ),
        GameTimerTag::FadeOutSeedChooser => Some(
            Slide { entity, from: place, to: raised(place, -600_000i32) },
        ),
        _ => None,
    }
}

/// The slide of an entity at `place` for a fade cue.
pub fn fade_slide(tag: GameTimerTag, entity: Entity, place: Transform) -> (r: Option<Slide>)
    ensures
        r == fade_of(tag, entity, place),
{
    let lift = |dy: i32| -> (t: Transform)
        ensures
            t == raised(place, dy),
        {
            Transform {
                translation: Vec3 {
                    x: place.translation.x,
                    y: add_coord(place.translation.y, dy),
                    z: place.translation.z,
                },
                scale: place.scale,
            }
        };
    match tag {
        GameTimerTag::FadeInSeedBank => Some(Slide { entity, from: lift(100_000), to: place }),
        GameTimerTag::FadeInSeedChooser => Some(Slide { entity, from: lift(-600_000), to: place }),
        GameTimerTag::FadeOutSeedChooser => Some(Slide { entity, from: place, to: lift(-600_000) }),
        _ => None,
    }
}

/// Nanoseconds that the reward takes to rise to the middle of the screen
/// when the round is won.
pub const REWARD_RISE_TIME: u64 = 3_000_000_000;

/// The rise of the reward when the round is won: from where it lies to the
/// middle of the screen, in front of everything.
pub fn setup_exit_reward_anim(reward: Entity, from: Transform) -> (r: Slide)
    ensures
        r == (Slide {
            entity: reward,
            from,
            to: Transform { translation: Vec3 { x: 0, y: 200_000, z: 50_000 }, scale: from.scale },
        }),
{
    Slide {
        entity: reward,
        from,
        to: Transform { translation: Vec3 { x: 0, y: 200_000, z: 50_000 }, scale: from.scale },
    }
}

/// Where the mower of a lane waits before it rolls in.
pub open spec fn car_start(lane: u8) -> Transform {
    Transform {
        translation: Vec3 { x: -450_000i32, y: (lane as int * 100_000 - 200_000) as i32, z: 10_000 },
        scale: Vec3 { x: 1_000, y: 1_000, z: 1_000 },
    }
}

/// Where the mower of a lane stands once it has rolled in.
pub open spec fn car_place(lane: u8) -> Transform {
    Transform {
        translation: Vec3 { x: -410_000i32, ..car_start(lane).translation },
        ..car_start(lane)
    }
}

/// When the mower of a lane starts to roll in: the mowers start one after
/// the other, lane by lane.
pub open spec fn car_roll_start(lane: u8) -> u64 {
    (150_000_000 * lane as int + 50_000_000) as u64
}

/// Whether `clip` lets the mower of a lane roll in: it waits at its start,
/// then rolls to its place in a tenth of a second.
pub open spec fn rolls_in(clip: AnimationClip, car: Entity, lane: u8) -> bool {
    &&& clip.entity == car
    &&& clip.keyframes@.len() == 3
    &&& clip.keyframes@[0].time == 0
    &&& clip.keyframes@[0].transform == Some(car_start(lane))
    &&& clip.keyframes@[1].time == car_roll_start(lane)
    &&& clip.keyframes@[1].transform == Some(car_start(lane))
    &&& clip.keyframes@[2].time == car_roll_start(lane) + 100_000_000
    &&& clip.keyframes@[2].transform == Some(car_place(lane))
    &&& forall|i: int| 0 <= i < 3 ==> (#[trigger] clip.keyframes@[i]).custom_animation_triggers@.len() == 0
}

/// The animation with which the mower of a lane rolls in.
pub fn trigger_fade_in_cars(car: Entity, lane: u8) -> (r: AnimationClip)
    ensures
        r.wf(),
        rolls_in(r, car, lane),
{
    let y: i32 = (lane as i32) * 100_000 - 200_000;
    let start = Transform {
        translation: Vec3 { x: -450_000, y, z: 10_000 },
        scale: Vec3 { x: 1_000, y: 1_000, z: 1_000 },
    };
    let place = Transform {
        translation: Vec3 { x: -410_000, y, z: 10_000 },
        scale: Vec3 { x: 1_000, y: 1_000, z: 1_000 },
    };
    let roll: u64 = 150_000_000 * (lane as u64) + 50_000_000;
    let mut keyframes: Vec<KeyFrame> = Vec::new();
    keyframes.push(KeyFrame { time: 0, transform: Some(start), custom_animation_triggers: Vec::new() });
    keyframes.push(KeyFrame { time: roll, transform: Some(start), custom_animation_triggers: Vec::new() });
    keyframes.push(
        KeyFrame {
            time: roll + 100_000_000,
            transform: Some(place),
            custom_animation_triggers: Vec::new(),
        },
    );
    let clip = AnimationClip { entity: car, keyframes };
    proof {
        assert(crate::anim::frame_ok(clip.keyframes@, 1));
        assert(crate::anim::frame_ok(clip.keyframes@, 2));
    }
    clip
}

} // verus!

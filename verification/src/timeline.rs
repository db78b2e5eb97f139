//! The phases of a round and the delayed cues that drive them.

use vstd::prelude::*;
use crate::level::{LevelBackground, SodType};
use crate::timer::{Countdown, TimerMode};

verus! {

/// Nanoseconds in one second.
pub const SECOND: u64 = 1_000_000_000;

/// Phase of a round.
#[derive(Clone, Copy, Debug, PartialEq, Eq, Structural, Hash)]
pub enum GameState {
    /// The field is shown.
    Init,
    /// The player chooses seeds.
    ChooseSeed,
    /// The camera moves in and the round is counted in.
    Enter,
    /// The round runs.
    Main,
    /// The round is won.
    Exit,
    /// The round is lost.
    Fail,
}

impl Default for GameState {
    /// A round starts in `Init`.
    fn default() -> (r: GameState)
        ensures
            r == GameState::Init,
    {
        GameState::Init
    }
}

/// What is to happen when a delay has passed.
#[derive(Clone, Copy, Debug, PartialEq, Eq, Structural)]
pub enum GameTimerTag {
    CameraToRightAnim,
    CameraToCenterAnim,
    CameraToLeftAnim,
    FadeInSeedBank,
    FadeInSeedChooser,
    FadeOutSeedChooser,
    FadeInCars,
    ShowLevelProgress,
    TextReady,
    TextSet,
    TextPlants,
    TextHugeWave,
    TextFinalWave,
    TextZombieEatYourBrain,
    SoundReadySetPlant,
    SoundZombieReached,
    SoundHugeWave,
    SoundHugeWaveZombieReached,
    SoundFinalWave,
    SoundLose,
    SoundEat,
    SoundScream,
    SoundWin,
    StopBgm,
    /// The round changes its phase.
    EnterState(GameState),
    UpgradeSod,
    /// The round's rewards are granted and the scene is left.
    Finish,
    /// The round starts over.
    Reset,
}

/// A cue with the countdown after which it fires.
#[derive(Clone, Copy, Debug, PartialEq, Eq, Structural)]
pub struct GameTimer {
    pub timer: Countdown,
    pub tag: GameTimerTag,
}

impl GameTimer {
    /// The cue `tag`, to fire once after `delay` nanoseconds.
    pub open spec fn after(delay: u64, tag: GameTimerTag) -> GameTimer {
        GameTimer { timer: Countdown::fresh(delay, TimerMode::Once), tag }
    }

    /// The cue `tag`, to fire once after `delay` nanoseconds.
    pub fn new(delay: u64, tag: GameTimerTag) -> (r: GameTimer)
        ensures
            r == GameTimer::after(delay, tag),
    {
        GameTimer { timer: Countdown::new(delay, TimerMode::Once), tag }
    }

    /// The cue one tick later.
    pub open spec fn ticked(self, delta: u64) -> GameTimer {
        GameTimer { timer: self.timer.ticked(delta), ..self }
    }

    /// Whether the cue fires in a tick of `delta`.
    pub open spec fn fires(self, delta: u64) -> bool {
        self.timer.ticked(delta).spec_just_finished()
    }

    /// Whether the cue is still scheduled after a tick of `delta`. A one-shot
    /// cue goes when it has fired.
    pub open spec fn stays(self, delta: u64) -> bool {
        !(self.fires(delta) && self.timer.mode == TimerMode::Once)
    }
}

/// The cues that fire in a tick of `delta`, in the order of their schedule.
pub open spec fn fired_tags(timers: Seq<GameTimer>, delta: u64) -> Seq<GameTimerTag>
    decreases timers.len(),
{
    if timers.len() == 0 {
        Seq::empty()
    } else if timers.last().fires(delta) {
        fired_tags(timers.drop_last(), delta).push(timers.last().tag)
    } else {
        fired_tags(timers.drop_last(), delta)
    }
}

/// The schedule after a tick of `delta`: each countdown advanced, the
/// one-shot cues that fired taken out.
pub open spec fn kept_timers(timers: Seq<GameTimer>, delta: u64) -> Seq<GameTimer>
    decreases timers.len(),
{
    if timers.len() == 0 {
        Seq::empty()
    } else if timers.last().stays(delta) {
        kept_timers(timers.drop_last(), delta).push(timers.last().ticked(delta))
    } else {
        kept_timers(timers.drop_last(), delta)
    }
}

/// The phase that the last phase change among `tags` asks for.
pub open spec fn requested_state(tags: Seq<GameTimerTag>) -> Option<GameState>
    decreases tags.len(),
{
    if tags.len() == 0 {
        None
    } else {
        match tags.last() {
            GameTimerTag::EnterState(state) => Some(state),
            _ => requested_state(tags.drop_last()),
        }
    }
}

/// What a tick of the schedule brought.
#[derive(Debug)]
pub struct FiredCues {
    /// The cues that fired, in schedule order, phase changes among them.
    pub tags: Vec<GameTimerTag>,
    /// The phase to enter: that of the last phase change that fired.
    pub next_state: Option<GameState>,
}

/// Advances every scheduled cue by `delta` nanoseconds, takes the one-shot
/// cues that fired out of the schedule, and reports what fired.
pub fn update_timer(delta: u64, timers: &mut Vec<GameTimer>) -> (r: FiredCues)
    ensures
        final(timers)@ == kept_timers(old(timers)@, delta),
        r.tags@ == fired_tags(old(timers)@, delta),
        r.next_state == requested_state(r.tags@),
{
    let mut kept: Vec<GameTimer> = Vec::new();
    let mut tags: Vec<GameTimerTag> = Vec::new();
    let mut next_state: Option<GameState> = None;
    let mut i: usize = 0;
    while i < timers.len()
        invariant
            i <= timers.len(),
            timers@ == old(timers)@,
            kept@ == kept_timers(timers@.take(i as int), delta),
            tags@ == fired_tags(timers@.take(i as int), delta),
            next_state == requested_state(tags@),
        decreases timers.len() - i,
    {
        let mut entry: GameTimer = timers[i];
        entry.timer.tick(delta);
        let fired = entry.timer.just_finished();
        proof {
            let next = timers@.take(i as int + 1);
            assert(next.drop_last() =~= timers@.take(i as int));
            assert(next.last() == timers@[i as int]);
            assert(entry == timers@[i as int].ticked(delta));
        }
        if fired {
            let ghost before = tags@;
            tags.push(entry.tag);
            proof {
                assert(tags@.drop_last() =~= before);
            }
            match entry.tag {
                GameTimerTag::EnterState(state) => {
                    next_state = Some(state);
                },
                _ => {},
            }
        }
        let once = match entry.timer.mode {
            TimerMode::Once => true,
            TimerMode::Repeating => false,
        };
        if !(fired && once) {
            kept.push(entry);
        }
        i += 1;
    }
    proof {
        assert(timers@.take(i as int) =~= timers@);
    }
    *timers = kept;
    FiredCues { tags, next_state }
}

/// Whether the lawn of a level is laid one step further as the round begins.
pub open spec fn upgrades_sod(background: LevelBackground) -> bool {
    match background {
        LevelBackground::Day { sod_type, upgrade_sod_type } => upgrade_sod_type && sod_type
            != SodType::SodRow5,
        _ => false,
    }
}

/// The opening of a round: after three seconds the camera pans to the
/// invaders, four seconds later the round goes on to the choice of seeds,
/// or straight to its entry where there is nothing to choose.
pub open spec fn init_timeline(choose_seed: bool) -> Seq<GameTimer> {
    seq![
        GameTimer::after(3_000_000_000, GameTimerTag::CameraToRightAnim),
        GameTimer::after(
            7_000_000_000,
            GameTimerTag::EnterState(
                if choose_seed {
                    GameState::ChooseSeed
                } else {
                    GameState::Enter
                },
            ),
        ),
    ]
}

/// The entry of a round, with `t` the moment the seed bank fades in.
pub open spec fn enter_timeline_from(t: u64) -> Seq<GameTimer> {
    seq![
        GameTimer::after(t, GameTimerTag::FadeInSeedBank),
        GameTimer::after(t, GameTimerTag::FadeInCars),
        GameTimer::after((t + 2_000_000_000) as u64, GameTimerTag::StopBgm),
        GameTimer::after((t + 2_000_000_000) as u64, GameTimerTag::SoundReadySetPlant),
        GameTimer::after((t + 2_000_000_000) as u64, GameTimerTag::TextReady),
        GameTimer::after((t + 2_500_000_000) as u64, GameTimerTag::TextSet),
        GameTimer::after((t + 3_000_000_000) as u64, GameTimerTag::TextPlants),
        GameTimer::after((t + 4_000_000_000) as u64, GameTimerTag::EnterState(GameState::Main)),
    ]
}

/// The entry of a round: the camera pans to the field at once; a lawn that is
/// to grow is laid after two seconds, which takes two seconds more; then the
/// seed bank and the mowers fade in, two seconds later the round is counted
/// in, and four seconds after the fade the round runs.
pub open spec fn enter_timeline(background: LevelBackground) -> Seq<GameTimer> {
    if upgrades_sod(background) {
        seq![
            GameTimer::after(0, GameTimerTag::CameraToCenterAnim),
            GameTimer::after(2_000_000_000, GameTimerTag::UpgradeSod),
        ] + enter_timeline_from(4_000_000_000)
    } else {
        seq![GameTimer::after(0, GameTimerTag::CameraToCenterAnim)] + enter_timeline_from(
            2_000_000_000,
        )
    }
}

/// The cues on entering the choice of seeds.
pub open spec fn choose_seed_timeline() -> Seq<GameTimer> {
    seq![
        GameTimer::after(0, GameTimerTag::FadeInSeedBank),
        GameTimer::after(0, GameTimerTag::FadeInSeedChooser),
    ]
}

/// The cues on starting the round from the choice of seeds.
pub open spec fn start_game_timeline() -> Seq<GameTimer> {
    seq![
        GameTimer::after(0, GameTimerTag::FadeOutSeedChooser),
        GameTimer::after(500_000_000, GameTimerTag::EnterState(GameState::Enter)),
    ]
}

/// The cues of a lost round.
pub open spec fn gameover_timeline() -> Seq<GameTimer> {
    seq![
        GameTimer::after(0, GameTimerTag::SoundLose),
        GameTimer::after(0, GameTimerTag::StopBgm),
        GameTimer::after(1_000_000_000, GameTimerTag::CameraToLeftAnim),
        GameTimer::after(3_000_000_000, GameTimerTag::SoundEat),
        GameTimer::after(3_500_000_000, GameTimerTag::SoundEat),
        GameTimer::after(4_000_000_000, GameTimerTag::SoundEat),
        GameTimer::after(4_500_000_000, GameTimerTag::SoundEat),
        GameTimer::after(6_000_000_000, GameTimerTag::SoundScream),
        GameTimer::after(6_000_000_000, GameTimerTag::TextZombieEatYourBrain),
        GameTimer::after(11_500_000_000, GameTimerTag::Reset),
    ]
}

/// The cues of a won round.
pub open spec fn exit_timeline() -> Seq<GameTimer> {
    seq![
        GameTimer::after(0, GameTimerTag::SoundWin),
        GameTimer::after(0, GameTimerTag::StopBgm),
        GameTimer::after(7_000_000_000, GameTimerTag::Finish),
    ]
}

/// Whether the player has seeds to choose from: more unlocked species than
/// the seed bank has places.
pub open spec fn must_choose(unlocked: usize, plant_solt_count: usize) -> bool {
    unlocked > plant_solt_count
}

/// Schedules the opening of a round.
pub fn setup_init_timer(unlocked: usize, plant_solt_count: usize) -> (r: Vec<GameTimer>)
    ensures
        r@ == init_timeline(must_choose(unlocked, plant_solt_count)),
{
    let next = if unlocked <= plant_solt_count {
        GameState::Enter
    } else {
        GameState::ChooseSeed
    };
    let mut timers: Vec<GameTimer> = Vec::new();
    timers.push(GameTimer::new(3 * SECOND, GameTimerTag::CameraToRightAnim));
    timers.push(GameTimer::new(7 * SECOND, GameTimerTag::EnterState(next)));
    proof {
        assert(timers@ =~= init_timeline(must_choose(unlocked, plant_solt_count)));
    }
    timers
}

/// Schedules the cues on entering the choice of seeds.
pub fn setup_choose_seed_timer() -> (r: Vec<GameTimer>)
    ensures
        r@ == choose_seed_timeline(),
{
    let mut timers: Vec<GameTimer> = Vec::new();
    timers.push(GameTimer::new(0, GameTimerTag::FadeInSeedBank));
    timers.push(GameTimer::new(0, GameTimerTag::FadeInSeedChooser));
    proof {
        assert(timers@ =~= choose_seed_timeline());
    }
    timers
}

/// Schedules the entry of a round.
pub fn setup_enter_timer(background: &LevelBackground) -> (r: Vec<GameTimer>)
    ensures
        r@ == enter_timeline(*background),
{
    let mut timers: Vec<GameTimer> = Vec::new();
    let mut time: u64 = 0;
    timers.push(GameTimer::new(time, GameTimerTag::CameraToCenterAnim));
    time = time + 2 * SECOND;
    let upgrade = match background {
        LevelBackground::Day { sod_type, upgrade_sod_type } => match (sod_type, upgrade_sod_type) {
            (_, false) => false,
            (SodType::SodRow5, true) => false,
            (_, true) => true,
        },
        _ => false,
    };
    if upgrade {
        timers.push(GameTimer::new(time, GameTimerTag::UpgradeSod));
        time = time + 2 * SECOND;
    }
    let ghost start = time;
    let ghost head = timers@;
    timers.push(GameTimer::new(time, GameTimerTag::FadeInSeedBank));
    timers.push(GameTimer::new(time, GameTimerTag::FadeInCars));
    time = time + 2 * SECOND;
    timers.push(GameTimer::new(time, GameTimerTag::StopBgm));
    timers.push(GameTimer::new(time, GameTimerTag::SoundReadySetPlant));
    timers.push(GameTimer::new(time, GameTimerTag::TextReady));
    time = time + SECOND / 2;
    timers.push(GameTimer::new(time, GameTimerTag::TextSet));
    time = time + SECOND / 2;
    timers.push(GameTimer::new(time, GameTimerTag::TextPlants));
    time = time + SECOND;
    timers.push(GameTimer::new(time, GameTimerTag::EnterState(GameState::Main)));
    proof {
        assert(upgrade == upgrades_sod(*background));
        assert(timers@ =~= head + enter_timeline_from(start));
        assert(timers@ =~= enter_timeline(*background));
    }
    timers
}

/// Schedules the cues on starting the round from the choice of seeds.
pub fn setup_start_game_timer() -> (r: Vec<GameTimer>)
    ensures
        r@ == start_game_timeline(),
{
    let mut timers: Vec<GameTimer> = Vec::new();
    timers.push(GameTimer::new(0, GameTimerTag::FadeOutSeedChooser));
    timers.push(GameTimer::new(SECOND / 2, GameTimerTag::EnterState(GameState::Enter)));
    proof {
        assert(timers@ =~= start_game_timeline());
    }
    timers
}

/// Schedules the cues of a lost round.
pub fn setup_gameover_timer() -> (r: Vec<GameTimer>)
    ensures
        r@ == gameover_timeline(),
{
    let mut timers: Vec<GameTimer> = Vec::new();
    let mut time: u64 = 0;
    timers.push(GameTimer::new(time, GameTimerTag::SoundLose));
    timers.push(GameTimer::new(time, GameTimerTag::StopBgm));
    time = time + SECOND;
    timers.push(GameTimer::new(time, GameTimerTag::CameraToLeftAnim));
    time = time + 2 * SECOND;
    let mut bite: u64 = 0;
    while bite < 4
        invariant
            bite <= 4,
            time == 3_000_000_000 + bite * 500_000_000,
            timers@.len() == 3 + bite,
            timers@.take(3) == gameover_timeline().take(3),
            forall|k: int|
                3 <= k < 3 + bite ==> (#[trigger] timers@[k]) == GameTimer::after(
                    (3_000_000_000 + (k - 3) * 500_000_000) as u64,
                    GameTimerTag::SoundEat,
                ),
        decreases 4 - bite,
    {
        let ghost before = timers@;
        timers.push(GameTimer::new(time, GameTimerTag::SoundEat));
        proof {
            assert(timers@.take(3) =~= before.take(3));
        }
        time = time + SECOND / 2;
        bite += 1;
    }
    time = time + SECOND;
    timers.push(GameTimer::new(time, GameTimerTag::SoundScream));
    timers.push(GameTimer::new(time, GameTimerTag::TextZombieEatYourBrain));
    time = time + 5 * SECOND + SECOND / 2;
    timers.push(GameTimer::new(time, GameTimerTag::Reset));
    proof {
        let want = gameover_timeline();
        assert(timers@.len() == want.len());
        assert forall|k: int| 0 <= k < want.len() implies timers@[k] == want[k] by {
            if k < 3 {
                assert(timers@.take(3)[k] == want.take(3)[k]);
            }
        }
        assert(timers@ =~= want);
    }
    timers
}

/// Schedules the cues of a won round.
pub fn setup_exit_timer() -> (r: Vec<GameTimer>)
    ensures
        r@ == exit_timeline(),
{
    let mut timers: Vec<GameTimer> = Vec::new();
    timers.push(GameTimer::new(0, GameTimerTag::SoundWin));
    timers.push(GameTimer::new(0, GameTimerTag::StopBgm));
    timers.push(GameTimer::new(7 * SECOND, GameTimerTag::Finish));
    proof {
        assert(timers@ =~= exit_timeline());
    }
    timers
}

} // verus!

//! The reward of a round: when it drops, where it lands, and what winning
//! changes for the player.

use vstd::prelude::*;
use crate::fixed::{add_coord, clamp_i32};
use crate::geom::Vec2;
use crate::level::{LevelType, Reward};
use crate::motion::{MoveAcceleration, MoveVelocity};
use crate::plant::PlantType;
use crate::produce::{calculate_throw_initial_velocity, throw_velocity, THROW_GRAVITY, THROW_TIME};
use crate::rng::{centre_draw, random_below};
use crate::solt::Entity;
use crate::timeline::GameState;
use crate::timer::{Countdown, TimerMode};
use crate::wave::ZombieWaveController;

verus! {

/// Half the width of the part of the field in which a reward may land.
pub const SAFE_HALF_WIDTH: i32 = 350_000;

/// Half the height of the part of the field in which a reward may land.
pub const SAFE_HALF_HEIGHT: i32 = 250_000;

/// Bound of the random offset of the landing place.
pub const REWARD_SCATTER: i32 = 20_000;

/// Levels of the adventure.
pub const ADVENTURE_LEVELS: u32 = 50;

/// The anchor from which the reward drops. It follows the invaders, so that
/// the reward drops where the last one fell.
#[derive(Clone, Copy, Debug, PartialEq, Eq, Structural)]
pub struct RewardSolt {
    pub entity: Entity,
    pub position: Vec2,
}

/// A reward on its way to the ground.
#[derive(Clone, Debug, PartialEq, Eq)]
pub struct RewardDrop {
    /// Handle of the anchor, which is to go.
    pub anchor: Entity,
    pub reward: Reward,
    pub position: Vec2,
    pub velocity: MoveVelocity,
    pub acceleration: MoveAcceleration,
    /// Runs out when the reward has landed.
    pub move_timer: Countdown,
}

/// `v` cut to the range from `-half` to `half`.
pub open spec fn within(v: i32, half: i32) -> i32 {
    if v < -half {
        (-half) as i32
    } else if v > half {
        half
    } else {
        v
    }
}

/// Where a reward that drops at `start` lands: the nearest place of the safe
/// part of the field, moved by `offset`.
pub open spec fn landing(start: Vec2, offset: Vec2) -> Vec2 {
    Vec2 {
        x: clamp_i32(within(start.x, SAFE_HALF_WIDTH) as int + offset.x as int),
        y: clamp_i32(within(start.y, SAFE_HALF_HEIGHT) as int + offset.y as int),
    }
}

/// The drop of `reward` from `anchor`, to land `offset` off the safe place.
pub open spec fn drop_from(anchor: RewardSolt, reward: Reward, offset: Vec2) -> RewardDrop {
    RewardDrop {
        anchor: anchor.entity,
        reward,
        position: anchor.position,
        velocity: MoveVelocity(
            throw_velocity(anchor.position, landing(anchor.position, offset), THROW_GRAVITY, THROW_TIME),
        ),
        acceleration: MoveAcceleration(Vec2 { x: 0, y: THROW_GRAVITY }),
        move_timer: Countdown::fresh(THROW_TIME, TimerMode::Once),
    }
}

/// Whether the reward is due: its anchor is still there, all waves are out,
/// and no invader is alive or yet to enter.
pub open spec fn reward_due(
    anchor: Option<RewardSolt>,
    controller: ZombieWaveController,
    waves: usize,
    field_clear: bool,
) -> bool {
    anchor.is_some() && controller.next_wave_index >= waves && field_clear
}

/// Whether the check takes the anchor from `before` to `after` with the
/// given outcome, for the draw `offset`. A reward that is due drops and
/// takes the anchor with it; else nothing changes.
pub open spec fn reward_summoned(
    before: Option<RewardSolt>,
    after: Option<RewardSolt>,
    dropped: Option<RewardDrop>,
    controller: ZombieWaveController,
    waves: usize,
    field_clear: bool,
    reward: Reward,
    offset: Vec2,
) -> bool {
    if reward_due(before, controller, waves, field_clear) {
        after.is_none() && dropped == Some(drop_from(before.unwrap(), reward, offset))
    } else {
        after == before && dropped.is_none()
    }
}

/// The reward drops once: after it has dropped it is never due again,
/// whatever the state of the round.
pub proof fn lemma_reward_drops_once(
    before: Option<RewardSolt>,
    after: Option<RewardSolt>,
    dropped: Option<RewardDrop>,
    controller: ZombieWaveController,
    waves: usize,
    field_clear: bool,
    reward: Reward,
    offset: Vec2,
    later_controller: ZombieWaveController,
    later_waves: usize,
    later_clear: bool,
)
    requires
        reward_summoned(before, after, dropped, controller, waves, field_clear, reward, offset),
        dropped.is_some(),
    ensures
        after.is_none(),
        dropped.unwrap().anchor == before.unwrap().entity,
        !reward_due(after, later_controller, later_waves, later_clear),
{
}

fn cut_within(v: i32, half: i32) -> (r: i32)
    requires
        0 <= half,
    ensures
        r == within(v, half),
{
    if v < -half {
        -half
    } else if v > half {
        half
    } else {
        v
    }
}

/// Drops the reward of the round when it is due, for a given draw of the
/// offset of its landing place.
pub fn check_summon_reward_with(
    reward_solt: &mut Option<RewardSolt>,
    controller: &ZombieWaveController,
    waves: usize,
    field_clear: bool,
    reward: Reward,
    offset: Vec2,
) -> (r: Option<RewardDrop>)
    ensures
        reward_summoned(
            *old(reward_solt),
            *final(reward_solt),
            r,
            *controller,
            waves,
            field_clear,
            reward,
            offset,
        ),
{
    let anchor = match *reward_solt {
        None => {
            return None;
        },
        Some(anchor) => anchor,
    };
    if controller.next_wave_index < waves || !field_clear {
        return None;
    }
    *reward_solt = None;
    let start = anchor.position;
    let end = Vec2 {
        x: add_coord(cut_within(start.x, SAFE_HALF_WIDTH), offset.x),
        y: add_coord(cut_within(start.y, SAFE_HALF_HEIGHT), offset.y),
    };
    Some(
        RewardDrop {
            anchor: anchor.entity,
            reward,
            position: start,
            velocity: MoveVelocity(
                calculate_throw_initial_velocity(start, end, THROW_GRAVITY, THROW_TIME),
            ),
            acceleration: MoveAcceleration(Vec2 { x: 0, y: THROW_GRAVITY }),
            move_timer: Countdown::new(THROW_TIME, TimerMode::Once),
        },
    )
}

fn draw_offset() -> (r: i32)
    ensures
        -REWARD_SCATTER <= r < REWARD_SCATTER,
{
    let draw: u64 = random_below(40_000);
    centre_draw(REWARD_SCATTER, draw)
}

/// Drops the reward of the round when it is due. It lands at a random place
/// near where the anchor stands, within the safe part of the field.
pub fn check_summon_reward(
    reward_solt: &mut Option<RewardSolt>,
    controller: &ZombieWaveController,
    waves: usize,
    field_clear: bool,
    reward: Reward,
) -> (r: Option<RewardDrop>)
    ensures
        exists|offset: Vec2|
            -REWARD_SCATTER <= offset.x < REWARD_SCATTER && -REWARD_SCATTER <= offset.y
                < REWARD_SCATTER && #[trigger] reward_summoned(
                *old(reward_solt),
                *final(reward_solt),
                r,
                *controller,
                waves,
                field_clear,
                reward,
                offset,
            ),
{
    let x: i32 = draw_offset();
    let y: i32 = draw_offset();
    let offset = Vec2 { x, y };
    let r = check_summon_reward_with(reward_solt, controller, waves, field_clear, reward, offset);
    proof {
        assert(reward_summoned(
            *old(reward_solt),
            *reward_solt,
            r,
            *controller,
            waves,
            field_clear,
            reward,
            offset,
        ));
    }
    r
}

/// Lets the anchor follow an invader: it moves to `zombie`, the place of an
/// invader that is not in its critical phase, and stays where there is none.
pub fn update_reward_solt(reward_solt: &mut RewardSolt, zombie: Option<Vec2>)
    ensures
        *final(reward_solt) == match zombie {
            Some(position) => RewardSolt { position, ..*old(reward_solt) },
            None => *old(reward_solt),
        },
{
    match zombie {
        Some(position) => {
            reward_solt.position = position;
        },
        None => {},
    }
}

/// Handles a left click on the reward: the round is won when the pointer is
/// over the reward. Returns the phase to enter; none means that the click is
/// not consumed.
pub fn input_pick_reward_seed(left_click: bool, hovered: bool) -> (r: Option<GameState>)
    ensures
        r == if left_click && hovered {
            Some(GameState::Exit)
        } else {
            None
        },
{
    if left_click && hovered {
        Some(GameState::Exit)
    } else {
        None
    }
}

/// What the player has unlocked and achieved.
#[derive(Debug)]
pub struct UserData {
    /// The unlocked species; none is listed twice.
    pub unlock_plugins: Vec<PlantType>,
    /// Places on the seed bank.
    pub plant_solt_count: usize,
    /// How often the adventure has been played through.
    pub pass_adventure_count: u32,
    /// The level of the adventure that comes next.
    pub adventure_progress: u32,
    pub unlock_minigame: bool,
    pub unlock_puzzle: bool,
    pub unlock_survial: bool,
    pub unlock_shovel: bool,
    pub unlock_almanac: bool,
    pub unlock_shop: bool,
    pub unlock_shop_taco_upgrade: bool,
    pub unlock_zen_garden: bool,
}

/// The player's record as a plain value.
pub struct UserDataView {
    pub unlock_plugins: Seq<PlantType>,
    pub plant_solt_count: usize,
    pub pass_adventure_count: u32,
    pub adventure_progress: u32,
    pub unlock_minigame: bool,
    pub unlock_puzzle: bool,
    pub unlock_survial: bool,
    pub unlock_shovel: bool,
    pub unlock_almanac: bool,
    pub unlock_shop: bool,
    pub unlock_shop_taco_upgrade: bool,
    pub unlock_zen_garden: bool,
}

impl View for UserData {
    type V = UserDataView;

    open spec fn view(&self) -> UserDataView {
        UserDataView {
            unlock_plugins: self.unlock_plugins@,
            plant_solt_count: self.plant_solt_count,
            pass_adventure_count: self.pass_adventure_count,
            adventure_progress: self.adventure_progress,
            unlock_minigame: self.unlock_minigame,
            unlock_puzzle: self.unlock_puzzle,
            unlock_survial: self.unlock_survial,
            unlock_shovel: self.unlock_shovel,
            unlock_almanac: self.unlock_almanac,
            unlock_shop: self.unlock_shop,
            unlock_shop_taco_upgrade: self.unlock_shop_taco_upgrade,
            unlock_zen_garden: self.unlock_zen_garden,
        }
    }
}

impl Default for UserData {
    /// A new player: the first species, six places, the first level.
    fn default() -> (r: UserData)
        ensures
            r@ == UserDataView::fresh(),
    {
        let mut unlock_plugins: Vec<PlantType> = Vec::new();
        unlock_plugins.push(PlantType::PeaShooter);
        proof {
            assert(unlock_plugins@ =~= seq![PlantType::PeaShooter]);
        }
        UserData {
            unlock_plugins,
            plant_solt_count: 6,
            pass_adventure_count: 0,
            adventure_progress: 1,
            unlock_minigame: false,
            unlock_puzzle: false,
            unlock_survial: false,
            unlock_shovel: false,
            unlock_almanac: false,
            unlock_shop: false,
            unlock_shop_taco_upgrade: false,
            unlock_zen_garden: false,
        }
    }
}

impl UserDataView {
    /// The record of a new player.
    pub open spec fn fresh() -> UserDataView {
        UserDataView {
            unlock_plugins: seq![PlantType::PeaShooter],
            plant_solt_count: 6,
            pass_adventure_count: 0,
            adventure_progress: 1,
            unlock_minigame: false,
            unlock_puzzle: false,
            unlock_survial: false,
            unlock_shovel: false,
            unlock_almanac: false,
            unlock_shop: false,
            unlock_shop_taco_upgrade: false,
            unlock_zen_garden: false,
        }
    }

    /// The unlocked species with `reward` among them.
    pub open spec fn unlocked_with(self, reward: Option<Reward>) -> Seq<PlantType> {
        match reward {
            Some(Reward::Plant { plant }) => if self.unlock_plugins.contains(plant) {
                self.unlock_plugins
            } else {
                self.unlock_plugins.push(plant)
            },
            _ => self.unlock_plugins,
        }
    }

    /// The record after a won round of level `id` with `reward`: a species
    /// that is the reward is unlocked; a level of the adventure moves the adventure on by one,
    /// and past its last level back to the start with one more passage
    /// counted.
    pub open spec fn finished(self, id: LevelType, reward: Option<Reward>) -> UserDataView {
        let unlock_plugins = self.unlocked_with(reward);
        match id {
            LevelType::Adventure { level } => if self.adventure_progress + 1 > ADVENTURE_LEVELS {
                UserDataView {
                    unlock_plugins,
                    adventure_progress: 0,
                    pass_adventure_count: (self.pass_adventure_count + 1) as u32,
                    ..self
                }
            } else {
                UserDataView {
                    unlock_plugins,
                    adventure_progress: (self.adventure_progress + 1) as u32,
                    ..self
                }
            },
            LevelType::PlantZombie => UserDataView { unlock_plugins, ..self },
        }
    }
}

/// Whether a species is among those unlocked.
pub fn is_unlocked(unlock_plugins: &Vec<PlantType>, plant: PlantType) -> (r: bool)
    ensures
        r == unlock_plugins@.contains(plant),
{
    let mut i: usize = 0;
    while i < unlock_plugins.len()
        invariant
            i <= unlock_plugins.len(),
            forall|j: int| 0 <= j < i ==> unlock_plugins@[j] != plant,
        decreases unlock_plugins.len() - i,
    {
        if unlock_plugins[i] == plant {
            return true;
        }
        i += 1;
    }
    false
}

/// Grants what a won round earns.
pub fn trigger_finish(userdata: &mut UserData, id: &LevelType, reward: &Option<Reward>)
    requires
        old(userdata).adventure_progress < u32::MAX,
        old(userdata).pass_adventure_count < u32::MAX,
    ensures
        final(userdata)@ == old(userdata)@.finished(*id, *reward),
{
    match reward {
        Some(Reward::Plant { plant }) => {
            if !is_unlocked(&userdata.unlock_plugins, *plant) {
                userdata.unlock_plugins.push(*plant);
            }
        },
        _ => {},
    }
    match id {
        LevelType::Adventure { level } => {
            userdata.adventure_progress = userdata.adventure_progress + 1;
            if userdata.adventure_progress > ADVENTURE_LEVELS {
                userdata.adventure_progress = 0;
                userdata.pass_adventure_count = userdata.pass_adventure_count + 1;
            }
        },
        LevelType::PlantZombie => {},
    }
}

} // verus!

//! Level definitions: the field, the waves and the reward.

use vstd::prelude::*;
use crate::plant::PlantType;
use crate::zombie::ZombieType;

verus! {

/// Identifies a level.
#[derive(Clone, Copy, Debug, PartialEq, Eq, Structural, Hash)]
pub enum LevelType {
    Adventure { level: u32 },
    PlantZombie,
}

/// How many rows of a day lawn are laid with sod.
#[derive(Clone, Copy, Debug, PartialEq, Eq, Structural)]
pub enum SodType {
    /// No row at all.
    Bare,
    SodRow1,
    SodRow3,
    SodRow5,
}

impl Default for SodType {
    /// Five rows.
    fn default() -> (r: SodType)
        ensures
            r == SodType::SodRow5,
    {
        SodType::SodRow5
    }
}

/// The field of a level.
#[derive(Clone, Copy, Debug, PartialEq, Eq, Structural)]
pub enum LevelBackground {
    /// Lawn by day. With `upgrade_sod_type` the lawn is laid one step further
    /// as the round begins.
    Day { sod_type: SodType, upgrade_sod_type: bool },
    Night,
    Swim,
    SwimFog,
    Roof,
    RoofNight,
}

/// A batch of invaders of one species.
#[derive(Clone, Copy, Debug, PartialEq, Eq, Structural)]
pub struct Zombie {
    pub zombie: ZombieType,
    pub count: u8,
}

/// Whether a wave is announced ahead.
#[derive(Clone, Copy, Debug, PartialEq, Eq, Structural)]
pub enum WaveType {
    Normal,
    HugeWave,
}

impl Default for WaveType {
    /// A normal wave.
    fn default() -> (r: WaveType)
        ensures
            r == WaveType::Normal,
    {
        WaveType::Normal
    }
}

/// One wave of invaders.
#[derive(Debug)]
pub struct Wave {
    pub wave_type: WaveType,
    pub zombies: Vec<Zombie>,
}

/// Kind of item.
#[derive(Clone, Copy, Debug, PartialEq, Eq, Structural, Hash)]
pub enum ItemType {
    Shovel,
    Almanac,
    Key,
    Taco,
    WateringCan,
}

/// What clearing a level earns.
#[derive(Clone, Debug, PartialEq, Eq)]
pub enum Reward {
    /// A new species.
    Plant { plant: PlantType },
    /// An item.
    Item { item: ItemType },
    /// A note, by the path of its picture.
    Note { note_path: String },
}

/// What the simulation reads of a level definition.
#[derive(Debug)]
pub struct Level {
    pub id: LevelType,
    pub background: LevelBackground,
    /// Sunshine at the start of the round.
    pub sunshine: u32,
    /// Whether sunshine falls from the sky.
    pub nature_sunshine: bool,
    /// Nanoseconds before the first wave.
    pub first_wave_time: u64,
    pub reward: Option<Reward>,
    pub preview_zombies: Vec<Zombie>,
    pub waves: Vec<Wave>,
}

/// The level definitions.
#[derive(Debug)]
pub struct LevelRegistry(pub Vec<Level>);

impl LevelRegistry {
    /// Whether `i` is the first entry for `id`.
    pub open spec fn is_entry(&self, id: LevelType, i: int) -> bool {
        &&& 0 <= i < self.0@.len()
        &&& self.0@[i].id == id
        &&& forall|j: int| 0 <= j < i ==> (#[trigger] self.0@[j]).id != id
    }

    /// Whether the registry defines `id`.
    pub open spec fn defines(&self, id: LevelType) -> bool {
        exists|i: int| 0 <= i < self.0@.len() && (#[trigger] self.0@[i]).id == id
    }

    /// The definition of `id`: its first entry. None where the registry does
    /// not define it.
    pub fn get(&self, id: LevelType) -> (r: Option<&Level>)
        ensures
            match r {
                Some(level) => exists|i: int| self.is_entry(id, i) && *level == self.0@[i],
                None => !self.defines(id),
            },
    {
        let mut i: usize = 0;
        while i < self.0.len()
            invariant
                i <= self.0.len(),
                forall|j: int| 0 <= j < i ==> (#[trigger] self.0@[j]).id != id,
            decreases self.0.len() - i,
        {
            if self.0[i].id == id {
                assert(self.is_entry(id, i as int));
                return Some(&self.0[i]);
            }
            i += 1;
        }
        None
    }
}

/// Invaders of a batch that names no count.
pub const DEFAULT_ZOMBIE_COUNT: u8 = 1;

/// Sunshine at the start of a level that names none.
pub const DEFAULT_SUNSHINE: u32 = 50;

/// Nanoseconds before the first wave of a level that names none.
pub const DEFAULT_FIRST_WAVE_TIME: u64 = 30_000_000_000;

} // verus!

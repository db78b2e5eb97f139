//! Defender species and the records attached to defenders and seed cards.

use vstd::prelude::*;

verus! {

/// Species of defender.
#[derive(Clone, Copy, Debug, PartialEq, Eq, Structural, Hash)]
pub enum PlantType {
    PeaShooter,
    Sunflower,
    CherryBomb,
    WallNut,
    PotatoMine,
    SnowPea,
    Chomper,
    Repeater,
    PuffShroom,
    SunShroom,
    FumeShroom,
    GraveBuster,
    HypnoShroom,
    ScaredyShroom,
    IceShroom,
    DoomShroom,
    LilyPad,
    Squash,
    Threepeater,
    TangleKlep,
    Jalapeno,
    Spikeweed,
    Torchwood,
    TallNut,
    SeaShroom,
    Plantern,
    Cactus,
    Blover,
    SplitPea,
    Starfruit,
    Pumpkin,
    MagnetShroom,
    CabbagePult,
    FlowerPot,
    KernelPult,
    CoffeeBean,
    Gralic,
    UmbrellaLeaf,
    Marigold,
    MelonPult,
    GatlingPea,
    TwinSunflower,
    GloomShroom,
    Cattail,
    WinterMelon,
    GoldMagnet,
    Spikerock,
    CobCannon,
    Imitater,
    ExplodeNut,
    GiantWallNut,
}

/// Hit points, in thousandths, of a species that names none.
pub const DEFAULT_PLANT_HP: u32 = 200_000;

/// Damage, in thousandths, of an explosion that names none.
pub const DEFAULT_EXPLODE_DAMAGE: u32 = 1_800_000;

/// The number of species.
pub const PLANT_TYPES: u8 = 51;

impl PlantType {
    /// The place of the species in the order of the almanac.
    pub open spec fn spec_ordinal(self) -> u8 {
        match self {
            PlantType::PeaShooter => 0,
            PlantType::Sunflower => 1,
            PlantType::CherryBomb => 2,
            PlantType::WallNut => 3,
            PlantType::PotatoMine => 4,
            PlantType::SnowPea => 5,
            PlantType::Chomper => 6,
            PlantType::Repeater => 7,
            PlantType::PuffShroom => 8,
            PlantType::SunShroom => 9,
            PlantType::FumeShroom => 10,
            PlantType::GraveBuster => 11,
            PlantType::HypnoShroom => 12,
            PlantType::ScaredyShroom => 13,
            PlantType::IceShroom => 14,
            PlantType::DoomShroom => 15,
            PlantType::LilyPad => 16,
            PlantType::Squash => 17,
            PlantType::Threepeater => 18,
            PlantType::TangleKlep => 19,
            PlantType::Jalapeno => 20,
            PlantType::Spikeweed => 21,
            PlantType::Torchwood => 22,
            PlantType::TallNut => 23,
            PlantType::SeaShroom => 24,
            PlantType::Plantern => 25,
            PlantType::Cactus => 26,
            PlantType::Blover => 27,
            PlantType::SplitPea => 28,
            PlantType::Starfruit => 29,
            PlantType::Pumpkin => 30,
            PlantType::MagnetShroom => 31,
            PlantType::CabbagePult => 32,
            PlantType::FlowerPot => 33,
            PlantType::KernelPult => 34,
            PlantType::CoffeeBean => 35,
            PlantType::Gralic => 36,
            PlantType::UmbrellaLeaf => 37,
            PlantType::Marigold => 38,
            PlantType::MelonPult => 39,
            PlantType::GatlingPea => 40,
            PlantType::TwinSunflower => 41,
            PlantType::GloomShroom => 42,
            PlantType::Cattail => 43,
            PlantType::WinterMelon => 44,
            PlantType::GoldMagnet => 45,
            PlantType::Spikerock => 46,
            PlantType::CobCannon => 47,
            PlantType::Imitater => 48,
            PlantType::ExplodeNut => 49,
            PlantType::GiantWallNut => 50,
        }
    }

    /// The place of the species in the order of the almanac.
    #[verifier::when_used_as_spec(spec_ordinal)]
    pub fn ordinal(self) -> (r: u8)
        ensures
            r == self.spec_ordinal(),
            r < PLANT_TYPES,
    {
        match self {
            PlantType::PeaShooter => 0,
            PlantType::Sunflower => 1,
            PlantType::CherryBomb => 2,
            PlantType::WallNut => 3,
            PlantType::PotatoMine => 4,
            PlantType::SnowPea => 5,
            PlantType::Chomper => 6,
            PlantType::Repeater => 7,
            PlantType::PuffShroom => 8,
            PlantType::SunShroom => 9,
            PlantType::FumeShroom => 10,
            PlantType::GraveBuster => 11,
            PlantType::HypnoShroom => 12,
            PlantType::ScaredyShroom => 13,
            PlantType::IceShroom => 14,
            PlantType::DoomShroom => 15,
            PlantType::LilyPad => 16,
            PlantType::Squash => 17,
            PlantType::Threepeater => 18,
            PlantType::TangleKlep => 19,
            PlantType::Jalapeno => 20,
            PlantType::Spikeweed => 21,
            PlantType::Torchwood => 22,
            PlantType::TallNut => 23,
            PlantType::SeaShroom => 24,
            PlantType::Plantern => 25,
            PlantType::Cactus => 26,
            PlantType::Blover => 27,
            PlantType::SplitPea => 28,
            PlantType::Starfruit => 29,
            PlantType::Pumpkin => 30,
            PlantType::MagnetShroom => 31,
            PlantType::CabbagePult => 32,
            PlantType::FlowerPot => 33,
            PlantType::KernelPult => 34,
            PlantType::CoffeeBean => 35,
            PlantType::Gralic => 36,
            PlantType::UmbrellaLeaf => 37,
            PlantType::Marigold => 38,
            PlantType::MelonPult => 39,
            PlantType::GatlingPea => 40,
            PlantType::TwinSunflower => 41,
            PlantType::GloomShroom => 42,
            PlantType::Cattail => 43,
            PlantType::WinterMelon => 44,
            PlantType::GoldMagnet => 45,
            PlantType::Spikerock => 46,
            PlantType::CobCannon => 47,
            PlantType::Imitater => 48,
            PlantType::ExplodeNut => 49,
            PlantType::GiantWallNut => 50,
        }
    }

    /// The species at a place in the order of the almanac.
    pub fn from_ordinal(n: u8) -> (r: Option<PlantType>)
        ensures
            match r {
                Some(plant) => plant.spec_ordinal() == n,
                None => n >= PLANT_TYPES,
            },
    {
        match n {
            0 => Some(PlantType::PeaShooter),
            1 => Some(PlantType::Sunflower),
            2 => Some(PlantType::CherryBomb),
            3 => Some(PlantType::WallNut),
            4 => Some(PlantType::PotatoMine),
            5 => Some(PlantType::SnowPea),
            6 => Some(PlantType::Chomper),
            7 => Some(PlantType::Repeater),
            8 => Some(PlantType::PuffShroom),
            9 => Some(PlantType::SunShroom),
            10 => Some(PlantType::FumeShroom),
            11 => Some(PlantType::GraveBuster),
            12 => Some(PlantType::HypnoShroom),
            13 => Some(PlantType::ScaredyShroom),
            14 => Some(PlantType::IceShroom),
            15 => Some(PlantType::DoomShroom),
            16 => Some(PlantType::LilyPad),
            17 => Some(PlantType::Squash),
            18 => Some(PlantType::Threepeater),
            19 => Some(PlantType::TangleKlep),
            20 => Some(PlantType::Jalapeno),
            21 => Some(PlantType::Spikeweed),
            22 => Some(PlantType::Torchwood),
            23 => Some(PlantType::TallNut),
            24 => Some(PlantType::SeaShroom),
            25 => Some(PlantType::Plantern),
            26 => Some(PlantType::Cactus),
            27 => Some(PlantType::Blover),
            28 => Some(PlantType::SplitPea),
            29 => Some(PlantType::Starfruit),
            30 => Some(PlantType::Pumpkin),
            31 => Some(PlantType::MagnetShroom),
            32 => Some(PlantType::CabbagePult),
            33 => Some(PlantType::FlowerPot),
            34 => Some(PlantType::KernelPult),
            35 => Some(PlantType::CoffeeBean),
            36 => Some(PlantType::Gralic),
            37 => Some(PlantType::UmbrellaLeaf),
            38 => Some(PlantType::Marigold),
            39 => Some(PlantType::MelonPult),
            40 => Some(PlantType::GatlingPea),
            41 => Some(PlantType::TwinSunflower),
            42 => Some(PlantType::GloomShroom),
            43 => Some(PlantType::Cattail),
            44 => Some(PlantType::WinterMelon),
            45 => Some(PlantType::GoldMagnet),
            46 => Some(PlantType::Spikerock),
            47 => Some(PlantType::CobCannon),
            48 => Some(PlantType::Imitater),
            49 => Some(PlantType::ExplodeNut),
            50 => Some(PlantType::GiantWallNut),
            _ => None,
        }
    }
}

/// The role a defender takes in its slot.
#[derive(Clone, Copy, Debug, PartialEq, Eq, Structural)]
pub enum PlantPosition {
    Primary,
    Protect,
    Pot,
    Temp,
}

/// Where a species may be planted.
#[derive(Clone, Copy, Debug, PartialEq, Eq, Structural)]
pub struct PlantOn {
    pub dirt: bool,
    pub river: bool,
    pub roof: bool,
    pub lily: bool,
    pub pot: bool,
    pub grave: bool,
    pub hole: bool,
}

impl Default for PlantOn {
    /// Soil, lily pads and flower pots; nothing else.
    fn default() -> (r: PlantOn)
        ensures
            r == (PlantOn {
                dirt: true,
                river: false,
                roof: false,
                lily: true,
                pot: true,
                grave: false,
                hole: false,
            }),
    {
        PlantOn {
            dirt: true,
            river: false,
            roof: false,
            lily: true,
            pot: true,
            grave: false,
            hole: false,
        }
    }
}

/// How a shooter looks for invaders.
#[derive(Clone, Copy, Debug, PartialEq, Eq, Structural)]
pub enum PlantDetect {
    /// Invaders of the same lane at or ahead of the defender.
    LaneFront,
    /// Invaders of the same lane at or behind the defender.
    LaneBack,
    /// Invaders anywhere in the same lane.
    Lane,
    /// Invaders near a ray that leaves the defender along the vector
    /// `(dir_x, dir_y)`.
    Rays { dir_x: i16, dir_y: i16 },
    /// Any invader at all.
    Screen,
}

/// Kind of projectile.
#[derive(Clone, Copy, Debug, PartialEq, Eq, Structural)]
pub enum ProjectileType {
    Pea,
    SnowPea,
    Cactus,
    Star,
}

/// Flight path of a projectile.
#[derive(Clone, Copy, Debug, PartialEq, Eq, Structural)]
pub enum ProjectileTrack {
    /// Straight along the vector `(dir_x, dir_y)`, given in thousandths.
    Line { dir_x: i16, dir_y: i16 },
    Throw,
    Follow,
}

/// One projectile of a volley.
#[derive(Clone, Copy, Debug, PartialEq, Eq, Structural)]
pub struct ShootProjectile {
    pub projectile_type: ProjectileType,
    pub track: ProjectileTrack,
    /// Delay between the shot and the launch, in nanoseconds.
    pub shoot_timing: u64,
    pub offset_x: i32,
    pub offset_y: i32,
}

/// Weapon of a species.
#[derive(Clone, Debug)]
pub struct PlantShoot {
    pub detect: PlantDetect,
    /// Reload time in nanoseconds.
    pub shoot_cooldown: u64,
    pub projectiles: Vec<ShootProjectile>,
}

/// What a producer yields.
#[derive(Clone, Copy, Debug, PartialEq, Eq, Structural)]
pub enum ResourceType {
    Sunshine,
}

/// One product of a producer.
#[derive(Clone, Copy, Debug, PartialEq, Eq, Structural)]
pub struct PlantProduct {
    pub resource_type: ResourceType,
    /// End of the production window in nanoseconds of production time;
    /// `None` for a window without end.
    pub max_times: Option<u64>,
    /// Start of the production window.
    pub delay: u64,
    /// Delay between the production and the launch of the pickup.
    pub timing: u64,
    pub offset_x: i32,
    pub offset_y: i32,
}

/// Production of a species.
#[derive(Clone, Debug)]
pub struct PlantProduce {
    /// Base interval in nanoseconds.
    pub cooldown: u64,
    /// Width of the random spread around the base interval.
    pub cooldown_spread: u64,
    pub products: Vec<PlantProduct>,
}

/// What an instant effect does.
#[derive(Clone, Copy, Debug, PartialEq, Eq, Structural)]
pub enum InstantEffectType {
    Explode { radius: u32, damage: u32 },
}

/// Visual particles of an instant effect.
#[derive(Clone, Copy, Debug, PartialEq, Eq, Structural)]
pub enum Particle {
    CherryBomb,
}

/// One effect of an instant-use species.
#[derive(Clone, Copy, Debug, PartialEq, Eq, Structural)]
pub struct InstantEffect {
    pub effect_type: InstantEffectType,
    /// Delay after planting, in nanoseconds.
    pub effect_time: u64,
    pub particle: Option<Particle>,
}

/// Instant use of a species.
#[derive(Clone, Debug)]
pub struct PlantInstant {
    /// Length of the animation after which the defender is removed.
    pub anim_time: u64,
    pub invincible: bool,
    pub effects: Vec<InstantEffect>,
}

/// What the simulation reads of a species definition.
#[derive(Clone, Debug)]
pub struct PlantInfo {
    pub id: PlantType,
    /// Cost in sunshine.
    pub sunshine: u32,
    /// Reuse cooldown of the seed card in nanoseconds.
    pub cooldown: u64,
    /// Hit points in thousandths.
    pub hp: u32,
    /// Whether the defender changes its look as it is eaten.
    pub damage_skin: bool,
    pub position: PlantPosition,
    pub plant_on: PlantOn,
    pub shoot: Option<PlantShoot>,
    pub produce: Option<PlantProduce>,
    pub instant: Option<PlantInstant>,
}

/// The species definitions.
#[derive(Debug)]
pub struct PlantRegistry(pub Vec<PlantInfo>);

impl PlantRegistry {
    /// Whether `i` is the first entry for `id`.
    pub open spec fn is_entry(&self, id: PlantType, i: int) -> bool {
        &&& 0 <= i < self.0@.len()
        &&& self.0@[i].id == id
        &&& forall|j: int| 0 <= j < i ==> (#[trigger] self.0@[j]).id != id
    }

    /// Whether the registry defines `id`.
    pub open spec fn defines(&self, id: PlantType) -> bool {
        exists|i: int| 0 <= i < self.0@.len() && (#[trigger] self.0@[i]).id == id
    }

    /// The definition of `id`: its first entry. None where the registry does
    /// not define it.
    pub fn get(&self, id: PlantType) -> (r: Option<&PlantInfo>)
        ensures
            match r {
                Some(info) => exists|i: int| self.is_entry(id, i) && *info == self.0@[i],
                None => !self.defines(id),
            },
    {
        let mut i: usize = 0;
        while i < self.0.len()
            invariant
                i <= self.0.len(),
                forall|j: int| 0 <= j < i ==> (#[trigger] self.0@[j]).id != id,
            decreases self.0.len() - i,
        {
            if self.0[i].id == id {
                assert(self.is_entry(id, i as int));
                return Some(&self.0[i]);
            }
            i += 1;
        }
        None
    }
}

/// Marks a seed card.
#[derive(Clone, Copy, Debug, PartialEq, Eq, Structural)]
pub struct PlantSeed;

/// Marks a defender.
#[derive(Clone, Copy, Debug, PartialEq, Eq, Structural)]
pub struct Plant;

/// Hit points of a defender, in thousandths.
#[derive(Clone, Copy, Debug, PartialEq, Eq, Structural)]
pub struct PlantHp(pub i64);

/// Cost of a seed card.
#[derive(Clone, Copy, Debug, PartialEq, Eq, Structural)]
pub struct SunshineCost(pub u16);

/// Reuse cooldown of a seed card.
#[derive(Clone, Copy, Debug, PartialEq, Eq, Structural)]
pub enum PlantCooldown {
    Ready,
    /// Nanoseconds left.
    Cooldown(u64),
}

/// Whether a seed card can be picked up.
#[derive(Clone, Copy, Debug, PartialEq, Eq, Structural)]
pub enum PlantUsable {
    Usable,
    Unusable,
}

/// Whether the pointer is over a seed card.
#[derive(Clone, Copy, Debug, PartialEq, Eq, Structural)]
pub enum SeedHover {
    Away,
    Hover,
}

impl Default for PlantCooldown {
    /// Ready.
    fn default() -> (r: PlantCooldown)
        ensures
            r == PlantCooldown::Ready,
    {
        PlantCooldown::Ready
    }
}

impl Default for PlantUsable {
    /// Usable.
    fn default() -> (r: PlantUsable)
        ensures
            r == PlantUsable::Usable,
    {
        PlantUsable::Usable
    }
}

impl Default for SeedHover {
    /// Not under the pointer.
    fn default() -> (r: SeedHover)
        ensures
            r == SeedHover::Away,
    {
        SeedHover::Away
    }
}

impl Default for PlantPosition {
    /// The main role.
    fn default() -> (r: PlantPosition)
        ensures
            r == PlantPosition::Primary,
    {
        PlantPosition::Primary
    }
}

impl Default for PlantDetect {
    /// Ahead along the lane.
    fn default() -> (r: PlantDetect)
        ensures
            r == PlantDetect::LaneFront,
    {
        PlantDetect::LaneFront
    }
}

impl PlantCooldown {
    /// The cooldown `delta` nanoseconds later: ready once no time is left.
    pub open spec fn after(self, delta: u64) -> PlantCooldown {
        match self {
            PlantCooldown::Ready => PlantCooldown::Ready,
            PlantCooldown::Cooldown(left) => if left > delta {
                PlantCooldown::Cooldown((left - delta) as u64)
            } else {
                PlantCooldown::Ready
            },
        }
    }

    /// Counts the cooldown down by `delta` nanoseconds.
    pub fn tick(&mut self, delta: u64)
        ensures
            *final(self) == old(self).after(delta),
    {
        let next = match *self {
            PlantCooldown::Ready => PlantCooldown::Ready,
            PlantCooldown::Cooldown(left) => if left > delta {
                PlantCooldown::Cooldown(left - delta)
            } else {
                PlantCooldown::Ready
            },
        };
        *self = next;
    }
}

/// Which damage looks of a defender have been put on. Each is put on once.
#[derive(Clone, Copy, Debug, PartialEq, Eq, Structural)]
pub struct PlantHpAnim {
    pub trigger_damage_1: bool,
    pub trigger_damage_2: bool,
}

impl Default for PlantHpAnim {
    /// None has been put on.
    fn default() -> (r: PlantHpAnim)
        ensures
            r == (PlantHpAnim { trigger_damage_1: false, trigger_damage_2: false }),
    {
        PlantHpAnim { trigger_damage_1: false, trigger_damage_2: false }
    }
}

/// Whether a defender of `whole` hit points that has `hp` left is down to two
/// thirds, and to one third.
pub open spec fn damage_looks(whole: u32, hp: PlantHp) -> (bool, bool) {
    (3 * hp.0 <= 2 * whole, 3 * hp.0 <= whole as int)
}

/// Puts the damage looks on a defender that are due: the first when two
/// thirds of its hit points are left, the second at one third. The returned
/// pair says which look is put on now; a look that has been put on is not
/// put on again.
pub fn update_plant_hp_anim(whole: u32, hp: &PlantHp, hp_anim: &mut PlantHpAnim) -> (r: (bool, bool))
    ensures
        r.0 == (damage_looks(whole, *hp).0 && !old(hp_anim).trigger_damage_1),
        r.1 == (damage_looks(whole, *hp).1 && !old(hp_anim).trigger_damage_2),
        final(hp_anim).trigger_damage_1 == (old(hp_anim).trigger_damage_1 || damage_looks(
            whole,
            *hp,
        ).0),
        final(hp_anim).trigger_damage_2 == (old(hp_anim).trigger_damage_2 || damage_looks(
            whole,
            *hp,
        ).1),
{
    let left: i128 = hp.0 as i128;
    let first = 3 * left <= 2 * (whole as i128);
    let second = 3 * left <= (whole as i128);
    let due = (first && !hp_anim.trigger_damage_1, second && !hp_anim.trigger_damage_2);
    hp_anim.trigger_damage_1 = hp_anim.trigger_damage_1 || first;
    hp_anim.trigger_damage_2 = hp_anim.trigger_damage_2 || second;
    due
}

/// A cooldown only counts down: the time left never grows, a ready card
/// stays ready, and a card is ready once as much time has passed as was left.
pub proof fn lemma_cooldown_counts_down(cooldown: PlantCooldown, delta: u64)
    ensures
        cooldown == PlantCooldown::Ready ==> cooldown.after(delta) == PlantCooldown::Ready,
        match (cooldown, cooldown.after(delta)) {
            (PlantCooldown::Cooldown(before), PlantCooldown::Cooldown(after)) => after <= before
                && after == before - delta,
            (PlantCooldown::Cooldown(before), PlantCooldown::Ready) => before <= delta,
            _ => true,
        },
{
}

/// A seed card is usable iff the pool covers its cost and it has cooled down.
pub open spec fn seed_usable(sunshine: u32, cost: u32, cooldown: PlantCooldown) -> PlantUsable {
    if sunshine >= cost && cooldown == PlantCooldown::Ready {
        PlantUsable::Usable
    } else {
        PlantUsable::Unusable
    }
}

/// Whether a seed card is usable now.
pub fn usable_now(sunshine: u32, cost: u32, cooldown: PlantCooldown) -> (r: PlantUsable)
    ensures
        r == seed_usable(sunshine, cost, cooldown),
{
    let ready = match cooldown {
        PlantCooldown::Ready => true,
        PlantCooldown::Cooldown(_) => false,
    };
    if sunshine >= cost && ready {
        PlantUsable::Usable
    } else {
        PlantUsable::Unusable
    }
}

} // verus!

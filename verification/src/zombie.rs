//! Invader species and the health of invaders.

use vstd::prelude::*;
use crate::fixed::{clamp_i64, sub_clamped};
use crate::timer::{Countdown, TimerMode};

verus! {

/// Species of invader.
#[derive(Clone, Copy, Debug, PartialEq, Eq, Structural, Hash)]
pub enum ZombieType {
    Basic,
    Flag,
    Conehead,
    PoleVaulting,
    Buckethead,
    Newspaper,
    ScreenDoor,
    Football,
    Dancing,
    Backup,
    Swim,
    Snorkel,
    Zomboni,
    BobsledTeam,
    Dolphin,
    Joker,
    Balloon,
    Digger,
    Pogo,
    Snowman,
    Bungee,
    Ladder,
    Busketball,
    Gargantuar,
    Imp,
    Zomboss,
}

/// One layer of armor of a species.
#[derive(Clone, Copy, Debug, PartialEq, Eq, Structural)]
pub struct Armor {
    pub iron: bool,
    /// Hit points in thousandths.
    pub hp: u32,
}

/// Hit points of a species, in thousandths.
#[derive(Debug)]
pub struct Hp {
    /// What the invader loses before it is done for.
    pub real: u32,
    /// What it loses by itself afterwards, until it falls.
    pub critical: u32,
    /// Its armor, outermost layer first.
    pub armor: Vec<Armor>,
}

/// Terrain on which a species enters the field.
#[derive(Clone, Copy, Debug, PartialEq, Eq, Structural)]
pub struct SummonOn {
    pub dirt: bool,
    pub river: bool,
    pub roof: bool,
}

impl Default for SummonOn {
    /// Soil and roof.
    fn default() -> (r: SummonOn)
        ensures
            r == (SummonOn { dirt: true, river: false, roof: true }),
    {
        SummonOn { dirt: true, river: false, roof: true }
    }
}

/// Leaps of a species.
#[derive(Clone, Copy, Debug, PartialEq, Eq, Structural)]
pub struct Jump {
    pub times: u8,
    /// Nanoseconds before the leap.
    pub precast_delay: u64,
    /// Speed after the leap.
    pub speed: Option<i32>,
}

/// What the simulation reads of a species definition.
#[derive(Debug)]
pub struct ZombieInfo {
    pub id: ZombieType,
    pub hp: Hp,
    /// Thousandths of a world unit per second.
    pub speed: i32,
    /// Thousandths of a hit point per second of eating.
    pub attack: i32,
    /// Whether the invaders of a wave enter at random moments.
    pub summon_delay: bool,
    pub summon_on: SummonOn,
    pub jump: Option<Jump>,
}

/// The species definitions.
#[derive(Debug)]
pub struct ZombieRegistry(pub Vec<ZombieInfo>);

impl ZombieRegistry {
    /// Whether `i` is the first entry for `id`.
    pub open spec fn is_entry(&self, id: ZombieType, i: int) -> bool {
        &&& 0 <= i < self.0@.len()
        &&& self.0@[i].id == id
        &&& forall|j: int| 0 <= j < i ==> (#[trigger] self.0@[j]).id != id
    }

    /// Whether the registry defines `id`.
    pub open spec fn defines(&self, id: ZombieType) -> bool {
        exists|i: int| 0 <= i < self.0@.len() && (#[trigger] self.0@[i]).id == id
    }

    /// The definition of `id`: that of its first entry.
    pub open spec fn info_of(&self, id: ZombieType) -> ZombieInfo {
        self.0@[choose|i: int| self.is_entry(id, i)]
    }

    /// A species has at most one first entry.
    pub proof fn lemma_entry_unique(&self, id: ZombieType, i: int, k: int)
        requires
            self.is_entry(id, i),
            self.is_entry(id, k),
        ensures
            i == k,
    {
        if i < k {
            assert(self.0@[i].id != id);
        } else if k < i {
            assert(self.0@[k].id != id);
        }
    }

    /// The first entry of a species holds its definition.
    pub proof fn lemma_info_at(&self, id: ZombieType, i: int)
        requires
            self.is_entry(id, i),
        ensures
            self.info_of(id) == self.0@[i],
    {
        let k = choose|k: int| self.is_entry(id, k);
        self.lemma_entry_unique(id, i, k);
    }

    /// The index of the first entry for `id`.
    pub fn find(&self, id: ZombieType) -> (r: Option<usize>)
        ensures
            match r {
                Some(i) => self.is_entry(id, i as int) && self.defines(id),
                None => !self.defines(id),
            },
    {
        let mut i: usize = 0;
        while i < self.0.len()
            invariant
                i <= self.0.len(),
                forall|j: int| 0 <= j < i ==> (#[trigger] self.0@[j]).id != id,
            decreases self.0.len() - i,
        {
            if self.0[i].id == id {
                return Some(i);
            }
            i += 1;
        }
        None
    }

    /// The definition of `id`.
    pub fn get(&self, id: ZombieType) -> (r: Option<&ZombieInfo>)
        ensures
            match r {
                Some(info) => self.defines(id) && *info == self.info_of(id),
                None => !self.defines(id),
            },
    {
        match self.find(id) {
            Some(i) => {
                proof {
                    self.lemma_info_at(id, i as int);
                }
                Some(&self.0[i])
            },
            None => None,
        }
    }
}

/// Health of an invader, in thousandths of a hit point.
#[derive(Debug)]
pub struct ZombieHp {
    /// The base pool.
    pub hp: i64,
    /// What is left of each layer of armor, outermost first.
    pub armor_hp: Vec<u32>,
}

/// Health as a plain value.
pub struct HpView {
    pub hp: i64,
    pub armor_hp: Seq<u32>,
}

impl View for ZombieHp {
    type V = HpView;

    open spec fn view(&self) -> HpView {
        HpView { hp: self.hp, armor_hp: self.armor_hp@ }
    }
}

/// What is left of an armor layer of `layer` points that takes `damage`.
pub open spec fn layer_after(layer: u32, damage: u32) -> u32 {
    if layer >= damage {
        (layer - damage) as u32
    } else {
        0
    }
}

/// What of `damage` gets through an armor layer of `layer` points.
pub open spec fn damage_through(layer: u32, damage: u32) -> u32 {
    if layer >= damage {
        0
    } else {
        (damage - layer) as u32
    }
}

/// What of `damage` gets through all of `armor`, front to back.
pub open spec fn damage_past(armor: Seq<u32>, damage: u32) -> u32
    decreases armor.len(),
{
    if armor.len() == 0 {
        damage
    } else {
        damage_through(armor.last(), damage_past(armor.drop_last(), damage))
    }
}

/// The armor after `damage`: each layer takes what got through the layers in
/// front of it.
pub open spec fn armor_after(armor: Seq<u32>, damage: u32) -> Seq<u32> {
    Seq::new(armor.len(), |i: int| layer_after(armor[i], damage_past(armor.take(i), damage)))
}

impl HpView {
    /// The health after `damage`: the armor absorbs front to back, the base
    /// pool takes the rest and stops at the least value it can hold.
    pub open spec fn damaged(self, damage: u32) -> HpView {
        HpView {
            hp: clamp_i64(self.hp as int - damage_past(self.armor_hp, damage) as int),
            armor_hp: armor_after(self.armor_hp, damage),
        }
    }

    /// The health of a species that nothing has hurt yet.
    pub open spec fn full(value: Hp) -> HpView {
        HpView {
            hp: (value.real as int + value.critical as int) as i64,
            armor_hp: Seq::new(value.armor@.len(), |i: int| value.armor@[i].hp),
        }
    }

    /// The health with the base pool and every layer at zero.
    pub open spec fn killed(self) -> HpView {
        HpView { hp: 0, armor_hp: Seq::new(self.armor_hp.len(), |i: int| 0u32) }
    }
}

impl ZombieHp {
    /// Full health of a species: the real and the critical pool together,
    /// and each layer of armor whole.
    pub fn from(value: &Hp) -> (r: ZombieHp)
        ensures
            r@ == HpView::full(*value),
    {
        let mut armor_hp: Vec<u32> = Vec::new();
        let mut i: usize = 0;
        while i < value.armor.len()
            invariant
                i <= value.armor.len(),
                armor_hp@.len() == i,
                forall|j: int| 0 <= j < i ==> (#[trigger] armor_hp@[j]) == value.armor@[j].hp,
            decreases value.armor.len() - i,
        {
            let layer: Armor = value.armor[i];
            armor_hp.push(layer.hp);
            i += 1;
        }
        proof {
            assert(armor_hp@ =~= HpView::full(*value).armor_hp);
        }
        ZombieHp { hp: (value.real as i64) + (value.critical as i64), armor_hp }
    }

    /// Deals `damage`. The armor layers absorb it front to back; what is left
    /// over goes to the base pool, which may fall below zero.
    pub fn damage(&mut self, damage: u32)
        ensures
            final(self)@ == old(self)@.damaged(damage),
            final(self).hp <= old(self).hp,
    {
        let mut left: u32 = damage;
        let mut i: usize = 0;
        while i < self.armor_hp.len()
            invariant
                i <= self.armor_hp.len(),
                self.hp == old(self).hp,
                self.armor_hp@.len() == old(self).armor_hp@.len(),
                left == damage_past(old(self).armor_hp@.take(i as int), damage),
                forall|j: int|
                    0 <= j < i ==> (#[trigger] self.armor_hp@[j]) == armor_after(
                        old(self).armor_hp@,
                        damage,
                    )[j],
                forall|j: int| i <= j < self.armor_hp@.len() ==> (#[trigger] self.armor_hp@[j]) == old(self).armor_hp@[j],
            decreases self.armor_hp.len() - i,
        {
            let layer: u32 = self.armor_hp[i];
            proof {
                let next = old(self).armor_hp@.take(i as int + 1);
                assert(next.drop_last() =~= old(self).armor_hp@.take(i as int));
                assert(next.last() == layer);
            }
            if layer >= left {
                self.armor_hp[i] = layer - left;
                left = 0;
            } else {
                left = left - layer;
                self.armor_hp[i] = 0;
            }
            i += 1;
        }
        proof {
            assert(old(self).armor_hp@.take(i as int) =~= old(self).armor_hp@);
            assert(self.armor_hp@ =~= armor_after(old(self).armor_hp@, damage));
        }
        self.hp = sub_clamped(self.hp, left as i64);
    }

    /// Ends the invader at once: the base pool and every layer drop to zero.
    pub fn kill(&mut self)
        ensures
            final(self)@ == old(self)@.killed(),
    {
        self.hp = 0;
        let mut i: usize = 0;
        while i < self.armor_hp.len()
            invariant
                i <= self.armor_hp.len(),
                self.hp == 0,
                self.armor_hp@.len() == old(self).armor_hp@.len(),
                forall|j: int| 0 <= j < i ==> (#[trigger] self.armor_hp@[j]) == 0,
            decreases self.armor_hp.len() - i,
        {
            self.armor_hp[i] = 0;
            i += 1;
        }
        proof {
            assert(self.armor_hp@ =~= old(self)@.killed().armor_hp);
        }
    }
}

/// `a - b`, or zero where `b` is the larger.
pub open spec fn minus(a: int, b: int) -> int {
    if a >= b {
        a - b
    } else {
        0
    }
}

/// With two layers of armor the first is left with what the damage does not
/// take of it; what exceeds the first layer goes to the second in the same
/// way; what exceeds both goes to the base pool, which never grows.
pub proof fn lemma_damage_two_layers(hp: HpView, damage: u32)
    requires
        hp.armor_hp.len() == 2,
    ensures
        hp.damaged(damage).armor_hp.len() == 2,
        hp.damaged(damage).armor_hp[0] == minus(hp.armor_hp[0] as int, damage as int),
        hp.damaged(damage).armor_hp[1] == minus(
            hp.armor_hp[1] as int,
            minus(damage as int, hp.armor_hp[0] as int),
        ),
        hp.damaged(damage).hp == clamp_i64(
            hp.hp as int - minus(
                minus(damage as int, hp.armor_hp[0] as int),
                hp.armor_hp[1] as int,
            ),
        ),
        hp.damaged(damage).hp <= hp.hp,
{
    let armor = hp.armor_hp;
    assert(armor.take(0).len() == 0);
    assert(damage_past(armor.take(0), damage) == damage);
    assert(armor.take(1).drop_last() =~= armor.take(0));
    assert(armor.take(1).last() == armor[0]);
    assert(damage_past(armor.take(1), damage) == damage_through(armor[0], damage));
    assert(armor.drop_last() =~= armor.take(1));
    assert(armor.last() == armor[1]);
}

/// What gets through armor is never more than what was dealt.
pub proof fn lemma_damage_past_bound(armor: Seq<u32>, damage: u32)
    ensures
        damage_past(armor, damage) <= damage,
    decreases armor.len(),
{
    if armor.len() > 0 {
        lemma_damage_past_bound(armor.drop_last(), damage);
    }
}

/// Damage never heals: no layer of armor and not the base pool is larger
/// afterwards, and the number of layers stays.
pub proof fn lemma_damage_never_heals(hp: HpView, damage: u32)
    ensures
        hp.damaged(damage).armor_hp.len() == hp.armor_hp.len(),
        forall|i: int| 0 <= i < hp.armor_hp.len() ==> (#[trigger] hp.damaged(damage).armor_hp[i]) <= hp.armor_hp[i],
        hp.damaged(damage).hp <= hp.hp,
{
}

/// Which health animations of an invader have played. Each plays once.
#[derive(Clone, Copy, Debug, PartialEq, Eq, Structural)]
pub struct ZombieHpAnim {
    pub trigger_half_damage_anim: bool,
    pub trigger_full_damage_anim: bool,
    pub trigger_critical_anim: bool,
    pub trigger_armor_anims_1: bool,
    pub trigger_armor_anims_2: bool,
    pub trigger_armor_anims_3: bool,
}

impl Default for ZombieHpAnim {
    /// None has played.
    fn default() -> (r: ZombieHpAnim)
        ensures
            r == ZombieHpAnim::fresh(),
    {
        ZombieHpAnim {
            trigger_half_damage_anim: false,
            trigger_full_damage_anim: false,
            trigger_critical_anim: false,
            trigger_armor_anims_1: false,
            trigger_armor_anims_2: false,
            trigger_armor_anims_3: false,
        }
    }
}

/// The thresholds that the health of an invader has reached.
#[derive(Clone, Copy, Debug, PartialEq, Eq, Structural)]
pub struct HpMarks {
    /// Half of the real pool is gone.
    pub half_damage: bool,
    /// The real pool is gone: only the critical pool is left.
    pub full_damage: bool,
    /// Nothing is left.
    pub critical: bool,
    /// The first layer of armor is down to two thirds.
    pub armor_1: bool,
    /// The first layer of armor is down to one third.
    pub armor_2: bool,
    /// The first layer of armor is gone.
    pub armor_3: bool,
}

/// The thresholds that health `hp` of a species has reached. Those of the
/// armor are never reached by an invader without armor.
pub open spec fn marks_reached(config: Hp, hp: HpView) -> HpMarks {
    let armored = hp.armor_hp.len() > 0;
    let left = if armored {
        hp.armor_hp[0] as int
    } else {
        0
    };
    let whole = if armored {
        config.armor@[0].hp as int
    } else {
        0
    };
    HpMarks {
        half_damage: 2 * hp.hp <= config.real as int + 2 * config.critical as int,
        full_damage: hp.hp <= config.critical as int,
        critical: hp.hp <= 0,
        armor_1: armored && 3 * left <= 2 * whole,
        armor_2: armored && 3 * left <= whole,
        armor_3: armored && left <= 0,
    }
}

impl ZombieHpAnim {
    /// None has played.
    pub open spec fn fresh() -> ZombieHpAnim {
        ZombieHpAnim {
            trigger_half_damage_anim: false,
            trigger_full_damage_anim: false,
            trigger_critical_anim: false,
            trigger_armor_anims_1: false,
            trigger_armor_anims_2: false,
            trigger_armor_anims_3: false,
        }
    }

    /// The animations that are due: threshold reached and not yet played.
    pub open spec fn due(self, marks: HpMarks) -> HpMarks {
        HpMarks {
            half_damage: marks.half_damage && !self.trigger_half_damage_anim,
            full_damage: marks.full_damage && !self.trigger_full_damage_anim,
            critical: marks.critical && !self.trigger_critical_anim,
            armor_1: marks.armor_1 && !self.trigger_armor_anims_1,
            armor_2: marks.armor_2 && !self.trigger_armor_anims_2,
            armor_3: marks.armor_3 && !self.trigger_armor_anims_3,
        }
    }

    /// The record once the animations of the reached thresholds have played.
    pub open spec fn latched(self, marks: HpMarks) -> ZombieHpAnim {
        ZombieHpAnim {
            trigger_half_damage_anim: self.trigger_half_damage_anim || marks.half_damage,
            trigger_full_damage_anim: self.trigger_full_damage_anim || marks.full_damage,
            trigger_critical_anim: self.trigger_critical_anim || marks.critical,
            trigger_armor_anims_1: self.trigger_armor_anims_1 || marks.armor_1,
            trigger_armor_anims_2: self.trigger_armor_anims_2 || marks.armor_2,
            trigger_armor_anims_3: self.trigger_armor_anims_3 || marks.armor_3,
        }
    }
}

/// A health animation plays once: what has played is not due again,
/// whatever the health, and stays played.
pub proof fn lemma_hp_anim_plays_once(hp_anim: ZombieHpAnim, first: HpMarks, second: HpMarks)
    ensures
        ({
            let played = hp_anim.due(first);
            let again = hp_anim.latched(first).due(second);
            &&& played.half_damage ==> !again.half_damage
            &&& played.full_damage ==> !again.full_damage
            &&& played.critical ==> !again.critical
            &&& played.armor_1 ==> !again.armor_1
            &&& played.armor_2 ==> !again.armor_2
            &&& played.armor_3 ==> !again.armor_3
        }),
        hp_anim.trigger_half_damage_anim ==> hp_anim.latched(first).trigger_half_damage_anim,
        hp_anim.trigger_full_damage_anim ==> hp_anim.latched(first).trigger_full_damage_anim,
        hp_anim.trigger_critical_anim ==> hp_anim.latched(first).trigger_critical_anim,
        hp_anim.trigger_armor_anims_1 ==> hp_anim.latched(first).trigger_armor_anims_1,
        hp_anim.trigger_armor_anims_2 ==> hp_anim.latched(first).trigger_armor_anims_2,
        hp_anim.trigger_armor_anims_3 ==> hp_anim.latched(first).trigger_armor_anims_3,
{
}

/// The thresholds that the health of an invader has reached.
pub fn hp_marks(config: &Hp, hp: &ZombieHp) -> (r: HpMarks)
    requires
        hp.armor_hp@.len() > 0 ==> config.armor@.len() > 0,
    ensures
        r == marks_reached(*config, hp@),
{
    let armored = hp.armor_hp.len() > 0;
    let left: i128 = if armored {
        hp.armor_hp[0] as i128
    } else {
        0
    };
    let whole: i128 = if armored {
        let layer: Armor = config.armor[0];
        layer.hp as i128
    } else {
        0
    };
    let pool: i128 = hp.hp as i128;
    HpMarks {
        half_damage: 2 * pool <= (config.real as i128) + 2 * (config.critical as i128),
        full_damage: pool <= (config.critical as i128),
        critical: pool <= 0,
        armor_1: armored && 3 * left <= 2 * whole,
        armor_2: armored && 3 * left <= whole,
        armor_3: armored && left <= 0,
    }
}

/// Plays the health animations that are due, each once: the returned marks
/// are those whose threshold is reached now and had not played before.
pub fn update_zombie_hp_anim(config: &Hp, hp: &ZombieHp, hp_anim: &mut ZombieHpAnim) -> (r: HpMarks)
    requires
        hp.armor_hp@.len() > 0 ==> config.armor@.len() > 0,
    ensures
        r == old(hp_anim).due(marks_reached(*config, hp@)),
        *final(hp_anim) == old(hp_anim).latched(marks_reached(*config, hp@)),
{
    let marks = hp_marks(config, hp);
    let due = HpMarks {
        half_damage: marks.half_damage && !hp_anim.trigger_half_damage_anim,
        full_damage: marks.full_damage && !hp_anim.trigger_full_damage_anim,
        critical: marks.critical && !hp_anim.trigger_critical_anim,
        armor_1: marks.armor_1 && !hp_anim.trigger_armor_anims_1,
        armor_2: marks.armor_2 && !hp_anim.trigger_armor_anims_2,
        armor_3: marks.armor_3 && !hp_anim.trigger_armor_anims_3,
    };
    hp_anim.trigger_half_damage_anim = hp_anim.trigger_half_damage_anim || marks.half_damage;
    hp_anim.trigger_full_damage_anim = hp_anim.trigger_full_damage_anim || marks.full_damage;
    hp_anim.trigger_critical_anim = hp_anim.trigger_critical_anim || marks.critical;
    hp_anim.trigger_armor_anims_1 = hp_anim.trigger_armor_anims_1 || marks.armor_1;
    hp_anim.trigger_armor_anims_2 = hp_anim.trigger_armor_anims_2 || marks.armor_2;
    hp_anim.trigger_armor_anims_3 = hp_anim.trigger_armor_anims_3 || marks.armor_3;
    due
}

/// Where an invader stands between whole and gone.
#[derive(Clone, Copy, Debug, PartialEq, Eq, Structural)]
pub enum ZombiePhase {
    Healthy,
    /// Half of the real pool is gone.
    HalfDamage,
    /// Only the critical pool is left: the invader loses health by itself.
    Critical,
    /// Nothing is left: the invader is removed after a short while.
    Dead,
}

/// The phase of an invader of a species with `hp` in its base pool.
pub open spec fn phase_of(config: Hp, hp: i64) -> ZombiePhase {
    if hp <= 0 {
        ZombiePhase::Dead
    } else if hp <= config.critical {
        ZombiePhase::Critical
    } else if 2 * hp <= config.real as int + 2 * config.critical as int {
        ZombiePhase::HalfDamage
    } else {
        ZombiePhase::Healthy
    }
}

/// What an invader in its critical phase loses by itself each second.
pub const CRITICAL_DAMAGE: i64 = 20_000;

/// Nanoseconds for which a fallen invader stays on the field.
pub const DEATH_GRACE: u64 = 1_000_000_000;

/// The phase of an invader.
pub fn zombie_phase(config: &Hp, hp: &ZombieHp) -> (r: ZombiePhase)
    ensures
        r == phase_of(*config, hp.hp),
{
    let pool: i128 = hp.hp as i128;
    if pool <= 0 {
        ZombiePhase::Dead
    } else if pool <= (config.critical as i128) {
        ZombiePhase::Critical
    } else if 2 * pool <= (config.real as i128) + 2 * (config.critical as i128) {
        ZombiePhase::HalfDamage
    } else {
        ZombiePhase::Healthy
    }
}

/// Whether an invader enters its critical phase: only its critical pool, or
/// less, is left.
pub fn update_zombie_enter_critical(config: &Hp, hp: &ZombieHp) -> (r: bool)
    ensures
        r == (hp.hp <= config.critical),
{
    hp.hp <= (config.critical as i64)
}

/// Takes from an invader in its critical phase what it loses in a second,
/// where `second_passed` says that the second has run out in this tick.
pub fn update_zombie_critical(second_passed: bool, hp: &mut ZombieHp)
    ensures
        final(hp).armor_hp@ == old(hp).armor_hp@,
        final(hp).hp == if second_passed {
            clamp_i64(old(hp).hp as int - CRITICAL_DAMAGE as int)
        } else {
            old(hp).hp
        },
{
    if second_passed {
        hp.hp = sub_clamped(hp.hp, CRITICAL_DAMAGE);
    }
}

/// Decides whether an invader has fallen: nothing is left of its base pool.
/// A fallen invader stops, can no longer be shot at, and is removed when the
/// returned countdown of `DEATH_GRACE` has run out.
pub fn update_zombie_die(hp: &ZombieHp) -> (r: Option<Countdown>)
    ensures
        r == if hp.hp <= 0 {
            Some(Countdown::fresh(DEATH_GRACE, TimerMode::Once))
        } else {
            None
        },
{
    if hp.hp <= 0 {
        Some(Countdown::new(DEATH_GRACE, TimerMode::Once))
    } else {
        None
    }
}

} // verus!

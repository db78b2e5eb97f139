//! The wave scheduler: when the next wave is due, how a huge wave is
//! announced, and where the invaders of a wave enter.

use vstd::prelude::*;
use crate::fixed::{clamp_i32, negated};
use crate::geom::Vec2;
use crate::level::{Level, Wave, WaveType, Zombie};
use crate::shoot::LanePosition;
use crate::planting::Sunshine;
use crate::rng::random_below;
use crate::solt::{Entity, SoltType};
use crate::timeline::{GameTimer, GameTimerTag};
use crate::timer::{Countdown, TimerMode};
use crate::zombie::{HpView, SummonOn, ZombieHp, ZombieHpAnim, ZombieInfo, ZombieRegistry, ZombieType};

verus! {

/// Nanoseconds between the announcement of a huge wave and its release.
pub const HUGE_WAVE_DELAY: u64 = 10_000_000_000;

/// Nanoseconds between the release of a wave and the next.
pub const WAVE_INTERVAL: u64 = 30_000_000_000;

/// Bound of the random delay with which an invader of a wave enters.
pub const SUMMON_DELAY_SPAN: u64 = 5_000_000_000;

/// State of the wave scheduler. It lives for one round.
#[derive(Clone, Copy, Debug, PartialEq, Eq, Structural)]
pub struct ZombieWaveController {
    pub next_wave_timer: Countdown,
    /// Index of the wave to release next. It equals the number of waves once
    /// all are out.
    pub next_wave_index: usize,
    /// Whether a huge wave has been announced and waits for its release.
    pub trigger_huge_wave: bool,
}

impl Default for ZombieWaveController {
    /// No wave out, nothing announced, a countdown of no length.
    fn default() -> (r: ZombieWaveController)
        ensures
            r == (ZombieWaveController {
                next_wave_timer: Countdown::fresh(0, TimerMode::Once),
                next_wave_index: 0,
                trigger_huge_wave: false,
            }),
    {
        ZombieWaveController {
            next_wave_timer: Countdown::new(0, TimerMode::Once),
            next_wave_index: 0,
            trigger_huge_wave: false,
        }
    }
}

/// Sets the pool and the scheduler up for a round of `level`.
pub fn setup_resources(level: &Level, sunshine: &mut Sunshine, controller: &mut ZombieWaveController)
    ensures
        final(sunshine).0 == level.sunshine,
        *final(controller) == (ZombieWaveController {
            next_wave_timer: Countdown::fresh(level.first_wave_time, TimerMode::Once),
            next_wave_index: 0,
            trigger_huge_wave: false,
        }),
{
    sunshine.0 = level.sunshine;
    controller.next_wave_timer = Countdown::new(level.first_wave_time, TimerMode::Once);
    controller.next_wave_index = 0;
    controller.trigger_huge_wave = false;
}

/// A place at the edge of the field where invaders enter.
#[derive(Clone, Copy, Debug, PartialEq, Eq, Structural)]
pub struct ZombieSolt {
    pub entity: Entity,
    pub solt_type: SoltType,
    pub position: Vec2,
    pub lane: u8,
}

/// An invader that will enter at a place when a countdown has run out.
#[derive(Clone, Copy, Debug, PartialEq, Eq, Structural)]
pub struct ToSpawnZombie {
    pub timer: Countdown,
    pub zombie_type: ZombieType,
    pub zombie_solt: Entity,
}

/// What the scheduler did in a tick.
#[derive(Clone, Copy, Debug, PartialEq, Eq, Structural)]
pub enum WaveStep {
    /// No wave was due.
    Idle,
    /// A huge wave was due: it has been announced and will be released when
    /// the announcement delay has passed.
    HugeWaveIncoming,
    /// The next wave has been released.
    Released,
}

/// Outcome of a tick of the scheduler.
#[derive(Debug)]
pub struct WaveOutcome {
    pub step: WaveStep,
    /// Cues to schedule.
    pub cues: Vec<GameTimer>,
    /// Invaders to bring in.
    pub spawns: Vec<ToSpawnZombie>,
}

/// Whether a species enters on a terrain.
pub open spec fn summons_on(summon_on: SummonOn, solt_type: SoltType) -> bool {
    match solt_type {
        SoltType::Dirt => summon_on.dirt,
        SoltType::River => summon_on.river,
        SoltType::Roof => summon_on.roof,
    }
}

/// Whether the place at index `i` admits a species.
pub open spec fn admits(solts: Seq<ZombieSolt>, summon_on: SummonOn, i: int) -> bool {
    0 <= i < solts.len() && summons_on(summon_on, solts[i].solt_type)
}

/// Whether any place admits a species.
pub open spec fn has_entry(solts: Seq<ZombieSolt>, summon_on: SummonOn) -> bool {
    exists|i: int| admits(solts, summon_on, i)
}

/// Whether a wave is due: waves are left, and the countdown runs out in this
/// tick or the field is clear. A clear field does not bring on the first
/// wave, nor a huge wave that has been announced.
pub open spec fn wave_due(c: ZombieWaveController, waves: int, delta: u64, field_clear: bool) -> bool {
    c.next_wave_index < waves && (c.next_wave_timer.ticked(delta).spec_just_finished() || (
    c.next_wave_index > 0 && !c.trigger_huge_wave && field_clear))
}

/// Whether the wave that is due is to be announced first.
pub open spec fn announces(c: ZombieWaveController, waves: Seq<Wave>) -> bool {
    !c.trigger_huge_wave && waves[c.next_wave_index as int].wave_type == WaveType::HugeWave
}

/// What the scheduler does in a tick.
pub open spec fn wave_step(c: ZombieWaveController, waves: Seq<Wave>, delta: u64, field_clear: bool) -> WaveStep {
    if !wave_due(c, waves.len() as int, delta, field_clear) {
        WaveStep::Idle
    } else if announces(c, waves) {
        WaveStep::HugeWaveIncoming
    } else {
        WaveStep::Released
    }
}

/// The scheduler after a tick. While waves are left its countdown advances;
/// an announcement latches the flag and waits out the announcement delay; a
/// release clears the flag, moves on by one wave and waits out the interval.
pub open spec fn controller_after(
    c: ZombieWaveController,
    waves: Seq<Wave>,
    delta: u64,
    field_clear: bool,
) -> ZombieWaveController {
    match wave_step(c, waves, delta, field_clear) {
        WaveStep::Idle => if c.next_wave_index < waves.len() {
            ZombieWaveController { next_wave_timer: c.next_wave_timer.ticked(delta), ..c }
        } else {
            c
        },
        WaveStep::HugeWaveIncoming => ZombieWaveController {
            next_wave_timer: Countdown::fresh(HUGE_WAVE_DELAY, TimerMode::Once),
            next_wave_index: c.next_wave_index,
            trigger_huge_wave: true,
        },
        WaveStep::Released => ZombieWaveController {
            next_wave_timer: Countdown::fresh(WAVE_INTERVAL, TimerMode::Once),
            next_wave_index: (c.next_wave_index + 1) as usize,
            trigger_huge_wave: false,
        },
    }
}

/// The cues of an announcement.
pub open spec fn huge_wave_cues() -> Seq<GameTimer> {
    seq![
        GameTimer::after(0, GameTimerTag::TextHugeWave),
        GameTimer::after(0, GameTimerTag::SoundHugeWave),
        GameTimer::after(HUGE_WAVE_DELAY, GameTimerTag::SoundHugeWaveZombieReached),
    ]
}

/// The cues of the release of the wave at `index` out of `waves`: those of
/// the first wave, then those of the last.
pub open spec fn release_cues(index: int, waves: int) -> Seq<GameTimer> {
    (if index == 0 {
        seq![
            GameTimer::after(0, GameTimerTag::SoundZombieReached),
            GameTimer::after(0, GameTimerTag::ShowLevelProgress),
        ]
    } else {
        Seq::empty()
    }) + (if index == waves - 1 {
        seq![
            GameTimer::after(0, GameTimerTag::TextFinalWave),
            GameTimer::after(1_000_000_000, GameTimerTag::SoundFinalWave),
        ]
    } else {
        Seq::empty()
    })
}

/// The cues of a tick.
pub open spec fn wave_cues(c: ZombieWaveController, waves: Seq<Wave>, delta: u64, field_clear: bool) -> Seq<
    GameTimer,
> {
    match wave_step(c, waves, delta, field_clear) {
        WaveStep::Idle => Seq::empty(),
        WaveStep::HugeWaveIncoming => huge_wave_cues(),
        WaveStep::Released => release_cues(c.next_wave_index as int, waves.len() as int),
    }
}

/// The invader of species `info` that enters at the place at index `place`
/// after `delay` nanoseconds, or at once where the species knows no delay.
pub open spec fn unit_at(info: ZombieInfo, solts: Seq<ZombieSolt>, place: int, delay: u64) -> ToSpawnZombie {
    ToSpawnZombie {
        timer: Countdown::fresh(
            if info.summon_delay {
                delay
            } else {
                0
            },
            TimerMode::Once,
        ),
        zombie_type: info.id,
        zombie_solt: solts[place].entity,
    }
}

/// Whether `spawn` is an invader of species `info` as a wave brings it in: at
/// a place that admits the species, after a delay below the bound.
pub open spec fn is_unit_of(spawn: ToSpawnZombie, info: ZombieInfo, solts: Seq<ZombieSolt>) -> bool {
    exists|place: int, delay: u64|
        admits(solts, info.summon_on, place) && delay < SUMMON_DELAY_SPAN && spawn == #[trigger] unit_at(
            info,
            solts,
            place,
            delay,
        )
}

/// How many invaders a batch brings in: all of them, or none where no place
/// admits the species.
pub open spec fn unit_count(entry: Zombie, info: ZombieInfo, solts: Seq<ZombieSolt>) -> int {
    if has_entry(solts, info.summon_on) {
        entry.count as int
    } else {
        0
    }
}

/// Whether `spawns` is what the batches `entries` bring in, batch after batch.
pub open spec fn spawns_of(
    spawns: Seq<ToSpawnZombie>,
    entries: Seq<Zombie>,
    registry: ZombieRegistry,
    solts: Seq<ZombieSolt>,
) -> bool
    decreases entries.len(),
{
    if entries.len() == 0 {
        spawns.len() == 0
    } else {
        let info = registry.info_of(entries.last().zombie);
        let n = unit_count(entries.last(), info, solts);
        &&& spawns.len() >= n
        &&& spawns_of(spawns.take(spawns.len() - n), entries.drop_last(), registry, solts)
        &&& forall|k: int|
            spawns.len() - n <= k < spawns.len() ==> is_unit_of(#[trigger] spawns[k], info, solts)
    }
}

/// Whether the registry defines every species of every wave.
pub open spec fn waves_defined(waves: Seq<Wave>, registry: ZombieRegistry) -> bool {
    forall|w: int, e: int|
        0 <= w < waves.len() && 0 <= e < waves[w].zombies@.len() ==> registry.defines(
            (#[trigger] waves[w].zombies@[e]).zombie,
        )
}

/// Whether the registry defines every species of a wave.
pub open spec fn wave_defined(wave: Wave, registry: ZombieRegistry) -> bool {
    forall|e: int| 0 <= e < wave.zombies@.len() ==> registry.defines((#[trigger] wave.zombies@[e]).zombie)
}

/// Checks that the registry defines every species of every wave, as a round
/// needs it.
pub fn check_waves_defined(waves: &Vec<Wave>, registry: &ZombieRegistry) -> (r: bool)
    ensures
        r == waves_defined(waves@, *registry),
{
    let mut w: usize = 0;
    while w < waves.len()
        invariant
            w <= waves.len(),
            forall|i: int, e: int|
                0 <= i < w && 0 <= e < waves@[i].zombies@.len() ==> registry.defines(
                    (#[trigger] waves@[i].zombies@[e]).zombie,
                ),
        decreases waves.len() - w,
    {
        let wave = &waves[w];
        let mut e: usize = 0;
        while e < wave.zombies.len()
            invariant
                e <= wave.zombies.len(),
                w < waves.len(),
                *wave == waves@[w as int],
                forall|k: int| 0 <= k < e ==> registry.defines((#[trigger] wave.zombies@[k]).zombie),
            decreases wave.zombies.len() - e,
        {
            let batch: Zombie = wave.zombies[e];
            if registry.find(batch.zombie).is_none() {
                assert(!registry.defines(waves@[w as int].zombies@[e as int].zombie));
                return false;
            }
            proof {
                let i = choose|i: int| registry.is_entry(batch.zombie, i);
                assert(registry.0@[i].id == batch.zombie);
            }
            e += 1;
        }
        w += 1;
    }
    true
}

/// The indices of the places that admit a species, in ascending order.
pub fn eligible_solts(solts: &Vec<ZombieSolt>, summon_on: &SummonOn) -> (r: Vec<usize>)
    ensures
        forall|k: int| 0 <= k < r@.len() ==> admits(solts@, *summon_on, (#[trigger] r@[k]) as int),
        forall|k: int, l: int| 0 <= k < l < r@.len() ==> r@[k] < r@[l],
        forall|i: int| admits(solts@, *summon_on, i) ==> exists|k: int| 0 <= k < r@.len() && r@[k] == i,
        r@.len() > 0 <==> has_entry(solts@, *summon_on),
{
    let mut found: Vec<usize> = Vec::new();
    let mut i: usize = 0;
    while i < solts.len()
        invariant
            i <= solts.len(),
            forall|k: int| 0 <= k < found@.len() ==> admits(solts@, *summon_on, (#[trigger] found@[k]) as int),
            forall|k: int| 0 <= k < found@.len() ==> (#[trigger] found@[k]) < i,
            forall|k: int, l: int| 0 <= k < l < found@.len() ==> found@[k] < found@[l],
            forall|j: int|
                0 <= j < i && admits(solts@, *summon_on, j) ==> exists|k: int|
                    0 <= k < found@.len() && found@[k] == j,
        decreases solts.len() - i,
    {
        let fits = match solts[i].solt_type {
            SoltType::Dirt => summon_on.dirt,
            SoltType::River => summon_on.river,
            SoltType::Roof => summon_on.roof,
        };
        if fits {
            let ghost before = found@;
            found.push(i);
            proof {
                assert forall|j: int| 0 <= j < i + 1 && admits(solts@, *summon_on, j) implies exists|
                    k: int,
                | 0 <= k < found@.len() && found@[k] == j by {
                    if j < i {
                        let k = choose|k: int| 0 <= k < before.len() && before[k] == j;
                        assert(found@[k] == j);
                    } else {
                        assert(found@[before.len() as int] == j);
                    }
                }
            }
        }
        i += 1;
    }
    proof {
        if found@.len() > 0 {
            assert(admits(solts@, *summon_on, found@[0] as int));
        }
        if has_entry(solts@, *summon_on) {
            let j = choose|j: int| admits(solts@, *summon_on, j);
            let k = choose|k: int| 0 <= k < found@.len() && found@[k] == j;
        }
    }
    found
}

/// The invader of species `info` that enters at the place at index `place`
/// after `delay` nanoseconds, or at once where the species knows no delay.
pub fn spawn_unit(info: &ZombieInfo, solts: &Vec<ZombieSolt>, place: usize, delay: u64) -> (r:
    ToSpawnZombie)
    requires
        place < solts@.len(),
    ensures
        r == unit_at(*info, solts@, place as int, delay),
{
    let wait: u64 = if info.summon_delay {
        delay
    } else {
        0
    };
    ToSpawnZombie {
        timer: Countdown::new(wait, TimerMode::Once),
        zombie_type: info.id,
        zombie_solt: solts[place].entity,
    }
}

/// Brings in the invaders of a wave: for every batch as many invaders as it
/// names, each at a random place among those that admit the species and
/// after a random delay below the bound. A batch whose species no place
/// admits brings in none.
pub fn release_wave(wave: &Wave, registry: &ZombieRegistry, solts: &Vec<ZombieSolt>) -> (r: Vec<
    ToSpawnZombie,
>)
    requires
        wave_defined(*wave, *registry),
    ensures
        spawns_of(r@, wave.zombies@, *registry, solts@),
{
    let mut spawns: Vec<ToSpawnZombie> = Vec::new();
    let mut i: usize = 0;
    proof {
        assert(wave.zombies@.take(0).len() == 0);
    }
    while i < wave.zombies.len()
        invariant
            i <= wave.zombies.len(),
            forall|e: int| 0 <= e < wave.zombies@.len() ==> registry.defines((#[trigger] wave.zombies@[e]).zombie),
            spawns_of(spawns@, wave.zombies@.take(i as int), *registry, solts@),
        decreases wave.zombies.len() - i,
    {
        let entry: Zombie = wave.zombies[i];
        assert(registry.defines(wave.zombies@[i as int].zombie));
        let ghost base = spawns@;
        let ghost entries = wave.zombies@.take(i as int + 1);
        proof {
            assert(entries.drop_last() =~= wave.zombies@.take(i as int));
            assert(entries.last() == entry);
        }
        match registry.get(entry.zombie) {
            None => {},
            Some(info) => {
                let eligible = eligible_solts(solts, &info.summon_on);
                if eligible.len() > 0 {
                    let mut j: u8 = 0;
                    while j < entry.count
                        invariant
                            j <= entry.count,
                            eligible@.len() > 0,
                            forall|k: int|
                                0 <= k < eligible@.len() ==> admits(
                                    solts@,
                                    info.summon_on,
                                    (#[trigger] eligible@[k]) as int,
                                ),
                            spawns@.len() == base.len() + j,
                            spawns@.take(base.len() as int) == base,
                            forall|k: int|
                                base.len() <= k < spawns@.len() ==> is_unit_of(
                                    #[trigger] spawns@[k],
                                    *info,
                                    solts@,
                                ),
                        decreases entry.count - j,
                    {
                        let draw: u64 = random_below(eligible.len() as u64);
                        let place: usize = eligible[draw as usize];
                        let delay: u64 = random_below(SUMMON_DELAY_SPAN);
                        let unit = spawn_unit(info, solts, place, delay);
                        let ghost before = spawns@;
                        spawns.push(unit);
                        proof {
                            assert(admits(solts@, info.summon_on, place as int));
                            assert(is_unit_of(unit, *info, solts@));
                            assert(spawns@.take(base.len() as int) =~= before.take(base.len() as int));
                        }
                        j += 1;
                    }
                }
                proof {
                    let n = unit_count(entry, *info, solts@);
                    assert(spawns@.len() - n == base.len());
                    if n == 0 {
                        assert(spawns@.take(base.len() as int) =~= base);
                    }
                }
            },
        }
        i += 1;
    }
    proof {
        assert(wave.zombies@.take(i as int) =~= wave.zombies@);
    }
    spawns
}

/// One tick of the wave scheduler.
///
/// While waves are left the countdown advances. A wave is due when it runs
/// out, or, past the first wave and outside an announcement, as soon as the
/// field is clear of invaders alive or yet to enter. A huge wave that is due
/// is announced first and released when it is due again. The index of the
/// next wave never falls, and rises by exactly one with a release.
pub fn update_zombie_wave(
    delta: u64,
    controller: &mut ZombieWaveController,
    waves: &Vec<Wave>,
    field_clear: bool,
    registry: &ZombieRegistry,
    solts: &Vec<ZombieSolt>,
) -> (r: WaveOutcome)
    requires
        waves_defined(waves@, *registry),
    ensures
        r.step == wave_step(*old(controller), waves@, delta, field_clear),
        *final(controller) == controller_after(*old(controller), waves@, delta, field_clear),
        r.cues@ == wave_cues(*old(controller), waves@, delta, field_clear),
        r.step != WaveStep::Released ==> r.spawns@.len() == 0,
        r.step == WaveStep::Released ==> spawns_of(
            r.spawns@,
            waves@[old(controller).next_wave_index as int].zombies@,
            *registry,
            solts@,
        ),
        final(controller).next_wave_index >= old(controller).next_wave_index,
        final(controller).next_wave_index == old(controller).next_wave_index + (if r.step
            == WaveStep::Released {
            1int
        } else {
            0int
        }),
{
    let mut cues: Vec<GameTimer> = Vec::new();
    let spawns: Vec<ToSpawnZombie> = Vec::new();
    let index: usize = controller.next_wave_index;
    if index >= waves.len() {
        return WaveOutcome { step: WaveStep::Idle, cues, spawns };
    }
    let mut timer = controller.next_wave_timer;
    timer.tick(delta);
    if !timer.just_finished() {
        if index == 0 || controller.trigger_huge_wave || !field_clear {
            controller.next_wave_timer = timer;
            return WaveOutcome { step: WaveStep::Idle, cues, spawns };
        }
    }
    let huge = match waves[index].wave_type {
        WaveType::HugeWave => true,
        WaveType::Normal => false,
    };
    if !controller.trigger_huge_wave && huge {
        controller.trigger_huge_wave = true;
        controller.next_wave_timer = Countdown::new(HUGE_WAVE_DELAY, TimerMode::Once);
        cues.push(GameTimer::new(0, GameTimerTag::TextHugeWave));
        cues.push(GameTimer::new(0, GameTimerTag::SoundHugeWave));
        cues.push(GameTimer::new(HUGE_WAVE_DELAY, GameTimerTag::SoundHugeWaveZombieReached));
        proof {
            assert(cues@ =~= huge_wave_cues());
        }
        return WaveOutcome { step: WaveStep::HugeWaveIncoming, cues, spawns };
    }
    controller.trigger_huge_wave = false;
    if index == 0 {
        cues.push(GameTimer::new(0, GameTimerTag::SoundZombieReached));
        cues.push(GameTimer::new(0, GameTimerTag::ShowLevelProgress));
    }
    if index == waves.len() - 1 {
        cues.push(GameTimer::new(0, GameTimerTag::TextFinalWave));
        cues.push(GameTimer::new(1_000_000_000, GameTimerTag::SoundFinalWave));
    }
    proof {
        assert(cues@ =~= release_cues(index as int, waves@.len() as int));
        assert forall|e: int| 0 <= e < waves@[index as int].zombies@.len() implies registry.defines(
            (#[trigger] waves@[index as int].zombies@[e]).zombie,
        ) by {}
        assert(wave_defined(waves@[index as int], *registry));
    }
    let released = release_wave(&waves[index], registry, solts);
    controller.next_wave_index = index + 1;
    controller.next_wave_timer = Countdown::new(WAVE_INTERVAL, TimerMode::Once);
    WaveOutcome { step: WaveStep::Released, cues, spawns: released }
}

/// A tick as the scheduler sees it: the time that has passed, and whether
/// the field is clear.
pub struct WaveTick {
    pub delta: u64,
    pub field_clear: bool,
}

/// The scheduler after a succession of ticks.
pub open spec fn controller_after_ticks(c: ZombieWaveController, waves: Seq<Wave>, ticks: Seq<WaveTick>) -> ZombieWaveController
    decreases ticks.len(),
{
    if ticks.len() == 0 {
        c
    } else {
        controller_after(
            controller_after_ticks(c, waves, ticks.drop_last()),
            waves,
            ticks.last().delta,
            ticks.last().field_clear,
        )
    }
}

/// The number of releases in a succession of ticks.
pub open spec fn releases_in(c: ZombieWaveController, waves: Seq<Wave>, ticks: Seq<WaveTick>) -> int
    decreases ticks.len(),
{
    if ticks.len() == 0 {
        0
    } else {
        releases_in(c, waves, ticks.drop_last()) + if wave_step(
            controller_after_ticks(c, waves, ticks.drop_last()),
            waves,
            ticks.last().delta,
            ticks.last().field_clear,
        ) == WaveStep::Released {
            1int
        } else {
            0int
        }
    }
}

/// In one tick the index of the next wave rises by one with a release and
/// stays with anything else, an announcement included; it never passes the
/// number of waves.
pub proof fn lemma_wave_index_step(c: ZombieWaveController, waves: Seq<Wave>, delta: u64, field_clear: bool)
    requires
        waves.len() <= usize::MAX,
    ensures
        controller_after(c, waves, delta, field_clear).next_wave_index == c.next_wave_index + (
        if wave_step(c, waves, delta, field_clear) == WaveStep::Released {
            1int
        } else {
            0int
        }),
        c.next_wave_index <= waves.len() ==> controller_after(
            c,
            waves,
            delta,
            field_clear,
        ).next_wave_index <= waves.len(),
{
}

/// Over any succession of ticks the index of the next wave never falls: it
/// has risen by exactly the number of releases.
pub proof fn lemma_wave_index_never_falls(c: ZombieWaveController, waves: Seq<Wave>, ticks: Seq<WaveTick>)
    requires
        waves.len() <= usize::MAX,
    ensures
        controller_after_ticks(c, waves, ticks).next_wave_index == c.next_wave_index + releases_in(
            c,
            waves,
            ticks,
        ),
        0 <= releases_in(c, waves, ticks) <= ticks.len(),
        controller_after_ticks(c, waves, ticks).next_wave_index >= c.next_wave_index,
    decreases ticks.len(),
{
    if ticks.len() > 0 {
        lemma_wave_index_never_falls(c, waves, ticks.drop_last());
        lemma_wave_index_step(
            controller_after_ticks(c, waves, ticks.drop_last()),
            waves,
            ticks.last().delta,
            ticks.last().field_clear,
        );
    }
}

/// An announced huge wave is released, not announced again, when it is due.
pub proof fn lemma_announced_wave_is_released(
    c: ZombieWaveController,
    waves: Seq<Wave>,
    delta: u64,
    field_clear: bool,
)
    requires
        c.trigger_huge_wave,
    ensures
        wave_step(c, waves, delta, field_clear) != WaveStep::HugeWaveIncoming,
        wave_due(c, waves.len() as int, delta, field_clear) ==> wave_step(c, waves, delta, field_clear)
            == WaveStep::Released,
{
}

/// An invader that enters the field.
#[derive(Debug)]
pub struct NewZombie {
    pub zombie_type: ZombieType,
    pub position: Vec2,
    pub lane_position: LanePosition,
    /// Toward the defenders at the speed of the species.
    pub velocity: Vec2,
    pub hp: ZombieHp,
    pub hp_anim: ZombieHpAnim,
}

impl NewZombie {
    /// Whether this is an invader of species `info` as it enters at `solt`.
    pub open spec fn enters_at(&self, info: ZombieInfo, solt: ZombieSolt) -> bool {
        &&& self.zombie_type == info.id
        &&& self.position == solt.position
        &&& self.lane_position == (LanePosition { lane: solt.lane, x: solt.position.x })
        &&& self.velocity == (Vec2 { x: clamp_i32(-(info.speed as int)), y: 0 })
        &&& self.hp@ == HpView::full(info.hp)
        &&& self.hp_anim == ZombieHpAnim::fresh()
    }
}

/// The first place listed under `entity`.
pub open spec fn place_in(solts: Seq<ZombieSolt>, entity: Entity) -> Option<ZombieSolt>
    decreases solts.len(),
{
    if solts.len() == 0 {
        None
    } else if solts[0].entity == entity {
        Some(solts[0])
    } else {
        place_in(solts.subrange(1, solts.len() as int), entity)
    }
}

/// Looks up an entry place by its handle.
pub fn find_place(solts: &Vec<ZombieSolt>, entity: Entity) -> (r: Option<ZombieSolt>)
    ensures
        r == place_in(solts@, entity),
{
    let mut i: usize = 0;
    assert(solts@.subrange(0, solts.len() as int) =~= solts@);
    while i < solts.len()
        invariant
            i <= solts.len(),
            place_in(solts@, entity) == place_in(solts@.subrange(i as int, solts.len() as int), entity),
        decreases solts.len() - i,
    {
        if solts[i].entity == entity {
            return Some(solts[i]);
        }
        proof {
            let rest = solts@.subrange(i as int, solts.len() as int);
            assert(rest.subrange(1, rest.len() as int) =~= solts@.subrange(
                i as int + 1,
                solts.len() as int,
            ));
        }
        i += 1;
    }
    None
}

/// What a tick made of an invader that is waiting to enter.
#[derive(Debug)]
pub struct Summon {
    /// Whether the wait is over: the placeholder is to go.
    pub due: bool,
    /// The invader that enters. None where the wait is not over, or where the
    /// species or the place is unknown.
    pub zombie: Option<NewZombie>,
}

/// Advances the wait of an invader that is to enter. When the wait is over
/// the invader enters at its place as that place is now, with full health and
/// on its way toward the defenders.
pub fn update_summon_zombie(
    delta: u64,
    to_spawn: &mut ToSpawnZombie,
    registry: &ZombieRegistry,
    solts: &Vec<ZombieSolt>,
) -> (r: Summon)
    ensures
        *final(to_spawn) == (ToSpawnZombie { timer: old(to_spawn).timer.ticked(delta), ..*old(to_spawn) }),
        r.due == final(to_spawn).timer.spec_just_finished(),
        match r.zombie {
            Some(zombie) => r.due && registry.defines(old(to_spawn).zombie_type) && place_in(
                solts@,
                old(to_spawn).zombie_solt,
            ).is_some() && zombie.enters_at(
                registry.info_of(old(to_spawn).zombie_type),
                place_in(solts@, old(to_spawn).zombie_solt).unwrap(),
            ),
            None => !r.due || !registry.defines(old(to_spawn).zombie_type) || place_in(
                solts@,
                old(to_spawn).zombie_solt,
            ).is_none(),
        },
{
    if !to_spawn.timer.tick_fired(delta) {
        return Summon { due: false, zombie: None };
    }
    let info = match registry.get(to_spawn.zombie_type) {
        None => {
            return Summon { due: true, zombie: None };
        },
        Some(info) => info,
    };
    let solt = match find_place(solts, to_spawn.zombie_solt) {
        None => {
            return Summon { due: true, zombie: None };
        },
        Some(solt) => solt,
    };
    let zombie = NewZombie {
        zombie_type: info.id,
        position: solt.position,
        lane_position: LanePosition { lane: solt.lane, x: solt.position.x },
        velocity: Vec2 { x: negated(info.speed), y: 0 },
        hp: ZombieHp::from(&info.hp),
        hp_anim: ZombieHpAnim::default(),
    };
    Summon { due: true, zombie: Some(zombie) }
}

} // verus!

//! Instant use: defenders that act once, some time after planting, and go.

use vstd::prelude::*;
use crate::plant::{InstantEffect, PlantHp, PlantInstant};
use crate::timer::{Countdown, TimerMode};

verus! {

/// Timers of an instant-use defender.
#[derive(Debug)]
pub struct PlantInstantTag {
    /// Runs out when the defender is to be removed.
    pub anim_timer: Countdown,
    /// One timer per configured effect.
    pub effect_timer: Vec<Countdown>,
}

impl PlantInstantTag {
    /// Whether the timers are those of a freshly planted defender of the
    /// given configuration.
    pub open spec fn fresh_for(&self, config: PlantInstant) -> bool {
        &&& self.anim_timer == Countdown::fresh(config.anim_time, TimerMode::Once)
        &&& self.effect_timer@.len() == config.effects@.len()
        &&& forall|i: int|
            0 <= i < config.effects@.len() ==> (#[trigger] self.effect_timer@[i]) == Countdown::fresh(
                config.effects@[i].effect_time,
                TimerMode::Once,
            )
    }

    /// Fresh timers for a configuration.
    pub fn new(config: &PlantInstant) -> (r: PlantInstantTag)
        ensures
            r.fresh_for(*config),
    {
        let mut effect_timer: Vec<Countdown> = Vec::new();
        let mut i: usize = 0;
        while i < config.effects.len()
            invariant
                i <= config.effects.len(),
                effect_timer@.len() == i,
                forall|j: int|
                    0 <= j < i ==> (#[trigger] effect_timer@[j]) == Countdown::fresh(
                        config.effects@[j].effect_time,
                        TimerMode::Once,
                    ),
            decreases config.effects.len() - i,
        {
            let effect: InstantEffect = config.effects[i];
            effect_timer.push(Countdown::new(effect.effect_time, TimerMode::Once));
            i += 1;
        }
        PlantInstantTag {
            anim_timer: Countdown::new(config.anim_time, TimerMode::Once),
            effect_timer,
        }
    }
}

/// The timers of an instant-use defender as a plain value.
pub struct PlantInstantView {
    pub anim_timer: Countdown,
    pub effect_timer: Seq<Countdown>,
}

impl View for PlantInstantTag {
    type V = PlantInstantView;

    open spec fn view(&self) -> PlantInstantView {
        PlantInstantView { anim_timer: self.anim_timer, effect_timer: self.effect_timer@ }
    }
}

impl PlantInstantView {
    /// The timers one tick later.
    pub open spec fn ticked(self, delta: u64) -> PlantInstantView {
        PlantInstantView {
            anim_timer: self.anim_timer.ticked(delta),
            effect_timer: Seq::new(self.effect_timer.len(), |i: int| self.effect_timer[i].ticked(delta)),
        }
    }

    /// The effects whose timers run out in a tick of `delta`, as ascending
    /// indices.
    pub open spec fn due(self, delta: u64) -> Seq<usize> {
        effects_due(self.effect_timer, delta)
    }
}

/// The indices of the timers that run out in a tick of `delta`, ascending.
pub open spec fn effects_due(timers: Seq<Countdown>, delta: u64) -> Seq<usize>
    decreases timers.len(),
{
    if timers.len() == 0 {
        Seq::empty()
    } else if timers.last().ticked(delta).spec_just_finished() {
        effects_due(timers.drop_last(), delta).push((timers.len() - 1) as usize)
    } else {
        effects_due(timers.drop_last(), delta)
    }
}

/// One tick of an instant-use defender. A defender whose health is used up
/// is left alone. Else its timers advance; when the animation has run out
/// its health drops to zero, so that it is removed; and every effect whose
/// timer runs out is due. Returns the indices of the effects that are due.
pub fn update_plant_instant_timer(delta: u64, instant: &mut PlantInstantTag, hp: &mut PlantHp) -> (r:
    Vec<usize>)
    ensures
        old(hp).0 <= 0 ==> r@.len() == 0 && final(instant)@ == old(instant)@ && *final(hp) == *old(
            hp,
        ),
        old(hp).0 > 0 ==> {
            &&& final(instant)@ == old(instant)@.ticked(delta)
            &&& r@ == old(instant)@.due(delta)
            &&& final(hp).0 == if final(instant).anim_timer.spec_just_finished() {
                0
            } else {
                old(hp).0
            }
        },
{
    let mut due: Vec<usize> = Vec::new();
    if hp.0 <= 0 {
        return due;
    }
    if instant.anim_timer.tick_fired(delta) {
        hp.0 = 0;
    }
    let mut i: usize = 0;
    while i < instant.effect_timer.len()
        invariant
            i <= instant.effect_timer.len(),
            instant.anim_timer == old(instant).anim_timer.ticked(delta),
            instant.effect_timer@.len() == old(instant).effect_timer@.len(),
            forall|j: int| 0 <= j < i ==> (#[trigger] instant.effect_timer@[j]) == old(instant).effect_timer@[j].ticked(delta),
            forall|j: int| i <= j < instant.effect_timer@.len() ==> (#[trigger] instant.effect_timer@[j]) == old(instant).effect_timer@[j],
            due@ == effects_due(old(instant).effect_timer@.take(i as int), delta),
        decreases instant.effect_timer.len() - i,
    {
        let mut timer: Countdown = instant.effect_timer[i];
        let fired = timer.tick_fired(delta);
        instant.effect_timer[i] = timer;
        proof {
            let next = old(instant).effect_timer@.take(i as int + 1);
            assert(next.drop_last() =~= old(instant).effect_timer@.take(i as int));
            assert(next.last() == old(instant).effect_timer@[i as int]);
        }
        if fired {
            due.push(i);
        }
        i += 1;
    }
    proof {
        assert(old(instant).effect_timer@.take(i as int) =~= old(instant).effect_timer@);
        assert(instant.effect_timer@ =~= old(instant)@.ticked(delta).effect_timer);
    }
    due
}

} // verus!

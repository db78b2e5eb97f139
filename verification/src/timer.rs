//! Countdown timer: a duration, the time elapsed, and edge detection of the
//! moment it runs out.

use vstd::prelude::*;

verus! {

/// How a countdown behaves once it has run out.
#[derive(Clone, Copy, Debug, PartialEq, Eq, Structural)]
pub enum TimerMode {
    /// Runs out once and then stays finished.
    Once,
    /// Runs out, wraps around and keeps counting.
    Repeating,
}

/// What one tick makes of a countdown that is still counting: the new elapsed
/// time, whether it has run out, and how often it ran out during the tick.
pub open spec fn tick_outcome(duration: u64, elapsed: u64, repeating: bool, delta: u64) -> (
    u64,
    bool,
    u32,
) {
    let total = elapsed as int + delta as int;
    if total < duration as int {
        (total as u64, false, 0u32)
    } else if !repeating {
        (duration, true, 1u32)
    } else if duration == 0 {
        (0u64, true, u32::MAX)
    } else {
        (
            (total % (duration as int)) as u64,
            true,
            ((total / (duration as int)) % 0x1_0000_0000) as u32,
        )
    }
}

/// Runs `Timer::tick` of the engine (`bevy::time::Timer`) on a fresh, unpaused
/// engine timer with the given duration, mode and elapsed time, and reads
/// the timer back: the elapsed time, whether it is finished, and how often
/// it finished in the tick.
///
/// Trusted: the engine adds `delta` to the elapsed time; below the duration
/// nothing else happens. At or past it a one-shot timer stops at its duration
/// and reports one finish; a repeating timer keeps the remainder modulo the
/// duration and reports the quotient cut to 32 bits (all ones for a zero
/// duration, where the elapsed time is reset).
#[verifier::external_body]
fn engine_tick(duration: u64, elapsed: u64, mode: TimerMode, delta: u64) -> (r: (u64, bool, u32))
    ensures
        r == tick_outcome(duration, elapsed, mode == TimerMode::Repeating, delta),
{
    let mode = match mode {
        TimerMode::Once => bevy::time::TimerMode::Once,
        TimerMode::Repeating => bevy::time::TimerMode::Repeating,
    };
    let mut timer = bevy::time::Timer::new(std::time::Duration::from_nanos(duration), mode);
    timer.set_elapsed(std::time::Duration::from_nanos(elapsed));
    timer.tick(std::time::Duration::from_nanos(delta));
    (timer.elapsed().as_nanos() as u64, timer.finished(), timer.times_finished_this_tick())
}

/// A countdown over nanoseconds.
#[derive(Clone, Copy, Debug, PartialEq, Eq, Structural)]
pub struct Countdown {
    /// Time after which the countdown runs out.
    pub duration: u64,
    /// Time counted so far.
    pub elapsed: u64,
    /// One-shot or repeating.
    pub mode: TimerMode,
    /// Whether the countdown had run out at the end of the last tick.
    pub finished: bool,
    /// How often the countdown ran out during the last tick.
    pub times_finished_this_tick: u32,
}

impl Countdown {
    /// The countdown one tick of `delta` later.
    pub open spec fn ticked(self, delta: u64) -> Countdown {
        if self.mode == TimerMode::Once && self.finished {
            Countdown { times_finished_this_tick: 0, ..self }
        } else {
            let o = tick_outcome(
                self.duration,
                self.elapsed,
                self.mode == TimerMode::Repeating,
                delta,
            );
            Countdown { elapsed: o.0, finished: o.1, times_finished_this_tick: o.2, ..self }
        }
    }

    /// Whether the countdown ran out during the last tick.
    pub open spec fn spec_just_finished(&self) -> bool {
        self.times_finished_this_tick > 0
    }

    /// A countdown of `duration` nanoseconds on which no time has passed.
    pub open spec fn fresh(duration: u64, mode: TimerMode) -> Countdown {
        Countdown { duration, elapsed: 0, mode, finished: false, times_finished_this_tick: 0 }
    }

    /// A one-shot countdown that has run out stays as it is: it is finished
    /// after every further tick, with the same time elapsed, and reports no
    /// further edge.
    pub proof fn lemma_once_stays_finished(self, delta: u64)
        requires
            self.mode == TimerMode::Once,
            self.finished,
        ensures
            self.ticked(delta).finished,
            !self.ticked(delta).spec_just_finished(),
            self.ticked(delta).elapsed == self.elapsed,
    {
    }

    /// A one-shot countdown runs out in the tick in which the elapsed time
    /// reaches its duration, and reports one edge then.
    pub proof fn lemma_once_runs_out(self, delta: u64)
        requires
            self.mode == TimerMode::Once,
            !self.finished,
        ensures
            self.ticked(delta).spec_just_finished() <==> self.elapsed + delta >= self.duration,
            self.ticked(delta).finished == self.ticked(delta).spec_just_finished(),
            self.ticked(delta).spec_just_finished() ==> self.ticked(delta).times_finished_this_tick
                == 1 && self.ticked(delta).elapsed == self.duration,
    {
    }

    /// A fresh countdown of `duration` nanoseconds.
    pub fn new(duration: u64, mode: TimerMode) -> (r: Countdown)
        ensures
            r == Countdown::fresh(duration, mode),
    {
        Countdown { duration, elapsed: 0, mode, finished: false, times_finished_this_tick: 0 }
    }

    /// Advances the countdown by `delta` nanoseconds. A one-shot countdown that
    /// has run out stays as it is and reports no further edge.
    pub fn tick(&mut self, delta: u64)
        ensures
            *final(self) == old(self).ticked(delta),
    {
        let repeating = match self.mode {
            TimerMode::Once => false,
            TimerMode::Repeating => true,
        };
        if !repeating && self.finished {
            self.times_finished_this_tick = 0;
        } else {
            let (elapsed, finished, times) = engine_tick(
                self.duration,
                self.elapsed,
                self.mode,
                delta,
            );
            self.elapsed = elapsed;
            self.finished = finished;
            self.times_finished_this_tick = times;
        }
    }

    /// Whether the countdown ran out during the last tick.
    #[verifier::when_used_as_spec(spec_just_finished)]
    pub fn just_finished(&self) -> (r: bool)
        ensures
            r == self.spec_just_finished(),
    {
        self.times_finished_this_tick > 0
    }

    /// Advances the countdown by `delta` nanoseconds and says whether it ran
    /// out in this tick.
    pub fn tick_fired(&mut self, delta: u64) -> (r: bool)
        ensures
            *final(self) == old(self).ticked(delta),
            r == final(self).spec_just_finished(),
    {
        self.tick(delta);
        self.just_finished()
    }

    /// Sets the elapsed time without touching the finished flags.
    pub fn set_elapsed(&mut self, elapsed: u64)
        ensures
            *final(self) == (Countdown { elapsed, ..*old(self) }),
    {
        self.elapsed = elapsed;
    }
}

} // verus!

//! The level-progress indicator: how far the round has come, as a bar that
//! eases toward its target.

use vstd::prelude::*;
use crate::anim::{Slide, Transform, Vec3};
use crate::solt::Entity;
use crate::fixed::{add_clamped, add_coord, clamp_i32, clamp_i64, lemma_mul_bound, over_time, scaled_by_time};
use crate::level::{Wave, WaveType};

verus! {

/// Width of the bar, in thousandths of a world unit.
pub const BAR_WIDTH: i32 = 158_000;

/// By how much the bar lags behind the progress.
pub const BAR_LAG: i32 = 15_000;

/// The fastest that the bar moves, in thousandths of a world unit per second.
pub const BAR_SPEED: i32 = -20_000;

/// Where the left end of the bar lies on the screen.
pub const BAR_ORIGIN: i32 = 232_000;

/// Whether a wave is a huge one.
pub open spec fn is_huge(wave: Wave) -> bool {
    wave.wave_type == WaveType::HugeWave
}

/// The number of huge waves among the first `n`.
pub open spec fn count_huge(waves: Seq<Wave>, n: int) -> int
    decreases n,
{
    if n <= 0 {
        0
    } else {
        count_huge(waves, n - 1) + if is_huge(waves[n - 1]) {
            1int
        } else {
            0int
        }
    }
}

/// The number of waves released since the last huge one before `index`.
pub open spec fn waves_after_huge(waves: Seq<Wave>, index: int) -> int
    decreases index,
{
    if index <= 0 || is_huge(waves[index - 1]) {
        0
    } else {
        1 + waves_after_huge(waves, index - 1)
    }
}

/// The number of waves from `index` up to the next huge one.
pub open spec fn waves_before_huge(waves: Seq<Wave>, index: int) -> int
    decreases waves.len() - index,
{
    if index < 0 || index >= waves.len() || is_huge(waves[index]) {
        0
    } else {
        1 + waves_before_huge(waves, index + 1)
    }
}

/// The number of flags on the bar: one per huge wave, and one at least.
pub open spec fn flag_count(waves: Seq<Wave>) -> int {
    if count_huge(waves, waves.len() as int) >= 1 {
        count_huge(waves, waves.len() as int)
    } else {
        1
    }
}

/// How much of the bar is filled when `index` waves are out. Every huge wave
/// passed fills one share of the bar; within a share the waves between two
/// huge ones count evenly. The bar lags a little behind and is full when all
/// waves are out.
pub open spec fn progress_target(waves: Seq<Wave>, index: int) -> int {
    if index >= waves.len() {
        BAR_WIDTH as int
    } else {
        let flags = flag_count(waves);
        let after = waves_after_huge(waves, index);
        let between = after + waves_before_huge(waves, index) + 2;
        let filled = (BAR_WIDTH as int * count_huge(waves, index)) / flags + (BAR_WIDTH as int * (after
            + 1)) / (flags * between) - BAR_LAG as int;
        if filled < 0 {
            0
        } else if filled > BAR_WIDTH as int {
            BAR_WIDTH as int
        } else {
            filled
        }
    }
}

/// The counts of huge waves grow with the prefix and never exceed it.
pub proof fn lemma_count_huge_bounds(waves: Seq<Wave>, n: int, m: int)
    requires
        0 <= n <= m,
    ensures
        0 <= count_huge(waves, n) <= count_huge(waves, m),
        count_huge(waves, n) <= n,
    decreases m,
{
    if n < m {
        lemma_count_huge_bounds(waves, n, m - 1);
    } else if n > 0 {
        lemma_count_huge_bounds(waves, n - 1, n - 1);
    }
}

fn wave_is_huge(wave: &Wave) -> (r: bool)
    ensures
        r == is_huge(*wave),
{
    match wave.wave_type {
        WaveType::HugeWave => true,
        WaveType::Normal => false,
    }
}

/// Counts the huge waves among the first `n`.
fn huge_before(waves: &Vec<Wave>, n: usize) -> (r: usize)
    requires
        n <= waves@.len(),
    ensures
        r == count_huge(waves@, n as int),
        r <= n,
{
    let mut count: usize = 0;
    let mut i: usize = 0;
    while i < n
        invariant
            i <= n <= waves@.len(),
            count == count_huge(waves@, i as int),
            count <= i,
        decreases n - i,
    {
        if wave_is_huge(&waves[i]) {
            count += 1;
        }
        i += 1;
    }
    count
}

/// Counts the waves released since the last huge one before `index`.
fn released_after_huge(waves: &Vec<Wave>, index: usize) -> (r: usize)
    requires
        index <= waves@.len(),
    ensures
        r == waves_after_huge(waves@, index as int),
        r <= index,
{
    let mut count: usize = 0;
    while count < index && !wave_is_huge(&waves[index - count - 1])
        invariant
            count <= index <= waves@.len(),
            waves_after_huge(waves@, index as int) == count + waves_after_huge(
                waves@,
                index - count,
            ),
        decreases index - count,
    {
        count += 1;
    }
    count
}

/// Counts the waves from `index` up to the next huge one.
fn left_before_huge(waves: &Vec<Wave>, index: usize) -> (r: usize)
    requires
        index <= waves@.len(),
    ensures
        r == waves_before_huge(waves@, index as int),
        r <= waves@.len() - index,
{
    let mut at: usize = index;
    while at < waves.len() && !wave_is_huge(&waves[at])
        invariant
            index <= at <= waves@.len(),
            waves_before_huge(waves@, index as int) == at - index + waves_before_huge(
                waves@,
                at as int,
            ),
        decreases waves.len() - at,
    {
        at += 1;
    }
    at - index
}

/// How much of the bar is filled when `index` waves are out.
pub fn level_progress(waves: &Vec<Wave>, index: usize) -> (r: i32)
    ensures
        r == progress_target(waves@, index as int),
        0 <= r <= BAR_WIDTH,
{
    if index >= waves.len() {
        return BAR_WIDTH;
    }
    let huge_total: usize = huge_before(waves, waves.len());
    let flags: u128 = if huge_total >= 1 {
        huge_total as u128
    } else {
        1
    };
    let huge: u128 = huge_before(waves, index) as u128;
    let after: u128 = released_after_huge(waves, index) as u128;
    let before: u128 = left_before_huge(waves, index) as u128;
    let between: u128 = after + before + 2;
    proof {
        lemma_count_huge_bounds(waves@, index as int, waves@.len() as int);
        lemma_mul_bound(flags as int, between as int, 0xFFFF_FFFF_FFFF_FFFF, 0x1_0000_0000_0000_0001);
        assert(flags * between > 0) by (nonlinear_arith)
            requires
                flags >= 1,
                between >= 2,
        ;
        assert((BAR_WIDTH as int * huge as int) / (flags as int) <= BAR_WIDTH as int) by (nonlinear_arith)
            requires
                0 <= huge <= flags,
                flags >= 1,
                BAR_WIDTH == 158_000,
        ;
        assert((BAR_WIDTH as int * (after as int + 1)) / (flags as int * between as int)
            <= BAR_WIDTH as int) by (nonlinear_arith)
            requires
                0 <= after,
                after + 1 <= between,
                flags >= 1,
                BAR_WIDTH == 158_000,
        ;
    }
    let share: u128 = (158_000u128 * huge) / flags;
    let part: u128 = (158_000u128 * (after + 1)) / (flags * between);
    let filled: i128 = (share as i128) + (part as i128) - 15_000;
    if filled < 0 {
        0
    } else if filled > 158_000 {
        BAR_WIDTH
    } else {
        filled as i32
    }
}

/// Where the bar stands after a tick of `delta`: it moves toward the target
/// of `progress`, but no faster than the bar may move. The value is the
/// unfilled width, from `BAR_WIDTH` for empty down to zero for full.
pub open spec fn eased(unfilled: i32, progress: i32, delta: u64) -> i32 {
    let moved = clamp_i32(unfilled as int + clamp_i64(over_time(BAR_SPEED as int, delta as int)) as int);
    let target = clamp_i32(BAR_WIDTH as int - progress as int);
    if target >= moved {
        target
    } else {
        moved
    }
}

/// Moves the bar toward the progress of the round.
pub fn update_level_progress(waves: &Vec<Wave>, index: usize, delta: u64, unfilled: &mut i32)
    ensures
        *final(unfilled) == eased(*old(unfilled), progress_target(waves@, index as int) as i32, delta),
{
    let progress: i32 = level_progress(waves, index);
    let moved: i32 = add_clamped(*unfilled, scaled_by_time(BAR_SPEED, delta));
    let target: i32 = BAR_WIDTH - progress;
    *unfilled = if target >= moved {
        target
    } else {
        moved
    };
}

/// Where the head that marks the end of the bar stands.
pub fn update_level_progress_head(unfilled: i32) -> (r: i32)
    ensures
        r == clamp_i32(BAR_ORIGIN as int + unfilled as int),
{
    add_coord(BAR_ORIGIN, unfilled)
}

/// Whether the bar has reached a flag.
#[derive(Clone, Copy, Debug, PartialEq, Eq, Structural)]
pub enum LevelProgressFlagTag {
    NotReach,
    Reach,
}

/// Whether the bar at `unfilled` has come to a flag at `flag_x`.
pub open spec fn flag_reached(unfilled: i32, flag_x: i32) -> bool {
    flag_x as int >= BAR_ORIGIN as int + unfilled as int - BAR_LAG as int
}

/// Raises a flag when the bar reaches it. Returns whether the flag was raised
/// in this tick; a raised flag stays raised.
pub fn update_level_progress_flag(unfilled: i32, flag: &mut LevelProgressFlagTag, flag_x: i32) -> (r:
    bool)
    ensures
        r == (*old(flag) == LevelProgressFlagTag::NotReach && flag_reached(unfilled, flag_x)),
        *final(flag) == if r {
            LevelProgressFlagTag::Reach
        } else {
            *old(flag)
        },
{
    let raised = match *flag {
        LevelProgressFlagTag::Reach => true,
        LevelProgressFlagTag::NotReach => false,
    };
    if raised {
        return false;
    }
    if (flag_x as i64) < (BAR_ORIGIN as i64) + (unfilled as i64) - (BAR_LAG as i64) {
        return false;
    }
    *flag = LevelProgressFlagTag::Reach;
    true
}

/// Nanoseconds that a flag takes to rise.
pub const FLAG_RISE_TIME: u64 = 1_000_000_000;

/// The rise of a flag that the bar has reached: ten units up from where it
/// stands.
pub fn raise_flag(flag: Entity, from: Transform) -> (r: Slide)
    ensures
        r == (Slide {
            entity: flag,
            from,
            to: Transform {
                translation: Vec3 {
                    y: clamp_i32(from.translation.y as int + 10_000),
                    ..from.translation
                },
                ..from
            },
        }),
{
    Slide {
        entity: flag,
        from,
        to: Transform {
            translation: Vec3 {
                x: from.translation.x,
                y: add_coord(from.translation.y, 10_000),
                z: from.translation.z,
            },
            scale: from.scale,
        },
    }
}

} // verus!

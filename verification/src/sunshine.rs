//! Sunshine: what falls from the sky, and how it is collected.

use vstd::prelude::*;
use crate::anim::{Slide, Transform, Vec3};
use crate::fixed::{add_clamped, clamp_i32, clamp_i64, over_time, scaled_by_time};
use crate::geom::Vec2;
use crate::planting::{in_reach, Sunshine, PICK_RADIUS_SQUARED};
use crate::rng::{centre_draw, random_below};
use crate::solt::Entity;
use crate::timer::{Countdown, TimerMode};

verus! {

/// Nanoseconds before the first sunshine falls.
pub const FIRST_SUNSHINE: u64 = 7_000_000_000;

/// Least wait for the next sunshine.
pub const NEXT_SUNSHINE_MIN: u64 = 7_000_000_000;

/// Bound of the wait for the next sunshine.
pub const NEXT_SUNSHINE_MAX: u64 = 15_000_000_000;

/// The height at which sunshine appears.
pub const SKY: i32 = 300_000;

/// Half the width of the strip of sky from which sunshine falls.
pub const SKY_HALF_WIDTH: i32 = 350_000;

/// Bound of the height at which falling sunshine comes to rest.
pub const REST_HALF_HEIGHT: i32 = 200_000;

/// Speed at which sunshine falls, in thousandths of a world unit per second.
pub const FALL_SPEED: i32 = -50_000;

/// What a fallen sunshine is worth.
pub const NATURAL_SUNSHINE_VALUE: u32 = 25;

/// Nanoseconds for which fallen sunshine stays.
pub const NATURAL_SUNSHINE_LIFETIME: u64 = 30_000_000_000;

/// Nanoseconds that collected sunshine takes to fly to the counter.
pub const COLLECT_TIME: u64 = 500_000_000;

/// The source of falling sunshine.
#[derive(Clone, Copy, Debug, PartialEq, Eq, Structural)]
pub struct NaturalSunshineSolt {
    pub next_sunshine_timer: Countdown,
}

/// Marks falling sunshine with the height at which it comes to rest.
#[derive(Clone, Copy, Debug, PartialEq, Eq, Structural)]
pub struct NaturalSunshineTag {
    pub target_y: i32,
}

/// Marks sunshine that can be collected, with its worth.
#[derive(Clone, Copy, Debug, PartialEq, Eq, Structural)]
pub struct SunshineTag {
    pub count: u32,
}

/// A sunshine that starts to fall.
#[derive(Clone, Copy, Debug, PartialEq, Eq, Structural)]
pub struct NewSunshine {
    pub position: Vec2,
    pub natural: NaturalSunshineTag,
    pub sunshine: SunshineTag,
    /// Runs out when the sunshine goes, collected or not.
    pub despawn: Countdown,
}

/// The source of falling sunshine for a level, if sunshine falls in it.
pub fn setup_sunshine_solt(nature_sunshine: bool) -> (r: Option<NaturalSunshineSolt>)
    ensures
        r == if nature_sunshine {
            Some(
                NaturalSunshineSolt {
                    next_sunshine_timer: Countdown::fresh(FIRST_SUNSHINE, TimerMode::Once),
                },
            )
        } else {
            None
        },
{
    if nature_sunshine {
        Some(NaturalSunshineSolt { next_sunshine_timer: Countdown::new(FIRST_SUNSHINE, TimerMode::Once) })
    } else {
        None
    }
}

/// The sunshine that starts to fall at `x` to come to rest at `target_y`.
pub open spec fn falling(x: i32, target_y: i32) -> NewSunshine {
    NewSunshine {
        position: Vec2 { x, y: SKY },
        natural: NaturalSunshineTag { target_y },
        sunshine: SunshineTag { count: NATURAL_SUNSHINE_VALUE },
        despawn: Countdown::fresh(NATURAL_SUNSHINE_LIFETIME, TimerMode::Once),
    }
}

/// Whether a tick of `delta` takes the source from `before` to `after` with
/// the given outcome, for the draws `next`, `x` and `target_y`: when its
/// countdown runs out a sunshine starts to fall and the source waits `next`
/// nanoseconds for the one after.
pub open spec fn sunshine_fell(
    before: NaturalSunshineSolt,
    after: NaturalSunshineSolt,
    fallen: Option<NewSunshine>,
    delta: u64,
    next: u64,
    x: i32,
    target_y: i32,
) -> bool {
    if before.next_sunshine_timer.ticked(delta).spec_just_finished() {
        &&& after.next_sunshine_timer == Countdown::fresh(next, TimerMode::Once)
        &&& fallen == Some(falling(x, target_y))
    } else {
        &&& after.next_sunshine_timer == before.next_sunshine_timer.ticked(delta)
        &&& fallen.is_none()
    }
}

/// One tick of the source of falling sunshine, for given draws.
pub fn update_natural_sunshine_with(
    delta: u64,
    solt: &mut NaturalSunshineSolt,
    next: u64,
    x: i32,
    target_y: i32,
) -> (r: Option<NewSunshine>)
    ensures
        sunshine_fell(*old(solt), *final(solt), r, delta, next, x, target_y),
{
    if !solt.next_sunshine_timer.tick_fired(delta) {
        return None;
    }
    solt.next_sunshine_timer = Countdown::new(next, TimerMode::Once);
    Some(
        NewSunshine {
            position: Vec2 { x, y: SKY },
            natural: NaturalSunshineTag { target_y },
            sunshine: SunshineTag { count: NATURAL_SUNSHINE_VALUE },
            despawn: Countdown::new(NATURAL_SUNSHINE_LIFETIME, TimerMode::Once),
        },
    )
}

/// A random coordinate `r` with `-half <= r < half`.
fn draw_within(half: i32) -> (r: i32)
    requires
        0 < half <= 1_000_000,
    ensures
        -half <= r < half,
{
    let draw: u64 = random_below(2 * (half as u64));
    centre_draw(half, draw)
}

/// One tick of the source of falling sunshine. When its countdown runs out a
/// sunshine starts to fall from a random place of the sky to a random
/// height, and the source waits a random time for the next.
pub fn update_natural_sunshine(delta: u64, solt: &mut NaturalSunshineSolt) -> (r: Option<NewSunshine>)
    ensures
        exists|next: u64, x: i32, target_y: i32|
            NEXT_SUNSHINE_MIN <= next < NEXT_SUNSHINE_MAX && -SKY_HALF_WIDTH <= x < SKY_HALF_WIDTH
                && -REST_HALF_HEIGHT <= target_y < REST_HALF_HEIGHT && #[trigger] sunshine_fell(
                *old(solt),
                *final(solt),
                r,
                delta,
                next,
                x,
                target_y,
            ),
{
    let next: u64 = NEXT_SUNSHINE_MIN + random_below(NEXT_SUNSHINE_MAX - NEXT_SUNSHINE_MIN);
    let x: i32 = draw_within(SKY_HALF_WIDTH);
    let target_y: i32 = draw_within(REST_HALF_HEIGHT);
    let r = update_natural_sunshine_with(delta, solt, next, x, target_y);
    proof {
        assert(sunshine_fell(*old(solt), *solt, r, delta, next, x, target_y));
    }
    r
}

/// Lets falling sunshine sink for `delta` nanoseconds, down to the height at
/// which it comes to rest and no further.
pub fn update_sunshine(delta: u64, sunshine: &NaturalSunshineTag, y: &mut i32)
    ensures
        *final(y) == {
            let sunk = clamp_i32(
                *old(y) as int + clamp_i64(over_time(FALL_SPEED as int, delta as int)) as int,
            );
            if sunk >= sunshine.target_y {
                sunk
            } else {
                sunshine.target_y
            }
        },
{
    let sunk: i32 = add_clamped(*y, scaled_by_time(FALL_SPEED, delta));
    *y = if sunk >= sunshine.target_y {
        sunk
    } else {
        sunshine.target_y
    };
}

/// A sunshine on the field.
#[derive(Clone, Copy, Debug, PartialEq, Eq, Structural)]
pub struct SunshineItem {
    pub entity: Entity,
    pub position: Vec2,
    pub sunshine: SunshineTag,
}

/// Whether `i` is the first sunshine within reach of a click at `cursor`.
pub open spec fn is_collected(sunshines: Seq<SunshineItem>, cursor: Vec2, i: int) -> bool {
    &&& 0 <= i < sunshines.len()
    &&& in_reach(sunshines[i].position, cursor)
    &&& forall|j: int| 0 <= j < i ==> !in_reach((#[trigger] sunshines[j]).position, cursor)
}

/// Whether no sunshine is within reach of a click at `cursor`.
pub open spec fn none_in_reach(sunshines: Seq<SunshineItem>, cursor: Vec2) -> bool {
    forall|j: int| 0 <= j < sunshines.len() ==> !in_reach((#[trigger] sunshines[j]).position, cursor)
}

/// Handles a left click on the field: the first sunshine within reach of the
/// pointer is collected, and the pool grows by what it is worth. Returns the
/// index of the collected sunshine; none means that the click is not
/// consumed.
pub fn collect_sunshine(left_click: bool, sunshines: &Vec<SunshineItem>, cursor: Vec2, pool: &mut Sunshine) -> (r:
    Option<usize>)
    requires
        forall|i: int|
            0 <= i < sunshines@.len() ==> old(pool).0 + (#[trigger] sunshines@[i]).sunshine.count
                <= u32::MAX,
    ensures
        match r {
            Some(i) => left_click && is_collected(sunshines@, cursor, i as int) && final(pool).0
                == old(pool).0 + sunshines@[i as int].sunshine.count,
            None => (!left_click || none_in_reach(sunshines@, cursor)) && *final(pool) == *old(
                pool,
            ),
        },
{
    if !left_click {
        return None;
    }
    let mut i: usize = 0;
    while i < sunshines.len()
        invariant
            i <= sunshines.len(),
            left_click,
            *pool == *old(pool),
            forall|j: int|
                0 <= j < sunshines@.len() ==> pool.0 + (#[trigger] sunshines@[j]).sunshine.count
                    <= u32::MAX,
            forall|j: int| 0 <= j < i ==> !in_reach((#[trigger] sunshines@[j]).position, cursor),
        decreases sunshines.len() - i,
    {
        let item: SunshineItem = sunshines[i];
        if item.position.distance_squared(cursor) <= PICK_RADIUS_SQUARED {
            pool.0 = pool.0 + item.sunshine.count;
            return Some(i);
        }
        i += 1;
    }
    None
}

/// The place of the sunshine counter, at the depth `z`.
pub open spec fn counter_place(z: i32) -> Vec3 {
    Vec3 { x: -330_000i32, y: 265_000, z }
}

/// The flight of collected sunshine: from where it is to the counter, at
/// its own depth and size. It takes `COLLECT_TIME`.
pub fn collect_slide(entity: Entity, from: Transform) -> (r: Slide)
    ensures
        r == (Slide {
            entity,
            from,
            to: Transform { translation: counter_place(from.translation.z), ..from },
        }),
{
    Slide {
        entity,
        from,
        to: Transform {
            translation: Vec3 { x: -330_000, y: 265_000, z: from.translation.z },
            scale: from.scale,
        },
    }
}

} // verus!

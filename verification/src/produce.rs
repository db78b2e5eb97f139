//! Production: defenders that yield resource pickups at intervals.

use vstd::prelude::*;
use crate::fixed::{
    add_coord, add_time, clamp_i32, clamp_i64, clamp_u64, half, halved, over_time, per_time,
    rate_between, scaled_by_time, to_coord,
};
use crate::geom::Vec2;
use crate::plant::{PlantProduce, PlantProduct, ResourceType};
use crate::rng::{centre_draw, random_below, random_in};
use crate::timer::{Countdown, TimerMode};

verus! {

/// Production state of a defender.
#[derive(Clone, Copy, Debug, PartialEq, Eq, Structural)]
pub struct PlantProduceTag {
    /// Nanoseconds until the next production.
    pub cooldown: u64,
    /// Nanoseconds of production time so far.
    pub elapsed: u64,
}

/// The interval to the next production: the base interval moved by a draw
/// from `[0, spread)` less half the spread.
pub open spec fn rearmed(base: u64, spread: u64, jitter: u64) -> u64 {
    clamp_u64(base as int + jitter as int - (spread / 2) as int)
}

/// The interval to the next production for a given draw.
pub fn produce_cooldown(config: &PlantProduce, jitter: u64) -> (r: u64)
    ensures
        r == rearmed(config.cooldown, config.cooldown_spread, jitter),
{
    let sum: u128 = (config.cooldown as u128) + (jitter as u128);
    let half: u128 = (config.cooldown_spread / 2) as u128;
    if sum <= half {
        0
    } else {
        let left: u128 = sum - half;
        if left > 0xFFFF_FFFF_FFFF_FFFFu128 {
            u64::MAX
        } else {
            left as u64
        }
    }
}

/// Fall of a lobbed pickup, in thousandths of a world unit per second squared.
pub const THROW_GRAVITY: i32 = -1_000_000;

/// Flight time of a lobbed pickup in nanoseconds.
pub const THROW_TIME: u64 = 1_000_000_000;

/// Half the width of the square around its start in which a product lands.
pub const SCATTER: i32 = 50_000;

/// Sunshine in one pickup.
pub const SUNSHINE_VALUE: u32 = 25;

/// Nanoseconds after its launch for which a pickup stays on the field.
pub const PICKUP_LIFETIME: u64 = 30_000_000_000;

/// The velocity with which a body under `gravity` must leave `start` to be at
/// `end` after `time` nanoseconds: evenly along x; along y the even rate less
/// half of what gravity adds over the flight.
pub open spec fn throw_velocity(start: Vec2, end: Vec2, gravity: i32, time: u64) -> Vec2 {
    Vec2 {
        x: clamp_i32(per_time(end.x as int - start.x as int, time as int)),
        y: clamp_i32(
            per_time(end.y as int - start.y as int, time as int) - half(
                clamp_i64(over_time(gravity as int, time as int)) as int,
            ),
        ),
    }
}

/// The initial velocity of a lob from `start` to `end`.
pub fn calculate_throw_initial_velocity(start: Vec2, end: Vec2, gravity: i32, time: u64) -> (r:
    Vec2)
    requires
        time > 0,
    ensures
        r == throw_velocity(start, end, gravity, time),
{
    let x: i64 = rate_between(start.x, end.x, time);
    let even: i64 = rate_between(start.y, end.y, time);
    let fall: i64 = halved(scaled_by_time(gravity, time));
    Vec2 { x: to_coord(x as i128), y: to_coord((even as i128) - (fall as i128)) }
}

/// A pickup on its way out of a producer.
#[derive(Clone, Copy, Debug, PartialEq, Eq, Structural)]
pub struct NewResource {
    pub resource_type: ResourceType,
    /// What the pickup is worth.
    pub count: u32,
    pub position: Vec2,
    pub velocity: Vec2,
    pub acceleration: Vec2,
    /// Runs out when the pickup appears and starts to fly.
    pub delay_show: Countdown,
    /// Runs out when the pickup has landed.
    pub move_timer: Countdown,
    /// Runs out when the pickup goes, collected or not.
    pub despawn: Countdown,
}

/// Whether a product is yielded at `elapsed` nanoseconds of production time:
/// within its window, both ends included.
pub open spec fn product_due(product: PlantProduct, elapsed: u64) -> bool {
    product.delay <= elapsed && match product.max_times {
        Some(end) => elapsed <= end,
        None => true,
    }
}

/// The pickup that a product yields at a producer at `origin`, to land
/// `scatter` off its start.
pub open spec fn resource_of(product: PlantProduct, origin: Vec2, scatter: Vec2) -> NewResource {
    let start = Vec2 {
        x: clamp_i32(origin.x as int + product.offset_x as int),
        y: clamp_i32(origin.y as int + product.offset_y as int),
    };
    let end = Vec2 {
        x: clamp_i32(start.x as int + scatter.x as int),
        y: clamp_i32(start.y as int + scatter.y as int),
    };
    NewResource {
        resource_type: product.resource_type,
        count: SUNSHINE_VALUE,
        position: start,
        velocity: throw_velocity(start, end, THROW_GRAVITY, THROW_TIME),
        acceleration: Vec2 { x: 0, y: THROW_GRAVITY },
        delay_show: Countdown::fresh(product.timing, TimerMode::Once),
        move_timer: Countdown::fresh(
            clamp_u64(product.timing as int + THROW_TIME as int),
            TimerMode::Once,
        ),
        despawn: Countdown::fresh(
            clamp_u64(product.timing as int + PICKUP_LIFETIME as int),
            TimerMode::Once,
        ),
    }
}

/// The pickups that the products yield at `elapsed` nanoseconds of production
/// time, in the order of the products; product `k` lands `scatter[k]` off its
/// start.
pub open spec fn launched(products: Seq<PlantProduct>, elapsed: u64, origin: Vec2, scatter: Seq<Vec2>) -> Seq<
    NewResource,
>
    decreases products.len(),
{
    if products.len() == 0 {
        Seq::empty()
    } else if product_due(products.last(), elapsed) {
        launched(products.drop_last(), elapsed, origin, scatter).push(
            resource_of(products.last(), origin, scatter[products.len() - 1]),
        )
    } else {
        launched(products.drop_last(), elapsed, origin, scatter)
    }
}

/// What a tick of a producer brought.
#[derive(Debug)]
pub struct Production {
    /// Whether the producer produced in this tick.
    pub fired: bool,
    pub resources: Vec<NewResource>,
}

/// Whether a tick of `delta` takes a producer from `before` to `after` with
/// the given outcome, for the draws `jitter` and `scatter`. The production
/// time always advances. The producer produces when its interval has run
/// out; it then rearms and yields every product that is due.
pub open spec fn produced(
    before: PlantProduceTag,
    after: PlantProduceTag,
    fired: bool,
    resources: Seq<NewResource>,
    delta: u64,
    config: PlantProduce,
    origin: Vec2,
    jitter: u64,
    scatter: Seq<Vec2>,
) -> bool {
    &&& after.elapsed == clamp_u64(before.elapsed as int + delta as int)
    &&& fired == (before.cooldown <= delta)
    &&& if fired {
        &&& after.cooldown == rearmed(config.cooldown, config.cooldown_spread, jitter)
        &&& resources == launched(config.products@, after.elapsed, origin, scatter)
    } else {
        &&& after.cooldown == before.cooldown - delta
        &&& resources.len() == 0
    }
}

/// The pickup that a product yields.
pub fn launch_product(product: &PlantProduct, origin: Vec2, scatter: Vec2) -> (r: NewResource)
    ensures
        r == resource_of(*product, origin, scatter),
{
    let start = Vec2 {
        x: add_coord(origin.x, product.offset_x),
        y: add_coord(origin.y, product.offset_y),
    };
    let end = Vec2 { x: add_coord(start.x, scatter.x), y: add_coord(start.y, scatter.y) };
    NewResource {
        resource_type: product.resource_type,
        count: SUNSHINE_VALUE,
        position: start,
        velocity: calculate_throw_initial_velocity(start, end, THROW_GRAVITY, THROW_TIME),
        acceleration: Vec2 { x: 0, y: THROW_GRAVITY },
        delay_show: Countdown::new(product.timing, TimerMode::Once),
        move_timer: Countdown::new(add_time(product.timing, THROW_TIME), TimerMode::Once),
        despawn: Countdown::new(add_time(product.timing, PICKUP_LIFETIME), TimerMode::Once),
    }
}

/// One tick of a producer at `origin`, for given draws: `jitter` for the next
/// interval and `scatter[k]` for where product `k` lands.
pub fn plant_product_with(
    delta: u64,
    produce: &mut PlantProduceTag,
    config: &PlantProduce,
    origin: Vec2,
    jitter: u64,
    scatter: &Vec<Vec2>,
) -> (r: Production)
    requires
        scatter@.len() == config.products@.len(),
    ensures
        produced(
            *old(produce),
            *final(produce),
            r.fired,
            r.resources@,
            delta,
            *config,
            origin,
            jitter,
            scatter@,
        ),
{
    let mut resources: Vec<NewResource> = Vec::new();
    produce.elapsed = add_time(produce.elapsed, delta);
    if produce.cooldown > delta {
        produce.cooldown = produce.cooldown - delta;
        return Production { fired: false, resources };
    }
    produce.cooldown = produce_cooldown(config, jitter);
    let elapsed: u64 = produce.elapsed;
    let mut k: usize = 0;
    while k < config.products.len()
        invariant
            k <= config.products.len(),
            scatter@.len() == config.products@.len(),
            resources@ == launched(config.products@.take(k as int), elapsed, origin, scatter@),
        decreases config.products.len() - k,
    {
        let product: PlantProduct = config.products[k];
        let due = product.delay <= elapsed && match product.max_times {
            Some(end) => elapsed <= end,
            None => true,
        };
        proof {
            let next = config.products@.take(k as int + 1);
            assert(next.drop_last() =~= config.products@.take(k as int));
            assert(next.last() == product);
        }
        if due {
            resources.push(launch_product(&product, origin, scatter[k]));
        }
        k += 1;
    }
    proof {
        assert(config.products@.take(k as int) =~= config.products@);
    }
    Production { fired: true, resources }
}

/// Whether `scatter` holds one landing offset per product, each within the
/// scatter square.
pub open spec fn scatter_drawn(scatter: Seq<Vec2>, products: int) -> bool {
    &&& scatter.len() == products
    &&& forall|k: int|
        0 <= k < scatter.len() ==> -SCATTER <= (#[trigger] scatter[k]).x < SCATTER && -SCATTER
            <= scatter[k].y < SCATTER
}

/// Whether `jitter` can be drawn for a spread: below it, or zero for none.
pub open spec fn jitter_drawn(jitter: u64, spread: u64) -> bool {
    if spread > 0 {
        jitter < spread
    } else {
        jitter == 0
    }
}

/// A random coordinate of the scatter square.
fn draw_scatter() -> (r: i32)
    ensures
        -SCATTER <= r < SCATTER,
{
    let draw: u64 = random_below(100_000);
    centre_draw(SCATTER, draw)
}

/// One tick of a producer at `origin`. The next interval and the places
/// where the products land are drawn at random; the rest is as
/// [`plant_product_with`] says for those draws.
pub fn plant_product(delta: u64, produce: &mut PlantProduceTag, config: &PlantProduce, origin: Vec2) -> (r:
    Production)
    ensures
        exists|jitter: u64, scatter: Seq<Vec2>|
            jitter_drawn(jitter, config.cooldown_spread) && scatter_drawn(
                scatter,
                config.products@.len() as int,
            ) && #[trigger] produced(
                *old(produce),
                *final(produce),
                r.fired,
                r.resources@,
                delta,
                *config,
                origin,
                jitter,
                scatter,
            ),
{
    let jitter: u64 = random_in(0, config.cooldown_spread);
    let mut scatter: Vec<Vec2> = Vec::new();
    let mut k: usize = 0;
    while k < config.products.len()
        invariant
            k <= config.products.len(),
            scatter_drawn(scatter@, k as int),
        decreases config.products.len() - k,
    {
        let x: i32 = draw_scatter();
        let y: i32 = draw_scatter();
        scatter.push(Vec2 { x, y });
        k += 1;
    }
    let r = plant_product_with(delta, produce, config, origin, jitter, &scatter);
    proof {
        assert(produced(
            *old(produce),
            *produce,
            r.fired,
            r.resources@,
            delta,
            *config,
            origin,
            jitter,
            scatter@,
        ));
    }
    r
}

} // verus!

//! Motion: velocities, positions, and what holds an entity still.

use vstd::prelude::*;
use crate::fixed::{add_clamped, clamp_i32, clamp_i64, over_time, scaled_by_time};
use crate::geom::Vec2;
use crate::shoot::LanePosition;

verus! {

/// Velocity of an entity, in thousandths of a world unit per second.
#[derive(Clone, Copy, Debug, PartialEq, Eq, Structural)]
pub struct MoveVelocity(pub Vec2);

/// Acceleration of an entity, in thousandths of a world unit per second
/// squared.
#[derive(Clone, Copy, Debug, PartialEq, Eq, Structural)]
pub struct MoveAcceleration(pub Vec2);

/// `value` after `delta` nanoseconds of change at `rate` per second.
pub open spec fn advanced(value: i32, rate: i32, delta: u64) -> i32 {
    clamp_i32(value as int + clamp_i64(over_time(rate as int, delta as int)) as int)
}

/// `v` after `delta` nanoseconds of change at the rates `rate`.
pub open spec fn advanced_vec(v: Vec2, rate: Vec2, delta: u64) -> Vec2 {
    Vec2 { x: advanced(v.x, rate.x, delta), y: advanced(v.y, rate.y, delta) }
}

/// `value` after `delta` nanoseconds of change at `rate` per second.
pub fn advance(value: i32, rate: i32, delta: u64) -> (r: i32)
    ensures
        r == advanced(value, rate, delta),
{
    add_clamped(value, scaled_by_time(rate, delta))
}

/// Lets the acceleration of an entity act on its velocity for `delta`
/// nanoseconds. A frozen entity keeps its velocity.
pub fn update_velocity(delta: u64, frozen: bool, acceleration: &MoveAcceleration, velocity: &mut MoveVelocity)
    ensures
        final(velocity).0 == if frozen {
            old(velocity).0
        } else {
            advanced_vec(old(velocity).0, acceleration.0, delta)
        },
{
    if !frozen {
        velocity.0 = Vec2 {
            x: advance(velocity.0.x, acceleration.0.x, delta),
            y: advance(velocity.0.y, acceleration.0.y, delta),
        };
    }
}

/// Moves an entity with its velocity for `delta` nanoseconds. A frozen entity
/// stays where it is.
pub fn update_movement(delta: u64, frozen: bool, velocity: &MoveVelocity, position: &mut Vec2)
    ensures
        *final(position) == if frozen {
            *old(position)
        } else {
            advanced_vec(*old(position), velocity.0, delta)
        },
{
    if !frozen {
        *position = Vec2 {
            x: advance(position.x, velocity.0.x, delta),
            y: advance(position.y, velocity.0.y, delta),
        };
    }
}

/// Brings the place of an entity along its lane up to where it is now.
pub fn update_lane_position(lane_position: &mut LanePosition, position: &Vec2)
    ensures
        *final(lane_position) == (LanePosition { x: position.x, ..*old(lane_position) }),
{
    lane_position.x = position.x;
}

} // verus!

//! Random draws.

use vstd::prelude::*;
use rand::Rng;

verus! {

/// Draws with `Rng::gen_range` from the thread's generator
/// (`rand::thread_rng`) a number of the half-open range from zero to `bound`.
///
/// Trusted: the draw lies in the range. The generator panics when the
/// operating system cannot seed it.
#[verifier::external_body]
pub(crate) fn random_below(bound: u64) -> (r: u64)
    requires
        bound > 0,
    ensures
        r < bound,
{
    rand::thread_rng().gen_range(0..bound)
}

/// A random number `r` with `low <= r < high`, or `low` where the range is
/// empty.
pub fn random_in(low: u64, high: u64) -> (r: u64)
    ensures
        low < high ==> low <= r < high,
        low >= high ==> r == low,
{
    if low < high {
        let draw: u64 = random_below(high - low);
        step_from(low, high, draw)
    } else {
        low
    }
}

/// The number `draw` steps above `low` in the half-open range from `low` to
/// `high`; `low` itself where the range is empty or the draw leads out of it.
pub open spec fn stepped(low: u64, high: u64, draw: u64) -> u64 {
    if low < high && draw < high - low {
        (low + draw) as u64
    } else {
        low
    }
}

/// Places a draw in the half-open range from `low` to `high`: a draw below
/// the width of the range lands that many steps above `low`.
pub fn step_from(low: u64, high: u64, draw: u64) -> (r: u64)
    ensures
        r == stepped(low, high, draw),
{
    if low < high && draw < high - low {
        low + draw
    } else {
        low
    }
}

/// The coordinate that a draw stands for in a range centred on zero: the
/// draw less `half`, cut to the range of the coordinate.
pub open spec fn centred(half: i32, draw: u64) -> i32 {
    crate::fixed::clamp_i32(draw as int - half as int)
}

/// Places a draw in a range centred on zero: a draw below twice `half` lands
/// at or above `-half` and below `half`.
pub fn centre_draw(half: i32, draw: u64) -> (r: i32)
    ensures
        r == centred(half, draw),
{
    crate::fixed::to_coord((draw as i128) - (half as i128))
}

} // verus!

//! Fixed-point arithmetic that saturates at the bounds of its type.

use vstd::prelude::*;

verus! {

/// Nanoseconds in one second.
pub const NANOS_PER_SECOND: u64 = 1_000_000_000;

/// `v` cut to the range of `i32`.
pub open spec fn clamp_i32(v: int) -> i32 {
    if v < i32::MIN as int {
        i32::MIN
    } else if v > i32::MAX as int {
        i32::MAX
    } else {
        v as i32
    }
}

/// `v` cut to the range of `i64`.
pub open spec fn clamp_i64(v: int) -> i64 {
    if v < i64::MIN as int {
        i64::MIN
    } else if v > i64::MAX as int {
        i64::MAX
    } else {
        v as i64
    }
}

/// What a rate per second amounts to over `dt` nanoseconds, rounded toward
/// zero.
pub open spec fn over_time(rate: int, dt: int) -> int {
    if rate >= 0 {
        (rate * dt) / 1_000_000_000
    } else {
        -(((-rate) * dt) / 1_000_000_000)
    }
}

/// `v` cut to the range of `u64`.
pub open spec fn clamp_u64(v: int) -> u64 {
    if v < 0 {
        0
    } else if v > u64::MAX as int {
        u64::MAX
    } else {
        v as u64
    }
}

/// Half of `v`, rounded toward zero.
pub open spec fn half(v: int) -> int {
    if v >= 0 {
        v / 2
    } else {
        -((-v) / 2)
    }
}

/// The rate per second at which `d` is covered in `time` nanoseconds, rounded
/// toward zero.
pub open spec fn per_time(d: int, time: int) -> int {
    if d >= 0 {
        (d * 1_000_000_000) / time
    } else {
        -(((-d) * 1_000_000_000) / time)
    }
}

/// The point `num / den` of the way from `a` to `b`, rounded toward `a`.
pub open spec fn lerp_value(a: int, b: int, num: int, den: int) -> int {
    if b >= a {
        a + ((b - a) * num) / den
    } else {
        a - ((a - b) * num) / den
    }
}

/// A product of a 32-bit and a 64-bit magnitude fits 128 bits with room to
/// spare.
pub proof fn lemma_product_bound(m: int, t: int)
    requires
        0 <= m <= 0x1_0000_0000,
        0 <= t <= 0xFFFF_FFFF_FFFF_FFFF,
    ensures
        0 <= m * t <= 0x1_0000_0000 * 0xFFFF_FFFF_FFFF_FFFF,
{
    assert(0 <= m * t <= 0x1_0000_0000 * 0xFFFF_FFFF_FFFF_FFFF) by (nonlinear_arith)
        requires
            0 <= m <= 0x1_0000_0000,
            0 <= t <= 0xFFFF_FFFF_FFFF_FFFF,
    ;
}

/// A product of two bounded factors is bounded by the product of the bounds.
pub proof fn lemma_mul_bound(a: int, b: int, bound_a: int, bound_b: int)
    requires
        -bound_a <= a <= bound_a,
        -bound_b <= b <= bound_b,
    ensures
        -(bound_a * bound_b) <= a * b <= bound_a * bound_b,
{
    assert(-(bound_a * bound_b) <= a * b <= bound_a * bound_b) by (nonlinear_arith)
        requires
            -bound_a <= a <= bound_a,
            -bound_b <= b <= bound_b,
    ;
}

/// A share `num / den` of `d` with `num <= den` is at most `d`.
pub proof fn lemma_share_bound(d: int, num: int, den: int)
    requires
        0 <= d,
        0 <= num <= den,
        0 < den,
    ensures
        0 <= (d * num) / den <= d,
{
    assert(0 <= d * num <= d * den) by (nonlinear_arith)
        requires
            0 <= d,
            0 <= num <= den,
    ;
    assert((d * num) / den <= d) by (nonlinear_arith)
        requires
            0 <= d * num <= d * den,
            0 < den,
    ;
    assert(0 <= (d * num) / den) by (nonlinear_arith)
        requires
            0 <= d * num,
            0 < den,
    ;
}

/// The magnitude of a 32-bit rate.
fn magnitude(rate: i32) -> (m: u64)
    ensures
        rate >= 0 ==> m == rate,
        rate < 0 ==> m == -(rate as int),
{
    if rate >= 0 {
        rate as u64
    } else {
        let wide: i64 = rate as i64;
        (0 - wide) as u64
    }
}

/// What `rate` per second amounts to over `dt` nanoseconds.
pub fn scaled_by_time(rate: i32, dt: u64) -> (r: i64)
    ensures
        r == clamp_i64(over_time(rate as int, dt as int)),
{
    let m: u64 = magnitude(rate);
    proof {
        lemma_product_bound(m as int, dt as int);
    }
    let product: u128 = (m as u128) * (dt as u128);
    let amount: u128 = product / 1_000_000_000u128;
    if rate >= 0 {
        if amount > 0x7FFF_FFFF_FFFF_FFFFu128 {
            i64::MAX
        } else {
            amount as i64
        }
    } else {
        if amount > 0x8000_0000_0000_0000u128 {
            i64::MIN
        } else if amount == 0x8000_0000_0000_0000u128 {
            i64::MIN
        } else {
            0 - (amount as i64)
        }
    }
}

/// `x + d`, cut to the range of `i32`.
pub fn add_clamped(x: i32, d: i64) -> (r: i32)
    ensures
        r == clamp_i32(x as int + d as int),
{
    let sum: i128 = (x as i128) + (d as i128);
    if sum < -0x8000_0000i128 {
        i32::MIN
    } else if sum > 0x7FFF_FFFFi128 {
        i32::MAX
    } else {
        sum as i32
    }
}

/// `x - d`, cut to the range of `i64`.
pub fn sub_clamped(x: i64, d: i64) -> (r: i64)
    ensures
        r == clamp_i64(x as int - d as int),
{
    let diff: i128 = (x as i128) - (d as i128);
    if diff < -0x8000_0000_0000_0000i128 {
        i64::MIN
    } else if diff > 0x7FFF_FFFF_FFFF_FFFFi128 {
        i64::MAX
    } else {
        diff as i64
    }
}

/// `-v`, cut to the range of `i32`.
pub fn negated(v: i32) -> (r: i32)
    ensures
        r == clamp_i32(-(v as int)),
{
    if v == i32::MIN {
        i32::MAX
    } else {
        0 - v
    }
}

/// `a + b`, cut to the range of `u64`.
pub fn add_time(a: u64, b: u64) -> (r: u64)
    ensures
        r == clamp_u64(a as int + b as int),
{
    if a > u64::MAX - b {
        u64::MAX
    } else {
        a + b
    }
}

/// `a + b`, cut to the range of `i32`.
pub fn add_coord(a: i32, b: i32) -> (r: i32)
    ensures
        r == clamp_i32(a as int + b as int),
{
    add_clamped(a, b as i64)
}

/// The rate per second at which the way from `from` to `to` is covered in
/// `time` nanoseconds.
pub fn rate_between(from: i32, to: i32, time: u64) -> (r: i64)
    requires
        time > 0,
    ensures
        r == per_time(to as int - from as int, time as int),
{
    let d: i64 = (to as i64) - (from as i64);
    if d >= 0 {
        let wide: u128 = (d as u128) * 1_000_000_000u128;
        (wide / (time as u128)) as i64
    } else {
        let wide: u128 = ((0 - d) as u128) * 1_000_000_000u128;
        0 - ((wide / (time as u128)) as i64)
    }
}

/// Half of `v`, rounded toward zero.
pub fn halved(v: i64) -> (r: i64)
    ensures
        r == half(v as int),
{
    if v >= 0 {
        v / 2
    } else if v == i64::MIN {
        -0x4000_0000_0000_0000i64
    } else {
        0 - ((0 - v) / 2)
    }
}

/// `v`, cut to the range of `i32`.
pub fn to_coord(v: i128) -> (r: i32)
    ensures
        r == clamp_i32(v as int),
{
    if v < -0x8000_0000i128 {
        i32::MIN
    } else if v > 0x7FFF_FFFFi128 {
        i32::MAX
    } else {
        v as i32
    }
}

/// The point `num / den` of the way from `a` to `b`.
pub fn lerp(a: i32, b: i32, num: u64, den: u64) -> (r: i32)
    requires
        0 < den,
        num <= den,
    ensures
        r == lerp_value(a as int, b as int, num as int, den as int),
        a <= b ==> a <= r <= b,
        b <= a ==> b <= r <= a,
{
    if b >= a {
        let d: u64 = ((b as i64) - (a as i64)) as u64;
        proof {
            lemma_product_bound(d as int, num as int);
            lemma_share_bound(d as int, num as int, den as int);
        }
        let share: u128 = (d as u128) * (num as u128) / (den as u128);
        ((a as i64) + (share as i64)) as i32
    } else {
        let d: u64 = ((a as i64) - (b as i64)) as u64;
        proof {
            lemma_product_bound(d as int, num as int);
            lemma_share_bound(d as int, num as int, den as int);
        }
        let share: u128 = (d as u128) * (num as u128) / (den as u128);
        ((a as i64) - (share as i64)) as i32
    }
}

} // verus!

//! Fixed-point scalars and vectors.
//!
//! Every real quantity is an `i64` count of steps of one billionth: lengths
//! in billionths of a world unit, angles in billionths of a radian, health
//! in billionths of a point. Time is a `u64` count of nanoseconds, so that a
//! speed of one unit per second covers one step per nanosecond. A result
//! that leaves the range of `i64` sticks at the end of the range.
use vstd::prelude::*;

verus! {

/// Steps in one whole: one world unit, one radian, one health point.
pub const UNIT: i64 = 1_000_000_000;

/// Nanoseconds in one second.
pub const NANOS_PER_SECOND: u64 = 1_000_000_000;

/// `v` brought into the range of `i64`.
pub open spec fn clamp(v: int) -> int {
    if v < i64::MIN {
        i64::MIN as int
    } else if v > i64::MAX {
        i64::MAX as int
    } else {
        v
    }
}

/// The quotient of `n` by a positive `d`, rounded toward zero.
pub open spec fn toward_zero(n: int, d: int) -> int
    recommends
        d > 0,
{
    if n >= 0 {
        n / d
    } else {
        -((-n) / d)
    }
}

/// The fixed-point product of `a` and `b`.
pub open spec fn product(a: int, b: int) -> int {
    clamp(toward_zero(a * b, UNIT as int))
}

/// The distance covered in `delta` nanoseconds at `speed` steps per second.
pub open spec fn distance(speed: int, delta: int) -> int {
    clamp(toward_zero(speed * delta, NANOS_PER_SECOND as int))
}

/// At a speed that is not negative, a longer tick covers at least as much.
pub proof fn lemma_distance_grows(speed: int, delta: int, longer: int)
    requires
        0 <= speed,
        0 <= delta <= longer,
    ensures
        0 <= distance(speed, delta) <= distance(speed, longer),
{
    assert(0 <= speed * delta <= speed * longer) by (nonlinear_arith)
        requires
            0 <= speed,
            0 <= delta <= longer,
    ;
    let per_second = NANOS_PER_SECOND as int;
    assert(0 <= (speed * delta) / per_second <= (speed * longer) / per_second) by (nonlinear_arith)
        requires
            0 <= speed * delta <= speed * longer,
            per_second > 0,
    ;
}

/// The absolute value of `v`.
pub open spec fn magnitude(v: int) -> int {
    if v < 0 {
        -v
    } else {
        v
    }
}

fn narrow(v: i128) -> (r: i64)
    ensures
        r == clamp(v as int),
{
    if v > i64::MAX as i128 {
        i64::MAX
    } else if v < i64::MIN as i128 {
        i64::MIN
    } else {
        v as i64
    }
}

fn billionth(p: i128) -> (r: i64)
    requires
        p > i128::MIN,
    ensures
        r == clamp(toward_zero(p as int, 1_000_000_000)),
{
    if p >= 0 {
        narrow(p / 1_000_000_000)
    } else {
        narrow(-((-p) / 1_000_000_000))
    }
}

/// Adds two scalars.
pub fn plus(a: i64, b: i64) -> (r: i64)
    ensures
        r == clamp(a + b),
{
    narrow(a as i128 + b as i128)
}

/// Subtracts `b` from `a`.
pub fn minus(a: i64, b: i64) -> (r: i64)
    ensures
        r == clamp(a - b),
{
    narrow(a as i128 - b as i128)
}

/// Multiplies two scalars.
pub fn scale(a: i64, b: i64) -> (r: i64)
    ensures
        r == product(a as int, b as int),
{
    assert(-0x4000_0000_0000_0000_0000_0000_0000_0000 <= a * b
        <= 0x4000_0000_0000_0000_0000_0000_0000_0000) by (nonlinear_arith)
        requires
            -0x8000_0000_0000_0000 <= a <= 0x7fff_ffff_ffff_ffff,
            -0x8000_0000_0000_0000 <= b <= 0x7fff_ffff_ffff_ffff,
    ;
    billionth(a as i128 * b as i128)
}

/// The distance covered in `delta` nanoseconds at `speed` steps per second.
pub fn travel(speed: i64, delta: u64) -> (r: i64)
    ensures
        r == distance(speed as int, delta as int),
{
    assert(-0x8000_0000_0000_0000_0000_0000_0000_0000 < speed * delta
        < 0x8000_0000_0000_0000_0000_0000_0000_0000) by (nonlinear_arith)
        requires
            -0x8000_0000_0000_0000 <= speed <= 0x7fff_ffff_ffff_ffff,
            0 <= delta <= 0xffff_ffff_ffff_ffff,
    ;
    billionth(speed as i128 * delta as i128)
}

/// A point or a direction in world space.
#[derive(Clone, Copy, Debug, PartialEq, Eq, Structural)]
pub struct Vec3 {
    pub x: i64,
    pub y: i64,
    pub z: i64,
}

impl Vec3 {
    /// `self` moved by `step` times `by`, axis by axis.
    pub open spec fn shifted(self, by: Vec3, step: int) -> Vec3 {
        Vec3 {
            x: clamp(self.x + product(by.x as int, step)) as i64,
            y: clamp(self.y + product(by.y as int, step)) as i64,
            z: clamp(self.z + product(by.z as int, step)) as i64,
        }
    }

    pub fn new(x: i64, y: i64, z: i64) -> (v: Vec3)
        ensures
            v == (Vec3 { x, y, z }),
    {
        Vec3 { x, y, z }
    }

    /// Moves the point by `step` times the direction `by`.
    pub fn advance(self, by: Vec3, step: i64) -> (v: Vec3)
        ensures
            v == self.shifted(by, step as int),
    {
        Vec3 {
            x: plus(self.x, scale(by.x, step)),
            y: plus(self.y, scale(by.y, step)),
            z: plus(self.z, scale(by.z, step)),
        }
    }
}

} // verus!

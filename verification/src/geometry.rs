//! Plain values that make up a pose: scalars, positions, orientations and
//! timestamps.
use vstd::prelude::*;

verus! {

/// A real number in IEEE-754 binary64, kept as its bit pattern.
///
/// Two scalars are equal when their bit patterns are: `0.0` and `-0.0`
/// differ, and a NaN equals itself.
#[derive(Clone, Copy, Debug, PartialEq, Eq, Structural)]
pub struct Scalar {
    pub bits: u64,
}

/// Bit pattern of `0.0`.
pub const ZERO_BITS: u64 = 0;

/// Bit pattern of `1.0`.
pub const ONE_BITS: u64 = 0x3ff0_0000_0000_0000;

impl Scalar {
    /// The scalar with the given bit pattern.
    pub fn from_bits(bits: u64) -> (s: Scalar)
        ensures
            s.bits == bits,
    {
        Scalar { bits }
    }

    /// The bit pattern of the scalar.
    pub fn to_bits(self) -> (bits: u64)
        ensures
            bits == self.bits,
    {
        self.bits
    }
}

/// A point in space.
#[derive(Clone, Copy, Debug, PartialEq, Eq, Structural)]
pub struct Position {
    pub x: Scalar,
    pub y: Scalar,
    pub z: Scalar,
}

impl Position {
    /// The same point moved to height `z`.
    pub open spec fn at_height(self, z: Scalar) -> Position {
        Position { x: self.x, y: self.y, z }
    }

    /// The same point moved to height `z`.
    pub fn with_height(self, z: Scalar) -> (p: Position)
        ensures
            p == self.at_height(z),
    {
        Position { x: self.x, y: self.y, z }
    }
}

/// An orientation as a quaternion.
#[derive(Clone, Copy, Debug, PartialEq, Eq, Structural)]
pub struct Orientation {
    pub w: Scalar,
    pub x: Scalar,
    pub y: Scalar,
    pub z: Scalar,
}

/// A point in time: whole seconds and the nanoseconds within the second.
#[derive(Clone, Copy, Debug, PartialEq, Eq, Structural)]
pub struct Stamp {
    pub sec: i32,
    pub nanosec: u32,
}

impl Stamp {
    /// Whole seconds from `self` to `now`; negative when `now` is earlier.
    /// The nanoseconds play no part.
    pub open spec fn age_at(self, now: Stamp) -> int {
        now.sec as int - self.sec as int
    }

    /// Whether more than `threshold_seconds` whole seconds lie between
    /// `self` and `now`.
    pub open spec fn stale_at(self, now: Stamp, threshold_seconds: i32) -> bool {
        self.age_at(now) > threshold_seconds as int
    }

    /// Decides staleness. The difference of the seconds is taken in a wider
    /// type, so no pair of timestamps overflows.
    pub fn is_stale(self, now: Stamp, threshold_seconds: i32) -> (stale: bool)
        ensures
            stale == self.stale_at(now, threshold_seconds),
    {
        let age: i64 = now.sec as i64 - self.sec as i64;
        age > threshold_seconds as i64
    }
}

} // verus!

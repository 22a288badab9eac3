//! The elementary operations on real numbers and rotations that the
//! estimator's formulas are built from.
//!
//! The operations are not defined here: an implementation computes them,
//! in binary64 arithmetic. What the library states of a formula it states
//! through the results of these operations, whatever they are.
use vstd::prelude::*;
use crate::geometry::{Orientation, Position, Scalar};

verus! {

/// The arithmetic that the estimator relies on. An implementation is
/// expected to compute each operation as IEEE-754 binary64 arithmetic does,
/// on the numbers whose bit patterns the scalars hold.
pub trait Numerics {
    /// `a + b`.
    fn sum(&self, a: Scalar, b: Scalar) -> Scalar;

    /// `a - b`.
    fn difference(&self, a: Scalar, b: Scalar) -> Scalar;

    /// `a / b`.
    fn quotient(&self, a: Scalar, b: Scalar) -> Scalar;

    /// The absolute value of `a`.
    fn magnitude(&self, a: Scalar) -> Scalar;

    /// Whether `a < b`.
    fn less(&self, a: Scalar, b: Scalar) -> bool;

    /// The angle, in radians, of the direction `(x, y)`: the four-quadrant
    /// arc tangent of `y / x`.
    fn arc_tangent(&self, y: Scalar, x: Scalar) -> Scalar;

    /// The rotation given by Euler angles about the x, y and z axes, in
    /// radians.
    fn turn_radians(&self, x: Scalar, y: Scalar, z: Scalar) -> Orientation;

    /// The rotation given by Euler angles about the x, y and z axes, in
    /// degrees.
    fn turn_degrees(&self, x: Scalar, y: Scalar, z: Scalar) -> Orientation;

    /// The quaternion product `left * right`.
    fn compose(&self, left: Orientation, right: Orientation) -> Orientation;

    /// The vector `point` rotated by `turn`.
    fn rotate(&self, turn: Orientation, point: Position) -> Position;
}

/// Whether `out` is a result of `a + b` under `kernel`.
pub open spec fn is_sum<K: Numerics>(kernel: &K, a: Scalar, b: Scalar, out: Scalar) -> bool {
    call_ensures(K::sum, (kernel, a, b), out)
}

/// Whether `out` is a result of `a - b` under `kernel`.
pub open spec fn is_difference<K: Numerics>(kernel: &K, a: Scalar, b: Scalar, out: Scalar) -> bool {
    call_ensures(K::difference, (kernel, a, b), out)
}

/// Whether `out` is a result of `a / b` under `kernel`.
pub open spec fn is_quotient<K: Numerics>(kernel: &K, a: Scalar, b: Scalar, out: Scalar) -> bool {
    call_ensures(K::quotient, (kernel, a, b), out)
}

/// Whether `out` is a result of the absolute value of `a` under `kernel`.
pub open spec fn is_magnitude<K: Numerics>(kernel: &K, a: Scalar, out: Scalar) -> bool {
    call_ensures(K::magnitude, (kernel, a), out)
}

/// Whether `out` is a verdict of `a < b` under `kernel`.
pub open spec fn is_less<K: Numerics>(kernel: &K, a: Scalar, b: Scalar, out: bool) -> bool {
    call_ensures(K::less, (kernel, a, b), out)
}

/// Whether `out` is a result of the arc tangent of `y / x` under `kernel`.
pub open spec fn is_arc_tangent<K: Numerics>(kernel: &K, y: Scalar, x: Scalar, out: Scalar) -> bool {
    call_ensures(K::arc_tangent, (kernel, y, x), out)
}

/// Whether `out` is a result of the rotation by the Euler angles `x`, `y`,
/// `z`, in radians, under `kernel`.
pub open spec fn is_turn_radians<K: Numerics>(
    kernel: &K,
    x: Scalar,
    y: Scalar,
    z: Scalar,
    out: Orientation,
) -> bool {
    call_ensures(K::turn_radians, (kernel, x, y, z), out)
}

/// Whether `out` is a result of the rotation by the Euler angles `x`, `y`,
/// `z`, in degrees, under `kernel`.
pub open spec fn is_turn_degrees<K: Numerics>(
    kernel: &K,
    x: Scalar,
    y: Scalar,
    z: Scalar,
    out: Orientation,
) -> bool {
    call_ensures(K::turn_degrees, (kernel, x, y, z), out)
}

/// Whether `out` is a result of the product `left * right` under `kernel`.
pub open spec fn is_composed<K: Numerics>(
    kernel: &K,
    left: Orientation,
    right: Orientation,
    out: Orientation,
) -> bool {
    call_ensures(K::compose, (kernel, left, right), out)
}

/// Whether `out` is a result of rotating `point` by `turn` under `kernel`.
pub open spec fn is_rotated<K: Numerics>(
    kernel: &K,
    turn: Orientation,
    point: Position,
    out: Position,
) -> bool {
    call_ensures(K::rotate, (kernel, turn, point), out)
}

} // verus!

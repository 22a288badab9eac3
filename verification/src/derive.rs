//! The rules by which the facade, gantry and AGV frames follow from the
//! marker slots.
use vstd::prelude::*;
use crate::geometry::{Orientation, Position, Scalar, ZERO_BITS};
use crate::numerics::{
    is_arc_tangent, is_composed, is_difference, is_turn_degrees, is_turn_radians, Numerics,
};
use crate::pose::{view_of, Pose, PoseView};

verus! {

/// Bit pattern of the output height of the facade frame, `3.57`.
pub const FACADE_HEIGHT_BITS: u64 = 0x400c_8f5c_28f5_c28f;

/// Bit pattern of the output height of the gantry frame, `1.93`.
pub const GANTRY_HEIGHT_BITS: u64 = 0x3ffe_e147_ae14_7ae1;

/// Bit pattern of `180.0`, the half turn about x, in degrees, that turns a
/// derived frame upside down.
pub const HALF_TURN_BITS: u64 = 0x4066_8000_0000_0000;

/// The height at which the facade frame is put out.
pub open spec fn facade_height() -> Scalar {
    Scalar { bits: FACADE_HEIGHT_BITS }
}

/// The height at which the gantry frame is put out.
pub open spec fn gantry_height() -> Scalar {
    Scalar { bits: GANTRY_HEIGHT_BITS }
}

/// The name of the facade frame.
pub open spec fn facade_frame() -> Seq<char> {
    "facade_aruco"@
}

/// The name of the gantry frame.
pub open spec fn gantry_frame() -> Seq<char> {
    "gantry_aruco"@
}

/// The name of the AGV frame.
pub open spec fn agv_frame() -> Seq<char> {
    "agv_aruco"@
}

/// Whether `out` is a result of the heading rule for the step from the
/// point `from` to the point `to`, the operations being those of `kernel`:
/// with `yaw` the arc tangent of `(to.y - from.y) / (to.x - from.x)`, it is
/// the rotation by `yaw` about z times the half turn about x.
pub open spec fn headed<K: Numerics>(
    kernel: &K,
    from: Position,
    to: Position,
    out: Orientation,
) -> bool {
    exists|run: Scalar, rise: Scalar, yaw: Scalar, level: Orientation, flip: Orientation|
        {
            &&& is_difference(kernel, to.x, from.x, run)
            &&& is_difference(kernel, to.y, from.y, rise)
            &&& #[trigger] is_arc_tangent(kernel, rise, run, yaw)
            &&& is_turn_radians(
                kernel,
                Scalar { bits: ZERO_BITS },
                Scalar { bits: ZERO_BITS },
                yaw,
                level,
            )
            &&& is_turn_degrees(
                kernel,
                Scalar { bits: HALF_TURN_BITS },
                Scalar { bits: ZERO_BITS },
                Scalar { bits: ZERO_BITS },
                flip,
            )
            &&& #[trigger] is_composed(kernel, level, flip, out)
        }
}

/// Whether `out` is a frame spanned by the marker poses `from` and `to`:
/// it stands where `to` stands, lifted to `height`; it is oriented by the
/// heading rule for the step from `from` to `to`; it is named `frame`; and
/// its timestamp and reference frame are those of `to`.
pub open spec fn spanned<K: Numerics>(
    kernel: &K,
    from: PoseView,
    to: PoseView,
    height: Scalar,
    frame: Seq<char>,
    out: PoseView,
) -> bool {
    &&& out.reference == to.reference
    &&& out.frame == frame
    &&& out.stamp == to.stamp
    &&& out.position == to.position.at_height(height)
    &&& headed(kernel, from.position, to.position, out.orientation)
}

/// Whether `out` is what the pair of slots `from` and `to` spans: a frame
/// as [`spanned`] describes where both hold a pose, and nothing where
/// either is empty.
pub open spec fn spanned_by<K: Numerics>(
    kernel: &K,
    from: Option<PoseView>,
    to: Option<PoseView>,
    height: Scalar,
    frame: Seq<char>,
    out: Option<PoseView>,
) -> bool {
    if from is Some && to is Some {
        out matches Some(pose) && spanned(kernel, from->Some_0, to->Some_0, height, frame, pose)
    } else {
        out is None
    }
}

/// The orientation of a frame spanned from the point `from` to the point
/// `to`: the yaw of the step between them, turned upside down.
pub fn heading<K: Numerics>(kernel: &K, from: Position, to: Position) -> (out: Orientation)
    ensures
        headed(kernel, from, to, out),
{
    let zero = Scalar { bits: ZERO_BITS };
    let run = kernel.difference(to.x, from.x);
    let rise = kernel.difference(to.y, from.y);
    let yaw = kernel.arc_tangent(rise, run);
    let level = kernel.turn_radians(zero, zero, yaw);
    let flip = kernel.turn_degrees(Scalar { bits: HALF_TURN_BITS }, zero, zero);
    let out = kernel.compose(level, flip);
    assert(is_arc_tangent(kernel, rise, run, yaw) && is_composed(kernel, level, flip, out));
    out
}

/// The frame that a pair of marker slots spans, if both hold a pose.
pub fn span<K: Numerics>(
    kernel: &K,
    from: &Option<Pose>,
    to: &Option<Pose>,
    height: Scalar,
    frame: &str,
) -> (out: Option<Pose>)
    ensures
        spanned_by(kernel, view_of(*from), view_of(*to), height, frame@, view_of(out)),
{
    match (from, to) {
        (Some(a), Some(b)) => {
            let orientation = heading(kernel, a.position, b.position);
            Some(
                Pose {
                    reference: b.reference.clone(),
                    frame: frame.to_owned(),
                    stamp: b.stamp,
                    position: b.position.with_height(height),
                    orientation,
                },
            )
        },
        _ => None,
    }
}

/// The facade frame: spanned from marker 0 to marker 1, at the facade
/// height, under the name `facade_aruco`.
pub fn derive_facade<K: Numerics>(
    kernel: &K,
    marker_0: &Option<Pose>,
    marker_1: &Option<Pose>,
) -> (out: Option<Pose>)
    ensures
        spanned_by(
            kernel,
            view_of(*marker_0),
            view_of(*marker_1),
            facade_height(),
            facade_frame(),
            view_of(out),
        ),
{
    span(kernel, marker_0, marker_1, Scalar { bits: FACADE_HEIGHT_BITS }, "facade_aruco")
}

/// The gantry frame: spanned from marker 2 to marker 15, at the gantry
/// height, under the name `gantry_aruco`.
pub fn derive_gantry<K: Numerics>(
    kernel: &K,
    marker_2: &Option<Pose>,
    marker_15: &Option<Pose>,
) -> (out: Option<Pose>)
    ensures
        spanned_by(
            kernel,
            view_of(*marker_2),
            view_of(*marker_15),
            gantry_height(),
            gantry_frame(),
            view_of(out),
        ),
{
    span(kernel, marker_2, marker_15, Scalar { bits: GANTRY_HEIGHT_BITS }, "gantry_aruco")
}

/// The AGV frame: the pose of marker 5 as it is, under the name
/// `agv_aruco`.
pub fn derive_agv(marker_5: &Pose) -> (out: Pose)
    ensures
        out@ == marker_5@.named(agv_frame()),
{
    marker_5.renamed("agv_aruco")
}

} // verus!

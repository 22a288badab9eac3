//! The smoothing filter of a marker slot.
use vstd::prelude::*;
use crate::geometry::{Position, Scalar};
use crate::numerics::{is_difference, is_quotient, is_sum, Numerics};
use crate::pose::{view_of, Pose, PoseView};

verus! {

/// Bit pattern of the smoothing constant, `10.0`: a new sample moves the
/// estimate by a tenth of its distance from it.
pub const SMOOTHING_BITS: u64 = 0x4024_0000_0000_0000;

/// The smoothing constant.
pub open spec fn smoothing() -> Scalar {
    Scalar { bits: SMOOTHING_BITS }
}

/// Whether `out` is a result of `previous + (new - previous) / 10`, the
/// operations being those of `kernel`.
pub open spec fn blended<K: Numerics>(
    kernel: &K,
    new: Scalar,
    previous: Scalar,
    out: Scalar,
) -> bool {
    exists|gap: Scalar, step: Scalar|
        {
            &&& is_difference(kernel, new, previous, gap)
            &&& #[trigger] is_quotient(kernel, gap, smoothing(), step)
            &&& is_sum(kernel, previous, step, out)
        }
}

/// Whether `out` is a result of smoothing the observation `new` against the
/// stored pose `previous`: each coordinate of the position is blended from
/// the new and the stored coordinate, and everything else is taken from
/// `new` as it is.
pub open spec fn smoothed<K: Numerics>(
    kernel: &K,
    new: PoseView,
    previous: PoseView,
    out: PoseView,
) -> bool {
    &&& out.reference == new.reference
    &&& out.frame == new.frame
    &&& out.stamp == new.stamp
    &&& out.orientation == new.orientation
    &&& blended(kernel, new.position.x, previous.position.x, out.position.x)
    &&& blended(kernel, new.position.y, previous.position.y, out.position.y)
    &&& blended(kernel, new.position.z, previous.position.z, out.position.z)
}

/// Whether `after` is what a slot holds once the observation `new` has been
/// accepted into a slot that held `before`: an empty slot takes the
/// observation as it is, an occupied one its smoothed successor.
pub open spec fn accepted<K: Numerics>(
    kernel: &K,
    new: PoseView,
    before: Option<PoseView>,
    after: PoseView,
) -> bool {
    match before {
        None => after == new,
        Some(previous) => smoothed(kernel, new, previous, after),
    }
}

/// One step of the moving average on one coordinate:
/// `previous + (new - previous) / 10`.
pub fn blend<K: Numerics>(kernel: &K, new: Scalar, previous: Scalar) -> (out: Scalar)
    ensures
        blended(kernel, new, previous, out),
{
    let gap = kernel.difference(new, previous);
    let step = kernel.quotient(gap, Scalar { bits: SMOOTHING_BITS });
    let out = kernel.sum(previous, step);
    assert(is_quotient(kernel, gap, smoothing(), step));
    out
}

/// Smooths the position of the observation `new` against the stored pose
/// `previous`, coordinate by coordinate. The orientation, the timestamp and
/// the frame names of the result are those of `new`.
pub fn filter_transform<K: Numerics>(kernel: &K, new: Pose, previous: &Pose) -> (out: Pose)
    ensures
        smoothed(kernel, new@, previous@, out@),
{
    let x = blend(kernel, new.position.x, previous.position.x);
    let y = blend(kernel, new.position.y, previous.position.y);
    let z = blend(kernel, new.position.z, previous.position.z);
    Pose {
        reference: new.reference,
        frame: new.frame,
        stamp: new.stamp,
        position: Position { x, y, z },
        orientation: new.orientation,
    }
}

/// Accepts the observation `new` into a slot. An empty slot stores it as it
/// is, and the result is `true`: the marker is now live. An occupied slot
/// stores the smoothed successor of what it held, and the result is `false`.
pub fn update_or_set<K: Numerics>(kernel: &K, new: Pose, maybe_old: &mut Option<Pose>) -> (live:
    bool)
    ensures
        live == (*old(maybe_old) is None),
        *final(maybe_old) matches Some(after) && accepted(
            kernel,
            new@,
            view_of(*old(maybe_old)),
            after@,
        ),
{
    match maybe_old.take() {
        Some(previous) => {
            *maybe_old = Some(filter_transform(kernel, new, &previous));
            false
        },
        None => {
            *maybe_old = Some(new);
            true
        },
    }
}

} // verus!

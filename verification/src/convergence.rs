//! How the smoothing filter approaches a steady observation, were the
//! arithmetic exact.
//!
//! Binary64 arithmetic rounds, so what is proved here holds of a run of the
//! filter as far as the operations of that run happen to be exact; of any
//! other run it describes the formula, not the numbers.
use vstd::prelude::*;
use crate::filter::{blended, smoothed, smoothing};
use crate::geometry::Scalar;
use crate::numerics::{is_difference, is_quotient, is_sum, Numerics};
use crate::pose::PoseView;

verus! {

/// The size of a real number.
pub open spec fn size(r: real) -> real {
    if r < 0real {
        -r
    } else {
        r
    }
}

/// `distance` times nine tenths to the power `updates`.
pub open spec fn shrunk(distance: real, updates: nat) -> real
    decreases updates,
{
    if updates == 0 {
        distance
    } else {
        shrunk(distance, (updates - 1) as nat) * 9real / 10real
    }
}

/// Whether the three operations of blending `new` into `previous` are
/// exact under `kernel`, the scalars read as the real numbers that `value`
/// gives: the difference, its tenth and the sum come out as the real
/// difference, tenth and sum.
pub open spec fn blends_exactly<K: Numerics>(
    kernel: &K,
    value: spec_fn(Scalar) -> real,
    new: Scalar,
    previous: Scalar,
) -> bool {
    forall|gap: Scalar, step: Scalar, out: Scalar|
        #![trigger is_quotient(kernel, gap, smoothing(), step), is_sum(kernel, previous, step, out)]
        is_difference(kernel, new, previous, gap) && is_quotient(kernel, gap, smoothing(), step)
            && is_sum(kernel, previous, step, out) ==> {
            &&& value(gap) == value(new) - value(previous)
            &&& value(step) * 10real == value(gap)
            &&& value(out) == value(previous) + value(step)
        }
}

/// Whether `estimates` is a run of the filter on one coordinate under the
/// steady observation `target`: each estimate is blended from `target` and
/// the estimate before it.
pub open spec fn steady_run<K: Numerics>(kernel: &K, target: Scalar, estimates: Seq<Scalar>) -> bool {
    forall|i: int|
        0 <= i < estimates.len() - 1 ==> blended(kernel, target, #[trigger] estimates[i], estimates[i + 1])
}

/// Whether every blending step of the run `estimates` is exact.
pub open spec fn exact_run<K: Numerics>(
    kernel: &K,
    value: spec_fn(Scalar) -> real,
    target: Scalar,
    estimates: Seq<Scalar>,
) -> bool {
    forall|i: int|
        0 <= i < estimates.len() - 1 ==> blends_exactly(kernel, value, target, #[trigger] estimates[i])
}

/// One exact blending step leaves nine tenths of the distance between the
/// estimate and the observation.
pub proof fn law_blend_leaves_nine_tenths<K: Numerics>(
    kernel: &K,
    value: spec_fn(Scalar) -> real,
    new: Scalar,
    previous: Scalar,
    out: Scalar,
)
    requires
        blended(kernel, new, previous, out),
        blends_exactly(kernel, value, new, previous),
    ensures
        value(out) - value(new) == (value(previous) - value(new)) * 9real / 10real,
{
    let (gap, step) = choose|gap: Scalar, step: Scalar|
        {
            &&& is_difference(kernel, new, previous, gap)
            &&& #[trigger] is_quotient(kernel, gap, smoothing(), step)
            &&& is_sum(kernel, previous, step, out)
        };
    assert(is_quotient(kernel, gap, smoothing(), step) && is_sum(kernel, previous, step, out));
    assert(value(step) * 10real == value(gap));
}

/// Over an exact run under a steady observation, the distance of the
/// estimate from the observation after `updates` updates is the distance
/// at the start times nine tenths to the power `updates`.
pub proof fn law_steady_run_shrinks_geometrically<K: Numerics>(
    kernel: &K,
    value: spec_fn(Scalar) -> real,
    target: Scalar,
    estimates: Seq<Scalar>,
    updates: nat,
)
    requires
        steady_run(kernel, target, estimates),
        exact_run(kernel, value, target, estimates),
        updates < estimates.len(),
    ensures
        value(estimates[updates as int]) - value(target) == shrunk(
            value(estimates[0]) - value(target),
            updates,
        ),
    decreases updates,
{
    if updates > 0 {
        let before = (updates - 1) as nat;
        law_steady_run_shrinks_geometrically(kernel, value, target, estimates, before);
        assert(blended(kernel, target, estimates[before as int], estimates[before as int + 1]));
        law_blend_leaves_nine_tenths(
            kernel,
            value,
            target,
            estimates[before as int],
            estimates[updates as int],
        );
    }
}

/// Nine tenths to the power `updates` of a distance is at most the distance
/// times `9 / (9 + updates)`, in size.
pub proof fn law_shrunk_is_bounded(distance: real, updates: nat)
    ensures
        size(shrunk(distance, updates)) * (9real + updates as real) <= 9real * size(distance),
    decreases updates,
{
    if updates > 0 {
        law_shrunk_is_bounded(distance, (updates - 1) as nat);
        let before = size(shrunk(distance, (updates - 1) as nat));
        let n = (updates - 1) as nat as real;
        assert(updates as real == n + 1real);
        assert(size(shrunk(distance, updates)) == before * 9real / 10real);
        let left = size(shrunk(distance, updates));
        assert(left * (9real + updates as real) <= before * (9real + n)) by (nonlinear_arith)
            requires
                left == before * 9real / 10real,
                updates as real == n + 1real,
                before >= 0real,
                n >= 0real,
        ;
    } else {
        assert(shrunk(distance, updates) == distance);
    }
}

/// The distance falls below any tolerance after finitely many exact
/// updates: the result is a number of updates from which on nine tenths to
/// that power of `distance` is smaller than `tolerance`.
pub proof fn law_shrunk_falls_below_tolerance(distance: real, tolerance: real) -> (enough: nat)
    requires
        tolerance > 0real,
    ensures
        forall|updates: nat|
            updates >= enough ==> size(#[trigger] shrunk(distance, updates)) < tolerance,
{
    let ratio = 9real * size(distance) / tolerance;
    let enough = (ratio.floor() + 1) as nat;
    assert(enough as real > ratio);
    assert forall|updates: nat| updates >= enough implies size(
        #[trigger] shrunk(distance, updates),
    ) < tolerance by {
        law_shrunk_is_bounded(distance, updates);
        let left = size(shrunk(distance, updates));
        let n = updates as real;
        assert(n > ratio);
        assert(left < tolerance) by (nonlinear_arith)
            requires
                left * (9real + n) <= 9real * size(distance),
                n > 9real * size(distance) / tolerance,
                tolerance > 0real,
                left >= 0real,
                size(distance) >= 0real,
        ;
    }
    enough
}

/// Whether `held` is a run of one marker slot under the steady observation
/// `new`: each pose is the smoothed successor of the pose before it.
pub open spec fn steady_slot_run<K: Numerics>(kernel: &K, new: PoseView, held: Seq<PoseView>) -> bool {
    forall|i: int| 0 <= i < held.len() - 1 ==> smoothed(kernel, new, #[trigger] held[i], held[i + 1])
}

/// Whether every blending step of the slot run `held`, on each of the
/// three coordinates, is exact.
pub open spec fn exact_slot_run<K: Numerics>(
    kernel: &K,
    value: spec_fn(Scalar) -> real,
    new: PoseView,
    held: Seq<PoseView>,
) -> bool {
    forall|i: int|
        0 <= i < held.len() - 1 ==> {
            &&& blends_exactly(kernel, value, new.position.x, (#[trigger] held[i]).position.x)
            &&& blends_exactly(kernel, value, new.position.y, held[i].position.y)
            &&& blends_exactly(kernel, value, new.position.z, held[i].position.z)
        }
}

/// A slot that takes in the same observation again and again closes in on
/// the observed position: over an exact run, after `updates` updates each
/// coordinate of the slot's position is off by nine tenths to the power
/// `updates` of what it was off by at the start.
pub proof fn law_slot_closes_in_on_steady_observation<K: Numerics>(
    kernel: &K,
    value: spec_fn(Scalar) -> real,
    new: PoseView,
    held: Seq<PoseView>,
    updates: nat,
)
    requires
        steady_slot_run(kernel, new, held),
        exact_slot_run(kernel, value, new, held),
        updates < held.len(),
    ensures
        value(held[updates as int].position.x) - value(new.position.x) == shrunk(
            value(held[0].position.x) - value(new.position.x),
            updates,
        ),
        value(held[updates as int].position.y) - value(new.position.y) == shrunk(
            value(held[0].position.y) - value(new.position.y),
            updates,
        ),
        value(held[updates as int].position.z) - value(new.position.z) == shrunk(
            value(held[0].position.z) - value(new.position.z),
            updates,
        ),
{
    let xs = Seq::new(held.len(), |i: int| held[i].position.x);
    let ys = Seq::new(held.len(), |i: int| held[i].position.y);
    let zs = Seq::new(held.len(), |i: int| held[i].position.z);
    assert forall|i: int| 0 <= i < xs.len() - 1 implies blended(
        kernel,
        new.position.x,
        #[trigger] xs[i],
        xs[i + 1],
    ) && blends_exactly(kernel, value, new.position.x, xs[i]) by {
        assert(smoothed(kernel, new, held[i], held[i + 1]));
    }
    assert forall|i: int| 0 <= i < ys.len() - 1 implies blended(
        kernel,
        new.position.y,
        #[trigger] ys[i],
        ys[i + 1],
    ) && blends_exactly(kernel, value, new.position.y, ys[i]) by {
        assert(smoothed(kernel, new, held[i], held[i + 1]));
    }
    assert forall|i: int| 0 <= i < zs.len() - 1 implies blended(
        kernel,
        new.position.z,
        #[trigger] zs[i],
        zs[i + 1],
    ) && blends_exactly(kernel, value, new.position.z, zs[i]) by {
        assert(smoothed(kernel, new, held[i], held[i + 1]));
    }
    law_steady_run_shrinks_geometrically(kernel, value, new.position.x, xs, updates);
    law_steady_run_shrinks_geometrically(kernel, value, new.position.y, ys, updates);
    law_steady_run_shrinks_geometrically(kernel, value, new.position.z, zs, updates);
}

} // verus!

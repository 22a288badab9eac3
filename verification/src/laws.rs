//! What holds of the estimator over whole runs: statements that relate
//! several operations, proved from the models that the operations' own
//! contracts use.
use vstd::prelude::*;
use crate::geometry::Stamp;
use crate::marker::MarkerId;
use crate::numerics::Numerics;
use crate::pose::PoseView;
use crate::state::{StateView, STALE_AFTER_SECONDS};

verus! {

/// Whether `states` is a run of the estimator in which the observations
/// `observations`, all of marker `id`, are taken in one after another:
/// `states[0]` is the state before the first, `states[i + 1]` the state
/// after the `i`-th.
pub open spec fn observation_run<K: Numerics>(
    kernel: &K,
    id: MarkerId,
    observations: Seq<PoseView>,
    states: Seq<StateView>,
) -> bool {
    &&& states.len() == observations.len() + 1
    &&& forall|i: int|
        0 <= i < observations.len() ==> (#[trigger] states[i]).taken_in(
            kernel,
            id,
            observations[i],
            states[i + 1],
        )
}

/// Over any run of observations of one marker, whatever the slot held at
/// the start and whatever the arithmetic computes: after each observation the
/// marker's slot is occupied, and its orientation, timestamp and frame
/// names are exactly those of that observation.
pub proof fn law_slot_follows_latest_observation<K: Numerics>(
    kernel: &K,
    id: MarkerId,
    observations: Seq<PoseView>,
    states: Seq<StateView>,
)
    requires
        observation_run(kernel, id, observations, states),
    ensures
        forall|i: int|
            0 <= i < observations.len() ==> {
                &&& (#[trigger] states[i + 1]).slot(id) matches Some(held)
                &&& held.orientation == observations[i].orientation
                &&& held.stamp == observations[i].stamp
                &&& held.frame == observations[i].frame
                &&& held.reference == observations[i].reference
            },
{
    assert forall|i: int| 0 <= i < observations.len() implies {
        &&& (#[trigger] states[i + 1]).slot(id) matches Some(held)
        &&& held.orientation == observations[i].orientation
        &&& held.stamp == observations[i].stamp
        &&& held.frame == observations[i].frame
        &&& held.reference == observations[i].reference
    } by {
        assert(states[i].taken_in(kernel, id, observations[i], states[i + 1]));
    }
}

/// The first observation of a marker is stored as it is: position
/// included, with no smoothing.
pub proof fn law_first_observation_is_verbatim<K: Numerics>(kernel: &K, id: MarkerId, new: PoseView, before: StateView, after: StateView)
    requires
        before.slot(id) is None,
        before.taken_in(kernel, id, new, after),
    ensures
        after.slot(id) == Some(new),
{
}

/// An observation of one marker leaves the slots of the other four as they
/// are.
pub proof fn law_observation_touches_one_slot<K: Numerics>(
    kernel: &K,
    id: MarkerId,
    other: MarkerId,
    new: PoseView,
    before: StateView,
    after: StateView,
)
    requires
        other != id,
        before.taken_in(kernel, id, new, after),
    ensures
        after.slot(other) == before.slot(other),
        after.locked_facade == before.locked_facade,
        after.locked_gantry == before.locked_gantry,
{
}

/// Whether `states` is a run of sweeps at the times `times`: `states[0]`
/// is the state before the first sweep, `states[i + 1]` the state after
/// the `i`-th.
pub open spec fn sweep_run(times: Seq<Stamp>, states: Seq<StateView>) -> bool {
    &&& states.len() == times.len() + 1
    &&& forall|i: int| 0 <= i < times.len() ==> #[trigger] states[i + 1] == states[i].swept(times[i])
}

/// Whether none of the first `upto` sweep times lies more than the
/// staleness threshold, in whole seconds, after `stamp`.
pub open spec fn fresh_through(stamp: Stamp, times: Seq<Stamp>, upto: int) -> bool {
    forall|j: int| 0 <= j < upto ==> !stamp.stale_at(#[trigger] times[j], STALE_AFTER_SECONDS)
}

/// A slot that holds a pose is emptied by the first sweep at which the pose
/// is more than five whole seconds old, and not before: over a run of
/// sweeps with no observation in between, the slot still holds its pose
/// after a sweep exactly if the pose was stale at none of the sweeps so
/// far, and it is empty otherwise.
pub proof fn law_slot_empties_at_first_stale_sweep(
    id: MarkerId,
    times: Seq<Stamp>,
    states: Seq<StateView>,
    k: int,
)
    requires
        sweep_run(times, states),
        states[0].slot(id) is Some,
        0 <= k <= times.len(),
    ensures
        states[k].slot(id) == if fresh_through(states[0].slot(id)->Some_0.stamp, times, k) {
            states[0].slot(id)
        } else {
            None
        },
    decreases k,
{
    let stamp = states[0].slot(id)->Some_0.stamp;
    if k > 0 {
        law_slot_empties_at_first_stale_sweep(id, times, states, k - 1);
        assert(states[(k - 1) + 1] == states[k - 1].swept(times[k - 1]));
        if fresh_through(stamp, times, k - 1) {
            if stamp.stale_at(times[k - 1], STALE_AFTER_SECONDS) {
                assert(!fresh_through(stamp, times, k));
            } else {
                assert(fresh_through(stamp, times, k));
            }
        } else {
            assert(!fresh_through(stamp, times, k));
        }
    }
}

/// A sweep changes no derived frame and no locked frame: a frame outlives
/// the markers it was derived from until the next observation.
pub proof fn law_sweep_keeps_frames(state: StateView, now: Stamp)
    ensures
        state.swept(now).facade == state.facade,
        state.swept(now).gantry == state.gantry,
        state.swept(now).agv == state.agv,
        state.swept(now).locked_facade == state.locked_facade,
        state.swept(now).locked_gantry == state.locked_gantry,
{
}

/// A sweep is the five expiries, one marker after another.
pub proof fn law_sweep_is_five_expiries(state: StateView, now: Stamp)
    ensures
        state.swept(now) == state.expired(MarkerId::FacadeLeft, now, STALE_AFTER_SECONDS).expired(
            MarkerId::FacadeRight,
            now,
            STALE_AFTER_SECONDS,
        ).expired(MarkerId::GantryA, now, STALE_AFTER_SECONDS).expired(
            MarkerId::GantryB,
            now,
            STALE_AFTER_SECONDS,
        ).expired(MarkerId::Agv, now, STALE_AFTER_SECONDS),
{
    let stepwise = state.expired(MarkerId::FacadeLeft, now, STALE_AFTER_SECONDS).expired(
        MarkerId::FacadeRight,
        now,
        STALE_AFTER_SECONDS,
    ).expired(MarkerId::GantryA, now, STALE_AFTER_SECONDS).expired(
        MarkerId::GantryB,
        now,
        STALE_AFTER_SECONDS,
    ).expired(MarkerId::Agv, now, STALE_AFTER_SECONDS);
    assert(state.swept(now).slots =~= stepwise.slots);
}

/// After a derivation the facade frame is present exactly if the slots of
/// markers 0 and 1 both hold a pose, and the gantry frame exactly if the
/// slots of markers 2 and 15 both do.
pub proof fn law_frames_present_iff_pairs_present<K: Numerics>(
    kernel: &K,
    before: StateView,
    after: StateView,
)
    requires
        before.rederived(kernel, after),
    ensures
        after.facade is Some <==> before.slot(MarkerId::FacadeLeft) is Some && before.slot(
            MarkerId::FacadeRight,
        ) is Some,
        after.gantry is Some <==> before.slot(MarkerId::GantryA) is Some && before.slot(
            MarkerId::GantryB,
        ) is Some,
{
}

/// After an observation has been taken in, the facade frame is present
/// exactly if the slots of markers 0 and 1 both hold a pose then, and the
/// gantry frame exactly if the slots of markers 2 and 15 both do; the
/// estimator is ready exactly if all four hold one.
pub proof fn law_frames_present_after_observation<K: Numerics>(kernel: &K, id: MarkerId, new: PoseView, before: StateView, after: StateView)
    requires
        before.taken_in(kernel, id, new, after),
    ensures
        after.facade is Some <==> after.slot(MarkerId::FacadeLeft) is Some && after.slot(
            MarkerId::FacadeRight,
        ) is Some,
        after.gantry is Some <==> after.slot(MarkerId::GantryA) is Some && after.slot(
            MarkerId::GantryB,
        ) is Some,
        after.ready() <==> {
            &&& after.slot(MarkerId::FacadeLeft) is Some
            &&& after.slot(MarkerId::FacadeRight) is Some
            &&& after.slot(MarkerId::GantryA) is Some
            &&& after.slot(MarkerId::GantryB) is Some
        },
{
}

/// A second lock right after a lock captures the same snapshot: it leaves
/// the state as the first lock left it, and reports the same frames as
/// present.
pub proof fn law_lock_twice_is_lock_once(state: StateView)
    ensures
        state.locked().locked() == state.locked(),
        state.locked().facade == state.facade,
        state.locked().gantry == state.gantry,
        state.locked().locked_facade == state.facade,
        state.locked().locked_gantry == state.gantry,
{
}

/// The snapshot is changed by a lock alone: neither an observation nor a
/// sweep touches it, and a sweep between two locks does not change what the
/// second captures.
pub proof fn law_snapshot_survives_sweep(state: StateView, now: Stamp)
    ensures
        state.locked().swept(now).locked() == state.locked().swept(now),
        state.locked().swept(now).locked_facade == state.locked().locked_facade,
        state.locked().swept(now).locked_gantry == state.locked().locked_gantry,
{
}

} // verus!

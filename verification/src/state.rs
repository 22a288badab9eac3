//! The shared state of the estimator: marker slots, derived frames and the
//! locked snapshot, with the operations that change them.
use vstd::prelude::*;
use crate::derive::{
    agv_frame, derive_agv, derive_facade, derive_gantry, facade_frame, facade_height,
    gantry_frame, gantry_height, spanned_by,
};
use crate::filter::{accepted, update_or_set};
use crate::geometry::Stamp;
use crate::marker::MarkerId;
use crate::numerics::Numerics;
use crate::pose::{clone_slot, view_of, Pose, PoseView};

verus! {

/// Seconds after which a marker that was not seen again is dropped.
pub const STALE_AFTER_SECONDS: i32 = 5;

/// What became of an observation that was handed to the estimator.
#[derive(Clone, Copy, Debug, PartialEq, Eq, Structural)]
pub enum Outcome {
    /// The observation names no tracked marker; nothing changed.
    Ignored,
    /// The observation named a tracked marker but was judged implausible;
    /// nothing changed.
    Rejected(MarkerId),
    /// The marker's slot was empty and now holds the observation: the marker
    /// is live.
    Live(MarkerId),
    /// The marker's slot was occupied and now holds the smoothed pose.
    Refreshed(MarkerId),
}

/// The estimator's state: five marker slots, the three derived frames, and
/// the locked copies of the facade and gantry frames.
#[derive(Debug, PartialEq, Eq)]
pub struct State {
    marker_0: Option<Pose>,
    marker_1: Option<Pose>,
    marker_2: Option<Pose>,
    marker_15: Option<Pose>,
    marker_5: Option<Pose>,
    facade_transform: Option<Pose>,
    gantry_transform: Option<Pose>,
    agv_transform: Option<Pose>,
    locked_facade_transform: Option<Pose>,
    locked_gantry_transform: Option<Pose>,
    clear_agv: bool,
}

/// The model of a [`State`].
pub struct StateView {
    /// The occupied marker slots.
    pub slots: Map<MarkerId, PoseView>,
    pub facade: Option<PoseView>,
    pub gantry: Option<PoseView>,
    pub agv: Option<PoseView>,
    pub locked_facade: Option<PoseView>,
    pub locked_gantry: Option<PoseView>,
    /// Whether the AGV frame is dropped when a derivation finds the slot of
    /// marker 5 empty. Where it is not, the AGV frame keeps its last value.
    pub clear_agv: bool,
}

impl StateView {
    /// The state at startup: nothing observed, nothing derived, nothing
    /// locked.
    pub open spec fn empty(clear_agv: bool) -> StateView {
        StateView {
            slots: Map::empty(),
            facade: None,
            gantry: None,
            agv: None,
            locked_facade: None,
            locked_gantry: None,
            clear_agv,
        }
    }

    /// What the slot of marker `id` holds.
    pub open spec fn slot(self, id: MarkerId) -> Option<PoseView> {
        if self.slots.contains_key(id) {
            Some(self.slots[id])
        } else {
            None
        }
    }

    /// The same state with other marker slots.
    pub open spec fn with_slots(self, slots: Map<MarkerId, PoseView>) -> StateView {
        StateView { slots, ..self }
    }

    /// Whether `after` is `self` once the observation `new` has been accepted
    /// into the slot of marker `id`. Only that slot changes.
    pub open spec fn updated<K: Numerics>(
        self,
        kernel: &K,
        id: MarkerId,
        new: PoseView,
        after: StateView,
    ) -> bool {
        &&& after.slots.contains_key(id)
        &&& accepted(kernel, new, self.slot(id), after.slots[id])
        &&& after == self.with_slots(self.slots.insert(id, after.slots[id]))
    }

    /// The AGV frame after a derivation: the pose of marker 5 under the
    /// AGV's name where the slot holds one; otherwise the frame as it was,
    /// or nothing where the state is set to clear it.
    pub open spec fn agv_rederived(self) -> Option<PoseView> {
        match self.slot(MarkerId::Agv) {
            Some(pose) => Some(pose.named(agv_frame())),
            None => if self.clear_agv {
                None
            } else {
                self.agv
            },
        }
    }

    /// Whether `after` is `self` once the three frames have been derived
    /// anew from the marker slots. The slots and the locked snapshot stay.
    pub open spec fn rederived<K: Numerics>(self, kernel: &K, after: StateView) -> bool {
        &&& after.slots == self.slots
        &&& after.locked_facade == self.locked_facade
        &&& after.locked_gantry == self.locked_gantry
        &&& after.clear_agv == self.clear_agv
        &&& spanned_by(
            kernel,
            self.slot(MarkerId::FacadeLeft),
            self.slot(MarkerId::FacadeRight),
            facade_height(),
            facade_frame(),
            after.facade,
        )
        &&& spanned_by(
            kernel,
            self.slot(MarkerId::GantryA),
            self.slot(MarkerId::GantryB),
            gantry_height(),
            gantry_frame(),
            after.gantry,
        )
        &&& after.agv == self.agv_rederived()
    }

    /// Whether `after` is `self` once the observation `new` of the tracked
    /// marker `id` has been taken in: first the slot is updated, then the
    /// frames are derived from the slots as they then are. The state in
    /// between is `self` with the slots of `after`, since the update changes
    /// nothing but the slots and the derivation leaves them alone.
    pub open spec fn taken_in<K: Numerics>(
        self,
        kernel: &K,
        id: MarkerId,
        new: PoseView,
        after: StateView,
    ) -> bool {
        &&& self.updated(kernel, id, new, self.with_slots(after.slots))
        &&& self.with_slots(after.slots).rederived(kernel, after)
    }

    /// Whether the slot of marker `id` holds a pose that is stale at `now`:
    /// more than `threshold_seconds` whole seconds old.
    pub open spec fn stale(self, id: MarkerId, now: Stamp, threshold_seconds: i32) -> bool {
        self.slots.contains_key(id) && self.slots[id].stamp.stale_at(now, threshold_seconds)
    }

    /// The state after marker `id` has been held against the time `now`:
    /// its slot is emptied where it is stale, and nothing else changes.
    pub open spec fn expired(self, id: MarkerId, now: Stamp, threshold_seconds: i32) -> StateView {
        if self.stale(id, now, threshold_seconds) {
            self.with_slots(self.slots.remove(id))
        } else {
            self
        }
    }

    /// The state after a sweep at `now`: every stale slot is emptied, every
    /// other slot is kept, and the derived and the locked frames stay as
    /// they are.
    pub open spec fn swept(self, now: Stamp) -> StateView {
        self.with_slots(
            Map::new(
                |id: MarkerId|
                    self.slots.contains_key(id) && !self.stale(id, now, STALE_AFTER_SECONDS),
                |id: MarkerId| self.slots[id],
            ),
        )
    }

    /// Marker `id` alone if a sweep at `now` drops it, and nothing otherwise.
    pub open spec fn dropped(self, id: MarkerId, now: Stamp) -> Seq<MarkerId> {
        if self.stale(id, now, STALE_AFTER_SECONDS) {
            seq![id]
        } else {
            seq![]
        }
    }

    /// The markers that a sweep at `now` drops, in the order in which the
    /// sweep visits them: 0, 1, 2, 15, 5.
    pub open spec fn dropped_by_sweep(self, now: Stamp) -> Seq<MarkerId> {
        self.dropped(MarkerId::FacadeLeft, now) + self.dropped(MarkerId::FacadeRight, now)
            + self.dropped(MarkerId::GantryA, now) + self.dropped(MarkerId::GantryB, now)
            + self.dropped(MarkerId::Agv, now)
    }

    /// The state after a lock: the snapshot holds the facade and the gantry
    /// frame as they are now, present or absent.
    pub open spec fn locked(self) -> StateView {
        StateView { locked_facade: self.facade, locked_gantry: self.gantry, ..self }
    }

    /// Whether both the facade and the gantry frame are present.
    pub open spec fn ready(self) -> bool {
        self.facade is Some && self.gantry is Some
    }

    /// The derived frames that are present, in the order facade, gantry,
    /// AGV.
    pub open spec fn live_batch(self) -> Seq<PoseView> {
        listed(self.facade) + listed(self.gantry) + listed(self.agv)
    }

    /// The locked frames that are present, facade before gantry, under
    /// their locked names and stamped with the time `now`.
    pub open spec fn locked_batch(self, now: Stamp) -> Seq<PoseView> {
        listed(relabelled(self.locked_facade, locked_facade_frame(), now)) + listed(
            relabelled(self.locked_gantry, locked_gantry_frame(), now),
        )
    }
}

/// The name under which the locked facade frame is put out.
pub open spec fn locked_facade_frame() -> Seq<char> {
    "facade_locked"@
}

/// The name under which the locked gantry frame is put out.
pub open spec fn locked_gantry_frame() -> Seq<char> {
    "gantry_locked"@
}

/// The pose of a slot as a list: one entry, or none.
pub open spec fn listed(slot: Option<PoseView>) -> Seq<PoseView> {
    match slot {
        Some(pose) => seq![pose],
        None => seq![],
    }
}

/// The pose of a slot, if there is one, under the name `frame` and with the
/// timestamp `now`.
pub open spec fn relabelled(slot: Option<PoseView>, frame: Seq<char>, now: Stamp) -> Option<
    PoseView,
> {
    match slot {
        Some(pose) => Some(pose.named(frame).stamped(now)),
        None => None,
    }
}

/// The models of a list of poses.
pub open spec fn views(poses: Seq<Pose>) -> Seq<PoseView> {
    Seq::new(poses.len(), |i: int| poses[i]@)
}

impl View for State {
    type V = StateView;

    closed spec fn view(&self) -> StateView {
        StateView {
            slots: Map::new(
                |id: MarkerId| self.held(id) is Some,
                |id: MarkerId| self.held(id)->Some_0@,
            ),
            facade: view_of(self.facade_transform),
            gantry: view_of(self.gantry_transform),
            agv: view_of(self.agv_transform),
            locked_facade: view_of(self.locked_facade_transform),
            locked_gantry: view_of(self.locked_gantry_transform),
            clear_agv: self.clear_agv,
        }
    }
}

impl Default for State {
    /// The state at startup, as [`State::new`] makes it.
    fn default() -> (state: State)
        ensures
            state@ == StateView::empty(false),
    {
        State::new()
    }
}

impl Clone for State {
    fn clone(&self) -> (copy: State)
        ensures
            copy@ == self@,
    {
        let copy = State {
            marker_0: clone_slot(&self.marker_0),
            marker_1: clone_slot(&self.marker_1),
            marker_2: clone_slot(&self.marker_2),
            marker_15: clone_slot(&self.marker_15),
            marker_5: clone_slot(&self.marker_5),
            facade_transform: clone_slot(&self.facade_transform),
            gantry_transform: clone_slot(&self.gantry_transform),
            agv_transform: clone_slot(&self.agv_transform),
            locked_facade_transform: clone_slot(&self.locked_facade_transform),
            locked_gantry_transform: clone_slot(&self.locked_gantry_transform),
            clear_agv: self.clear_agv,
        };
        proof {
            assert(copy@.slots =~= self@.slots);
        }
        copy
    }
}

impl State {
    /// The content of the slot of marker `id`.
    closed spec fn held(self, id: MarkerId) -> Option<Pose> {
        match id {
            MarkerId::FacadeLeft => self.marker_0,
            MarkerId::FacadeRight => self.marker_1,
            MarkerId::GantryA => self.marker_2,
            MarkerId::GantryB => self.marker_15,
            MarkerId::Agv => self.marker_5,
        }
    }

    /// The model's slot of a marker is the view of what the state holds
    /// for it.
    proof fn lemma_slot(self, id: MarkerId)
        ensures
            self@.slot(id) == view_of(self.held(id)),
    {
    }

    /// An empty state in which the AGV frame, once derived, keeps its last
    /// value while marker 5 is away.
    pub fn new() -> (state: State)
        ensures
            state@ == StateView::empty(false),
    {
        State::with_agv_clearing(false)
    }

    /// An empty state. With `clear_agv` set, a derivation that finds the
    /// slot of marker 5 empty drops the AGV frame, as it does for the facade
    /// and the gantry.
    pub fn with_agv_clearing(clear_agv: bool) -> (state: State)
        ensures
            state@ == StateView::empty(clear_agv),
    {
        let state = State {
            marker_0: None,
            marker_1: None,
            marker_2: None,
            marker_15: None,
            marker_5: None,
            facade_transform: None,
            gantry_transform: None,
            agv_transform: None,
            locked_facade_transform: None,
            locked_gantry_transform: None,
            clear_agv,
        };
        assert(state@.slots =~= Map::empty());
        state
    }

    /// The slot of marker `id`.
    pub fn slot(&self, id: MarkerId) -> (slot: &Option<Pose>)
        ensures
            view_of(*slot) == self@.slot(id),
    {
        match id {
            MarkerId::FacadeLeft => &self.marker_0,
            MarkerId::FacadeRight => &self.marker_1,
            MarkerId::GantryA => &self.marker_2,
            MarkerId::GantryB => &self.marker_15,
            MarkerId::Agv => &self.marker_5,
        }
    }

    /// The facade frame as last derived.
    pub fn facade(&self) -> (frame: &Option<Pose>)
        ensures
            view_of(*frame) == self@.facade,
    {
        &self.facade_transform
    }

    /// The gantry frame as last derived.
    pub fn gantry(&self) -> (frame: &Option<Pose>)
        ensures
            view_of(*frame) == self@.gantry,
    {
        &self.gantry_transform
    }

    /// The AGV frame as last derived.
    pub fn agv(&self) -> (frame: &Option<Pose>)
        ensures
            view_of(*frame) == self@.agv,
    {
        &self.agv_transform
    }

    /// The locked copy of the facade frame.
    pub fn locked_facade(&self) -> (frame: &Option<Pose>)
        ensures
            view_of(*frame) == self@.locked_facade,
    {
        &self.locked_facade_transform
    }

    /// The locked copy of the gantry frame.
    pub fn locked_gantry(&self) -> (frame: &Option<Pose>)
        ensures
            view_of(*frame) == self@.locked_gantry,
    {
        &self.locked_gantry_transform
    }

    /// Accepts the observation `new` into the slot of marker `id`, and says
    /// whether the marker has become live by it. No frame is derived.
    pub fn update<K: Numerics>(&mut self, kernel: &K, id: MarkerId, new: Pose) -> (live: bool)
        ensures
            live == (old(self)@.slot(id) is None),
            old(self)@.updated(kernel, id, new@, final(self)@),
    {
        let live = match id {
            MarkerId::FacadeLeft => update_or_set(kernel, new, &mut self.marker_0),
            MarkerId::FacadeRight => update_or_set(kernel, new, &mut self.marker_1),
            MarkerId::GantryA => update_or_set(kernel, new, &mut self.marker_2),
            MarkerId::GantryB => update_or_set(kernel, new, &mut self.marker_15),
            MarkerId::Agv => update_or_set(kernel, new, &mut self.marker_5),
        };
        proof {
            let before = old(self)@;
            let after = self@;
            assert(after.slots =~= before.slots.insert(id, after.slots[id]));
        }
        live
    }

    /// Derives the facade, gantry and AGV frames anew from the marker slots.
    pub fn derive<K: Numerics>(&mut self, kernel: &K)
        ensures
            old(self)@.rederived(kernel, final(self)@),
    {
        self.facade_transform = derive_facade(kernel, &self.marker_0, &self.marker_1);
        self.gantry_transform = derive_gantry(kernel, &self.marker_2, &self.marker_15);
        match &self.marker_5 {
            Some(pose) => {
                self.agv_transform = Some(derive_agv(pose));
            },
            None => {
                if self.clear_agv {
                    self.agv_transform = None;
                }
            },
        }
        proof {
            assert(self@.slots =~= old(self)@.slots);
        }
    }

    /// Takes in one observation from the transport. One whose frame name is
    /// none of the five tracked names is ignored. Any other is accepted into
    /// its marker's slot, and the three frames are then derived anew,
    /// whichever marker it was.
    pub fn observe<K: Numerics>(&mut self, kernel: &K, new: Pose) -> (outcome: Outcome)
        ensures
            match MarkerId::of_frame(new@.frame) {
                None => outcome == Outcome::Ignored && final(self)@ == old(self)@,
                Some(id) => {
                    &&& outcome == if old(self)@.slot(id) is None {
                        Outcome::Live(id)
                    } else {
                        Outcome::Refreshed(id)
                    }
                    &&& old(self)@.taken_in(kernel, id, new@, final(self)@)
                },
            },
    {
        match MarkerId::from_frame(new.frame.as_str()) {
            None => Outcome::Ignored,
            Some(id) => {
                let live = self.update(kernel, id, new);
                let ghost updated = self@;
                self.derive(kernel);
                proof {
                    assert(updated == old(self)@.with_slots(self@.slots));
                }
                if live {
                    Outcome::Live(id)
                } else {
                    Outcome::Refreshed(id)
                }
            },
        }
    }

    /// Takes in one observation as [`State::observe`] does, but only if
    /// `plausible` accepts it. The frame name is looked at first: `plausible`
    /// is asked only about observations of tracked markers, and one that it
    /// turns down leaves the state as it is.
    pub fn observe_checked<K: Numerics, P: Fn(&Pose) -> bool>(
        &mut self,
        kernel: &K,
        new: Pose,
        plausible: &P,
    ) -> (outcome: Outcome)
        requires
            forall|pose: &Pose| plausible.requires((pose,)),
        ensures
            match MarkerId::of_frame(new@.frame) {
                None => outcome == Outcome::Ignored && final(self)@ == old(self)@,
                Some(id) => {
                    &&& plausible.ensures((&new,), outcome != Outcome::Rejected(id))
                    &&& outcome == Outcome::Rejected(id) ==> final(self)@ == old(self)@
                    &&& outcome != Outcome::Rejected(id) ==> {
                        &&& outcome == if old(self)@.slot(id) is None {
                            Outcome::Live(id)
                        } else {
                            Outcome::Refreshed(id)
                        }
                        &&& old(self)@.taken_in(kernel, id, new@, final(self)@)
                    }
                },
            },
    {
        match MarkerId::from_frame(new.frame.as_str()) {
            None => Outcome::Ignored,
            Some(id) => {
                if plausible(&new) {
                    self.observe(kernel, new)
                } else {
                    Outcome::Rejected(id)
                }
            },
        }
    }

    /// Holds marker `id` against the time `now`: if its slot holds a pose
    /// more than `threshold_seconds` whole seconds old, the slot is emptied
    /// and the result is `true`. An empty slot stays empty. No frame is
    /// derived anew.
    pub fn expire(&mut self, id: MarkerId, now: Stamp, threshold_seconds: i32) -> (removed: bool)
        ensures
            removed == old(self)@.stale(id, now, threshold_seconds),
            final(self)@ == old(self)@.expired(id, now, threshold_seconds),
    {
        let removed = match self.slot(id) {
            Some(pose) => pose.stamp.is_stale(now, threshold_seconds),
            None => false,
        };
        if removed {
            match id {
                MarkerId::FacadeLeft => {
                    self.marker_0 = None;
                },
                MarkerId::FacadeRight => {
                    self.marker_1 = None;
                },
                MarkerId::GantryA => {
                    self.marker_2 = None;
                },
                MarkerId::GantryB => {
                    self.marker_15 = None;
                },
                MarkerId::Agv => {
                    self.marker_5 = None;
                },
            }
            proof {
                assert(self@.slots =~= old(self)@.slots.remove(id));
            }
        }
        removed
    }

    /// Holds all five markers against the time `now`, in the order 0, 1, 2,
    /// 15, 5, and returns those that were dropped. No frame is derived anew:
    /// a frame outlives the markers it was derived from until the next
    /// observation arrives.
    pub fn sweep(&mut self, now: Stamp) -> (removed: Vec<MarkerId>)
        ensures
            final(self)@ == old(self)@.swept(now),
            removed@ == old(self)@.dropped_by_sweep(now),
    {
        let mut removed: Vec<MarkerId> = Vec::new();
        if self.expire(MarkerId::FacadeLeft, now, STALE_AFTER_SECONDS) {
            removed.push(MarkerId::FacadeLeft);
        }
        if self.expire(MarkerId::FacadeRight, now, STALE_AFTER_SECONDS) {
            removed.push(MarkerId::FacadeRight);
        }
        if self.expire(MarkerId::GantryA, now, STALE_AFTER_SECONDS) {
            removed.push(MarkerId::GantryA);
        }
        if self.expire(MarkerId::GantryB, now, STALE_AFTER_SECONDS) {
            removed.push(MarkerId::GantryB);
        }
        if self.expire(MarkerId::Agv, now, STALE_AFTER_SECONDS) {
            removed.push(MarkerId::Agv);
        }
        proof {
            assert(self@.slots =~= old(self)@.swept(now).slots);
            assert(removed@ =~= old(self)@.dropped_by_sweep(now));
        }
        removed
    }

    /// Copies the facade and the gantry frame, each present or absent, into
    /// the locked snapshot, and says of each whether it was present: first
    /// the facade, then the gantry.
    pub fn lock(&mut self) -> (present: (bool, bool))
        ensures
            final(self)@ == old(self)@.locked(),
            present.0 == (old(self)@.facade is Some),
            present.1 == (old(self)@.gantry is Some),
    {
        self.locked_gantry_transform = clone_slot(&self.gantry_transform);
        self.locked_facade_transform = clone_slot(&self.facade_transform);
        proof {
            assert(self@.slots =~= old(self)@.slots);
        }
        (self.locked_facade_transform.is_some(), self.locked_gantry_transform.is_some())
    }

    /// Whether both the facade and the gantry frame are present.
    pub fn ready(&self) -> (ready: bool)
        ensures
            ready == self@.ready(),
    {
        self.facade_transform.is_some() && self.gantry_transform.is_some()
    }

    /// The derived frames to publish: those of facade, gantry and AGV that
    /// are present, in this order.
    pub fn live_transforms(&self) -> (batch: Vec<Pose>)
        ensures
            views(batch@) == self@.live_batch(),
    {
        let mut batch: Vec<Pose> = Vec::new();
        if let Some(pose) = &self.facade_transform {
            batch.push(pose.clone());
        }
        if let Some(pose) = &self.gantry_transform {
            batch.push(pose.clone());
        }
        if let Some(pose) = &self.agv_transform {
            batch.push(pose.clone());
        }
        proof {
            assert(views(batch@) =~= self@.live_batch());
        }
        batch
    }

    /// The locked frames to publish at the time `now`: those of facade and
    /// gantry that are present, in this order, named `facade_locked` and
    /// `gantry_locked` and stamped with `now`.
    pub fn locked_transforms(&self, now: Stamp) -> (batch: Vec<Pose>)
        ensures
            views(batch@) == self@.locked_batch(now),
    {
        let mut batch: Vec<Pose> = Vec::new();
        if let Some(pose) = &self.locked_facade_transform {
            let mut pose = pose.renamed("facade_locked");
            pose.stamp = now;
            batch.push(pose);
        }
        if let Some(pose) = &self.locked_gantry_transform {
            let mut pose = pose.renamed("gantry_locked");
            pose.stamp = now;
            batch.push(pose);
        }
        proof {
            assert(views(batch@) =~= self@.locked_batch(now));
        }
        batch
    }
}

} // verus!

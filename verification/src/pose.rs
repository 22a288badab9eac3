//! A stamped pose in a named frame, and its mathematical model.
use vstd::prelude::*;
use crate::geometry::{Orientation, Position, Stamp};

verus! {

/// A pose: where a frame stands relative to its reference frame, and when
/// that was observed.
#[derive(Debug, PartialEq, Eq)]
pub struct Pose {
    /// Name of the reference frame in which the pose is expressed.
    pub reference: String,
    /// Name of the frame that the pose places.
    pub frame: String,
    /// Time of the observation.
    pub stamp: Stamp,
    pub position: Position,
    pub orientation: Orientation,
}

/// The model of a [`Pose`]: the same fields, the names as sequences of
/// characters.
pub struct PoseView {
    pub reference: Seq<char>,
    pub frame: Seq<char>,
    pub stamp: Stamp,
    pub position: Position,
    pub orientation: Orientation,
}

impl PoseView {
    /// The same pose under another frame name.
    pub open spec fn named(self, frame: Seq<char>) -> PoseView {
        PoseView { frame, ..self }
    }

    /// The same pose with another timestamp.
    pub open spec fn stamped(self, stamp: Stamp) -> PoseView {
        PoseView { stamp, ..self }
    }
}

impl View for Pose {
    type V = PoseView;

    open spec fn view(&self) -> PoseView {
        PoseView {
            reference: self.reference@,
            frame: self.frame@,
            stamp: self.stamp,
            position: self.position,
            orientation: self.orientation,
        }
    }
}

impl Clone for Pose {
    fn clone(&self) -> (copy: Pose)
        ensures
            copy == *self,
    {
        Pose {
            reference: self.reference.clone(),
            frame: self.frame.clone(),
            stamp: self.stamp,
            position: self.position,
            orientation: self.orientation,
        }
    }
}

impl Pose {
    /// A copy of the pose under the frame name `frame`.
    pub fn renamed(&self, frame: &str) -> (out: Pose)
        ensures
            out@ == self@.named(frame@),
    {
        Pose {
            reference: self.reference.clone(),
            frame: frame.to_owned(),
            stamp: self.stamp,
            position: self.position,
            orientation: self.orientation,
        }
    }
}

/// The model of a slot that may hold a pose.
pub open spec fn view_of(slot: Option<Pose>) -> Option<PoseView> {
    match slot {
        Some(pose) => Some(pose@),
        None => None,
    }
}

/// A copy of a slot that may hold a pose.
pub fn clone_slot(slot: &Option<Pose>) -> (copy: Option<Pose>)
    ensures
        copy == *slot,
{
    match slot {
        Some(pose) => Some(pose.clone()),
        None => None,
    }
}

} // verus!

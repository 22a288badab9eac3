//! The closed set of tracked markers and the names under which the
//! transport reports them.
use vstd::prelude::*;

verus! {

/// One of the five tracked fiducial markers, named by its role in the cell.
#[derive(Clone, Copy, Debug, PartialEq, Eq, Hash, Structural)]
pub enum MarkerId {
    /// Marker 0, the left end of the facade.
    FacadeLeft,
    /// Marker 1, the right end of the facade.
    FacadeRight,
    /// Marker 2, the first gantry marker.
    GantryA,
    /// Marker 15, the second gantry marker.
    GantryB,
    /// Marker 5, carried by the AGV.
    Agv,
}

/// Whether two strings hold the same text.
fn same_text(a: &str, b: &str) -> (same: bool)
    ensures
        same == (a@ == b@),
{
    let left: String = a.to_owned();
    let right: String = b.to_owned();
    left == right
}

impl MarkerId {
    /// The number printed on the marker.
    pub open spec fn number_spec(self) -> u8 {
        match self {
            MarkerId::FacadeLeft => 0,
            MarkerId::FacadeRight => 1,
            MarkerId::GantryA => 2,
            MarkerId::GantryB => 15,
            MarkerId::Agv => 5,
        }
    }

    /// The marker that carries the number `n`, if any does.
    pub open spec fn of_number(n: u8) -> Option<MarkerId> {
        if n == 0 {
            Some(MarkerId::FacadeLeft)
        } else if n == 1 {
            Some(MarkerId::FacadeRight)
        } else if n == 2 {
            Some(MarkerId::GantryA)
        } else if n == 15 {
            Some(MarkerId::GantryB)
        } else if n == 5 {
            Some(MarkerId::Agv)
        } else {
            None
        }
    }

    /// The frame name under which observations of the marker arrive.
    pub open spec fn frame_name_spec(self) -> Seq<char> {
        match self {
            MarkerId::FacadeLeft => "aruco_0"@,
            MarkerId::FacadeRight => "aruco_1"@,
            MarkerId::GantryA => "aruco_2"@,
            MarkerId::GantryB => "aruco_15"@,
            MarkerId::Agv => "aruco_5"@,
        }
    }

    /// The marker whose observations arrive under `name`, if `name` is one of
    /// the five tracked names.
    pub open spec fn of_frame(name: Seq<char>) -> Option<MarkerId> {
        if name == "aruco_0"@ {
            Some(MarkerId::FacadeLeft)
        } else if name == "aruco_1"@ {
            Some(MarkerId::FacadeRight)
        } else if name == "aruco_2"@ {
            Some(MarkerId::GantryA)
        } else if name == "aruco_15"@ {
            Some(MarkerId::GantryB)
        } else if name == "aruco_5"@ {
            Some(MarkerId::Agv)
        } else {
            None
        }
    }

    /// The number printed on the marker.
    pub fn number(self) -> (n: u8)
        ensures
            n == self.number_spec(),
    {
        match self {
            MarkerId::FacadeLeft => 0,
            MarkerId::FacadeRight => 1,
            MarkerId::GantryA => 2,
            MarkerId::GantryB => 15,
            MarkerId::Agv => 5,
        }
    }

    /// Looks a marker up by its number.
    pub fn from_number(n: u8) -> (id: Option<MarkerId>)
        ensures
            id == Self::of_number(n),
    {
        if n == 0 {
            Some(MarkerId::FacadeLeft)
        } else if n == 1 {
            Some(MarkerId::FacadeRight)
        } else if n == 2 {
            Some(MarkerId::GantryA)
        } else if n == 15 {
            Some(MarkerId::GantryB)
        } else if n == 5 {
            Some(MarkerId::Agv)
        } else {
            None
        }
    }

    /// The frame name under which observations of the marker arrive.
    pub fn frame_name(self) -> (name: &'static str)
        ensures
            name@ == self.frame_name_spec(),
    {
        match self {
            MarkerId::FacadeLeft => "aruco_0",
            MarkerId::FacadeRight => "aruco_1",
            MarkerId::GantryA => "aruco_2",
            MarkerId::GantryB => "aruco_15",
            MarkerId::Agv => "aruco_5",
        }
    }

    /// Recognises the frame name of an incoming observation. Any name but
    /// the five tracked ones gives `None`.
    pub fn from_frame(name: &str) -> (id: Option<MarkerId>)
        ensures
            id == Self::of_frame(name@),
    {
        if same_text(name, "aruco_0") {
            Some(MarkerId::FacadeLeft)
        } else if same_text(name, "aruco_1") {
            Some(MarkerId::FacadeRight)
        } else if same_text(name, "aruco_2") {
            Some(MarkerId::GantryA)
        } else if same_text(name, "aruco_15") {
            Some(MarkerId::GantryB)
        } else if same_text(name, "aruco_5") {
            Some(MarkerId::Agv)
        } else {
            None
        }
    }

    /// A marker is found again by its own number.
    pub proof fn lemma_number_round_trip(self)
        ensures
            Self::of_number(self.number_spec()) == Some(self),
    {
    }

    /// A marker is found again by its own frame name: the five names differ
    /// from one another.
    pub proof fn lemma_frame_round_trip(self)
        ensures
            Self::of_frame(self.frame_name_spec()) == Some(self),
    {
        reveal_strlit("aruco_0");
        reveal_strlit("aruco_1");
        reveal_strlit("aruco_2");
        reveal_strlit("aruco_15");
        reveal_strlit("aruco_5");
        assert("aruco_0"@[6] == '0');
        assert("aruco_1"@[6] == '1');
        assert("aruco_2"@[6] == '2');
        assert("aruco_5"@[6] == '5');
        assert("aruco_15"@.len() == 8);
    }

    /// Only a tracked name is recognised, and it is the name of the marker
    /// it is recognised as.
    pub proof fn lemma_recognised_name(name: Seq<char>)
        ensures
            Self::of_frame(name) matches Some(id) ==> id.frame_name_spec() == name,
    {
    }
}

} // verus!

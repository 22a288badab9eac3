use marker_fusion::geometry::{Position, Scalar, Stamp};
use marker_fusion::marker::MarkerId;
use marker_fusion::pose::{clone_slot, Pose};
use marker_fusion::service::{bool_str, lock_message};

const ALL: [MarkerId; 5] = [
    MarkerId::FacadeLeft,
    MarkerId::FacadeRight,
    MarkerId::GantryA,
    MarkerId::GantryB,
    MarkerId::Agv,
];

#[test]
fn markers_carry_their_numbers() {
    let numbers: Vec<u8> = ALL.iter().map(|id| id.number()).collect();
    assert_eq!(numbers, vec![0, 1, 2, 15, 5]);
    for id in ALL {
        assert_eq!(MarkerId::from_number(id.number()), Some(id));
    }
    for n in 0..=255u8 {
        let known = [0, 1, 2, 15, 5].contains(&n);
        assert_eq!(MarkerId::from_number(n).is_some(), known, "number {}", n);
    }
}

#[test]
fn markers_carry_their_frame_names() {
    let names: Vec<&str> = ALL.iter().map(|id| id.frame_name()).collect();
    assert_eq!(names, vec!["aruco_0", "aruco_1", "aruco_2", "aruco_15", "aruco_5"]);
    for id in ALL {
        assert_eq!(MarkerId::from_frame(id.frame_name()), Some(id));
        assert_eq!(id.frame_name(), format!("aruco_{}", id.number()));
    }
}

#[test]
fn other_frame_names_are_not_markers() {
    for name in ["", "aruco", "aruco_", "aruco_3", "aruco_4", "aruco_10", "aruco_51", "aruco_05",
        "Aruco_0", "aruco_0 ", "aruco-0", "0", "facade_aruco", "agv_aruco", "aruco_١"]
    {
        assert_eq!(MarkerId::from_frame(name), None, "name {:?}", name);
    }
}

#[test]
fn lock_message_has_the_documented_form() {
    assert_eq!(lock_message(true, true), "gantry: true, facade: true");
    assert_eq!(lock_message(true, false), "gantry: true, facade: false");
    assert_eq!(lock_message(false, true), "gantry: false, facade: true");
    assert_eq!(lock_message(false, false), "gantry: false, facade: false");
    for gantry in [false, true] {
        for facade in [false, true] {
            assert_eq!(lock_message(gantry, facade), format!("gantry: {}, facade: {}", gantry, facade));
        }
    }
    assert_eq!(bool_str(true), "true");
    assert_eq!(bool_str(false), "false");
}

#[test]
fn scalars_are_bit_patterns() {
    assert_eq!(Scalar::from_bits(0x3ff0_0000_0000_0000).to_bits(), 1.0_f64.to_bits());
    assert_eq!(Scalar::from_bits(42), Scalar { bits: 42 });
    assert!(Scalar::from_bits(0.0_f64.to_bits()) != Scalar::from_bits((-0.0_f64).to_bits()));
    assert_eq!(Scalar::from_bits(f64::NAN.to_bits()), Scalar::from_bits(f64::NAN.to_bits()));
}

#[test]
fn with_height_replaces_z_alone() {
    let p = Position { x: Scalar { bits: 1 }, y: Scalar { bits: 2 }, z: Scalar { bits: 3 } };
    assert_eq!(
        p.with_height(Scalar { bits: 9 }),
        Position { x: Scalar { bits: 1 }, y: Scalar { bits: 2 }, z: Scalar { bits: 9 } }
    );
}

#[test]
fn poses_are_copied_and_renamed_whole() {
    let pose = Pose {
        reference: "camera".to_string(),
        frame: "aruco_5".to_string(),
        stamp: Stamp { sec: -3, nanosec: 4 },
        position: Position { x: Scalar { bits: 1 }, y: Scalar { bits: 2 }, z: Scalar { bits: 3 } },
        orientation: marker_fusion::geometry::Orientation {
            w: Scalar { bits: 4 },
            x: Scalar { bits: 5 },
            y: Scalar { bits: 6 },
            z: Scalar { bits: 7 },
        },
    };
    assert_eq!(pose.clone(), pose);
    assert_eq!(clone_slot(&Some(pose.clone())), Some(pose.clone()));
    assert_eq!(clone_slot(&None), None);
    let renamed = pose.renamed("agv_aruco");
    assert_eq!(renamed.frame, "agv_aruco");
    assert_eq!(Pose { frame: "aruco_5".to_string(), ..renamed }, pose);
}

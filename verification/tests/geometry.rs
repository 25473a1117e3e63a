use rubiks::cube;
use rubiks::cubie;
use rubiks::cubie::{Color, FaceColor, Kind};
use rubiks::fixed::{snap, Mat3, Vec3, HALF_SCALE, SCALE};

#[test]
fn test_dot_product() {
    // a sticker of the right-face center piece sits at 1.49 lattice units
    // along the x axis; dotted with that axis it gives exactly the sticker
    // plane offset the solved-state detector isolates
    let cubie_face = Vec3::new(1490, 1000, 1000);
    let x_axis = Vec3::new(1, 0, 0);
    assert_eq!(cubie_face.dot(&x_axis), 1490);
}

#[test]
fn from_coordinates_origin_is_no_piece() {
    assert!(Kind::from_coordinates(0, 0, 0).is_none());
}

#[test]
fn from_coordinates_classifies_every_cell() {
    for x in -1i8..=1 {
        for y in -1i8..=1 {
            for z in -1i8..=1 {
                let kind = Kind::from_coordinates(x, y, z);
                let abs_sum = x.abs() + y.abs() + z.abs();
                if x == 0 && y == 0 && z == 0 {
                    assert!(kind.is_none());
                } else if abs_sum == 1 {
                    assert_eq!(kind, Some(Kind::Centre));
                } else if x.abs() == y.abs() && x.abs() == z.abs() {
                    assert_eq!(kind, Some(Kind::Corner));
                } else {
                    assert_eq!(kind, Some(Kind::Edge));
                }
            }
        }
    }
}

#[test]
fn from_coordinates_examples() {
    assert_eq!(Kind::from_coordinates(1, 0, 0), Some(Kind::Centre));
    assert_eq!(Kind::from_coordinates(0, -1, 0), Some(Kind::Centre));
    assert_eq!(Kind::from_coordinates(1, 1, 1), Some(Kind::Corner));
    assert_eq!(Kind::from_coordinates(-1, 1, -1), Some(Kind::Corner));
    assert_eq!(Kind::from_coordinates(1, 1, 0), Some(Kind::Edge));
    assert_eq!(Kind::from_coordinates(0, -1, 1), Some(Kind::Edge));
}

#[test]
fn snap_rounds_to_the_lattice() {
    assert_eq!(snap(0), 0);
    assert_eq!(snap(HALF_SCALE - 1), 0);
    assert_eq!(snap(HALF_SCALE), SCALE);
    assert_eq!(snap(-HALF_SCALE + 1), 0);
    assert_eq!(snap(-HALF_SCALE), -SCALE);
    assert_eq!(snap(1490), SCALE);
    assert_eq!(snap(-999), -SCALE);
}

#[test]
fn snap_is_idempotent_on_lattice_values() {
    for v in [-1999, -1000, -500, -499, 0, 499, 500, 1000, 1999] {
        let once = snap(v);
        assert_eq!(snap(once), once);
    }
}

#[test]
fn cube_face_normals_are_axis_aligned_units() {
    let faces = [
        cube::Face::Top,
        cube::Face::Bottom,
        cube::Face::Left,
        cube::Face::Right,
        cube::Face::Front,
        cube::Face::Back,
        cube::Face::HorizontalCentre,
        cube::Face::VerticalCentre,
    ];
    for face in faces {
        let n = face.normal();
        let ones = [n.x, n.y, n.z].iter().filter(|c| c.abs() == 1).count();
        let zeros = [n.x, n.y, n.z].iter().filter(|c| **c == 0).count();
        assert_eq!(ones, 1);
        assert_eq!(zeros, 2);
    }
}

#[test]
fn center_slices_share_axes_with_flat_faces() {
    assert_eq!(
        cube::Face::HorizontalCentre.normal(),
        cube::Face::Top.normal()
    );
    assert_eq!(cube::Face::VerticalCentre.normal(), cube::Face::Right.normal());
    assert_eq!(cube::Face::Bottom.normal(), Vec3::new(0, -1, 0));
}

#[test]
fn is_center_only_on_the_middle_slices() {
    assert!(cube::Face::HorizontalCentre.is_center());
    assert!(cube::Face::VerticalCentre.is_center());
    for face in cube::Face::flat_faces() {
        assert!(!face.is_center());
    }
}

#[test]
fn flat_faces_lists_the_six_flat_faces() {
    let faces = cube::Face::flat_faces();
    assert_eq!(
        faces,
        vec![
            cube::Face::Top,
            cube::Face::Bottom,
            cube::Face::Left,
            cube::Face::Right,
            cube::Face::Front,
            cube::Face::Back,
        ]
    );
}

#[test]
fn face_labels() {
    assert_eq!(cube::Face::Top.to_string(), "Top");
    assert_eq!(cube::Face::Back.to_string(), "Back");
    assert_eq!(cube::Face::HorizontalCentre.to_string(), "Horizontal Center");
    assert_eq!(cube::Face::VerticalCentre.to_string(), "Vertical Center");
}

#[test]
fn start_colors_follow_the_standard_scheme() {
    assert_eq!(cubie::Face::Top.start_color(), FaceColor::White);
    assert_eq!(cubie::Face::Bottom.start_color(), FaceColor::Yellow);
    assert_eq!(cubie::Face::Left.start_color(), FaceColor::Green);
    assert_eq!(cubie::Face::Right.start_color(), FaceColor::Blue);
    assert_eq!(cubie::Face::Front.start_color(), FaceColor::Red);
    assert_eq!(cubie::Face::Back.start_color(), FaceColor::Orange);
}

#[test]
fn face_color_channels() {
    assert_eq!(
        FaceColor::Orange.color(),
        Color { red: 255, green: 88, blue: 0 }
    );
    assert_eq!(FaceColor::Red.color(), Color { red: 255, green: 0, blue: 0 });
    assert_eq!(
        FaceColor::White.color(),
        Color { red: 255, green: 255, blue: 255 }
    );
    assert_eq!(
        FaceColor::Yellow.color(),
        Color { red: 255, green: 213, blue: 0 }
    );
    assert_eq!(FaceColor::Blue.color(), Color { red: 0, green: 0, blue: 255 });
    assert_eq!(FaceColor::Green.color(), Color { red: 0, green: 255, blue: 0 });
}

#[test]
fn spawn_creates_the_26_pieces_at_rest() {
    let cubies = cubie::spawn_cubies();
    assert_eq!(cubies.len(), 26);
    for bundle in &cubies {
        let t = &bundle.transform;
        for c in [t.translation.x, t.translation.y, t.translation.z] {
            assert!(c == -SCALE || c == 0 || c == SCALE);
        }
        assert!(!(t.translation.x == 0 && t.translation.y == 0 && t.translation.z == 0));
        assert_eq!(t.rotation, Mat3::identity());
        let expected = Kind::from_coordinates(
            (t.translation.x / SCALE) as i8,
            (t.translation.y / SCALE) as i8,
            (t.translation.z / SCALE) as i8,
        );
        assert_eq!(Some(bundle.kind), expected);
    }
}

#[test]
fn spawn_covers_every_non_origin_cell_once() {
    let cubies = cubie::spawn_cubies();
    let mut seen: Vec<(i64, i64, i64)> = cubies
        .iter()
        .map(|b| {
            (
                b.transform.translation.x,
                b.transform.translation.y,
                b.transform.translation.z,
            )
        })
        .collect();
    seen.sort();
    seen.dedup();
    assert_eq!(seen.len(), 26);
}

#[test]
fn cubie_bundle_new_keeps_its_parts() {
    let cubies = cubie::spawn_cubies();
    let b = cubie::CubieBundle::new(Kind::Edge, cubies[0].transform);
    assert_eq!(b.kind, Kind::Edge);
    assert_eq!(b.transform, cubies[0].transform);
}

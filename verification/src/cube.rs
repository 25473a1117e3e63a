//! The cube's nine rotation selectors (six flat faces and two center
//! slices) and the solved-state detector.

use vstd::prelude::*;

use crate::cubie;
use crate::cubie::{sticker_position_spec, Color, CUBIE_FACE_OFFSET};
use crate::fixed::{Transform, Vec3, SCALE};
use crate::rotation::RotationTimer;

verus! {

/// A rotation selector: one of the six flat faces of the cube, or one of
/// the two middle slices.
#[derive(Clone, Copy, Debug, PartialEq, Eq, Structural)]
pub enum Face {
    Top,
    Bottom,
    Left,
    Right,
    Front,
    Back,
    HorizontalCentre,
    VerticalCentre,
}

impl Face {
    /// The two middle slices, as opposed to the six flat faces.
    pub open spec fn spec_is_center(self) -> bool {
        match self {
            Face::HorizontalCentre | Face::VerticalCentre => true,
            _ => false,
        }
    }

    pub fn is_center(&self) -> (r: bool)
        ensures
            r == self.spec_is_center(),
    {
        match self {
            Face::HorizontalCentre | Face::VerticalCentre => true,
            _ => false,
        }
    }

    /// A flat cube face is a face that lies on one plane: all the faces
    /// except the centre ones.
    pub fn flat_faces() -> (r: Vec<Face>)
        ensures
            r@ == seq![
                Face::Top,
                Face::Bottom,
                Face::Left,
                Face::Right,
                Face::Front,
                Face::Back,
            ],
    {
        let mut faces: Vec<Face> = Vec::new();
        faces.push(Face::Top);
        faces.push(Face::Bottom);
        faces.push(Face::Left);
        faces.push(Face::Right);
        faces.push(Face::Front);
        faces.push(Face::Back);
        proof {
            assert(faces@ =~= seq![
                Face::Top,
                Face::Bottom,
                Face::Left,
                Face::Right,
                Face::Front,
                Face::Back,
            ]);
        }
        faces
    }

    /// The unit vector representing the normal for a cube face; a middle
    /// slice turns about the same axis as the flat face it parallels.
    pub open spec fn spec_normal(self) -> Vec3 {
        match self {
            Face::Top => Vec3 { x: 0, y: 1, z: 0 },
            Face::Bottom => Vec3 { x: 0, y: -1i64, z: 0 },
            Face::Left => Vec3 { x: -1i64, y: 0, z: 0 },
            Face::Right => Vec3 { x: 1, y: 0, z: 0 },
            Face::Front => Vec3 { x: 0, y: 0, z: 1 },
            Face::Back => Vec3 { x: 0, y: 0, z: -1i64 },
            Face::HorizontalCentre => Vec3 { x: 0, y: 1, z: 0 },
            Face::VerticalCentre => Vec3 { x: 1, y: 0, z: 0 },
        }
    }

    pub fn normal(&self) -> (n: Vec3)
        ensures
            n == self.spec_normal(),
            n.is_unit_axis(),
    {
        match self {
            Face::Top => Vec3 { x: 0, y: 1, z: 0 },
            Face::Bottom => Vec3 { x: 0, y: -1, z: 0 },
            Face::Left => Vec3 { x: -1, y: 0, z: 0 },
            Face::Right => Vec3 { x: 1, y: 0, z: 0 },
            Face::Front => Vec3 { x: 0, y: 0, z: 1 },
            Face::Back => Vec3 { x: 0, y: 0, z: -1 },
            Face::HorizontalCentre => Vec3 { x: 0, y: 1, z: 0 },
            Face::VerticalCentre => Vec3 { x: 1, y: 0, z: 0 },
        }
    }

    /// The display label of the face.
    pub open spec fn spec_label(self) -> Seq<char> {
        match self {
            Face::Top => "Top"@,
            Face::Bottom => "Bottom"@,
            Face::Left => "Left"@,
            Face::Right => "Right"@,
            Face::Front => "Front"@,
            Face::Back => "Back"@,
            Face::HorizontalCentre => "Horizontal Center"@,
            Face::VerticalCentre => "Vertical Center"@,
        }
    }

    pub fn to_string(&self) -> (r: String)
        ensures
            r@ == self.spec_label(),
    {
        let s: &str = match self {
            Face::Top => "Top",
            Face::Bottom => "Bottom",
            Face::Left => "Left",
            Face::Right => "Right",
            Face::Front => "Front",
            Face::Back => "Back",
            Face::HorizontalCentre => "Horizontal Center",
            Face::VerticalCentre => "Vertical Center",
        };
        let r = s.to_string();
        proof {
            vstd::string::to_string_from_display_ensures_for_str(s, r);
        }
        r
    }

    /// The face drawn for a uniformly random index below eight.
    pub open spec fn spec_from_index(i: int) -> Face {
        if i == 1 {
            Face::Top
        } else if i == 2 {
            Face::Bottom
        } else if i == 3 {
            Face::Left
        } else if i == 4 {
            Face::Right
        } else if i == 5 {
            Face::Front
        } else if i == 6 {
            Face::Back
        } else if i == 7 {
            Face::HorizontalCentre
        } else {
            Face::VerticalCentre
        }
    }

    /// Map an index below eight to a face, each index to its own face.
    pub fn from_index(i: u32) -> (r: Face)
        ensures
            r == Face::spec_from_index(i as int),
    {
        match i {
            1 => Face::Top,
            2 => Face::Bottom,
            3 => Face::Left,
            4 => Face::Right,
            5 => Face::Front,
            6 => Face::Back,
            7 => Face::HorizontalCentre,
            _ => Face::VerticalCentre,
        }
    }
}

/// Whether the cube is currently in a solved state; stale while a move is
/// animating, by design.
pub struct IsCubeSolved(pub bool);

/// The six local sides of a piece, in the order `cubie::Face::variants`
/// lists them.
pub open spec fn local_face_of(l: int) -> cubie::Face {
    if l == 0 {
        cubie::Face::Top
    } else if l == 1 {
        cubie::Face::Bottom
    } else if l == 2 {
        cubie::Face::Left
    } else if l == 3 {
        cubie::Face::Right
    } else if l == 4 {
        cubie::Face::Front
    } else {
        cubie::Face::Back
    }
}

/// Whether sticker `l` of the piece placed by `t` lies on the outer plane
/// of cube face `face`: its world position, dotted with the face normal,
/// is exactly one lattice unit plus the sticker offset.
pub open spec fn sticker_on_face(t: Transform, l: int, face: Face) -> bool {
    sticker_position_spec(t, local_face_of(l)).spec_dot(face.spec_normal()) == SCALE
        + CUBIE_FACE_OFFSET
}

/// The color sticker `l` carries: the start color of its local side, which
/// never changes after spawning.
pub open spec fn sticker_color(l: int) -> Color {
    local_face_of(l).spec_start_color().spec_color()
}

/// All stickers lying on cube face `face` show one color; a face with no
/// sticker on it counts as uniform.
pub open spec fn spec_face_uniform(cubies: Seq<Transform>, face: Face) -> bool {
    forall|i1: int, l1: int, i2: int, l2: int|
        0 <= i1 < cubies.len() && 0 <= l1 < 6 && 0 <= i2 < cubies.len() && 0 <= l2 < 6
            && #[trigger] sticker_on_face(cubies[i1], l1, face) && #[trigger] sticker_on_face(
            cubies[i2],
            l2,
            face,
        ) ==> sticker_color(l1) == sticker_color(l2)
}

/// Every flat face of the cube is uniform.
pub open spec fn spec_cube_solved(cubies: Seq<Transform>) -> bool {
    forall|face: Face| !face.spec_is_center() ==> #[trigger] spec_face_uniform(cubies, face)
}

/// Check whether a single face is in the solved state: sample the color of
/// the first sticker found on it and compare every other one against that
/// sample.
pub fn are_all_colors_on_face_same(face: &Face, cubies: &Vec<Transform>) -> (r: bool)
    requires
        forall|i: int| 0 <= i < cubies@.len() ==> (#[trigger] cubies@[i]).in_range(),
        cubies@.len() * 6 <= usize::MAX,
    ensures
        r == spec_face_uniform(cubies@, *face),
{
    let normal = face.normal();
    let locals = cubie::Face::variants();
    proof {
        assert forall|l: int| 0 <= l < 6 implies locals@[l] == local_face_of(l) by {
            if l == 0 {
            } else if l == 1 {
            } else if l == 2 {
            } else if l == 3 {
            } else if l == 4 {
            } else {
            }
        }
    }

    // a color chosen from the face being checked; used to assert that all
    // other colors on this cube face are the same
    let mut sample_color: Option<Color> = None;

    let total: usize = cubies.len() * 6;
    let mut k: usize = 0;
    while k < total
        invariant
            total == cubies@.len() * 6,
            k <= total,
            normal == face.spec_normal(),
            normal.is_unit_axis(),
            forall|l: int| 0 <= l < 6 ==> locals@[l] == local_face_of(l),
            forall|i: int| 0 <= i < cubies@.len() ==> (#[trigger] cubies@[i]).in_range(),
            match sample_color {
                None => forall|i: int, l: int|
                    0 <= i < cubies@.len() && 0 <= l < 6 && 6 * i + l < k
                        ==> !#[trigger] sticker_on_face(cubies@[i], l, *face),
                Some(c) => {
                    &&& exists|i: int, l: int|
                        0 <= i < cubies@.len() && 0 <= l < 6 && 6 * i + l < k
                            && #[trigger] sticker_on_face(cubies@[i], l, *face) && sticker_color(l)
                            == c
                    &&& forall|i: int, l: int|
                        0 <= i < cubies@.len() && 0 <= l < 6 && 6 * i + l < k && #[trigger]
                        sticker_on_face(cubies@[i], l, *face) ==> sticker_color(l) == c
                },
            },
        decreases total - k,
    {
        let i: usize = k / 6;
        let l: usize = k % 6;
        proof {
            vstd::arithmetic::div_mod::lemma_fundamental_div_mod(k as int, 6);
            assert(i < cubies@.len()) by (nonlinear_arith)
                requires
                    k < cubies@.len() * 6,
                    i == k as int / 6,
                    0 <= k,
            ;
        }
        let local = locals[l];
        let position = cubie::sticker_position(&cubies[i], &local);
        proof {
            assert(6 * (i as int) + l as int == k as int);
        }
        if position.dot(&normal) == SCALE + CUBIE_FACE_OFFSET {
            let color = local.start_color().color();
            proof {
                assert(sticker_on_face(cubies@[i as int], l as int, *face));
                assert(sticker_color(l as int) == color);
            }
            if let Some(sample) = sample_color {
                if sample != color {
                    proof {
                        let (iw, lw): (int, int) = choose|iw: int, lw: int|
                            0 <= iw < cubies@.len() && 0 <= lw < 6 && 6 * iw + lw < k
                                && #[trigger] sticker_on_face(cubies@[iw], lw, *face)
                                && sticker_color(lw) == sample;
                        assert(sticker_on_face(cubies@[i as int], l as int, *face));
                        assert(!spec_face_uniform(cubies@, *face));
                    }
                    return false;
                }
            } else {
                sample_color = Some(color);
            }
        } else {
            proof {
                assert(!sticker_on_face(cubies@[i as int], l as int, *face));
                if sample_color is None {
                    assert forall|i2: int, l2: int|
                        0 <= i2 < cubies@.len() && 0 <= l2 < 6 && 6 * i2 + l2 < k + 1 implies !#[trigger]
                    sticker_on_face(cubies@[i2], l2, *face) by {
                        if 6 * i2 + l2 == k as int {
                            assert(i2 == i as int && l2 == l as int);
                        }
                    }
                }
            }
        }
        k = k + 1;
    }
    proof {
        assert forall|i1: int, l1: int, i2: int, l2: int|
            0 <= i1 < cubies@.len() && 0 <= l1 < 6 && 0 <= i2 < cubies@.len() && 0 <= l2 < 6
                && #[trigger] sticker_on_face(cubies@[i1], l1, *face) && #[trigger]
            sticker_on_face(cubies@[i2], l2, *face) implies sticker_color(l1) == sticker_color(
            l2,
        ) by {
            assert(6 * i1 + l1 < total) by (nonlinear_arith)
                requires
                    0 <= i1 < cubies@.len(),
                    0 <= l1 < 6,
                    total == cubies@.len() * 6,
            ;
            assert(6 * i2 + l2 < total) by (nonlinear_arith)
                requires
                    0 <= i2 < cubies@.len(),
                    0 <= l2 < 6,
                    total == cubies@.len() * 6,
            ;
        }
    }
    true
}

/// Check whether the cube is in a solved state and update the
/// `IsCubeSolved` flag; runs only in the tick in which the cooldown timer
/// wrapped, so never mid-animation, and keeps the stale answer otherwise.
pub fn check_cube_solved(
    is_cube_solved: &mut IsCubeSolved,
    rotation_timer: &RotationTimer,
    cubies: &Vec<Transform>,
)
    requires
        forall|i: int| 0 <= i < cubies@.len() ==> (#[trigger] cubies@[i]).in_range(),
        cubies@.len() * 6 <= usize::MAX,
    ensures
        rotation_timer.spec_finished() ==> final(is_cube_solved).0 == spec_cube_solved(cubies@),
        !rotation_timer.spec_finished() ==> final(is_cube_solved).0 == old(is_cube_solved).0,
{
    if rotation_timer.finished() {
        // check if all cubie faces on a given cube face have the same color
        let mut cube_solved = true;
        let faces = Face::flat_faces();
        let mut f: usize = 0;
        while f < faces.len() && cube_solved
            invariant
                faces@ == seq![
                    Face::Top,
                    Face::Bottom,
                    Face::Left,
                    Face::Right,
                    Face::Front,
                    Face::Back,
                ],
                f <= faces@.len(),
                forall|i: int|
                    0 <= i < cubies@.len() ==> (#[trigger] cubies@[i]).in_range(),
                cubies@.len() * 6 <= usize::MAX,
                cube_solved ==> forall|j: int|
                    0 <= j < f ==> spec_face_uniform(cubies@, #[trigger] faces@[j]),
                !cube_solved ==> !spec_cube_solved(cubies@),
            decreases faces@.len() - f,
        {
            if !are_all_colors_on_face_same(&faces[f], cubies) {
                proof {
                    assert(!faces@[f as int].spec_is_center());
                }
                cube_solved = false;
            }
            f = f + 1;
        }
        proof {
            if cube_solved {
                assert forall|face: Face| !face.spec_is_center() implies #[trigger]
                spec_face_uniform(cubies@, face) by {
                    assert(face == Face::Top || face == Face::Bottom || face == Face::Left
                        || face == Face::Right || face == Face::Front || face == Face::Back);
                }
            }
        }
        is_cube_solved.0 = cube_solved;
    }
}

} // verus!

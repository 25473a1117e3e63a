//! The pieces (cubies) of the puzzle: their lattice classification, their
//! six colored face stickers, and the freshly spawned cube.

use vstd::prelude::*;

use crate::fixed::{iabs, Mat3, Transform, Vec3, SCALE};

verus! {

/// Outward displacement of a face sticker from its piece's center, in
/// fixed-point sub-units (a little under half a lattice unit).
pub const CUBIE_FACE_OFFSET: i64 = 490;

/// Marker for a piece of the cube.
#[derive(Clone, Copy, Debug)]
pub struct Cubie;

/// Marker for a single colored face sticker of a piece.
#[derive(Clone, Copy, Debug)]
pub struct CubieFace;

/// The six flat sides of a single piece, in the piece's own frame.
#[derive(Clone, Copy, Debug, PartialEq, Eq, Structural)]
pub enum Face {
    Top,
    Bottom,
    Left,
    Right,
    Front,
    Back,
}

impl Face {
    /// The unit normal of a piece side, in plain (unscaled) units.
    pub open spec fn spec_normal(self) -> Vec3 {
        match self {
            Face::Top => Vec3 { x: 0, y: 1, z: 0 },
            Face::Bottom => Vec3 { x: 0, y: -1i64, z: 0 },
            Face::Left => Vec3 { x: -1i64, y: 0, z: 0 },
            Face::Right => Vec3 { x: 1, y: 0, z: 0 },
            Face::Front => Vec3 { x: 0, y: 0, z: 1 },
            Face::Back => Vec3 { x: 0, y: 0, z: -1i64 },
        }
    }

    pub fn variants() -> (r: [Face; 6])
        ensures
            r@ == seq![Face::Top, Face::Bottom, Face::Left, Face::Right, Face::Front, Face::Back],
    {
        [Face::Top, Face::Bottom, Face::Left, Face::Right, Face::Front, Face::Back]
    }

    pub fn normal(&self) -> (n: Vec3)
        ensures
            n == self.spec_normal(),
            n.is_unit_axis(),
    {
        match self {
            Face::Top => Vec3 { x: 0, y: 1, z: 0 },
            Face::Bottom => Vec3 { x: 0, y: -1, z: 0 },
            Face::Left => Vec3 { x: -1, y: 0, z: 0 },
            Face::Right => Vec3 { x: 1, y: 0, z: 0 },
            Face::Front => Vec3 { x: 0, y: 0, z: 1 },
            Face::Back => Vec3 { x: 0, y: 0, z: -1 },
        }
    }

    /// The color a piece side shows in the solved state: white on top, red
    /// facing the user, and so on around the cube.
    pub open spec fn spec_start_color(self) -> FaceColor {
        match self {
            Face::Top => FaceColor::White,
            Face::Bottom => FaceColor::Yellow,
            Face::Left => FaceColor::Green,
            Face::Right => FaceColor::Blue,
            Face::Front => FaceColor::Red,
            Face::Back => FaceColor::Orange,
        }
    }

    pub fn start_color(&self) -> (c: FaceColor)
        ensures
            c == self.spec_start_color(),
    {
        match self {
            Face::Top => FaceColor::White,
            Face::Bottom => FaceColor::Yellow,
            Face::Left => FaceColor::Green,
            Face::Right => FaceColor::Blue,
            Face::Front => FaceColor::Red,
            Face::Back => FaceColor::Orange,
        }
    }
}

/// The palette of sticker colors.
#[derive(Clone, Copy, Debug, PartialEq, Eq, Structural)]
pub enum FaceColor {
    Orange,
    Red,
    White,
    Yellow,
    Blue,
    Green,
}

/// An sRGB color with 8-bit channels.
#[derive(Clone, Copy, Debug, PartialEq, Eq, Structural)]
pub struct Color {
    pub red: u8,
    pub green: u8,
    pub blue: u8,
}

impl FaceColor {
    pub open spec fn spec_color(self) -> Color {
        match self {
            FaceColor::Orange => Color { red: 255, green: 88, blue: 0 },
            FaceColor::Red => Color { red: 255, green: 0, blue: 0 },
            FaceColor::White => Color { red: 255, green: 255, blue: 255 },
            FaceColor::Yellow => Color { red: 255, green: 213, blue: 0 },
            FaceColor::Blue => Color { red: 0, green: 0, blue: 255 },
            FaceColor::Green => Color { red: 0, green: 255, blue: 0 },
        }
    }

    pub fn color(&self) -> (c: Color)
        ensures
            c == self.spec_color(),
    {
        match self {
            FaceColor::Orange => Color { red: 255, green: 88, blue: 0 },
            FaceColor::Red => Color { red: 255, green: 0, blue: 0 },
            FaceColor::White => Color { red: 255, green: 255, blue: 255 },
            FaceColor::Yellow => Color { red: 255, green: 213, blue: 0 },
            FaceColor::Blue => Color { red: 0, green: 0, blue: 255 },
            FaceColor::Green => Color { red: 0, green: 255, blue: 0 },
        }
    }
}

/// The position class of a piece within the lattice.
#[derive(Clone, Copy, Debug, PartialEq, Eq, Structural)]
pub enum Kind {
    Centre,
    Corner,
    Edge,
}

/// Classification of a lattice cell: the origin is no piece; a cell with a
/// single unit coordinate is a face center; a cell with all coordinates of
/// equal magnitude is a corner; everything else is an edge.
pub open spec fn spec_classify(x: int, y: int, z: int) -> Option<Kind> {
    if x == 0 && y == 0 && z == 0 {
        None
    } else if iabs(x) + iabs(y) + iabs(z) == 1 {
        Some(Kind::Centre)
    } else if iabs(x) == iabs(y) && iabs(x) == iabs(z) {
        Some(Kind::Corner)
    } else {
        Some(Kind::Edge)
    }
}

impl Kind {
    /// Classify a lattice cell by its coordinates.
    pub fn from_coordinates(x: i8, y: i8, z: i8) -> (r: Option<Kind>)
        ensures
            r == spec_classify(x as int, y as int, z as int),
            (r is None) <==> (x == 0 && y == 0 && z == 0),
            (r == Some(Kind::Centre)) <==> (iabs(x as int) + iabs(y as int) + iabs(z as int)
                == 1),
            (r == Some(Kind::Corner)) <==> (!(x == 0 && y == 0 && z == 0) && iabs(x as int) + iabs(
                y as int,
            ) + iabs(z as int) != 1 && iabs(x as int) == iabs(y as int) && iabs(x as int) == iabs(
                z as int,
            )),
    {
        let x_abs: i32 = if x < 0 {
            -(x as i32)
        } else {
            x as i32
        };
        let y_abs: i32 = if y < 0 {
            -(y as i32)
        } else {
            y as i32
        };
        let z_abs: i32 = if z < 0 {
            -(z as i32)
        } else {
            z as i32
        };
        let abs_sum: i32 = x_abs + y_abs + z_abs;
        if x == 0 && y == 0 && z == 0 {
            None
        } else if abs_sum == 1 {
            Some(Kind::Centre)
        } else if x_abs == y_abs && x_abs == z_abs {
            Some(Kind::Corner)
        } else {
            Some(Kind::Edge)
        }
    }
}

/// Everything a freshly spawned piece carries: its marker, its position
/// class, and its placement in the lattice.
#[derive(Clone, Copy, Debug)]
pub struct CubieBundle {
    pub cubie: Cubie,
    pub kind: Kind,
    pub transform: Transform,
}

impl CubieBundle {
    pub fn new(kind: Kind, transform: Transform) -> (r: CubieBundle)
        ensures
            r.kind == kind,
            r.transform == transform,
    {
        CubieBundle { cubie: Cubie, kind, transform }
    }
}

/// Where a sticker sits in the world: its piece's translation plus the
/// sticker's local outward offset carried through the piece's orientation.
pub open spec fn sticker_position_spec(t: Transform, local: Face) -> Vec3 {
    let n = local.spec_normal();
    let off = Vec3 {
        x: (n.x * CUBIE_FACE_OFFSET) as i64,
        y: (n.y * CUBIE_FACE_OFFSET) as i64,
        z: (n.z * CUBIE_FACE_OFFSET) as i64,
    };
    let carried = t.rotation.spec_apply(off);
    Vec3 {
        x: (t.translation.x + carried.x) as i64,
        y: (t.translation.y + carried.y) as i64,
        z: (t.translation.z + carried.z) as i64,
    }
}

/// Compute a sticker's world position from its piece's placement.
pub fn sticker_position(t: &Transform, local: &Face) -> (p: Vec3)
    requires
        t.in_range(),
    ensures
        p == sticker_position_spec(*t, *local),
        -8 * SCALE <= p.x <= 8 * SCALE,
        -8 * SCALE <= p.y <= 8 * SCALE,
        -8 * SCALE <= p.z <= 8 * SCALE,
{
    let n = local.normal();
    let off = Vec3 { x: n.x * CUBIE_FACE_OFFSET, y: n.y * CUBIE_FACE_OFFSET, z: n.z
        * CUBIE_FACE_OFFSET };
    let carried = crate::fixed::mat_apply(&t.rotation, &off);
    Vec3 {
        x: t.translation.x + carried.x,
        y: t.translation.y + carried.y,
        z: t.translation.z + carried.z,
    }
}

/// The unscaled lattice coordinates of cell number `n` of the 3x3x3 grid,
/// counted with `x` varying slowest and `z` fastest.
pub open spec fn cell_x(n: int) -> int {
    n / 9 - 1
}

pub open spec fn cell_y(n: int) -> int {
    (n / 3) % 3 - 1
}

pub open spec fn cell_z(n: int) -> int {
    n % 3 - 1
}

/// Cell numbers in spawn order: the origin (cell 13) spawns no piece.
pub open spec fn spawn_index(i: int) -> int {
    if i < 13 {
        i
    } else {
        i + 1
    }
}

/// A freshly spawned piece for cell `n`: at rest on its cell, with the
/// identity orientation, classified by its coordinates.
pub open spec fn spawned_cubie_correct(b: CubieBundle, n: int) -> bool {
    &&& b.transform.translation == (Vec3 {
        x: (cell_x(n) * SCALE) as i64,
        y: (cell_y(n) * SCALE) as i64,
        z: (cell_z(n) * SCALE) as i64,
    })
    &&& b.transform.rotation == Mat3::spec_identity()
    &&& Some(b.kind) == spec_classify(cell_x(n), cell_y(n), cell_z(n))
}

/// Spawn the 26 pieces of the cube, one per non-origin cell of the 3x3x3
/// lattice, each at rest with the identity orientation.
pub fn spawn_cubies() -> (r: Vec<CubieBundle>)
    ensures
        r@.len() == 26,
        forall|i: int| 0 <= i < 26 ==> spawned_cubie_correct(r@[i], spawn_index(i)),
        forall|i: int|
            0 <= i < 26 ==> (#[trigger] r@[i]).transform.is_snapped()
                && r@[i].transform.in_range(),
{
    let mut cubies: Vec<CubieBundle> = Vec::new();
    let mut n: usize = 0;
    while n < 27
        invariant
            n <= 27,
            cubies@.len() == if n <= 13 {
                n as int
            } else {
                n - 1
            },
            forall|i: int|
                0 <= i < cubies@.len() ==> spawned_cubie_correct(cubies@[i], spawn_index(i)),
            forall|i: int|
                0 <= i < cubies@.len() ==> (#[trigger] cubies@[i]).transform.is_snapped()
                    && cubies@[i].transform.in_range(),
        decreases 27 - n,
    {
        if n != 13 {
            let x: i64 = (n / 9) as i64 - 1;
            let y: i64 = ((n / 3) % 3) as i64 - 1;
            let z: i64 = (n % 3) as i64 - 1;
            let translation = Vec3 { x: x * SCALE, y: y * SCALE, z: z * SCALE };
            let transform = Transform { translation, rotation: Mat3::identity() };
            if let Some(kind) = Kind::from_coordinates(x as i8, y as i8, z as i8) {
                cubies.push(CubieBundle::new(kind, transform));
            }
        }
        n = n + 1;
    }
    cubies
}

} // verus!

//! Fixed-point geometry: vectors, rotation matrices and transforms.
//!
//! One lattice unit is [`SCALE`] sub-units and one quarter turn is
//! [`ONE_ROTATION_ANGLE`] angle units, so every resting coordinate and every
//! resting orientation entry is an exact multiple of [`SCALE`].

use vstd::prelude::*;

verus! {

/// Number of fixed-point sub-units in one lattice unit.
pub const SCALE: i64 = 1000;

/// Half a lattice unit; the rounding threshold used when snapping.
pub const HALF_SCALE: i64 = 500;

/// Largest magnitude a coordinate may take while a slice is animating.
/// The cube fits in a ball of radius `sqrt(3)` lattice units, so two units
/// leave room for every reachable point; rotation clamps to this bound.
pub const MAX_COORD: i64 = 2000;

/// Angle units in one quarter turn (90 degrees).
pub const ONE_ROTATION_ANGLE: i64 = 1000;

/// Magnitude of an integer.
pub open spec fn iabs(a: int) -> int {
    if a < 0 {
        -a
    } else {
        a
    }
}

/// Truncating division (rounding toward zero), the semantics of `/` on the
/// machine integers this module computes with.
pub open spec fn tdiv(a: int, d: int) -> int
    recommends
        d > 0,
{
    if a >= 0 {
        a / d
    } else {
        -((-a) / d)
    }
}

/// Clamp a coordinate into the animation range `[-MAX_COORD, MAX_COORD]`.
pub open spec fn clamp_coord(a: int) -> int {
    if a < -MAX_COORD {
        -MAX_COORD as int
    } else if a > MAX_COORD {
        MAX_COORD as int
    } else {
        a
    }
}

/// Round a coordinate to the nearest lattice value: anything less than half
/// a lattice unit in magnitude becomes zero, the rest becomes a signed unit.
pub open spec fn snap_coord(a: int) -> int {
    if a >= HALF_SCALE {
        SCALE as int
    } else if a <= -HALF_SCALE {
        -SCALE as int
    } else {
        0
    }
}

/// A coordinate that rests exactly on the lattice.
pub open spec fn is_lattice_coord(a: int) -> bool {
    a == -SCALE || a == 0 || a == SCALE
}

/// Divide a sub-unit-squared quantity back down to sub-units, rounding
/// toward zero as the reference floating-point arithmetic would.
fn div_scale(a: i64) -> (r: i64)
    requires
        i64::MIN < a,
    ensures
        r == tdiv(a as int, SCALE as int),
        0 <= a ==> 0 <= r <= a,
        a <= 0 ==> a <= r <= 0,
{
    if a >= 0 {
        ((a as u64) / (SCALE as u64)) as i64
    } else {
        -((((-a) as u64) / (SCALE as u64)) as i64)
    }
}

/// Clamp a coordinate into the animation range.
fn clamp(a: i64) -> (r: i64)
    ensures
        r == clamp_coord(a as int),
{
    if a < -MAX_COORD {
        -MAX_COORD
    } else if a > MAX_COORD {
        MAX_COORD
    } else {
        a
    }
}

/// Round a coordinate to the nearest lattice value.
pub fn snap(a: i64) -> (r: i64)
    ensures
        r == snap_coord(a as int),
        is_lattice_coord(r as int),
{
    if a >= HALF_SCALE {
        SCALE
    } else if a <= -HALF_SCALE {
        -SCALE
    } else {
        0
    }
}

/// A fixed-point three-component vector.
#[derive(Clone, Copy, Debug, PartialEq, Eq, Structural)]
pub struct Vec3 {
    pub x: i64,
    pub y: i64,
    pub z: i64,
}

impl Vec3 {
    /// Every component within the animation range.
    pub open spec fn in_range(self) -> bool {
        &&& -MAX_COORD <= self.x <= MAX_COORD
        &&& -MAX_COORD <= self.y <= MAX_COORD
        &&& -MAX_COORD <= self.z <= MAX_COORD
    }

    /// Every component resting exactly on the lattice.
    pub open spec fn is_lattice(self) -> bool {
        &&& is_lattice_coord(self.x as int)
        &&& is_lattice_coord(self.y as int)
        &&& is_lattice_coord(self.z as int)
    }

    /// An axis-aligned unit vector, in plain (unscaled) units: exactly one
    /// component is `1` or `-1` and the others are zero.
    pub open spec fn is_unit_axis(self) -> bool {
        ||| (self.x == 1 || self.x == -1) && self.y == 0 && self.z == 0
        ||| (self.y == 1 || self.y == -1) && self.x == 0 && self.z == 0
        ||| (self.z == 1 || self.z == -1) && self.x == 0 && self.y == 0
    }

    pub open spec fn spec_dot(self, unit: Vec3) -> int {
        self.x * unit.x + self.y * unit.y + self.z * unit.z
    }

    pub fn new(x: i64, y: i64, z: i64) -> (v: Vec3)
        ensures
            v == (Vec3 { x, y, z }),
    {
        Vec3 { x, y, z }
    }

    /// Dot product of a fixed-point vector with an axis-aligned unit vector;
    /// the result keeps the fixed-point scale of `self`.
    pub fn dot(&self, unit: &Vec3) -> (d: i64)
        requires
            -8 * SCALE <= self.x <= 8 * SCALE,
            -8 * SCALE <= self.y <= 8 * SCALE,
            -8 * SCALE <= self.z <= 8 * SCALE,
            unit.is_unit_axis(),
        ensures
            d == self.spec_dot(*unit),
            -8 * SCALE <= d <= 8 * SCALE,
    {
        self.x * unit.x + self.y * unit.y + self.z * unit.z
    }
}

/// First component of a plane rotation: `(c * a - s * b) / SCALE`, clamped.
pub open spec fn rot_first(a: int, b: int, s: int, c: int) -> int {
    clamp_coord(tdiv(c * a - s * b, SCALE as int))
}

/// Second component of a plane rotation: `(s * a + c * b) / SCALE`, clamped.
pub open spec fn rot_second(a: int, b: int, s: int, c: int) -> int {
    clamp_coord(tdiv(s * a + c * b, SCALE as int))
}

/// Rotate a vector about an axis-aligned unit vector, given the fixed-point
/// sine and cosine of the angle. The component along the axis is unchanged;
/// the plane across it turns right-handedly about the axis direction.
pub open spec fn rotate_vec_spec(v: Vec3, axis: Vec3, s: int, c: int) -> Vec3
    recommends
        axis.is_unit_axis(),
{
    if axis.x != 0 {
        let sg = axis.x * s;
        Vec3 {
            x: v.x,
            y: rot_first(v.y as int, v.z as int, sg, c) as i64,
            z: rot_second(v.y as int, v.z as int, sg, c) as i64,
        }
    } else if axis.y != 0 {
        let sg = axis.y * s;
        Vec3 {
            x: rot_second(v.z as int, v.x as int, sg, c) as i64,
            y: v.y,
            z: rot_first(v.z as int, v.x as int, sg, c) as i64,
        }
    } else {
        let sg = axis.z * s;
        Vec3 {
            x: rot_first(v.x as int, v.y as int, sg, c) as i64,
            y: rot_second(v.x as int, v.y as int, sg, c) as i64,
            z: v.z,
        }
    }
}

/// Rotate one plane coordinate pair; `r.0` and `r.1` replace `a` and `b`.
fn rotate_pair(a: i64, b: i64, s: i64, c: i64) -> (r: (i64, i64))
    requires
        -MAX_COORD <= a <= MAX_COORD,
        -MAX_COORD <= b <= MAX_COORD,
        -SCALE <= s <= SCALE,
        -SCALE <= c <= SCALE,
    ensures
        r.0 == rot_first(a as int, b as int, s as int, c as int),
        r.1 == rot_second(a as int, b as int, s as int, c as int),
        -MAX_COORD <= r.0 <= MAX_COORD,
        -MAX_COORD <= r.1 <= MAX_COORD,
{
    proof {
        assert(-MAX_COORD * SCALE <= c * a <= MAX_COORD * SCALE) by (nonlinear_arith)
            requires
                -MAX_COORD <= a <= MAX_COORD,
                -SCALE <= c <= SCALE,
        ;
        assert(-MAX_COORD * SCALE <= s * b <= MAX_COORD * SCALE) by (nonlinear_arith)
            requires
                -MAX_COORD <= b <= MAX_COORD,
                -SCALE <= s <= SCALE,
        ;
        assert(-MAX_COORD * SCALE <= s * a <= MAX_COORD * SCALE) by (nonlinear_arith)
            requires
                -MAX_COORD <= a <= MAX_COORD,
                -SCALE <= s <= SCALE,
        ;
        assert(-MAX_COORD * SCALE <= c * b <= MAX_COORD * SCALE) by (nonlinear_arith)
            requires
                -MAX_COORD <= b <= MAX_COORD,
                -SCALE <= c <= SCALE,
        ;
    }
    let first: i64 = clamp(div_scale(c * a - s * b));
    let second: i64 = clamp(div_scale(s * a + c * b));
    (first, second)
}

/// Rotate a vector about an axis-aligned unit vector.
pub fn rotate_vec(v: &Vec3, axis: &Vec3, s: i64, c: i64) -> (r: Vec3)
    requires
        v.in_range(),
        axis.is_unit_axis(),
        -SCALE <= s <= SCALE,
        -SCALE <= c <= SCALE,
    ensures
        r == rotate_vec_spec(*v, *axis, s as int, c as int),
        r.in_range(),
{
    if axis.x != 0 {
        let (ry, rz) = rotate_pair(v.y, v.z, axis.x * s, c);
        Vec3 { x: v.x, y: ry, z: rz }
    } else if axis.y != 0 {
        let (rz, rx) = rotate_pair(v.z, v.x, axis.y * s, c);
        Vec3 { x: rx, y: v.y, z: rz }
    } else {
        let (rx, ry) = rotate_pair(v.x, v.y, axis.z * s, c);
        Vec3 { x: rx, y: ry, z: v.z }
    }
}

/// Rational sine approximation on `[0, pi]`, here parameterized by
/// `u = theta * (2 * Q - theta)` where `Q` is one quarter turn: the value is
/// `4 * u * SCALE / (5 * Q^2 - u)`. It is exact at `0` and at a quarter turn.
pub open spec fn bhaskara(u: int) -> int
    recommends
        0 <= u <= ONE_ROTATION_ANGLE * ONE_ROTATION_ANGLE,
{
    4 * u * SCALE / (5 * ONE_ROTATION_ANGLE * ONE_ROTATION_ANGLE - u)
}

/// Fixed-point sine of an angle in `[-Q, Q]` (a quarter turn either way),
/// scaled by [`SCALE`]; odd in the angle and exact at `0` and `-Q`, `Q`.
pub open spec fn sin_fp(theta: int) -> int
    recommends
        -ONE_ROTATION_ANGLE <= theta <= ONE_ROTATION_ANGLE,
{
    if theta >= 0 {
        bhaskara(theta * (2 * ONE_ROTATION_ANGLE - theta))
    } else {
        -bhaskara((-theta) * (2 * ONE_ROTATION_ANGLE + theta))
    }
}

/// Fixed-point cosine of an angle in `[-Q, Q]`, scaled by [`SCALE`]; even in
/// the angle and exact at `0` and `-Q`, `Q`.
pub open spec fn cos_fp(theta: int) -> int
    recommends
        -ONE_ROTATION_ANGLE <= theta <= ONE_ROTATION_ANGLE,
{
    bhaskara(ONE_ROTATION_ANGLE * ONE_ROTATION_ANGLE - theta * theta)
}

/// Evaluate [`bhaskara`] on its exact domain.
fn bhaskara_ratio(u: u64) -> (r: i64)
    requires
        u <= (ONE_ROTATION_ANGLE * ONE_ROTATION_ANGLE) as u64,
    ensures
        r == bhaskara(u as int),
        0 <= r <= SCALE,
{
    let num: u64 = 4 * u * (SCALE as u64);
    let den: u64 = (5 * ONE_ROTATION_ANGLE * ONE_ROTATION_ANGLE) as u64 - u;
    proof {
        assert(num <= (SCALE as u64) * den) by (nonlinear_arith)
            requires
                num == 4 * u * SCALE,
                den == 5 * ONE_ROTATION_ANGLE * ONE_ROTATION_ANGLE - u,
                u <= ONE_ROTATION_ANGLE * ONE_ROTATION_ANGLE,
        ;
        assert(num / den <= SCALE as u64) by (nonlinear_arith)
            requires
                num <= (SCALE as u64) * den,
                den > 0,
        ;
    }
    (num / den) as i64
}

/// Fixed-point sine and cosine of an angle no larger than a quarter turn.
pub fn sin_cos(theta: i64) -> (sc: (i64, i64))
    requires
        -ONE_ROTATION_ANGLE <= theta <= ONE_ROTATION_ANGLE,
    ensures
        sc.0 == sin_fp(theta as int),
        sc.1 == cos_fp(theta as int),
        -SCALE <= sc.0 <= SCALE,
        0 <= sc.1 <= SCALE,
{
    proof {
        assert(theta * (2 * ONE_ROTATION_ANGLE - theta)
            <= ONE_ROTATION_ANGLE * ONE_ROTATION_ANGLE) by (nonlinear_arith);
        assert(theta >= 0 ==> theta * (2 * ONE_ROTATION_ANGLE - theta) >= 0) by (nonlinear_arith)
            requires
                theta <= ONE_ROTATION_ANGLE,
        ;
        assert((-theta) * (2 * ONE_ROTATION_ANGLE + theta)
            <= ONE_ROTATION_ANGLE * ONE_ROTATION_ANGLE) by (nonlinear_arith);
        assert(theta < 0 ==> (-theta) * (2 * ONE_ROTATION_ANGLE + theta) >= 0) by (nonlinear_arith)
            requires
                -ONE_ROTATION_ANGLE <= theta,
        ;
        assert(0 <= theta * theta <= ONE_ROTATION_ANGLE * ONE_ROTATION_ANGLE) by (nonlinear_arith)
            requires
                -ONE_ROTATION_ANGLE <= theta <= ONE_ROTATION_ANGLE,
        ;
    }
    let s: i64 = if theta >= 0 {
        bhaskara_ratio((theta * (2 * ONE_ROTATION_ANGLE - theta)) as u64)
    } else {
        -bhaskara_ratio(((-theta) * (2 * ONE_ROTATION_ANGLE + theta)) as u64)
    };
    let c: i64 = bhaskara_ratio(
        (ONE_ROTATION_ANGLE * ONE_ROTATION_ANGLE - theta * theta) as u64,
    );
    (s, c)
}

/// A fixed-point 3x3 matrix, stored by rows; orientations are rotation
/// matrices scaled by [`SCALE`].
#[derive(Clone, Copy, Debug, PartialEq, Eq, Structural)]
pub struct Mat3 {
    pub x: Vec3,
    pub y: Vec3,
    pub z: Vec3,
}

/// Reassemble a matrix from its three columns.
pub open spec fn mat_from_cols(cx: Vec3, cy: Vec3, cz: Vec3) -> Mat3 {
    Mat3 {
        x: Vec3 { x: cx.x, y: cy.x, z: cz.x },
        y: Vec3 { x: cx.y, y: cy.y, z: cz.y },
        z: Vec3 { x: cx.z, y: cy.z, z: cz.z },
    }
}

/// Rotate a matrix about an axis-aligned unit vector by rotating each of its
/// columns as a vector.
pub open spec fn rotate_mat_spec(m: Mat3, axis: Vec3, s: int, c: int) -> Mat3
    recommends
        axis.is_unit_axis(),
{
    mat_from_cols(
        rotate_vec_spec(m.spec_col_x(), axis, s, c),
        rotate_vec_spec(m.spec_col_y(), axis, s, c),
        rotate_vec_spec(m.spec_col_z(), axis, s, c),
    )
}

impl Mat3 {
    pub open spec fn in_range(self) -> bool {
        self.x.in_range() && self.y.in_range() && self.z.in_range()
    }

    /// Every entry resting on a multiple of [`SCALE`]: an exact axis-aligned
    /// orientation, up to the rounding the snap performs.
    pub open spec fn is_lattice(self) -> bool {
        self.x.is_lattice() && self.y.is_lattice() && self.z.is_lattice()
    }

    pub open spec fn spec_col_x(self) -> Vec3 {
        Vec3 { x: self.x.x, y: self.y.x, z: self.z.x }
    }

    pub open spec fn spec_col_y(self) -> Vec3 {
        Vec3 { x: self.x.y, y: self.y.y, z: self.z.y }
    }

    pub open spec fn spec_col_z(self) -> Vec3 {
        Vec3 { x: self.x.z, y: self.y.z, z: self.z.z }
    }

    pub open spec fn spec_identity() -> Mat3 {
        Mat3 {
            x: Vec3 { x: SCALE, y: 0, z: 0 },
            y: Vec3 { x: 0, y: SCALE, z: 0 },
            z: Vec3 { x: 0, y: 0, z: SCALE },
        }
    }

    /// The identity orientation, scaled by [`SCALE`].
    pub fn identity() -> (m: Mat3)
        ensures
            m == Mat3::spec_identity(),
    {
        Mat3 {
            x: Vec3 { x: SCALE, y: 0, z: 0 },
            y: Vec3 { x: 0, y: SCALE, z: 0 },
            z: Vec3 { x: 0, y: 0, z: SCALE },
        }
    }

    /// Apply the matrix to a vector: `(self * v) / SCALE`.
    pub open spec fn spec_apply(self, v: Vec3) -> Vec3 {
        Vec3 {
            x: tdiv(self.x.x * v.x + self.x.y * v.y + self.x.z * v.z, SCALE as int) as i64,
            y: tdiv(self.y.x * v.x + self.y.y * v.y + self.y.z * v.z, SCALE as int) as i64,
            z: tdiv(self.z.x * v.x + self.z.y * v.y + self.z.z * v.z, SCALE as int) as i64,
        }
    }
}

/// One row of a matrix application: `(row . v) / SCALE`.
fn row_apply(row: &Vec3, v: &Vec3) -> (r: i64)
    requires
        row.in_range(),
        -SCALE <= v.x <= SCALE,
        -SCALE <= v.y <= SCALE,
        -SCALE <= v.z <= SCALE,
    ensures
        r == tdiv(row.x * v.x + row.y * v.y + row.z * v.z, SCALE as int),
        -6 * SCALE <= r <= 6 * SCALE,
{
    proof {
        assert(-MAX_COORD * SCALE <= row.x * v.x <= MAX_COORD * SCALE) by (nonlinear_arith)
            requires
                -MAX_COORD <= row.x <= MAX_COORD,
                -SCALE <= v.x <= SCALE,
        ;
        assert(-MAX_COORD * SCALE <= row.y * v.y <= MAX_COORD * SCALE) by (nonlinear_arith)
            requires
                -MAX_COORD <= row.y <= MAX_COORD,
                -SCALE <= v.y <= SCALE,
        ;
        assert(-MAX_COORD * SCALE <= row.z * v.z <= MAX_COORD * SCALE) by (nonlinear_arith)
            requires
                -MAX_COORD <= row.z <= MAX_COORD,
                -SCALE <= v.z <= SCALE,
        ;
    }
    div_scale(row.x * v.x + row.y * v.y + row.z * v.z)
}

/// Apply a matrix to a vector of at most unit length per component.
pub fn mat_apply(m: &Mat3, v: &Vec3) -> (r: Vec3)
    requires
        m.in_range(),
        -SCALE <= v.x <= SCALE,
        -SCALE <= v.y <= SCALE,
        -SCALE <= v.z <= SCALE,
    ensures
        r == m.spec_apply(*v),
        -6 * SCALE <= r.x <= 6 * SCALE,
        -6 * SCALE <= r.y <= 6 * SCALE,
        -6 * SCALE <= r.z <= 6 * SCALE,
{
    Vec3 { x: row_apply(&m.x, v), y: row_apply(&m.y, v), z: row_apply(&m.z, v) }
}

/// Rotate a matrix about an axis-aligned unit vector.
pub fn rotate_mat(m: &Mat3, axis: &Vec3, s: i64, c: i64) -> (r: Mat3)
    requires
        m.in_range(),
        axis.is_unit_axis(),
        -SCALE <= s <= SCALE,
        -SCALE <= c <= SCALE,
    ensures
        r == rotate_mat_spec(*m, *axis, s as int, c as int),
        r.in_range(),
{
    let cx = Vec3 { x: m.x.x, y: m.y.x, z: m.z.x };
    let cy = Vec3 { x: m.x.y, y: m.y.y, z: m.z.y };
    let cz = Vec3 { x: m.x.z, y: m.y.z, z: m.z.z };
    let rx = rotate_vec(&cx, axis, s, c);
    let ry = rotate_vec(&cy, axis, s, c);
    let rz = rotate_vec(&cz, axis, s, c);
    Mat3 {
        x: Vec3 { x: rx.x, y: ry.x, z: rz.x },
        y: Vec3 { x: rx.y, y: ry.y, z: rz.y },
        z: Vec3 { x: rx.z, y: ry.z, z: rz.z },
    }
}

/// A piece's placement: a fixed-point translation and orientation, mutated in
/// place while a slice animates and exact on the lattice in between.
#[derive(Clone, Copy, Debug, PartialEq, Eq, Structural)]
pub struct Transform {
    pub translation: Vec3,
    pub rotation: Mat3,
}

/// Round a vector to the lattice, component by component.
pub open spec fn snap_vec_spec(v: Vec3) -> Vec3 {
    Vec3 {
        x: snap_coord(v.x as int) as i64,
        y: snap_coord(v.y as int) as i64,
        z: snap_coord(v.z as int) as i64,
    }
}

/// Round a matrix to exact axis-aligned entries, entry by entry.
pub open spec fn snap_mat_spec(m: Mat3) -> Mat3 {
    Mat3 { x: snap_vec_spec(m.x), y: snap_vec_spec(m.y), z: snap_vec_spec(m.z) }
}

/// Round a whole transform back onto the lattice.
pub open spec fn snap_transform_spec(t: Transform) -> Transform {
    Transform { translation: snap_vec_spec(t.translation), rotation: snap_mat_spec(t.rotation) }
}

/// Rotate a whole transform about an axis through the cube's center: the
/// translation revolves around the axis and the orientation spins with it.
pub open spec fn rotate_transform_spec(t: Transform, axis: Vec3, s: int, c: int) -> Transform
    recommends
        axis.is_unit_axis(),
{
    Transform {
        translation: rotate_vec_spec(t.translation, axis, s, c),
        rotation: rotate_mat_spec(t.rotation, axis, s, c),
    }
}

impl Transform {
    pub open spec fn in_range(self) -> bool {
        self.translation.in_range() && self.rotation.in_range()
    }

    /// Resting exactly on the lattice, translation and orientation both.
    pub open spec fn is_snapped(self) -> bool {
        self.translation.is_lattice() && self.rotation.is_lattice()
    }

    pub fn new(translation: Vec3, rotation: Mat3) -> (t: Transform)
        ensures
            t == (Transform { translation, rotation }),
    {
        Transform { translation, rotation }
    }
}

/// A lattice coordinate is left alone by the snap rounding.
proof fn lemma_snap_coord_of_lattice(a: int)
    requires
        is_lattice_coord(a),
    ensures
        snap_coord(a) == a,
{
}

/// A lattice vector is left alone by the snap.
proof fn lemma_snap_vec_of_lattice(v: Vec3)
    requires
        v.is_lattice(),
    ensures
        snap_vec_spec(v) == v,
{
    lemma_snap_coord_of_lattice(v.x as int);
    lemma_snap_coord_of_lattice(v.y as int);
    lemma_snap_coord_of_lattice(v.z as int);
}

/// A snap always lands on the lattice.
pub proof fn lemma_snap_is_lattice(t: Transform)
    ensures
        snap_transform_spec(t).is_snapped(),
{
}

/// A transform already resting on the lattice is left alone by the snap.
pub proof fn lemma_snap_of_snapped(t: Transform)
    requires
        t.is_snapped(),
    ensures
        snap_transform_spec(t) == t,
{
    lemma_snap_vec_of_lattice(t.translation);
    lemma_snap_vec_of_lattice(t.rotation.x);
    lemma_snap_vec_of_lattice(t.rotation.y);
    lemma_snap_vec_of_lattice(t.rotation.z);
}

/// Snapping a second time is a no-op: the snap is idempotent.
pub proof fn lemma_snap_idempotent(t: Transform)
    ensures
        snap_transform_spec(snap_transform_spec(t)) == snap_transform_spec(t),
{
    lemma_snap_is_lattice(t);
    lemma_snap_of_snapped(snap_transform_spec(t));
}

/// At a quarter turn either way the fixed-point sine and cosine are exact,
/// as they are at rest: the full-turn step loses nothing to rounding.
pub proof fn lemma_trig_exact_at_quarter()
    ensures
        sin_fp(0) == 0,
        cos_fp(0) == SCALE,
        sin_fp(ONE_ROTATION_ANGLE as int) == SCALE,
        cos_fp(ONE_ROTATION_ANGLE as int) == 0,
        sin_fp(-ONE_ROTATION_ANGLE as int) == -SCALE,
        cos_fp(-ONE_ROTATION_ANGLE as int) == 0,
{
    vstd::arithmetic::div_mod::lemma_div_multiples_vanish(
        SCALE as int,
        4 * ONE_ROTATION_ANGLE * ONE_ROTATION_ANGLE,
    );
    assert(bhaskara(ONE_ROTATION_ANGLE * ONE_ROTATION_ANGLE) == SCALE);
}

/// Truncating division undoes an exact multiplication by `SCALE`.
proof fn lemma_tdiv_scale_exact(m: int)
    ensures
        tdiv(m * SCALE, SCALE as int) == m,
{
    if m >= 0 {
        vstd::arithmetic::div_mod::lemma_div_multiples_vanish(m, SCALE as int);
    } else {
        vstd::arithmetic::div_mod::lemma_div_multiples_vanish(-m, SCALE as int);
    }
}

/// A quarter turn moves a coordinate pair without any rounding: forward it
/// takes `(a, b)` to `(-b, a)`, backward to `(b, -a)`.
proof fn lemma_rot_quarter(a: int, b: int, sg: int)
    requires
        -MAX_COORD <= a <= MAX_COORD,
        -MAX_COORD <= b <= MAX_COORD,
        sg == SCALE || sg == -SCALE,
    ensures
        rot_first(a, b, sg, 0) == if sg == SCALE { -b } else { b },
        rot_second(a, b, sg, 0) == if sg == SCALE { a } else { -a },
{
    if sg == SCALE {
        assert(0 * a - sg * b == (-b) * SCALE);
        assert(sg * a + 0 * b == a * SCALE);
        lemma_tdiv_scale_exact(-b);
        lemma_tdiv_scale_exact(a);
    } else {
        assert(0 * a - sg * b == b * SCALE);
        assert(sg * a + 0 * b == (-a) * SCALE);
        lemma_tdiv_scale_exact(b);
        lemma_tdiv_scale_exact(-a);
    }
}

/// A forward then a backward quarter turn about one axis returns any vector
/// in the animation range to exactly where it started.
proof fn lemma_rotate_vec_round_trip(v: Vec3, axis: Vec3)
    requires
        axis.is_unit_axis(),
        v.in_range(),
    ensures
        rotate_vec_spec(rotate_vec_spec(v, axis, SCALE as int, 0), axis, -SCALE as int, 0) == v,
{
    assert(axis.x == 1 ==> axis.x * (SCALE as int) == SCALE as int) by (nonlinear_arith);
    assert(axis.x == -1 ==> axis.x * (SCALE as int) == -SCALE as int) by (nonlinear_arith);
    assert(axis.x == 1 ==> axis.x * (-SCALE as int) == -SCALE as int) by (nonlinear_arith);
    assert(axis.x == -1 ==> axis.x * (-SCALE as int) == SCALE as int) by (nonlinear_arith);
    assert(axis.y == 1 ==> axis.y * (SCALE as int) == SCALE as int) by (nonlinear_arith);
    assert(axis.y == -1 ==> axis.y * (SCALE as int) == -SCALE as int) by (nonlinear_arith);
    assert(axis.y == 1 ==> axis.y * (-SCALE as int) == -SCALE as int) by (nonlinear_arith);
    assert(axis.y == -1 ==> axis.y * (-SCALE as int) == SCALE as int) by (nonlinear_arith);
    assert(axis.z == 1 ==> axis.z * (SCALE as int) == SCALE as int) by (nonlinear_arith);
    assert(axis.z == -1 ==> axis.z * (SCALE as int) == -SCALE as int) by (nonlinear_arith);
    assert(axis.z == 1 ==> axis.z * (-SCALE as int) == -SCALE as int) by (nonlinear_arith);
    assert(axis.z == -1 ==> axis.z * (-SCALE as int) == SCALE as int) by (nonlinear_arith);
    if axis.x != 0 {
        lemma_rot_quarter(v.y as int, v.z as int, axis.x * SCALE);
        let w = rotate_vec_spec(v, axis, SCALE as int, 0);
        lemma_rot_quarter(w.y as int, w.z as int, axis.x * (-SCALE));
    } else if axis.y != 0 {
        lemma_rot_quarter(v.z as int, v.x as int, axis.y * SCALE);
        let w = rotate_vec_spec(v, axis, SCALE as int, 0);
        lemma_rot_quarter(w.z as int, w.x as int, axis.y * (-SCALE));
    } else {
        lemma_rot_quarter(v.x as int, v.y as int, axis.z * SCALE);
        let w = rotate_vec_spec(v, axis, SCALE as int, 0);
        lemma_rot_quarter(w.x as int, w.y as int, axis.z * (-SCALE));
    }
}

/// A full quarter turn keeps a lattice vector on the lattice.
proof fn lemma_rotate_vec_quarter_lattice(v: Vec3, axis: Vec3, s: int)
    requires
        axis.is_unit_axis(),
        v.is_lattice(),
        s == SCALE || s == -SCALE,
    ensures
        rotate_vec_spec(v, axis, s, 0).is_lattice(),
{
    assert(axis.x == 1 ==> axis.x * s == s) by (nonlinear_arith);
    assert(axis.x == -1 ==> axis.x * s == -s) by (nonlinear_arith);
    assert(axis.y == 1 ==> axis.y * s == s) by (nonlinear_arith);
    assert(axis.y == -1 ==> axis.y * s == -s) by (nonlinear_arith);
    assert(axis.z == 1 ==> axis.z * s == s) by (nonlinear_arith);
    assert(axis.z == -1 ==> axis.z * s == -s) by (nonlinear_arith);
    if axis.x != 0 {
        lemma_rot_quarter(v.y as int, v.z as int, axis.x * s);
    } else if axis.y != 0 {
        lemma_rot_quarter(v.z as int, v.x as int, axis.y * s);
    } else {
        lemma_rot_quarter(v.x as int, v.y as int, axis.z * s);
    }
}

/// A full quarter turn of a resting transform is an exact lattice motion:
/// the result rests on the lattice again and snapping it changes nothing.
#[verifier::rlimit(100)]
pub proof fn lemma_quarter_turn_snapped(t: Transform, axis: Vec3, s: int)
    requires
        axis.is_unit_axis(),
        t.is_snapped(),
        s == SCALE || s == -SCALE,
    ensures
        rotate_transform_spec(t, axis, s, 0).is_snapped(),
        snap_transform_spec(rotate_transform_spec(t, axis, s, 0)) == rotate_transform_spec(
            t,
            axis,
            s,
            0,
        ),
{
    let r = rotate_transform_spec(t, axis, s, 0);
    lemma_rotate_vec_quarter_lattice(t.translation, axis, s);
    lemma_rotate_vec_quarter_lattice(t.rotation.spec_col_x(), axis, s);
    lemma_rotate_vec_quarter_lattice(t.rotation.spec_col_y(), axis, s);
    lemma_rotate_vec_quarter_lattice(t.rotation.spec_col_z(), axis, s);
    assert(r.translation.is_lattice());
    assert(r.rotation.x.is_lattice());
    assert(r.rotation.y.is_lattice());
    assert(r.rotation.z.is_lattice());
    assert(r.is_snapped());
    lemma_snap_of_snapped(r);
}

/// A forward quarter turn followed by a backward quarter turn about the same
/// axis returns a resting transform to exactly where it started.
pub proof fn lemma_quarter_turn_round_trip(t: Transform, axis: Vec3)
    requires
        axis.is_unit_axis(),
        t.in_range(),
    ensures
        rotate_transform_spec(
            rotate_transform_spec(
                t,
                axis,
                sin_fp(ONE_ROTATION_ANGLE as int),
                cos_fp(ONE_ROTATION_ANGLE as int),
            ),
            axis,
            sin_fp(-ONE_ROTATION_ANGLE as int),
            cos_fp(-ONE_ROTATION_ANGLE as int),
        ) == t,
{
    lemma_trig_exact_at_quarter();
    lemma_rotate_vec_round_trip(t.translation, axis);
    lemma_rotate_vec_round_trip(t.rotation.spec_col_x(), axis);
    lemma_rotate_vec_round_trip(t.rotation.spec_col_y(), axis);
    lemma_rotate_vec_round_trip(t.rotation.spec_col_z(), axis);
    assert(rotate_transform_spec(
        rotate_transform_spec(
            t,
            axis,
            sin_fp(ONE_ROTATION_ANGLE as int),
            cos_fp(ONE_ROTATION_ANGLE as int),
        ),
        axis,
        sin_fp(-ONE_ROTATION_ANGLE as int),
        cos_fp(-ONE_ROTATION_ANGLE as int),
    ).rotation =~= t.rotation);
}

} // verus!

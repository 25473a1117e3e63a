//! The slice-rotation engine: the move representation, the move queue and
//! its cooldown timer, and the per-tick advance that animates a quarter
//! turn and snaps the affected pieces back onto the lattice on completion.

use std::collections::VecDeque;

use vstd::prelude::*;

use crate::cube::Face;
use crate::fixed::{
    cos_fp, iabs, rotate_transform_spec, sin_fp, snap_mat_spec, snap_transform_spec,
    snap_vec_spec, Mat3, Transform, Vec3, HALF_SCALE, ONE_ROTATION_ANGLE, SCALE,
};

verus! {

/// Multiplier on angular velocity: quarter turns advance at twice the
/// elapsed time.
pub const ROTATION_SPEED: i64 = 2;

/// Fixed-point sub-units of elapsed time per second.
pub const MILLIS_PER_SECOND: u64 = 1000;

/// Cooldown between two consecutive moves, in milliseconds.
pub const ROTATION_TIMER_PERIOD_MS: u64 = 500;

/// The direction in which a cube face should be rotated.
#[derive(Clone, Copy, Debug, PartialEq, Eq, Structural)]
pub enum Direction {
    Forward,
    Backward,
}

impl Direction {
    /// The sign the direction puts on the rotation angle.
    pub open spec fn spec_signum(self) -> int {
        match self {
            Direction::Forward => 1,
            Direction::Backward => -1,
        }
    }

    pub fn variants() -> (r: [Direction; 2])
        ensures
            r@ == seq![Direction::Forward, Direction::Backward],
    {
        [Direction::Forward, Direction::Backward]
    }

    pub fn signum(&self) -> (s: i64)
        ensures
            s == self.spec_signum(),
    {
        match self {
            Direction::Forward => 1,
            Direction::Backward => -1,
        }
    }

    /// The direction drawn for a uniformly random index below two.
    pub fn from_index(i: u32) -> (r: Direction)
        ensures
            r == if i == 1 {
                Direction::Forward
            } else {
                Direction::Backward
            },
    {
        match i {
            1 => Direction::Forward,
            _ => Direction::Backward,
        }
    }
}

/// Describes a cube face rotation as a combination of the face to be
/// rotated and the rotation direction.
#[derive(Clone, Copy, Debug, PartialEq, Eq, Structural)]
pub struct Rotation {
    pub face: Face,
    pub direction: Direction,
}

impl Rotation {
    pub fn new(face: Face, direction: Direction) -> (r: Rotation)
        ensures
            r == (Rotation { face, direction }),
    {
        Rotation { face, direction }
    }

    /// A uniformly random move: any of the eight faces, either direction.
    pub fn random() -> (r: Rotation) {
        let direction = Direction::from_index(random_below(2));
        let face = Face::from_index(random_below(8));
        Rotation::new(face, direction)
    }
}

/// Relies on rand's `rng()` and `RngExt::random_range`: a uniformly random
/// value drawn from `0..n`, which is always below `n`.
#[verifier::external_body]
fn random_below(n: u32) -> (r: u32)
    requires
        n > 0,
    ensures
        r < n,
{
    rand::RngExt::random_range(&mut rand::rng(), 0..n)
}

/// Adds some time between rotations so they're not too fast: a repeating
/// timer that reports, each tick, whether it wrapped during that tick.
#[derive(Clone, Copy, Debug)]
pub struct RotationTimer {
    pub elapsed_ms: u64,
    pub just_finished: bool,
}

/// The state of a repeating timer after one tick of `dt` milliseconds.
pub open spec fn after_tick(t: RotationTimer, dt: int) -> RotationTimer {
    if t.elapsed_ms + dt >= ROTATION_TIMER_PERIOD_MS {
        RotationTimer {
            elapsed_ms: ((t.elapsed_ms + dt) % (ROTATION_TIMER_PERIOD_MS as int)) as u64,
            just_finished: true,
        }
    } else {
        RotationTimer { elapsed_ms: (t.elapsed_ms + dt) as u64, just_finished: false }
    }
}

impl RotationTimer {
    /// The elapsed time never reaches a full period between ticks.
    pub open spec fn wf(self) -> bool {
        self.elapsed_ms < ROTATION_TIMER_PERIOD_MS
    }

    /// Whether the cooldown ran out during the last tick.
    pub open spec fn spec_finished(self) -> bool {
        self.just_finished
    }

    pub fn new() -> (t: RotationTimer)
        ensures
            t == (RotationTimer { elapsed_ms: 0u64, just_finished: false }),
            t.wf(),
    {
        RotationTimer { elapsed_ms: 0, just_finished: false }
    }

    /// Advance the timer by `dt_ms`; on wrapping it keeps the remainder, as
    /// a repeating timer does.
    pub fn tick(&mut self, dt_ms: u64)
        requires
            old(self).wf(),
            dt_ms <= u64::MAX - ROTATION_TIMER_PERIOD_MS,
        ensures
            *final(self) == after_tick(*old(self), dt_ms as int),
            final(self).wf(),
    {
        let total = self.elapsed_ms + dt_ms;
        if total >= ROTATION_TIMER_PERIOD_MS {
            self.elapsed_ms = total % ROTATION_TIMER_PERIOD_MS;
            self.just_finished = true;
        } else {
            self.elapsed_ms = total;
            self.just_finished = false;
        }
    }

    /// Whether the cooldown ran out during the last tick; for a repeating
    /// timer this holds exactly in the tick in which it wrapped.
    pub fn finished(&self) -> (r: bool)
        ensures
            r == self.spec_finished(),
    {
        self.just_finished
    }
}

/// The move scheduler: at most one move in progress, with its remaining
/// signed angle, and a FIFO of pending moves.
pub struct Rotations {
    pub current: Option<Rotation>,
    pub current_remaining: i64,
    pub queue: VecDeque<Rotation>,
}

impl Rotations {
    /// The remaining angle always matches the current move: its sign is the
    /// move's direction and its magnitude at most a quarter turn; with no
    /// move in progress it is zero.
    pub open spec fn wf(self) -> bool {
        &&& match self.current {
            Some(r) => match r.direction {
                Direction::Forward => 0 <= self.current_remaining <= ONE_ROTATION_ANGLE,
                Direction::Backward => -ONE_ROTATION_ANGLE <= self.current_remaining <= 0,
            },
            None => self.current_remaining == 0,
        }
    }

    pub fn new(in_progress: Option<Rotation>, queue: VecDeque<Rotation>) -> (r: Rotations)
        ensures
            r.current == in_progress,
            r.queue == queue,
            match in_progress {
                Some(m) => r.current_remaining == ONE_ROTATION_ANGLE * m.direction.spec_signum(),
                None => r.current_remaining == 0,
            },
            r.wf(),
    {
        let current_remaining: i64 = if let Some(in_progress) = &in_progress {
            ONE_ROTATION_ANGLE * in_progress.direction.signum()
        } else {
            0
        };

        Rotations { current: in_progress, current_remaining, queue }
    }

    /// The signed angle still to run on the move in progress; zero when
    /// none is.
    pub fn current_remaining(&self) -> (r: i64)
        ensures
            r == self.current_remaining,
    {
        self.current_remaining
    }

    /// Take `progress` off the remaining angle.
    pub fn progress_current_rotation(&mut self, progress: i64)
        requires
            i64::MIN <= old(self).current_remaining - progress <= i64::MAX,
        ensures
            final(self).current_remaining == old(self).current_remaining - progress,
            final(self).current == old(self).current,
            final(self).queue == old(self).queue,
    {
        self.current_remaining = self.current_remaining - progress;
    }

    pub fn is_queue_empty(&self) -> (r: bool)
        ensures
            r == (self.queue@.len() == 0),
    {
        self.queue.len() == 0
    }

    /// Append a move at the tail of the pending queue; never fails and
    /// respects arrival order.
    pub fn enqueue(&mut self, rotation: Rotation)
        ensures
            final(self).queue@ == old(self).queue@.push(rotation),
            final(self).current == old(self).current,
            final(self).current_remaining == old(self).current_remaining,
    {
        self.queue.push_back(rotation);
    }

    /// Load the next rotation from the queue into `self.current`; only
    /// permitted once the move in progress has fully completed. With an
    /// empty queue the scheduler goes idle.
    pub fn load_next_rotation(&mut self)
        requires
            old(self).current_remaining == 0,
        ensures
            old(self).queue@.len() == 0 ==> final(self).current is None && final(self).queue@
                == old(self).queue@ && final(self).current_remaining == 0,
            old(self).queue@.len() > 0 ==> final(self).current == Some(old(self).queue@[0])
                && final(self).queue@ == old(self).queue@.subrange(
                1,
                old(self).queue@.len() as int,
            ) && final(self).current_remaining == ONE_ROTATION_ANGLE * old(
                self,
            ).queue@[0].direction.spec_signum(),
            final(self).wf(),
    {
        self.current = self.queue.pop_front();
        if let Some(rotation) = &self.current {
            self.current_remaining = ONE_ROTATION_ANGLE * rotation.direction.signum();
        }
    }
}

/// The signed angular step one tick contributes: the elapsed time at the
/// configured speed, capped at the magnitude still remaining, signed like
/// the remaining angle.
pub open spec fn spec_step_size(remaining: int, dt_ms: int) -> int {
    let raw = ONE_ROTATION_ANGLE * ROTATION_SPEED * dt_ms / (MILLIS_PER_SECOND as int);
    let mag = if raw < iabs(remaining) {
        raw
    } else {
        iabs(remaining)
    };
    if remaining >= 0 {
        mag
    } else {
        -mag
    }
}

/// Compute one tick's angular step from the remaining angle and the
/// elapsed milliseconds.
pub fn rotation_step(remaining: i64, dt_ms: u64) -> (step: i64)
    requires
        -ONE_ROTATION_ANGLE <= remaining <= ONE_ROTATION_ANGLE,
    ensures
        step == spec_step_size(remaining as int, dt_ms as int),
        remaining >= 0 ==> 0 <= step <= remaining,
        remaining < 0 ==> remaining <= step <= 0,
{
    proof {
        vstd::arithmetic::div_mod::lemma_div_multiples_vanish(
            2 * (dt_ms as int),
            MILLIS_PER_SECOND as int,
        );
        assert(ONE_ROTATION_ANGLE * ROTATION_SPEED * (dt_ms as int) == (MILLIS_PER_SECOND as int)
            * (2 * (dt_ms as int))) by (nonlinear_arith);
    }
    let mag_limit: u64 = if remaining >= 0 {
        remaining as u64
    } else {
        (-remaining) as u64
    };
    let mag: u64 = match ((ONE_ROTATION_ANGLE * ROTATION_SPEED) as u64).checked_mul(dt_ms) {
        Some(scaled) => {
            let raw = scaled / MILLIS_PER_SECOND;
            if raw < mag_limit {
                raw
            } else {
                mag_limit
            }
        },
        None => mag_limit,
    };
    if remaining >= 0 {
        mag as i64
    } else {
        -(mag as i64)
    }
}

/// Whether a piece at `translation` belongs to the slice selected by a
/// face with normal `axis`: the outer layer along the axis for a flat
/// face, the middle layer for a center slice.
pub open spec fn spec_should_rotate(translation: Vec3, axis: Vec3, is_center_slice: bool) -> bool {
    if is_center_slice {
        0 <= translation.spec_dot(axis) <= HALF_SCALE
    } else {
        translation.spec_dot(axis) >= SCALE
    }
}

/// Whether a piece belongs to the slice a move rotates.
pub open spec fn spec_selected(t: Transform, mv: Rotation) -> bool {
    spec_should_rotate(t.translation, mv.face.spec_normal(), mv.face.spec_is_center())
}

fn should_rotate_cubie(translation: &Vec3, axis: Vec3, is_center_slice: bool) -> (r: bool)
    requires
        translation.in_range(),
        axis.is_unit_axis(),
    ensures
        r == spec_should_rotate(*translation, axis, is_center_slice),
{
    if is_center_slice {
        let dot = translation.dot(&axis);
        dot <= HALF_SCALE && dot >= 0
    } else {
        translation.dot(&axis) >= SCALE
    }
}

/// Snap the provided translation to the `{-1, 0, 1}` lattice.
fn snapped_translation(translation: &Vec3) -> (r: Vec3)
    ensures
        r == snap_vec_spec(*translation),
        r.is_lattice(),
        r.in_range(),
{
    Vec3 {
        x: crate::fixed::snap(translation.x),
        y: crate::fixed::snap(translation.y),
        z: crate::fixed::snap(translation.z),
    }
}

/// Snap the provided orientation to the nearest axis-aligned rotation,
/// entry by entry.
fn snapped_rotation(rotation: &Mat3) -> (r: Mat3)
    ensures
        r == snap_mat_spec(*rotation),
        r.is_lattice(),
        r.in_range(),
{
    Mat3 {
        x: snapped_translation(&rotation.x),
        y: snapped_translation(&rotation.y),
        z: snapped_translation(&rotation.z),
    }
}

/// Snaps the given cubie transform to the grid. Being on the grid means
/// having coordinates in `{-1, 0, 1}` lattice units, with no fractional
/// component left from the animation.
fn snap_cubie_to_grid(cubie: &mut Transform)
    ensures
        *final(cubie) == snap_transform_spec(*old(cubie)),
        final(cubie).is_snapped(),
        final(cubie).in_range(),
{
    cubie.translation = snapped_translation(&cubie.translation);
    cubie.rotation = snapped_rotation(&cubie.rotation);
}

/// A piece's transform after one tick of the move with axis `axis`: turned
/// through `step`, and snapped onto the lattice when the move completes.
pub open spec fn advanced_transform(t: Transform, axis: Vec3, step: int, completing: bool)
    -> Transform {
    let rotated = rotate_transform_spec(t, axis, sin_fp(step), cos_fp(step));
    if completing {
        snap_transform_spec(rotated)
    } else {
        rotated
    }
}

/// The remaining angle after the rotation pass of one tick.
pub open spec fn rem_after_progress(r: Rotations, dt_ms: int) -> int {
    match r.current {
        Some(_) => r.current_remaining - spec_step_size(r.current_remaining as int, dt_ms),
        None => r.current_remaining as int,
    }
}

/// While a move is active, any tick of positive elapsed time makes the
/// remaining magnitude strictly smaller, without ever crossing zero.
pub proof fn lemma_active_move_progresses(remaining: int, dt_ms: int)
    requires
        dt_ms > 0,
        remaining != 0,
        -ONE_ROTATION_ANGLE <= remaining <= ONE_ROTATION_ANGLE,
    ensures
        iabs(remaining - spec_step_size(remaining, dt_ms)) < iabs(remaining),
        remaining > 0 ==> 0 <= remaining - spec_step_size(remaining, dt_ms) < remaining,
        remaining < 0 ==> remaining < remaining - spec_step_size(remaining, dt_ms) <= 0,
{
    vstd::arithmetic::div_mod::lemma_div_multiples_vanish(2 * dt_ms, MILLIS_PER_SECOND as int);
    assert(ONE_ROTATION_ANGLE * ROTATION_SPEED * dt_ms == (MILLIS_PER_SECOND as int) * (2 * dt_ms))
        by (nonlinear_arith);
}

/// Opposite remaining angles give opposite angular steps: the step keeps
/// the sign of what remains and its magnitude ignores it.
pub proof fn lemma_step_sign_opposite(remaining: int, dt_ms: int)
    requires
        dt_ms >= 0,
    ensures
        spec_step_size(-remaining, dt_ms) == -spec_step_size(remaining, dt_ms),
{
}

/// For direction Forward vs Backward on the same face, the angular step of
/// a tick is exactly opposite, starting from the full quarter turn each
/// direction begins with.
pub proof fn lemma_direction_steps_opposite(dt_ms: int)
    requires
        dt_ms >= 0,
    ensures
        spec_step_size(ONE_ROTATION_ANGLE * Direction::Forward.spec_signum(), dt_ms)
            == -spec_step_size(ONE_ROTATION_ANGLE * Direction::Backward.spec_signum(), dt_ms),
{
    lemma_step_sign_opposite(ONE_ROTATION_ANGLE as int, dt_ms);
}

/// A full Forward quarter turn and then a full Backward quarter turn about
/// the same face, each completed (and so snapped) in one tick, return a
/// resting piece to exactly its original transform.
pub proof fn lemma_forward_backward_round_trip(t: Transform, axis: Vec3)
    requires
        axis.is_unit_axis(),
        t.is_snapped(),
    ensures
        advanced_transform(
            advanced_transform(t, axis, ONE_ROTATION_ANGLE as int, true),
            axis,
            -ONE_ROTATION_ANGLE as int,
            true,
        ) == t,
{
    crate::fixed::lemma_trig_exact_at_quarter();
    crate::fixed::lemma_quarter_turn_snapped(t, axis, SCALE as int);
    let u = rotate_transform_spec(t, axis, SCALE as int, 0);
    crate::fixed::lemma_quarter_turn_snapped(u, axis, -SCALE as int);
    crate::fixed::lemma_quarter_turn_round_trip(t, axis);
}

/// Advance the move in progress by one tick: rotate every piece of the
/// selected slice through this tick's angular step, snap the slice onto
/// the lattice in the tick in which the move completes, and, once nothing
/// remains and the cooldown has run out, load the next pending move.
pub fn apply_rotations(
    dt_ms: u64,
    rotation_timer: &mut RotationTimer,
    rotations: &mut Rotations,
    cubie_transforms: &mut Vec<Transform>,
)
    requires
        old(rotation_timer).wf(),
        old(rotations).wf(),
        dt_ms <= u64::MAX - ROTATION_TIMER_PERIOD_MS,
        forall|i: int|
            0 <= i < old(cubie_transforms)@.len() ==> (#[trigger] old(
                cubie_transforms,
            )@[i]).in_range(),
    ensures
        final(cubie_transforms)@.len() == old(cubie_transforms)@.len(),
        forall|i: int|
            0 <= i < old(cubie_transforms)@.len()
                ==> (#[trigger] final(cubie_transforms)@[i]).in_range(),
        final(rotations).wf(),
        final(rotation_timer).wf(),
        // the rotation pass: the selected slice turns by this tick's step and
        // snaps when the move completes; every other piece is untouched
        old(rotations).current matches Some(mv) ==> ({
            let step = spec_step_size(old(rotations).current_remaining as int, dt_ms as int);
            let completing = old(rotations).current_remaining == step;
            &&& forall|i: int|
                0 <= i < old(cubie_transforms)@.len() && spec_selected(
                    #[trigger] old(cubie_transforms)@[i],
                    mv,
                ) ==> final(cubie_transforms)@[i] == advanced_transform(
                    old(cubie_transforms)@[i],
                    mv.face.spec_normal(),
                    step,
                    completing,
                )
            &&& forall|i: int|
                0 <= i < old(cubie_transforms)@.len() && !spec_selected(
                    #[trigger] old(cubie_transforms)@[i],
                    mv,
                ) ==> final(cubie_transforms)@[i] == old(cubie_transforms)@[i]
        }),
        old(rotations).current is None ==> final(cubie_transforms)@ == old(cubie_transforms)@,
        // once the remaining angle reaches zero, every selected piece rests
        // exactly on the lattice
        old(rotations).current matches Some(mv) ==> (spec_step_size(
            old(rotations).current_remaining as int,
            dt_ms as int,
        ) == old(rotations).current_remaining ==> forall|i: int|
            0 <= i < old(cubie_transforms)@.len() && spec_selected(
                #[trigger] old(cubie_transforms)@[i],
                mv,
            ) ==> final(cubie_transforms)@[i].is_snapped()),
        // the scheduler phase: the cooldown ticks only while nothing remains,
        // and the next move loads only when it ran out with moves pending
        ({
            let rem_mid = rem_after_progress(*old(rotations), dt_ms as int);
            &&& rem_mid != 0 ==> *final(rotation_timer) == *old(rotation_timer) && final(rotations).current == old(rotations).current && final(rotations).queue@ == old(rotations).queue@
                && final(rotations).current_remaining == rem_mid
            &&& rem_mid == 0 ==> ({
                let ticked = after_tick(*old(rotation_timer), dt_ms as int);
                &&& *final(rotation_timer) == ticked
                &&& ticked.just_finished && old(rotations).queue@.len() > 0 ==> final(rotations).current == Some(old(rotations).queue@[0]) && final(rotations).queue@ == old(
                    rotations,
                ).queue@.subrange(1, old(rotations).queue@.len() as int) && final(rotations).current_remaining == ONE_ROTATION_ANGLE * old(
                    rotations,
                ).queue@[0].direction.spec_signum()
                &&& !(ticked.just_finished && old(rotations).queue@.len() > 0) ==> final(rotations).current == old(rotations).current && final(rotations).queue@ == old(
                    rotations,
                ).queue@ && final(rotations).current_remaining == 0
            })
        }),
{
    // progress the rotation currently in progress
    let current = rotations.current;
    if let Some(current_rotation) = current {
        let face_normal = current_rotation.face.normal();
        let is_center_slice = current_rotation.face.is_center();
        let step = rotation_step(rotations.current_remaining, dt_ms);
        let (s, c) = crate::fixed::sin_cos(step);
        let completing = rotations.current_remaining == step;
        let ghost old_ts = cubie_transforms@;

        // rotate eligible cubies
        let mut i: usize = 0;
        while i < cubie_transforms.len()
            invariant
                cubie_transforms@.len() == old_ts.len(),
                i <= old_ts.len(),
                forall|j: int| i <= j < old_ts.len() ==> cubie_transforms@[j] == old_ts[j],
                forall|j: int|
                    0 <= j < i && spec_selected(#[trigger] old_ts[j], current_rotation)
                        ==> cubie_transforms@[j] == advanced_transform(
                        old_ts[j],
                        current_rotation.face.spec_normal(),
                        step as int,
                        completing,
                    ),
                forall|j: int|
                    0 <= j < i && !spec_selected(#[trigger] old_ts[j], current_rotation)
                        ==> cubie_transforms@[j] == old_ts[j],
                forall|j: int| 0 <= j < old_ts.len() ==> (#[trigger] old_ts[j]).in_range(),
                forall|j: int|
                    0 <= j < old_ts.len() ==> (#[trigger] cubie_transforms@[j]).in_range(),
                completing ==> forall|j: int|
                    0 <= j < i && spec_selected(#[trigger] old_ts[j], current_rotation)
                        ==> cubie_transforms@[j].is_snapped(),
                face_normal == current_rotation.face.spec_normal(),
                face_normal.is_unit_axis(),
                is_center_slice == current_rotation.face.spec_is_center(),
                s == sin_fp(step as int),
                c == cos_fp(step as int),
                -SCALE <= s <= SCALE,
                -SCALE <= c <= SCALE,
            decreases old_ts.len() - i,
        {
            let t = cubie_transforms[i];
            if should_rotate_cubie(&t.translation, face_normal, is_center_slice) {
                let mut rotated = Transform {
                    translation: crate::fixed::rotate_vec(&t.translation, &face_normal, s, c),
                    rotation: crate::fixed::rotate_mat(&t.rotation, &face_normal, s, c),
                };

                // if the rotation just completed, snap the cubie to the grid
                if completing {
                    snap_cubie_to_grid(&mut rotated);
                }
                cubie_transforms[i] = rotated;
            }
            i = i + 1;
        }
        rotations.progress_current_rotation(step);
    }

    // check if the current rotation has completed
    if rotations.current_remaining() == 0 {
        rotation_timer.tick(dt_ms);
        if rotation_timer.finished() && !rotations.is_queue_empty() {
            rotations.load_next_rotation();
        }
    }
}

} // verus!

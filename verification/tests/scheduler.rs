use std::collections::VecDeque;

use rubiks::cube::Face;
use rubiks::cubie::spawn_cubies;
use rubiks::fixed::{Transform, ONE_ROTATION_ANGLE, SCALE};
use rubiks::rotation::{
    apply_rotations, rotation_step, Direction, Rotation, RotationTimer, Rotations,
};

fn spawn_transforms() -> Vec<Transform> {
    spawn_cubies().iter().map(|b| b.transform).collect()
}

#[test]
fn direction_signum() {
    assert_eq!(Direction::Forward.signum(), 1);
    assert_eq!(Direction::Backward.signum(), -1);
}

#[test]
fn direction_variants_in_order() {
    let v = Direction::variants();
    assert_eq!(v[0], Direction::Forward);
    assert_eq!(v[1], Direction::Backward);
}

#[test]
fn new_rotations_start_with_a_full_quarter_turn() {
    let forward = Rotations::new(
        Some(Rotation::new(Face::Top, Direction::Forward)),
        VecDeque::new(),
    );
    assert_eq!(forward.current_remaining(), ONE_ROTATION_ANGLE);

    let backward = Rotations::new(
        Some(Rotation::new(Face::Top, Direction::Backward)),
        VecDeque::new(),
    );
    assert_eq!(backward.current_remaining(), -ONE_ROTATION_ANGLE);

    let idle = Rotations::new(None, VecDeque::new());
    assert_eq!(idle.current_remaining(), 0);
    assert!(idle.is_queue_empty());
}

#[test]
fn queue_is_first_in_first_out() {
    let mut rotations = Rotations::new(None, VecDeque::new());
    rotations.enqueue(Rotation::new(Face::Left, Direction::Forward));
    rotations.enqueue(Rotation::new(Face::Right, Direction::Backward));
    assert!(!rotations.is_queue_empty());

    rotations.load_next_rotation();
    assert_eq!(rotations.current_remaining(), ONE_ROTATION_ANGLE);
    rotations.progress_current_rotation(ONE_ROTATION_ANGLE);
    assert_eq!(rotations.current_remaining(), 0);

    rotations.load_next_rotation();
    assert_eq!(rotations.current_remaining(), -ONE_ROTATION_ANGLE);
    assert!(rotations.is_queue_empty());
}

#[test]
fn load_next_rotation_on_empty_queue_goes_idle() {
    let mut rotations = Rotations::new(None, VecDeque::new());
    rotations.load_next_rotation();
    assert_eq!(rotations.current_remaining(), 0);
    assert!(rotations.is_queue_empty());
}

#[test]
fn rotation_step_sign_follows_remaining() {
    for dt in [0u64, 1, 100, 250, 499, 500, 1000, 1_000_000] {
        let forward = rotation_step(ONE_ROTATION_ANGLE, dt);
        let backward = rotation_step(-ONE_ROTATION_ANGLE, dt);
        assert_eq!(forward, -backward);
        assert!(forward >= 0);
    }
}

#[test]
fn rotation_step_values() {
    // speed 2: a quarter turn takes half a second
    assert_eq!(rotation_step(ONE_ROTATION_ANGLE, 250), 500);
    assert_eq!(rotation_step(ONE_ROTATION_ANGLE, 100), 200);
    // the step is capped at what remains
    assert_eq!(rotation_step(ONE_ROTATION_ANGLE, 500), ONE_ROTATION_ANGLE);
    assert_eq!(rotation_step(ONE_ROTATION_ANGLE, 10_000), ONE_ROTATION_ANGLE);
    assert_eq!(rotation_step(-300, 10_000), -300);
    assert_eq!(rotation_step(0, 10_000), 0);
}

#[test]
fn timer_wraps_like_a_repeating_timer() {
    let mut timer = RotationTimer::new();
    assert!(!timer.finished());
    timer.tick(499);
    assert!(!timer.finished());
    timer.tick(1);
    assert!(timer.finished());
    timer.tick(200);
    assert!(!timer.finished());
    timer.tick(1100);
    assert!(timer.finished());
}

#[test]
fn one_large_tick_completes_a_move() {
    // enqueue (Front, Forward); tick with dt large enough to complete it in
    // one step; the move loads after the cooldown, completes, and leaves
    // every translation snapped
    let mut transforms = spawn_transforms();
    let mut timer = RotationTimer::new();
    let mut rotations = Rotations::new(None, VecDeque::new());
    rotations.enqueue(Rotation::new(Face::Front, Direction::Forward));

    // first tick: nothing in progress; the cooldown runs out and the move loads
    apply_rotations(500, &mut timer, &mut rotations, &mut transforms);
    assert_eq!(rotations.current_remaining(), ONE_ROTATION_ANGLE);
    assert!(rotations.is_queue_empty());

    // second tick: the full quarter turn happens in one step
    apply_rotations(500, &mut timer, &mut rotations, &mut transforms);
    assert_eq!(rotations.current_remaining(), 0);
    assert!(rotations.is_queue_empty());
    for t in &transforms {
        for c in [t.translation.x, t.translation.y, t.translation.z] {
            assert!(c == -SCALE || c == 0 || c == SCALE);
        }
    }
}

#[test]
fn many_small_ticks_complete_a_move_snapped() {
    let mut transforms = spawn_transforms();
    let mut timer = RotationTimer::new();
    let mut rotations = Rotations::new(
        Some(Rotation::new(Face::Top, Direction::Forward)),
        VecDeque::new(),
    );
    let mut guard = 0;
    while rotations.current_remaining() != 0 {
        apply_rotations(16, &mut timer, &mut rotations, &mut transforms);
        guard += 1;
        assert!(guard < 1000);
    }
    for t in &transforms {
        for c in [t.translation.x, t.translation.y, t.translation.z] {
            assert!(c == -SCALE || c == 0 || c == SCALE);
        }
        for row in [t.rotation.x, t.rotation.y, t.rotation.z] {
            for c in [row.x, row.y, row.z] {
                assert!(c == -SCALE || c == 0 || c == SCALE);
            }
        }
    }
}

#[test]
fn forward_then_backward_returns_to_the_start() {
    let mut transforms = spawn_transforms();
    let initial = transforms.clone();
    let mut timer = RotationTimer::new();
    let mut rotations = Rotations::new(None, VecDeque::new());

    rotations.enqueue(Rotation::new(Face::Front, Direction::Forward));
    apply_rotations(500, &mut timer, &mut rotations, &mut transforms);
    apply_rotations(500, &mut timer, &mut rotations, &mut transforms);
    assert_ne!(transforms, initial);

    rotations.enqueue(Rotation::new(Face::Front, Direction::Backward));
    apply_rotations(500, &mut timer, &mut rotations, &mut transforms);
    apply_rotations(500, &mut timer, &mut rotations, &mut transforms);
    assert_eq!(transforms, initial);
}

#[test]
fn a_quarter_turn_permutes_the_selected_layer() {
    let mut transforms = spawn_transforms();
    let initial = transforms.clone();
    let mut timer = RotationTimer::new();
    let mut rotations = Rotations::new(
        Some(Rotation::new(Face::Top, Direction::Forward)),
        VecDeque::new(),
    );
    apply_rotations(500, &mut timer, &mut rotations, &mut transforms);
    assert_eq!(rotations.current_remaining(), 0);

    let normal = Face::Top.normal();
    for (before, after) in initial.iter().zip(transforms.iter()) {
        if before.translation.dot(&normal) >= SCALE {
            // pieces of the top layer stay in the top layer
            assert_eq!(after.translation.dot(&normal), SCALE);
            // and the layer as a whole really moved
        } else {
            assert_eq!(after, before);
        }
    }
    assert_ne!(transforms, initial);
}

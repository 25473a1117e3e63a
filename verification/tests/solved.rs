use std::collections::VecDeque;

use rubiks::cube::{are_all_colors_on_face_same, check_cube_solved, Face, IsCubeSolved};
use rubiks::cubie::spawn_cubies;
use rubiks::fixed::Transform;
use rubiks::rotation::{apply_rotations, Direction, Rotation, RotationTimer, Rotations};

fn spawn_transforms() -> Vec<Transform> {
    spawn_cubies().iter().map(|b| b.transform).collect()
}

fn finished_timer() -> RotationTimer {
    let mut timer = RotationTimer::new();
    timer.tick(500);
    assert!(timer.finished());
    timer
}

#[test]
fn fresh_cube_is_solved() {
    let transforms = spawn_transforms();
    let timer = finished_timer();
    let mut solved = IsCubeSolved(false);
    check_cube_solved(&mut solved, &timer, &transforms);
    assert!(solved.0);
}

#[test]
fn every_face_of_a_fresh_cube_is_uniform() {
    let transforms = spawn_transforms();
    for face in Face::flat_faces() {
        assert!(are_all_colors_on_face_same(&face, &transforms));
    }
}

#[test]
fn one_turn_breaks_the_solved_state() {
    let mut transforms = spawn_transforms();
    let mut timer = RotationTimer::new();
    let mut rotations = Rotations::new(None, VecDeque::new());
    rotations.enqueue(Rotation::new(Face::Top, Direction::Forward));
    apply_rotations(500, &mut timer, &mut rotations, &mut transforms);
    apply_rotations(500, &mut timer, &mut rotations, &mut transforms);
    assert_eq!(rotations.current_remaining(), 0);
    assert!(timer.finished());

    let mut solved = IsCubeSolved(true);
    check_cube_solved(&mut solved, &timer, &transforms);
    assert!(!solved.0);

    // the top face itself stays uniform under a top turn; a side face does not
    assert!(are_all_colors_on_face_same(&Face::Top, &transforms));
    assert!(!are_all_colors_on_face_same(&Face::Front, &transforms));
}

#[test]
fn detector_keeps_a_stale_answer_mid_cooldown() {
    let transforms = spawn_transforms();
    let timer = RotationTimer::new();
    assert!(!timer.finished());
    let mut solved = IsCubeSolved(false);
    check_cube_solved(&mut solved, &timer, &transforms);
    // not recomputed: the flag keeps its old value
    assert!(!solved.0);
}

#[test]
fn a_face_with_no_stickers_counts_as_uniform() {
    // with no pieces at all, no sticker lies on any face, and each face
    // trivially reports uniform
    let transforms: Vec<Transform> = Vec::new();
    for face in Face::flat_faces() {
        assert!(are_all_colors_on_face_same(&face, &transforms));
    }
    let timer = finished_timer();
    let mut solved = IsCubeSolved(false);
    check_cube_solved(&mut solved, &timer, &transforms);
    assert!(solved.0);
}

#[test]
fn solved_again_after_undoing_the_turn() {
    let mut transforms = spawn_transforms();
    let mut timer = RotationTimer::new();
    let mut rotations = Rotations::new(None, VecDeque::new());

    rotations.enqueue(Rotation::new(Face::Right, Direction::Forward));
    apply_rotations(500, &mut timer, &mut rotations, &mut transforms);
    apply_rotations(500, &mut timer, &mut rotations, &mut transforms);
    rotations.enqueue(Rotation::new(Face::Right, Direction::Backward));
    apply_rotations(500, &mut timer, &mut rotations, &mut transforms);
    apply_rotations(500, &mut timer, &mut rotations, &mut transforms);

    assert!(timer.finished());
    let mut solved = IsCubeSolved(false);
    check_cube_solved(&mut solved, &timer, &transforms);
    assert!(solved.0);
}

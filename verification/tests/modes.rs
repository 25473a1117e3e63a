use std::collections::VecDeque;

use rubiks::cube::Face;
use rubiks::play::{handle_play_mode, PlayMode};
use rubiks::rotation::{Direction, Rotation, Rotations};
use rubiks::ui::{handle_shuffle_press, handle_solve_press, ButtonType, CubeControlButton};

#[test]
fn shuffle_mode_feeds_exactly_one_move_per_idle_tick() {
    let mut rotations = Rotations::new(None, VecDeque::new());
    handle_play_mode(&PlayMode::Shuffle, &mut rotations);
    assert!(!rotations.is_queue_empty());

    // a pending move already waits: nothing more is enqueued
    handle_play_mode(&PlayMode::Shuffle, &mut rotations);
    rotations.load_next_rotation();
    assert!(rotations.is_queue_empty());
    assert_ne!(rotations.current_remaining(), 0);

    // a move is in progress: nothing is enqueued either
    handle_play_mode(&PlayMode::Shuffle, &mut rotations);
    assert!(rotations.is_queue_empty());
}

#[test]
fn idle_and_solve_modes_feed_nothing() {
    let mut rotations = Rotations::new(None, VecDeque::new());
    handle_play_mode(&PlayMode::Idle, &mut rotations);
    assert!(rotations.is_queue_empty());
    handle_play_mode(&PlayMode::Solve, &mut rotations);
    assert!(rotations.is_queue_empty());
}

#[test]
fn play_mode_defaults_to_idle() {
    assert_eq!(PlayMode::default(), PlayMode::Idle);
}

#[test]
fn random_moves_are_well_formed() {
    for _ in 0..64 {
        let rotation = Rotation::random();
        assert!(matches!(
            rotation.direction,
            Direction::Forward | Direction::Backward
        ));
        // any of the eight faces is legal; the normal is always a unit axis
        let n = rotation.face.normal();
        assert_eq!(n.x.abs() + n.y.abs() + n.z.abs(), 1);
    }
}

#[test]
fn shuffle_press_toggles_between_idle_and_shuffle() {
    let mut mode = PlayMode::Idle;
    let mut label = String::from("Shuffle");
    handle_shuffle_press(&mut mode, &mut label);
    assert_eq!(mode, PlayMode::Shuffle);
    assert_eq!(label, "Stop shuffling");

    handle_shuffle_press(&mut mode, &mut label);
    assert_eq!(mode, PlayMode::Idle);
    assert_eq!(label, "Shuffle");

    let mut solving = PlayMode::Solve;
    let mut untouched = String::from("Shuffle");
    handle_shuffle_press(&mut solving, &mut untouched);
    assert_eq!(solving, PlayMode::Solve);
    assert_eq!(untouched, "Shuffle");
}

#[test]
fn solve_press_toggles_between_idle_and_solve() {
    let mut mode = PlayMode::Idle;
    let mut label = String::from("Solve");
    handle_solve_press(&mut mode, &mut label);
    assert_eq!(mode, PlayMode::Solve);
    assert_eq!(label, "Stop solving");

    handle_solve_press(&mut mode, &mut label);
    assert_eq!(mode, PlayMode::Idle);
    assert_eq!(label, "Solve");

    let mut shuffling = PlayMode::Shuffle;
    let mut untouched = String::from("Solve");
    handle_solve_press(&mut shuffling, &mut untouched);
    assert_eq!(shuffling, PlayMode::Shuffle);
    assert_eq!(untouched, "Solve");
}

#[test]
fn control_buttons_request_their_move() {
    let button = CubeControlButton::new(Face::Left, Direction::Backward);
    let rotation = button.rotation();
    assert_eq!(rotation.face, Face::Left);
    assert_eq!(rotation.direction, Direction::Backward);
    let _ = ButtonType::Shuffle;
}

#[test]
fn face_from_index_covers_all_eight() {
    let faces: Vec<Face> = (0..8).map(Face::from_index).collect();
    let mut unique = faces.clone();
    unique.sort_by_key(|f| format!("{:?}", f));
    unique.dedup();
    assert_eq!(unique.len(), 8);
    assert_eq!(Face::from_index(1), Face::Top);
    assert_eq!(Face::from_index(7), Face::HorizontalCentre);
    assert_eq!(Face::from_index(0), Face::VerticalCentre);
}

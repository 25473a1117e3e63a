//! The play-mode driver: a tiny state machine that, while shuffling, keeps
//! the move queue fed with random moves, one at a time.

use vstd::prelude::*;

use crate::rotation::{Rotation, Rotations};

verus! {

/// What the cube is currently doing on its own: nothing, shuffling itself,
/// or solving itself (reserved; currently a no-op).
#[derive(Clone, Copy, Debug, PartialEq, Eq, Structural)]
pub enum PlayMode {
    Idle,
    Shuffle,
    Solve,
}

impl Default for PlayMode {
    fn default() -> (r: PlayMode)
        ensures
            r is Idle,
    {
        PlayMode::Idle
    }
}

/// The tick both feeds on: shuffling, with nothing pending and nothing in
/// progress.
pub open spec fn spec_wants_shuffle_move(play_mode: PlayMode, rotations: Rotations) -> bool {
    play_mode is Shuffle && rotations.queue@.len() == 0 && rotations.current_remaining == 0
}

/// Feed the scheduler while shuffling: exactly one random move is enqueued
/// per tick in which the queue is empty and no move is in progress, so at
/// most one pending move ever accumulates from this feeder.
pub fn handle_play_mode(play_mode: &PlayMode, rotations: &mut Rotations)
    ensures
        spec_wants_shuffle_move(*play_mode, *old(rotations)) ==> final(rotations).queue@.len()
            == 1,
        !spec_wants_shuffle_move(*play_mode, *old(rotations)) ==> final(rotations).queue@ == old(
            rotations,
        ).queue@,
        final(rotations).current == old(rotations).current,
        final(rotations).current_remaining == old(rotations).current_remaining,
{
    match play_mode {
        PlayMode::Idle => {},
        PlayMode::Shuffle => {
            if rotations.is_queue_empty() && rotations.current_remaining() == 0 {
                rotations.enqueue(Rotation::random());
            }
        },
        PlayMode::Solve => {},
    }
}

} // verus!

//! The decisions behind the UI: what each control button means and how the
//! mode-toggling buttons transition the play mode and relabel themselves.

use vstd::prelude::*;

use crate::cube::Face;
use crate::play::PlayMode;
use crate::rotation::{Direction, Rotation};

verus! {

/// The kinds of scene-level buttons the toolbar offers.
#[derive(Clone, Copy, Debug, PartialEq, Eq, Structural)]
pub enum ButtonType {
    ResetCamera,
    Shuffle,
    Solve,
}

/// An individual cube control button: pressing it rotates one cube slice
/// in one fixed direction.
#[derive(Clone, Copy, Debug)]
pub struct CubeControlButton {
    pub face: Face,
    pub rotate_direction: Direction,
}

impl CubeControlButton {
    pub fn new(face: Face, rotate_direction: Direction) -> (r: CubeControlButton)
        ensures
            r.face == face,
            r.rotate_direction == rotate_direction,
    {
        CubeControlButton { face, rotate_direction }
    }

    /// The move this button requests.
    pub fn rotation(&self) -> (r: Rotation)
        ensures
            r == (Rotation { face: self.face, direction: self.rotate_direction }),
    {
        Rotation::new(self.face, self.rotate_direction)
    }
}

/// Handles the 'shuffle' button being pressed: toggle between idle and
/// shuffling, relabeling the button; while solving the press does nothing.
pub fn handle_shuffle_press(play_mode: &mut PlayMode, button_text: &mut String)
    ensures
        *old(play_mode) is Shuffle ==> *final(play_mode) is Idle && final(button_text)@
            == "Shuffle"@,
        *old(play_mode) is Idle ==> *final(play_mode) is Shuffle && final(button_text)@
            == "Stop shuffling"@,
        *old(play_mode) is Solve ==> *final(play_mode) == *old(play_mode) && final(button_text)@
            == old(button_text)@,
{
    match play_mode {
        PlayMode::Shuffle => {
            *play_mode = PlayMode::Idle;
            let label = "Shuffle";
            let text = label.to_string();
            proof {
                vstd::string::to_string_from_display_ensures_for_str(label, text);
            }
            *button_text = text;
        },
        // going from Idle to Shuffle
        PlayMode::Idle => {
            *play_mode = PlayMode::Shuffle;
            let label = "Stop shuffling";
            let text = label.to_string();
            proof {
                vstd::string::to_string_from_display_ensures_for_str(label, text);
            }
            *button_text = text;
        },
        _ => {},
    }
}

/// Handles the 'solve' button being pressed: toggle between idle and
/// solving, relabeling the button; while shuffling the press does nothing.
pub fn handle_solve_press(play_mode: &mut PlayMode, button_text: &mut String)
    ensures
        *old(play_mode) is Solve ==> *final(play_mode) is Idle && final(button_text)@ == "Solve"@,
        *old(play_mode) is Idle ==> *final(play_mode) is Solve && final(button_text)@
            == "Stop solving"@,
        *old(play_mode) is Shuffle ==> *final(play_mode) == *old(play_mode) && final(button_text)@
            == old(button_text)@,
{
    match play_mode {
        PlayMode::Solve => {
            *play_mode = PlayMode::Idle;
            let label = "Solve";
            let text = label.to_string();
            proof {
                vstd::string::to_string_from_display_ensures_for_str(label, text);
            }
            *button_text = text;
        },
        // going from Idle to Solve
        PlayMode::Idle => {
            *play_mode = PlayMode::Solve;
            let label = "Stop solving";
            let text = label.to_string();
            proof {
                vstd::string::to_string_from_display_ensures_for_str(label, text);
            }
            *button_text = text;
        },
        _ => {},
    }
}

} // verus!

//! Core logic of an interactive Rubik's-cube simulator: the slice-rotation
//! engine, move queue, lattice snapping and solved-state detection.
//!
//! All geometry is carried in fixed-point integers so that the resting states
//! of the cube are exact: translations live on the `{-1, 0, 1}` lattice
//! (scaled by [`fixed::SCALE`]) and orientations are axis-aligned rotations.
//! A host is expected to drive the rotation engine once per frame with the
//! elapsed time and to render the resulting transforms.

pub mod cube;
pub mod cubie;
pub mod fixed;
pub mod play;
pub mod rotation;
pub mod ui;

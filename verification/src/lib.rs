//! Model of a "Whac-A-Mole" style arcade minigame: clickable targets that
//! pop up on randomized timers, a round controller that scores clicks under
//! a per-variant policy and ends the round after a fixed duration, and a
//! difficulty-selection screen.
//!
//! Times are integer milliseconds and screen coordinates integer pixels;
//! the thin rendering shell converts from the game engine's floating-point
//! clock and mouse position at the boundary.

pub mod config;
pub mod game;
pub mod hit;
pub mod menu;
pub mod mole;
mod rng;

//! Outputs and timing of the dictation state machine.

pub mod actions;
pub mod timing;

pub use actions::{Action, BarState};

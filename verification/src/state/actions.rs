//! Outputs of the dictation state machine.
//!
//! Actions are pure descriptions of side-effects; the shell executes them (start
//! the mic, show the pill, run the pipeline).

use crate::types::{RecordMode, SessionId};
use vstd::prelude::*;

verus! {

/// A visual state the Flow Bar (pill) should present.
#[derive(Debug, Clone, Copy, PartialEq, Eq, Structural)]
pub enum BarState {
    Idle,
    Recording,
    Locked,
    Transcribing,
    Done,
    Cancelled,
    Error,
}

/// A side-effect for the shell to perform.
#[derive(Debug, Clone, PartialEq, Eq, Structural)]
pub enum Action {
    /// Begin microphone capture for a session.
    StartCapture { session: SessionId, mode: RecordMode },
    /// Stop capture and hand the buffered audio to the pipeline.
    StopCaptureAndFinalize { session: SessionId },
    /// Throw away the current capture (too short, or cancelled) without pasting.
    DiscardCapture { session: SessionId },
    /// Play the record-start ping.
    PlayPing,
    /// Drive the ASR, cleanup and paste pipeline for a finalized session.
    RunPipeline { session: SessionId },
    /// Update the pill to a visual state.
    ShowBar(BarState),
    /// Warn (once) that the session cap is approaching.
    WarnSessionCap,
}

} // verus!

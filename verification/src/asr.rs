//! The speech-recognition seam: identifiers and capabilities of the per-OS
//! engines. The engine trait itself works on audio samples and lives with the
//! platform code.

use vstd::prelude::*;

verus! {

/// Identifies which backend produced a transcript (for diagnostics + UI).
#[derive(Debug, Clone, Copy, PartialEq, Eq, Structural)]
pub enum AsrEngineId {
    FluidAudioAne,
    OnnxParakeet,
    WhisperCpp,
}

/// Static capabilities of an engine.
#[derive(Debug, Clone, Copy, PartialEq, Eq, Structural)]
pub struct AsrCaps {
    pub supports_streaming: bool,
}

} // verus!

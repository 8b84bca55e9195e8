//! Small shared value types used across the core.

use crate::ipc::RecordModeWire;
use vstd::prelude::*;

verus! {

/// Monotonic identifier for one dictation session (a recording + its finalize/paste).
#[derive(Debug, Clone, Copy, PartialEq, Eq, Hash, Structural)]
pub struct SessionId(pub u64);

/// How a session records. Mirrors [`RecordModeWire`] but lives in the core so the
/// state machine doesn't depend on wire details.
#[derive(Debug, Clone, Copy, PartialEq, Eq, Structural)]
pub enum RecordMode {
    /// Hold-to-talk: release ends and pastes.
    PushToTalk,
    /// Hands-free: recording persists after key release.
    Locked,
}

/// The wire form of a record mode: the variant of the same name.
pub open spec fn mode_to_wire(m: RecordMode) -> RecordModeWire {
    match m {
        RecordMode::PushToTalk => RecordModeWire::PushToTalk,
        RecordMode::Locked => RecordModeWire::Locked,
    }
}

/// The core form of a wire record mode: the variant of the same name.
pub open spec fn wire_to_mode(w: RecordModeWire) -> RecordMode {
    match w {
        RecordModeWire::PushToTalk => RecordMode::PushToTalk,
        RecordModeWire::Locked => RecordMode::Locked,
    }
}

impl From<RecordMode> for RecordModeWire {
    fn from(m: RecordMode) -> (r: RecordModeWire) {
        match m {
            RecordMode::PushToTalk => RecordModeWire::PushToTalk,
            RecordMode::Locked => RecordModeWire::Locked,
        }
    }
}

impl vstd::std_specs::convert::FromSpecImpl<RecordMode> for RecordModeWire {
    open spec fn obeys_from_spec() -> bool {
        true
    }

    open spec fn from_spec(v: RecordMode) -> RecordModeWire {
        mode_to_wire(v)
    }
}

impl From<RecordModeWire> for RecordMode {
    fn from(w: RecordModeWire) -> (r: RecordMode) {
        match w {
            RecordModeWire::PushToTalk => RecordMode::PushToTalk,
            RecordModeWire::Locked => RecordMode::Locked,
        }
    }
}

impl vstd::std_specs::convert::FromSpecImpl<RecordModeWire> for RecordMode {
    open spec fn obeys_from_spec() -> bool {
        true
    }

    open spec fn from_spec(v: RecordModeWire) -> RecordMode {
        wire_to_mode(v)
    }
}

/// Converting a record mode to its wire form and back gives the same mode, and
/// the same holds starting from the wire form: the two enums correspond one to one.
pub proof fn record_mode_round_trip(m: RecordMode, w: RecordModeWire)
    ensures
        wire_to_mode(mode_to_wire(m)) == m,
        mode_to_wire(wire_to_mode(w)) == w,
{
}

} // verus!

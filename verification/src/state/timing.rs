//! Timing constants for the dictation state machine (researched starting points,
//! to be calibrated on real devices).

use vstd::prelude::*;

verus! {

/// A key-up sooner than this after key-down is a tap, not a hold-to-talk release.
pub const HOLD_MIN_MS: u64 = 200;

/// Window after a tap in which a second press flips into hands-free (locked) mode.
pub const DOUBLE_TAP_MS: u64 = 350;

/// After a session ends, ignore new starts for this long (debounce key bounce).
pub const COOLDOWN_MS: u64 = 500;

/// Hard cap on a single dictation session.
pub const SESSION_CAP_MS: u64 = 20 * 60 * 1000;

/// When to warn that the session cap is approaching.
pub const WARN_AT_MS: u64 = 19 * 60 * 1000;

/// The cap warning comes while the session is still running, before the cap.
pub proof fn warning_precedes_session_cap()
    ensures
        0 < WARN_AT_MS < SESSION_CAP_MS,
{
}

} // verus!

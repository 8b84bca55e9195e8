//! The shared wire contract between the shell and the native sidecar process that
//! owns the global hotkey hook, text injection, secure-input detection, and the
//! accessibility context read. These enums are the single source of truth for the
//! protocol.

pub mod codec;

pub use codec::{encode_frame, read_exact_or_eof, CodecError, FrameReader, ReadStep, MAX_FRAME_LEN};

use vstd::prelude::*;

verus! {

/// Bumped on any breaking change to the message set; exchanged in the
/// `Hello` / `Ready` handshake so mismatched versions refuse to talk.
pub const PROTOCOL_VERSION: u32 = 1;

/// Which operating system the sidecar is running on.
#[derive(Debug, Clone, Copy, PartialEq, Eq, Structural)]
pub enum OsKind {
    MacOS,
    Windows,
}

/// Stable identifier for one bound action. The shell assigns these; the sidecar
/// echoes them back on triggers.
#[derive(Debug, Clone, Copy, PartialEq, Eq, Hash, Structural)]
pub enum BindingId {
    PushToTalk,
    HandsFree,
    CommandMode,
}

/// A resolved key chord the sidecar should watch for. `keys` holds OS virtual-key
/// / keycode values; `is_modifier_only` is true for chords that never produce a
/// printable key.
#[derive(Debug, Clone, PartialEq, Eq)]
pub struct Binding {
    pub id: BindingId,
    pub keys: Vec<u32>,
    pub is_modifier_only: bool,
}

/// The recording mode a dictation session runs in.
#[derive(Debug, Clone, Copy, PartialEq, Eq, Structural)]
pub enum RecordModeWire {
    /// Hold the key; release ends and pastes.
    PushToTalk,
    /// Hands-free: recording persists after the key is released.
    Locked,
}

/// Which rung of the injection ladder delivered the text.
#[derive(Debug, Clone, Copy, PartialEq, Eq, Structural)]
pub enum PasteRung {
    /// Accessibility set-selected-text / UIA ValuePattern.
    Accessibility,
    /// Clipboard write + synthesized paste keystroke.
    Clipboard,
    /// Synthesized Unicode keystrokes.
    Unicode,
    /// Chunked clipboard paste for terminals.
    Chunked,
    /// Windows Shift+Insert variant.
    ShiftInsert,
    /// Refused to inject (secure field / elevated target); left on the clipboard.
    Declined,
}

/// Options controlling how injected text is delivered.
#[derive(Debug, Clone, PartialEq, Eq)]
pub struct PasteOptions {
    /// Mark the clipboard payload sensitive (kept out of clipboard history).
    pub concealed: bool,
    /// Snapshot and restore whatever was on the clipboard before we borrowed it.
    pub restore_clipboard: bool,
    /// Prefer the accessibility set-value fast path over clipboard paste.
    pub prefer_ax: bool,
    /// Split long payloads into chunks of this many characters.
    pub chunk_size: Option<u32>,
    /// Force a specific rung instead of the default ladder.
    pub method_override: Option<PasteRung>,
}

impl Default for PasteOptions {
    /// Privacy-preserving defaults: concealed, clipboard restored, accessibility
    /// path preferred, no chunking, no forced rung.
    fn default() -> (r: PasteOptions)
        ensures
            r.concealed,
            r.restore_clipboard,
            r.prefer_ax,
            r.chunk_size is None,
            r.method_override is None,
    {
        PasteOptions {
            concealed: true,
            restore_clipboard: true,
            prefer_ax: true,
            chunk_size: None,
            method_override: None,
        }
    }
}

/// Capabilities the sidecar reports at handshake.
#[derive(Debug, Clone, PartialEq, Eq, Structural)]
pub struct Capabilities {
    /// Global key hook is installed and healthy.
    pub hook_ready: bool,
    /// Can read text around the caret.
    pub context_read: bool,
    /// Can detect secure-input / elevated targets.
    pub secure_detect: bool,
}

/// The hotkey transition the sidecar observed.
#[derive(Debug, Clone, Copy, PartialEq, Eq, Structural)]
pub enum TriggerWire {
    /// The bound chord became fully held.
    Down,
    /// The bound chord was released.
    Up,
    /// Esc (or the configured cancel key) was pressed.
    Cancel,
    /// A non-trigger key was pressed while a partial chord was held.
    NormalKeyDuringArm,
}

/// Why a key-event tap/hook fired a lifecycle notification.
#[derive(Debug, Clone, Copy, PartialEq, Eq, Structural)]
pub enum TapEventKind {
    DisabledByTimeout,
    DisabledByUserInput,
    Reinstalled,
    SilentLossSuspected,
}

/// Messages the shell sends to the sidecar.
#[derive(Debug, Clone, PartialEq)]
pub enum ShellToSidecar {
    /// First message; negotiates protocol version.
    Hello { protocol_version: u32, shell_pid: u32 },
    /// Replace the set of chords the sidecar watches for.
    UpdateShortcuts { bindings: Vec<Binding> },
    /// Toggle OS-quirk suppression.
    SetSuppression { suppress_bare_fn: bool, swallow_win_keyup: bool },
    /// Begin capture for a session.
    DictationStart { mode: RecordModeWire },
    /// End capture for the current session.
    DictationStop,
    /// Deliver cleaned text at the current caret.
    PasteText { text: String, opts: PasteOptions },
    /// Report and clear any keys the sidecar still believes are held.
    CheckStaleKeys,
    /// Query whether secure input is currently active.
    QuerySecureInput,
    /// Read text around the caret.
    ReadContext { chars_before: u32, chars_after: u32 },
    /// Liveness probe.
    Ping { seq: u64 },
    /// Ask the sidecar to exit cleanly.
    Shutdown,
}

} // verus!

//! Core logic of the WhimprFlow dictation app: the shared vocabulary of the
//! dictation state machine, Auto Cleanup levels, and the wire contract between
//! the shell and its native sidecar, with its length-prefixed framing.

pub mod asr;
pub mod cleanup;
pub mod ipc;
pub mod state;
pub mod types;

//! Auto Cleanup levels: how aggressively the LLM is allowed to edit.
//!
//! `Off` bypasses the model entirely (raw ASR is pasted). The others append a
//! modifier to the shared system prompt. Light is the default, biased conservative.

use vstd::prelude::*;

verus! {

#[derive(Debug, Clone, Copy, PartialEq, Eq, Structural)]
pub enum CleanupLevel {
    /// Transcribe exactly what was said, including mistakes. No model call.
    Off,
    /// Remove fillers and fix grammar only; preserve the speaker's words. (Default.)
    Light,
    /// Also tighten wording for clarity and concision without changing meaning.
    Medium,
    /// Rewrite phrasing for brevity and polish while preserving facts and intent.
    High,
}

/// The prompt modifier appended for each level.
pub open spec fn modifier_text(level: CleanupLevel) -> Seq<char> {
    match level {
        CleanupLevel::Off => ""@,
        CleanupLevel::Light => "Be conservative: apply the allowed edits minimally. When unsure whether to edit, leave the text as spoken."@,
        CleanupLevel::Medium => "You may also tighten wording for clarity and conciseness, but never change the meaning."@,
        CleanupLevel::High => "You may rewrite phrasing for brevity and polish while strictly preserving every fact, name, number, and the speaker's intent."@,
    }
}

impl CleanupLevel {
    /// True when no model should be invoked and the raw transcript is used verbatim.
    pub fn bypasses_llm(self) -> (r: bool)
        ensures
            r <==> self == CleanupLevel::Off,
    {
        matches!(self, CleanupLevel::Off)
    }

    /// Text appended to the shared system prompt for this level (empty for `Off`).
    pub fn modifier(self) -> (r: &'static str)
        ensures
            r@ == modifier_text(self),
    {
        match self {
            CleanupLevel::Off => "",
            CleanupLevel::Light => "Be conservative: apply the allowed edits minimally. When unsure whether to edit, leave the text as spoken.",
            CleanupLevel::Medium => "You may also tighten wording for clarity and conciseness, but never change the meaning.",
            CleanupLevel::High => "You may rewrite phrasing for brevity and polish while strictly preserving every fact, name, number, and the speaker's intent.",
        }
    }
}

impl Default for CleanupLevel {
    /// Light is the default level.
    fn default() -> (r: CleanupLevel)
        ensures
            r == CleanupLevel::Light,
    {
        CleanupLevel::Light
    }
}

/// A level sends the transcript to the model exactly when it has a non-empty
/// prompt modifier: the only level without one is the one that bypasses the model.
pub proof fn modifier_empty_iff_bypass(level: CleanupLevel)
    ensures
        modifier_text(level).len() == 0 <==> level == CleanupLevel::Off,
{
    reveal_strlit("");
    reveal_strlit("Be conservative: apply the allowed edits minimally. When unsure whether to edit, leave the text as spoken.");
    reveal_strlit("You may also tighten wording for clarity and conciseness, but never change the meaning.");
    reveal_strlit("You may rewrite phrasing for brevity and polish while strictly preserving every fact, name, number, and the speaker's intent.");
}

} // verus!

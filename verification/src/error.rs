//! Error taxonomy of the dialog core.  Extraction and validation failures
//! stay inside the conversation layer and surface only as re-prompt text;
//! `ApiError` is surfaced to the orchestrator, which degrades to a fallback
//! candidate set; `InternalError` marks an invariant violation.

use vstd::prelude::*;

verus! {

/// Errors of the dialog core.
#[derive(Debug)]
pub enum ChatError {
    /// Empty, oversized or unparsable input; recovered locally by
    /// re-prompting, never surfaced as a hard failure.
    InvalidInput(String),
    /// External search collaborator failure; the orchestrator degrades to
    /// the generic fallback candidate set.
    ApiError(String),
    /// Invariant violation, fatal for the request that raised it.
    InternalError(String),
}

impl ChatError {
    /// The message carried by the error.
    pub open spec fn spec_message(&self) -> Seq<char> {
        match self {
            ChatError::InvalidInput(s) => s@,
            ChatError::ApiError(s) => s@,
            ChatError::InternalError(s) => s@,
        }
    }

    /// Human-readable description of the error.
    pub fn message(&self) -> (r: &String)
        ensures
            r@ == self.spec_message(),
    {
        match self {
            ChatError::InvalidInput(s) => s,
            ChatError::ApiError(s) => s,
            ChatError::InternalError(s) => s,
        }
    }
}

} // verus!

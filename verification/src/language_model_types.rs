//! Types shared with the language-model backend.

use vstd::prelude::*;

verus! {

/// How much of the model's capability a completion may use.
#[derive(Debug, PartialEq, Eq, PartialOrd, Ord, Hash, Clone, Copy, Structural)]
pub enum CompletionMode {
    Normal,
    Max,
}

/// What a completion request is for.
#[derive(Debug, PartialEq, Eq, PartialOrd, Ord, Hash, Clone, Copy, Structural)]
pub enum CompletionIntent {
    UserPrompt,
    ToolResults,
    ThreadSummarization,
    ThreadContextSummarization,
    CreateFile,
    EditFile,
    InlineAssist,
    TerminalInlineAssist,
    GenerateGitCommitMessage,
}

/// How many tokens a prompt counts as.
#[derive(Debug, PartialEq, Eq, Clone, Copy, Structural)]
pub struct CountTokensResponse {
    pub tokens: usize,
}

/// A request for a predicted edit.
#[derive(Debug, Clone)]
pub struct PredictEditsBody {
    pub outline: Option<String>,
    pub input_events: String,
    pub input_excerpt: String,
    pub speculated_output: Option<String>,
}

} // verus!

use vstd::prelude::*;
use crate::text::{framed, joined};

verus! {

/// The error body sent back to a caller: a short category and an optional
/// human-readable detail.
#[derive(Debug, PartialEq)]
pub struct ErrorResponse {
    pub error: String,
    pub details: Option<String>,
}

/// Why one agent invocation produced no answer. Every kind is final for its
/// invocation: none is retried.
#[derive(Debug, PartialEq)]
pub enum AgentError {
    /// The caller supplied no prompt (or an empty one).
    MissingPrompt,
    /// The caller supplied no output schema (or an empty one).
    MissingSchema,
    /// No model identifier was available (or it was empty).
    MissingModel,
    /// The agent could not be started; holds the operating system's message.
    Spawn(String),
    /// Writing the prompt to the agent's input failed; holds the message.
    WriteInput(String),
    /// Waiting for the agent or reading its output failed; holds the message.
    CollectOutput(String),
    /// The agent exited with a failure status; holds its error stream.
    Failed(String),
    /// The agent succeeded but no answer shape was found; holds its output.
    UnrecognizedOutput(String),
}

/// The error category reported for `e`. `program` is the command that is
/// started for the agent, `title` the agent's name as shown to people.
pub open spec fn message_of(e: AgentError, program: Seq<char>, title: Seq<char>) -> Seq<char> {
    match e {
        AgentError::MissingPrompt => "Missing prompt from frontend"@,
        AgentError::MissingSchema => "Missing schema from frontend"@,
        AgentError::MissingModel => "Missing model"@,
        AgentError::Spawn(_) => "Failed to spawn "@ + program + " CLI"@,
        AgentError::WriteInput(_) => "Failed to write to "@ + program + " CLI"@,
        AgentError::CollectOutput(_) => "Failed to get "@ + program + " CLI output"@,
        AgentError::Failed(_) => title + " CLI execution failed"@,
        AgentError::UnrecognizedOutput(_) => "Failed to parse "@ + title + " CLI output"@,
    }
}

/// The detail reported for `e`.
pub open spec fn details_of(e: AgentError, program: Seq<char>) -> Option<Seq<char>> {
    match e {
        AgentError::MissingPrompt => Some("Prompts are centralized in frontend/src/prompts.js"@),
        AgentError::MissingSchema => Some("Schemas are centralized in frontend/src/prompts.js"@),
        AgentError::MissingModel => None,
        AgentError::Spawn(m) => Some("Ensure '"@ + program + "' is installed and in PATH. Error: "@ + m@),
        AgentError::WriteInput(m) => Some(m@),
        AgentError::CollectOutput(m) => Some(m@),
        AgentError::Failed(stderr) => Some(stderr@),
        AgentError::UnrecognizedOutput(out) => Some("Output: "@ + out@),
    }
}

impl AgentError {
    /// The category and detail reported to the caller for this error, for
    /// the agent started as `program` and shown as `title`.
    pub fn to_response(&self, program: &str, title: &str) -> (r: ErrorResponse)
        ensures
            r.error@ == message_of(*self, program@, title@),
            match details_of(*self, program@) {
                Some(d) => r.details matches Some(x) && x@ == d,
                None => r.details is None,
            },
    {
        match self {
            AgentError::MissingPrompt => ErrorResponse {
                error: "Missing prompt from frontend".to_owned(),
                details: Some("Prompts are centralized in frontend/src/prompts.js".to_owned()),
            },
            AgentError::MissingSchema => ErrorResponse {
                error: "Missing schema from frontend".to_owned(),
                details: Some("Schemas are centralized in frontend/src/prompts.js".to_owned()),
            },
            AgentError::MissingModel => ErrorResponse {
                error: "Missing model".to_owned(),
                details: None,
            },
            AgentError::Spawn(m) => {
                let head = framed("Ensure '", program, "' is installed and in PATH. Error: ");
                ErrorResponse {
                    error: framed("Failed to spawn ", program, " CLI"),
                    details: Some(joined(head.as_str(), m.as_str())),
                }
            },
            AgentError::WriteInput(m) => ErrorResponse {
                error: framed("Failed to write to ", program, " CLI"),
                details: Some(m.as_str().to_owned()),
            },
            AgentError::CollectOutput(m) => ErrorResponse {
                error: framed("Failed to get ", program, " CLI output"),
                details: Some(m.as_str().to_owned()),
            },
            AgentError::Failed(stderr) => ErrorResponse {
                error: joined(title, " CLI execution failed"),
                details: Some(stderr.as_str().to_owned()),
            },
            AgentError::UnrecognizedOutput(out) => ErrorResponse {
                error: framed("Failed to parse ", title, " CLI output"),
                details: Some(joined("Output: ", out.as_str())),
            },
        }
    }
}

} // verus!

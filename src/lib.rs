//! Local proxy core: runs a command-line AI agent once per request, recovers
//! its structured answer from the console output, and decodes that answer
//! into typed responses.
//!
//! - `json`: the JSON model, and parsing through serde_json.
//! - `lines`: splitting console output into lines.
//! - `extract`: recovering the one structured answer from the output.
//! - `process`: the invocation's inputs, arguments and exit handling.
//! - `responses`: defensive decoding of answers into typed responses.
//! - `error`: the failure kinds and the error body sent to callers.
//! - `routing`: configuration and the choice between agent and refusal.
//! - `status`: health and status reports.
//! - `laws`: properties of extraction and decoding, proved for all inputs.

pub mod error;
pub mod extract;
pub mod json;
pub mod laws;
pub mod lines;
pub mod process;
pub mod responses;
pub mod routing;
pub mod status;
pub mod text;

pub use error::{AgentError, ErrorResponse};
pub use extract::{answer_markers, extract_structured_output, record_answer, whole_text_answer_of};
pub use json::JsonValue;
pub use lines::split_lines;
pub use process::{finish_invocation, prepare_invocation, Invocation};
pub use responses::{
    classify_bug, generate_response, generate_testpage, refine_response, suggest_response,
    ClassifyResponse, GenerateResponse, RefineResponse, SuggestResponse, SuggestedAction,
    TestPageResponse, TriageAction,
};
pub use routing::{choose_model, configure, route_request, AppState, Endpoint, Route};
pub use status::{agent_status, health_report, mode_description, AgentStatus, HealthReport, VersionCheck};

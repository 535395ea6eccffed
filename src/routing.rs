use vstd::prelude::*;
use crate::error::ErrorResponse;
use crate::text::{framed, joined, same_text};

verus! {

/// Configuration read once at startup and shared, unchanged, by every
/// request.
pub struct AppState {
    /// The provider id with which requests reach the local agent.
    pub agent_provider: String,
    /// The command started for each invocation; it must be on the search
    /// path.
    pub agent_program: String,
    /// The agent's name as shown to people in messages.
    pub agent_title: String,
    /// How the agent's provider is served: `"cli"` runs the local agent;
    /// anything else selects its HTTP API, which is not implemented.
    pub claude_mode: String,
    pub anthropic_api_key: Option<String>,
    pub gemini_api_key: Option<String>,
    pub openai_api_key: Option<String>,
    /// The model asked when a request names none; empty when none is
    /// configured, and then every request must name one.
    pub claude_model: String,
}

/// The mode used when none is configured.
pub const DEFAULT_MODE: &'static str = "cli";

/// Builds the configuration from the settings found. The program and the
/// title default to the provider id, the mode to `"cli"`, the model to none
/// (empty).
pub fn configure(
    agent_provider: String,
    agent_program: Option<String>,
    agent_title: Option<String>,
    claude_mode: Option<String>,
    anthropic_api_key: Option<String>,
    gemini_api_key: Option<String>,
    openai_api_key: Option<String>,
    claude_model: Option<String>,
) -> (r: AppState)
    ensures
        r.agent_provider == agent_provider,
        r.agent_program@ == match agent_program {
            Some(p) => p@,
            None => agent_provider@,
        },
        r.agent_title@ == match agent_title {
            Some(t) => t@,
            None => agent_provider@,
        },
        r.claude_mode@ == match claude_mode {
            Some(m) => m@,
            None => DEFAULT_MODE@,
        },
        r.claude_model@ == match claude_model {
            Some(m) => m@,
            None => Seq::empty(),
        },
        r.anthropic_api_key == anthropic_api_key,
        r.gemini_api_key == gemini_api_key,
        r.openai_api_key == openai_api_key,
{
    let agent_program = match agent_program {
        Some(p) => p,
        None => agent_provider.clone(),
    };
    let agent_title = match agent_title {
        Some(t) => t,
        None => agent_provider.clone(),
    };
    AppState {
        agent_provider,
        agent_program,
        agent_title,
        claude_mode: match claude_mode {
            Some(m) => m,
            None => DEFAULT_MODE.to_owned(),
        },
        anthropic_api_key,
        gemini_api_key,
        openai_api_key,
        claude_model: match claude_model {
            Some(m) => m,
            None => String::new(),
        },
    }
}

/// The model a request asks for, or the configured one.
pub fn choose_model(state: &AppState, requested: Option<&str>) -> (r: String)
    ensures
        r@ == match requested {
            Some(m) => m@,
            None => state.claude_model@,
        },
{
    match requested {
        Some(m) => m.to_owned(),
        None => state.claude_model.clone(),
    }
}

/// The operations offered over HTTP.
#[derive(Debug, Clone, Copy, PartialEq, Eq)]
pub enum Endpoint {
    Classify,
    Suggest,
    Generate,
    Refine,
    TestPage,
}

/// What to do with a request: run the agent, or refuse it with this error.
#[derive(Debug, PartialEq)]
pub enum Route {
    RunAgent,
    Reject(ErrorResponse),
}

pub open spec fn runs_agent(state: AppState, provider: Seq<char>) -> bool {
    provider == state.agent_provider@ && state.claude_mode@ == "cli"@
}

/// The error category of a refused request.
pub open spec fn rejection_error(state: AppState, endpoint: Endpoint, provider: Seq<char>) -> Seq<char> {
    if provider == state.agent_provider@ {
        match endpoint {
            Endpoint::Classify | Endpoint::Suggest => if state.anthropic_api_key is None {
                "ANTHROPIC_API_KEY not configured"@
            } else {
                state.agent_title@ + " HTTP API mode not yet implemented - use CLI mode"@
            },
            _ => if state.anthropic_api_key is None {
                "Anthropic API key not configured"@
            } else {
                state.agent_title@ + " HTTP API mode not yet implemented - use CLI mode"@
            },
        }
    } else {
        match endpoint {
            Endpoint::Classify => if provider == "gemini"@ {
                if state.gemini_api_key is None {
                    "GEMINI_API_KEY not configured"@
                } else {
                    "Gemini backend proxy not yet implemented - use browser mode"@
                }
            } else if provider == "openai"@ {
                if state.openai_api_key is None {
                    "OPENAI_API_KEY not configured"@
                } else {
                    "OpenAI backend proxy not yet implemented"@
                }
            } else {
                "Unknown provider: "@ + provider
            },
            Endpoint::Suggest => "Only "@ + state.agent_title@ + " provider supported for suggest"@,
            Endpoint::Generate => "Only "@ + state.agent_title@ + " provider supported for generate"@,
            Endpoint::Refine => "Only "@ + state.agent_title@ + " provider supported for refine"@,
            Endpoint::TestPage => "Only "@ + state.agent_title@ + " provider supported for test page generation"@,
        }
    }
}

/// The detail of a refused request.
pub open spec fn rejection_details(state: AppState, endpoint: Endpoint, provider: Seq<char>) -> Option<
    Seq<char>,
> {
    if provider == state.agent_provider@ {
        if state.anthropic_api_key is Some {
            Some("Set CLAUDE_BACKEND_MODE=cli"@)
        } else {
            match endpoint {
                Endpoint::Classify | Endpoint::Suggest => None,
                _ => Some("Set ANTHROPIC_API_KEY or use CLI mode"@),
            }
        }
    } else {
        None
    }
}

fn reject_with(error: String, details: Option<&str>) -> (r: Route)
    ensures
        r matches Route::Reject(e) && e.error@ == error@ && match details {
            Some(d) => e.details matches Some(x) && x@ == d@,
            None => e.details is None,
        },
{
    Route::Reject(
        ErrorResponse {
            error,
            details: match details {
                Some(d) => Some(d.to_owned()),
                None => None,
            },
        },
    )
}

fn reject(error: &str, details: Option<&str>) -> (r: Route)
    ensures
        r matches Route::Reject(e) && e.error@ == error@ && match details {
            Some(d) => e.details matches Some(x) && x@ == d@,
            None => e.details is None,
        },
{
    Route::Reject(
        ErrorResponse {
            error: error.to_owned(),
            details: match details {
                Some(d) => Some(d.to_owned()),
                None => None,
            },
        },
    )
}

/// Decides how a request for `endpoint` from `provider` is served. Only the
/// agent's provider in `"cli"` mode reaches the agent; every other provider
/// and mode has a fixed refusal.
pub fn route_request(state: &AppState, endpoint: Endpoint, provider: &str) -> (r: Route)
    ensures
        runs_agent(*state, provider@) ==> r is RunAgent,
        !runs_agent(*state, provider@) ==> (r matches Route::Reject(e) && e.error@ == rejection_error(
            *state,
            endpoint,
            provider@,
        ) && match rejection_details(*state, endpoint, provider@) {
            Some(d) => e.details matches Some(x) && x@ == d,
            None => e.details is None,
        }),
{
    if same_text(provider, state.agent_provider.as_str()) {
        if same_text(state.claude_mode.as_str(), "cli") {
            return Route::RunAgent;
        }
        if state.anthropic_api_key.is_some() {
            return reject_with(
                joined(state.agent_title.as_str(), " HTTP API mode not yet implemented - use CLI mode"),
                Some("Set CLAUDE_BACKEND_MODE=cli"),
            );
        }
        return match endpoint {
            Endpoint::Classify | Endpoint::Suggest => reject("ANTHROPIC_API_KEY not configured", None),
            _ => reject("Anthropic API key not configured", Some("Set ANTHROPIC_API_KEY or use CLI mode")),
        };
    }
    match endpoint {
        Endpoint::Classify => {
            if same_text(provider, "gemini") {
                if state.gemini_api_key.is_none() {
                    reject("GEMINI_API_KEY not configured", None)
                } else {
                    reject("Gemini backend proxy not yet implemented - use browser mode", None)
                }
            } else if same_text(provider, "openai") {
                if state.openai_api_key.is_none() {
                    reject("OPENAI_API_KEY not configured", None)
                } else {
                    reject("OpenAI backend proxy not yet implemented", None)
                }
            } else {
                Route::Reject(
                    ErrorResponse { error: joined("Unknown provider: ", provider), details: None },
                )
            }
        },
        Endpoint::Suggest => reject_with(framed("Only ", state.agent_title.as_str(), " provider supported for suggest"), None),
        Endpoint::Generate => reject_with(framed("Only ", state.agent_title.as_str(), " provider supported for generate"), None),
        Endpoint::Refine => reject_with(framed("Only ", state.agent_title.as_str(), " provider supported for refine"), None),
        Endpoint::TestPage => reject_with(framed("Only ", state.agent_title.as_str(), " provider supported for test page generation"), None),
    }
}

} // verus!

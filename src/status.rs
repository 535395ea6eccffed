use vstd::prelude::*;
use crate::text::{joined, same_text};

verus! {

/// Which providers this server can serve, as reported by the health check.
#[derive(Debug, PartialEq)]
pub struct HealthReport {
    pub available_providers: Vec<String>,
    pub recommended_provider: Option<String>,
}

/// The health report, given the agent's provider id and whether the agent
/// answered a version query. The recommended provider is the first
/// available one.
pub fn health_report(agent_provider: &str, agent_available: bool) -> (r: HealthReport)
    ensures
        agent_available ==> r.available_providers@.map_values(|p: String| p@) == seq![agent_provider@],
        !agent_available ==> r.available_providers@.len() == 0,
        r.recommended_provider is Some <==> r.available_providers@.len() > 0,
        r.recommended_provider matches Some(p) ==> p@ == r.available_providers@[0]@,
{
    let mut available: Vec<String> = Vec::new();
    if agent_available {
        available.push(agent_provider.to_owned());
        assert(available@.map_values(|p: String| p@) =~= seq![agent_provider@]);
    }
    let recommended = if available.len() > 0 {
        Some(available[0].clone())
    } else {
        None
    };
    HealthReport { available_providers: available, recommended_provider: recommended }
}

/// How a version query of the agent ended; the texts are already trimmed.
pub enum VersionCheck {
    /// It exited with success; holds its standard output.
    Succeeded(String),
    /// It exited with failure; holds its error stream.
    Failed(String),
    /// It could not be started; holds the operating system's message.
    NotFound(String),
}

/// What the status page shows of the agent.
#[derive(Debug, PartialEq)]
pub struct AgentStatus {
    pub available: bool,
    pub version: String,
}

pub fn agent_status(check: VersionCheck) -> (r: AgentStatus)
    ensures
        r.available == (check is Succeeded),
        r.version@ == match check {
            VersionCheck::Succeeded(v) => v@,
            VersionCheck::Failed(e) => "Error: "@ + e@,
            VersionCheck::NotFound(e) => "Not found: "@ + e@,
        },
{
    match check {
        VersionCheck::Succeeded(v) => AgentStatus { available: true, version: v },
        VersionCheck::Failed(e) => AgentStatus { available: false, version: joined("Error: ", e.as_str()) },
        VersionCheck::NotFound(e) => AgentStatus {
            available: false,
            version: joined("Not found: ", e.as_str()),
        },
    }
}

/// How the configured mode is described on the status page, for the agent
/// shown as `title`.
pub fn mode_description(claude_mode: &str, title: &str) -> (r: String)
    ensures
        r@ == if claude_mode@ == "cli"@ {
            title@ + " Code CLI (recommended)"@
        } else {
            "HTTP API"@
        },
{
    if same_text(claude_mode, "cli") {
        joined(title, " Code CLI (recommended)")
    } else {
        "HTTP API".to_owned()
    }
}

} // verus!

use triage_wizard_backend::{
    agent_status, choose_model, configure, health_report, mode_description, prepare_invocation,
    route_request, split_lines, AgentError, AppState, Endpoint, ErrorResponse, Route, VersionCheck,
};

fn s(t: &str) -> String {
    t.to_string()
}

fn state(mode: Option<&str>, anthropic: Option<&str>, gemini: Option<&str>) -> AppState {
    configure(s("agent"), None, Some(s("Agent")), mode.map(s), anthropic.map(s), gemini.map(s), None, None)
}

#[test]
fn arguments_follow_the_agent_command_line() {
    let inv = prepare_invocation(Some("Classify this"), Some("{\"type\":\"object\"}"), "sonnet").unwrap();
    assert_eq!(inv.prompt, "Classify this");
    assert_eq!(
        inv.arguments(),
        vec![
            s("-p"),
            s("--output-format"),
            s("json"),
            s("--model"),
            s("sonnet"),
            s("--json-schema"),
            s("{\"type\":\"object\"}"),
        ]
    );
}

#[test]
fn missing_inputs_are_refused_before_spawning() {
    assert_eq!(prepare_invocation(None, Some("{}"), "m").err(), Some(AgentError::MissingPrompt));
    assert_eq!(prepare_invocation(Some(""), Some("{}"), "m").err(), Some(AgentError::MissingPrompt));
    assert_eq!(prepare_invocation(Some("p"), None, "m").err(), Some(AgentError::MissingSchema));
    assert_eq!(prepare_invocation(Some("p"), Some(""), "m").err(), Some(AgentError::MissingSchema));
    assert_eq!(prepare_invocation(Some("p"), Some("{}"), "").err(), Some(AgentError::MissingModel));
}

#[test]
fn error_responses_carry_category_and_detail() {
    let e = AgentError::Spawn(s("No such file")).to_response("agent-cli", "Agent");
    assert_eq!(e.error, "Failed to spawn agent-cli CLI");
    assert_eq!(e.details, Some(s("Ensure 'agent-cli' is installed and in PATH. Error: No such file")));
    let e = AgentError::Failed(s("bad model")).to_response("agent-cli", "Agent");
    assert_eq!(e, ErrorResponse { error: s("Agent CLI execution failed"), details: Some(s("bad model")) });
    let e = AgentError::WriteInput(s("broken pipe")).to_response("agent-cli", "Agent");
    assert_eq!(e.error, "Failed to write to agent-cli CLI");
    assert_eq!(e.details, Some(s("broken pipe")));
    let e = AgentError::CollectOutput(s("io")).to_response("agent-cli", "Agent");
    assert_eq!(e.error, "Failed to get agent-cli CLI output");
    let e = AgentError::MissingPrompt.to_response("agent-cli", "Agent");
    assert_eq!(e.error, "Missing prompt from frontend");
    assert_eq!(e.details, Some(s("Prompts are centralized in frontend/src/prompts.js")));
    let e = AgentError::MissingSchema.to_response("agent-cli", "Agent");
    assert_eq!(e.error, "Missing schema from frontend");
    assert_eq!(e.details, Some(s("Schemas are centralized in frontend/src/prompts.js")));
    assert_eq!(AgentError::MissingModel.to_response("agent-cli", "Agent").details, None);
}

#[test]
fn configuration_defaults() {
    let st = configure(s("agent"), None, None, None, None, None, None, None);
    assert_eq!(st.agent_provider, "agent");
    assert_eq!(st.agent_program, "agent");
    assert_eq!(st.agent_title, "agent");
    assert_eq!(st.claude_mode, "cli");
    assert_eq!(st.claude_model, "");
    assert_eq!(choose_model(&st, None), "");
    assert_eq!(choose_model(&st, Some("opus")), "opus");
    let st = configure(s("agent"), Some(s("/opt/bin/agent")), Some(s("Agent")), Some(s("api")), Some(s("k")), None, None, Some(s("m")));
    assert_eq!(st.agent_program, "/opt/bin/agent");
    assert_eq!(st.agent_title, "Agent");
    assert_eq!(st.claude_mode, "api");
    assert_eq!(st.claude_model, "m");
    assert_eq!(choose_model(&st, None), "m");
}

#[test]
fn claude_in_cli_mode_runs_the_agent() {
    let st = state(None, None, None);
    for ep in [Endpoint::Classify, Endpoint::Suggest, Endpoint::Generate, Endpoint::Refine, Endpoint::TestPage] {
        assert_eq!(route_request(&st, ep, "agent"), Route::RunAgent);
    }
}

#[test]
fn other_providers_get_fixed_refusals() {
    let st = state(None, None, Some("g"));
    assert_eq!(
        route_request(&st, Endpoint::Classify, "gemini"),
        Route::Reject(ErrorResponse {
            error: s("Gemini backend proxy not yet implemented - use browser mode"),
            details: None
        })
    );
    assert_eq!(
        route_request(&st, Endpoint::Classify, "openai"),
        Route::Reject(ErrorResponse { error: s("OPENAI_API_KEY not configured"), details: None })
    );
    assert_eq!(
        route_request(&st, Endpoint::Classify, "llama"),
        Route::Reject(ErrorResponse { error: s("Unknown provider: llama"), details: None })
    );
    assert_eq!(
        route_request(&st, Endpoint::Refine, "gemini"),
        Route::Reject(ErrorResponse { error: s("Only Agent provider supported for refine"), details: None })
    );
    for (ep, name) in [
        (Endpoint::Suggest, "suggest"),
        (Endpoint::Generate, "generate"),
        (Endpoint::TestPage, "test page generation"),
    ] {
        assert_eq!(
            route_request(&st, ep, "openai"),
            Route::Reject(ErrorResponse { error: format!("Only Agent provider supported for {}", name), details: None })
        );
    }
}

#[test]
fn claude_api_mode_is_not_implemented() {
    let no_key = state(Some("api"), None, None);
    assert_eq!(
        route_request(&no_key, Endpoint::Suggest, "agent"),
        Route::Reject(ErrorResponse { error: s("ANTHROPIC_API_KEY not configured"), details: None })
    );
    assert_eq!(
        route_request(&no_key, Endpoint::Generate, "agent"),
        Route::Reject(ErrorResponse {
            error: s("Anthropic API key not configured"),
            details: Some(s("Set ANTHROPIC_API_KEY or use CLI mode"))
        })
    );
    let key = state(Some("api"), Some("SECRET-REDACTED"), None);
    assert_eq!(
        route_request(&key, Endpoint::TestPage, "agent"),
        Route::Reject(ErrorResponse {
            error: s("Agent HTTP API mode not yet implemented - use CLI mode"),
            details: Some(s("Set CLAUDE_BACKEND_MODE=cli"))
        })
    );
}

#[test]
fn health_and_status_reports() {
    let h = health_report("agent", true);
    assert_eq!(h.available_providers, vec![s("agent")]);
    assert_eq!(h.recommended_provider, Some(s("agent")));
    let h = health_report("agent", false);
    assert!(h.available_providers.is_empty());
    assert_eq!(h.recommended_provider, None);
    let a = agent_status(VersionCheck::Succeeded(s("2.0.1")));
    assert!(a.available);
    assert_eq!(a.version, "2.0.1");
    let a = agent_status(VersionCheck::Failed(s("oops")));
    assert!(!a.available);
    assert_eq!(a.version, "Error: oops");
    assert_eq!(agent_status(VersionCheck::NotFound(s("missing"))).version, "Not found: missing");
    assert_eq!(mode_description("cli", "Agent"), "Agent Code CLI (recommended)");
    assert_eq!(mode_description("api", "Agent"), "HTTP API");
}

#[test]
fn lines_split_like_str_lines() {
    let cases = ["", "a", "a\n", "a\nb", "a\r\nb\r\n", "\n\nx", "a\rb\r", "x\r", "é\nü\r\n"];
    for c in cases {
        let expected: Vec<String> = c.lines().map(|l| l.to_string()).collect();
        assert_eq!(split_lines(c), expected, "input {:?}", c);
    }
}

use triage_wizard_backend::{
    classify_bug, generate_response, generate_testpage, record_answer, refine_response,
    suggest_response, JsonValue, SuggestedAction, TriageAction,
};

fn s(t: &str) -> String {
    t.to_string()
}

fn st(t: &str) -> JsonValue {
    JsonValue::Str(s(t))
}

fn obj(entries: Vec<(&str, JsonValue)>) -> JsonValue {
    JsonValue::Object(entries.into_iter().map(|(k, v)| (s(k), v)).collect())
}

#[test]
fn missing_boolean_decodes_as_false() {
    let answer = obj(vec![("summary", st("crash on load"))]);
    let r = classify_bug(&answer);
    assert!(!r.ai_detected_str);
    assert!(!r.ai_detected_test_attached);
    assert!(!r.crashstack_present);
    assert!(!r.fuzzing_testcase);
    assert_eq!(r.summary, "crash on load");
}

#[test]
fn malformed_array_element_is_dropped() {
    let answer = obj(vec![(
        "suggested_actions",
        JsonValue::Array(vec![
            obj(vec![("action", st("needinfo")), ("reason", st("steps missing"))]),
            obj(vec![("reason", st("no action here"))]),
        ]),
    )]);
    let r = classify_bug(&answer);
    assert_eq!(
        r.suggested_actions,
        vec![TriageAction { action: s("needinfo"), reason: s("steps missing") }]
    );
}

#[test]
fn classify_reads_every_field() {
    let answer = obj(vec![
        ("ai_detected_str", JsonValue::Bool(true)),
        ("ai_detected_test_attached", st("yes")),
        ("crashstack_present", JsonValue::Bool(true)),
        ("fuzzing_testcase", JsonValue::Bool(false)),
        ("summary", JsonValue::Number(s("3"))),
        ("suggested_severity", st("S2")),
        ("suggested_priority", st("P1")),
        (
            "suggested_actions",
            JsonValue::Array(vec![obj(vec![("action", st("close"))]), st("junk")]),
        ),
        ("triage_reasoning", st("because")),
        ("suggested_canned_id", st("")),
        ("draft_response", st("Thanks!")),
    ]);
    let r = classify_bug(&answer);
    assert!(r.ai_detected_str);
    assert!(!r.ai_detected_test_attached);
    assert!(r.crashstack_present);
    assert!(!r.fuzzing_testcase);
    assert_eq!(r.summary, "");
    assert_eq!(r.suggested_severity, Some(s("S2")));
    assert_eq!(r.suggested_priority, Some(s("P1")));
    assert_eq!(r.suggested_actions, vec![TriageAction { action: s("close"), reason: s("") }]);
    assert_eq!(r.triage_reasoning, Some(s("because")));
    assert_eq!(r.suggested_canned_id, None);
    assert_eq!(r.draft_response, Some(s("Thanks!")));
    assert_eq!(r.notes, None);
}

#[test]
fn classify_of_non_object_gives_defaults() {
    let r = classify_bug(&JsonValue::Array(vec![]));
    assert!(!r.ai_detected_str);
    assert_eq!(r.summary, "");
    assert!(r.suggested_actions.is_empty());
    assert_eq!(r.suggested_severity, None);
}

#[test]
fn suggest_defaults_to_empty_strings() {
    let r = suggest_response(&obj(vec![("reasoning", st("fits"))]));
    assert_eq!(r.suggested_response_id, "");
    assert_eq!(r.draft_response, "");
    assert_eq!(r.reasoning, Some(s("fits")));
    let r = suggest_response(&obj(vec![
        ("suggested_response_id", st("dupe")),
        ("draft_response", st("Duplicate of 1")),
    ]));
    assert_eq!(r.suggested_response_id, "dupe");
    assert_eq!(r.draft_response, "Duplicate of 1");
    assert_eq!(r.reasoning, None);
}

#[test]
fn generate_filters_actions_and_ids() {
    let answer = obj(vec![
        ("response_text", st("Hello")),
        (
            "suggested_actions",
            JsonValue::Array(vec![
                obj(vec![("action", st("a1"))]),
                obj(vec![("action", JsonValue::Bool(true))]),
                obj(vec![("action", st("a2")), ("reason", st("r2"))]),
            ]),
        ),
        (
            "used_canned_ids",
            JsonValue::Array(vec![st("c1"), JsonValue::Number(s("7")), st("c2")]),
        ),
    ]);
    let r = generate_response(&answer);
    assert_eq!(r.response_text, "Hello");
    assert_eq!(
        r.suggested_actions,
        vec![
            SuggestedAction { action: s("a1"), reason: None },
            SuggestedAction { action: s("a2"), reason: Some(s("r2")) },
        ]
    );
    assert_eq!(r.used_canned_ids, vec![s("c1"), s("c2")]);
    assert_eq!(r.reasoning, "");
}

#[test]
fn refine_keeps_current_response_when_absent() {
    let r = refine_response(&obj(vec![]), "old text");
    assert_eq!(r.refined_response, "old text");
    assert!(r.changes_made.is_empty());
    let r = refine_response(
        &obj(vec![
            ("refined_response", st("new text")),
            ("changes_made", JsonValue::Array(vec![st("shorter"), JsonValue::Null])),
        ]),
        "old text",
    );
    assert_eq!(r.refined_response, "new text");
    assert_eq!(r.changes_made, vec![s("shorter")]);
}

#[test]
fn testpage_decodes_with_defaults() {
    let r = generate_testpage(&obj(vec![("can_generate", JsonValue::Bool(true)), ("html_content", st("<p>x</p>"))]));
    assert!(r.can_generate);
    assert_eq!(r.html_content, "<p>x</p>");
    assert_eq!(r.reason, "");
    let r = generate_testpage(&JsonValue::Null);
    assert!(!r.can_generate);
    assert_eq!(r.html_content, "");
}

#[test]
fn record_answer_reads_envelopes() {
    let env = obj(vec![
        ("type", st("result")),
        ("result", obj(vec![("structured_output", JsonValue::Bool(true))])),
    ]);
    assert_eq!(record_answer(env), Some(JsonValue::Bool(true)));
    let other = obj(vec![
        ("type", st("assistant")),
        ("result", obj(vec![("structured_output", JsonValue::Bool(true))])),
    ]);
    assert_eq!(record_answer(other), None);
    let no_result = obj(vec![("type", st("result"))]);
    assert_eq!(record_answer(no_result), None);
}

#[test]
fn json_get_finds_fields() {
    let v = obj(vec![("k", st("v")), ("n", JsonValue::Null)]);
    assert_eq!(v.get("k"), Some(&st("v")));
    assert_eq!(v.get("n"), Some(&JsonValue::Null));
    assert_eq!(v.get("missing"), None);
    assert_eq!(st("k").get("k"), None);
    assert_eq!(v.take_field("k"), Some(st("v")));
}

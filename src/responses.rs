use vstd::prelude::*;
use crate::json::{field_of, JsonValue};

verus! {

/// A triage step that a classification recommends.
#[derive(Debug, PartialEq)]
pub struct TriageAction {
    pub action: String,
    pub reason: String,
}

/// A classified bug report.
#[derive(Debug, PartialEq)]
pub struct ClassifyResponse {
    pub ai_detected_str: bool,
    pub ai_detected_test_attached: bool,
    pub crashstack_present: bool,
    pub fuzzing_testcase: bool,
    pub summary: String,
    pub suggested_severity: Option<String>,
    pub suggested_priority: Option<String>,
    pub suggested_actions: Vec<TriageAction>,
    pub triage_reasoning: Option<String>,
    pub suggested_canned_id: Option<String>,
    pub draft_response: Option<String>,
    pub notes: Option<JsonValue>,
}

/// The canned response picked for a bug, with a draft built on it.
#[derive(Debug, PartialEq)]
pub struct SuggestResponse {
    pub suggested_response_id: String,
    pub draft_response: String,
    pub reasoning: Option<String>,
}

/// An action proposed alongside a generated response.
#[derive(Debug, PartialEq)]
pub struct SuggestedAction {
    pub action: String,
    pub reason: Option<String>,
}

/// A generated triage comment.
#[derive(Debug, PartialEq)]
pub struct GenerateResponse {
    pub response_text: String,
    pub suggested_actions: Vec<SuggestedAction>,
    pub used_canned_ids: Vec<String>,
    pub reasoning: String,
}

/// A response rewritten on the user's instruction.
#[derive(Debug, PartialEq)]
pub struct RefineResponse {
    pub refined_response: String,
    pub changes_made: Vec<String>,
}

/// A test page generated from a bug report.
#[derive(Debug, PartialEq)]
pub struct TestPageResponse {
    pub can_generate: bool,
    pub html_content: String,
    pub reason: String,
}

// ---- reading fields: each read has its own default ----

pub open spec fn text_of(s: Option<String>) -> Option<Seq<char>> {
    match s {
        Some(x) => Some(x@),
        None => None,
    }
}

/// The flag under `key`: `false` when absent or not a boolean.
pub open spec fn flag(v: JsonValue, key: Seq<char>) -> bool {
    match field_of(v, key) {
        Some(JsonValue::Bool(b)) => b,
        _ => false,
    }
}

/// The string under `key`, when there is one.
pub open spec fn string_at(v: JsonValue, key: Seq<char>) -> Option<Seq<char>> {
    match field_of(v, key) {
        Some(JsonValue::Str(s)) => Some(s@),
        _ => None,
    }
}

/// The string under `key`, or `default` when there is none.
pub open spec fn string_or(v: JsonValue, key: Seq<char>, default: Seq<char>) -> Seq<char> {
    match string_at(v, key) {
        Some(s) => s,
        None => default,
    }
}

/// The string under `key` when there is one and it is not empty.
pub open spec fn nonempty_string_at(v: JsonValue, key: Seq<char>) -> Option<Seq<char>> {
    match string_at(v, key) {
        Some(s) => if s.len() > 0 {
            Some(s)
        } else {
            None
        },
        None => None,
    }
}

/// The elements of the array under `key`: none when absent or not an array.
pub open spec fn items_at(v: JsonValue, key: Seq<char>) -> Seq<JsonValue> {
    match field_of(v, key) {
        Some(JsonValue::Array(items)) => items@,
        _ => Seq::empty(),
    }
}

/// The string elements of `items`, in order; other elements are dropped.
pub open spec fn strings_of(items: Seq<JsonValue>) -> Seq<Seq<char>>
    decreases items.len(),
{
    if items.len() == 0 {
        Seq::empty()
    } else {
        let rest = strings_of(items.drop_last());
        match items.last() {
            JsonValue::Str(s) => rest.push(s@),
            _ => rest,
        }
    }
}

pub open spec fn triage_view(a: TriageAction) -> (Seq<char>, Seq<char>) {
    (a.action@, a.reason@)
}

/// The triage actions that `items` describe: each element with a string
/// `action` gives one, its `reason` read as `""` when absent; any other
/// element is dropped.
pub open spec fn triage_actions_of(items: Seq<JsonValue>) -> Seq<(Seq<char>, Seq<char>)>
    decreases items.len(),
{
    if items.len() == 0 {
        Seq::empty()
    } else {
        let rest = triage_actions_of(items.drop_last());
        match string_at(items.last(), "action"@) {
            Some(a) => rest.push((a, string_or(items.last(), "reason"@, ""@))),
            None => rest,
        }
    }
}

pub open spec fn suggested_view(a: SuggestedAction) -> (Seq<char>, Option<Seq<char>>) {
    (a.action@, text_of(a.reason))
}

/// The suggested actions that `items` describe: each element with a string
/// `action` gives one, with its `reason` when that is a string; any other
/// element is dropped.
pub open spec fn suggested_actions_of(items: Seq<JsonValue>) -> Seq<(Seq<char>, Option<Seq<char>>)>
    decreases items.len(),
{
    if items.len() == 0 {
        Seq::empty()
    } else {
        let rest = suggested_actions_of(items.drop_last());
        match string_at(items.last(), "action"@) {
            Some(a) => rest.push((a, string_at(items.last(), "reason"@))),
            None => rest,
        }
    }
}

fn read_flag(v: &JsonValue, key: &str) -> (r: bool)
    ensures
        r == flag(*v, key@),
{
    match v.get(key) {
        Some(JsonValue::Bool(b)) => *b,
        _ => false,
    }
}

fn read_string(v: &JsonValue, key: &str) -> (r: Option<String>)
    ensures
        text_of(r) == string_at(*v, key@),
{
    match v.get(key) {
        Some(JsonValue::Str(s)) => Some(s.clone()),
        _ => None,
    }
}

fn read_string_or(v: &JsonValue, key: &str, default: &str) -> (r: String)
    ensures
        r@ == string_or(*v, key@, default@),
{
    match v.get(key) {
        Some(JsonValue::Str(s)) => s.clone(),
        _ => default.to_owned(),
    }
}

fn read_nonempty_string(v: &JsonValue, key: &str) -> (r: Option<String>)
    ensures
        text_of(r) == nonempty_string_at(*v, key@),
{
    match v.get(key) {
        Some(JsonValue::Str(s)) => if s.as_str().is_empty() {
            None
        } else {
            Some(s.clone())
        },
        _ => None,
    }
}

fn read_strings(v: &JsonValue, key: &str) -> (r: Vec<String>)
    ensures
        r@.map_values(|s: String| s@) == strings_of(items_at(*v, key@)),
{
    let mut out: Vec<String> = Vec::new();
    match v.get(key) {
        Some(JsonValue::Array(items)) => {
            let mut i: usize = 0;
            assert(items@.subrange(0, 0) =~= Seq::<JsonValue>::empty());
            assert(out@.map_values(|s: String| s@) =~= Seq::<Seq<char>>::empty());
            while i < items.len()
                invariant
                    i <= items.len(),
                    out@.map_values(|s: String| s@) == strings_of(items@.subrange(0, i as int)),
                decreases items.len() - i,
            {
                let ghost before = out@.map_values(|s: String| s@);
                assert(items@.subrange(0, i + 1).drop_last() =~= items@.subrange(0, i as int));
                match &items[i] {
                    JsonValue::Str(s) => {
                        out.push(s.clone());
                        assert(out@.map_values(|s: String| s@) =~= before.push(items@[i as int]->Str_0@));
                    },
                    _ => {},
                }
                i = i + 1;
            }
            assert(items@.subrange(0, items@.len() as int) =~= items@);
        },
        _ => {},
    }
    out
}

fn read_triage_actions(v: &JsonValue, key: &str) -> (r: Vec<TriageAction>)
    ensures
        r@.map_values(|a: TriageAction| triage_view(a)) == triage_actions_of(items_at(*v, key@)),
{
    let mut out: Vec<TriageAction> = Vec::new();
    match v.get(key) {
        Some(JsonValue::Array(items)) => {
            let mut i: usize = 0;
            assert(items@.subrange(0, 0) =~= Seq::<JsonValue>::empty());
            assert(out@.map_values(|a: TriageAction| triage_view(a)) =~= Seq::<(Seq<char>, Seq<char>)>::empty());
            while i < items.len()
                invariant
                    i <= items.len(),
                    out@.map_values(|a: TriageAction| triage_view(a)) == triage_actions_of(
                        items@.subrange(0, i as int),
                    ),
                decreases items.len() - i,
            {
                let ghost before = out@.map_values(|a: TriageAction| triage_view(a));
                assert(items@.subrange(0, i + 1).drop_last() =~= items@.subrange(0, i as int));
                let item = &items[i];
                match read_string(item, "action") {
                    Some(action) => {
                        let reason = read_string_or(item, "reason", "");
                        let a = TriageAction { action, reason };
                        let ghost va = triage_view(a);
                        out.push(a);
                        assert(out@.map_values(|a: TriageAction| triage_view(a)) =~= before.push(va));
                    },
                    None => {},
                }
                i = i + 1;
            }
            assert(items@.subrange(0, items@.len() as int) =~= items@);
        },
        _ => {},
    }
    out
}

fn read_suggested_actions(v: &JsonValue, key: &str) -> (r: Vec<SuggestedAction>)
    ensures
        r@.map_values(|a: SuggestedAction| suggested_view(a)) == suggested_actions_of(
            items_at(*v, key@),
        ),
{
    let mut out: Vec<SuggestedAction> = Vec::new();
    match v.get(key) {
        Some(JsonValue::Array(items)) => {
            let mut i: usize = 0;
            assert(items@.subrange(0, 0) =~= Seq::<JsonValue>::empty());
            assert(out@.map_values(|a: SuggestedAction| suggested_view(a)) =~= Seq::<
                (Seq<char>, Option<Seq<char>>),
            >::empty());
            while i < items.len()
                invariant
                    i <= items.len(),
                    out@.map_values(|a: SuggestedAction| suggested_view(a)) == suggested_actions_of(
                        items@.subrange(0, i as int),
                    ),
                decreases items.len() - i,
            {
                let ghost before = out@.map_values(|a: SuggestedAction| suggested_view(a));
                assert(items@.subrange(0, i + 1).drop_last() =~= items@.subrange(0, i as int));
                let item = &items[i];
                match read_string(item, "action") {
                    Some(action) => {
                        let reason = read_string(item, "reason");
                        let a = SuggestedAction { action, reason };
                        let ghost va = suggested_view(a);
                        out.push(a);
                        assert(out@.map_values(|a: SuggestedAction| suggested_view(a)) =~= before.push(
                            va,
                        ));
                    },
                    None => {},
                }
                i = i + 1;
            }
            assert(items@.subrange(0, items@.len() as int) =~= items@);
        },
        _ => {},
    }
    out
}

/// Decodes a classification answer. Flags default to `false`, the summary
/// to `""`; the canned id and the draft count only when non-empty; action
/// elements without a string `action` are dropped.
pub fn classify_bug(result: &JsonValue) -> (r: ClassifyResponse)
    ensures
        r.ai_detected_str == flag(*result, "ai_detected_str"@),
        r.ai_detected_test_attached == flag(*result, "ai_detected_test_attached"@),
        r.crashstack_present == flag(*result, "crashstack_present"@),
        r.fuzzing_testcase == flag(*result, "fuzzing_testcase"@),
        r.summary@ == string_or(*result, "summary"@, ""@),
        text_of(r.suggested_severity) == string_at(*result, "suggested_severity"@),
        text_of(r.suggested_priority) == string_at(*result, "suggested_priority"@),
        r.suggested_actions@.map_values(|a: TriageAction| triage_view(a)) == triage_actions_of(
            items_at(*result, "suggested_actions"@),
        ),
        text_of(r.triage_reasoning) == string_at(*result, "triage_reasoning"@),
        text_of(r.suggested_canned_id) == nonempty_string_at(*result, "suggested_canned_id"@),
        text_of(r.draft_response) == nonempty_string_at(*result, "draft_response"@),
        r.notes is None,
{
    ClassifyResponse {
        ai_detected_str: read_flag(result, "ai_detected_str"),
        ai_detected_test_attached: read_flag(result, "ai_detected_test_attached"),
        crashstack_present: read_flag(result, "crashstack_present"),
        fuzzing_testcase: read_flag(result, "fuzzing_testcase"),
        summary: read_string_or(result, "summary", ""),
        suggested_severity: read_string(result, "suggested_severity"),
        suggested_priority: read_string(result, "suggested_priority"),
        suggested_actions: read_triage_actions(result, "suggested_actions"),
        triage_reasoning: read_string(result, "triage_reasoning"),
        suggested_canned_id: read_nonempty_string(result, "suggested_canned_id"),
        draft_response: read_nonempty_string(result, "draft_response"),
        notes: None,
    }
}

/// Decodes the choice of a canned response; absent strings read as `""`.
pub fn suggest_response(result: &JsonValue) -> (r: SuggestResponse)
    ensures
        r.suggested_response_id@ == string_or(*result, "suggested_response_id"@, ""@),
        r.draft_response@ == string_or(*result, "draft_response"@, ""@),
        text_of(r.reasoning) == string_at(*result, "reasoning"@),
{
    SuggestResponse {
        suggested_response_id: read_string_or(result, "suggested_response_id", ""),
        draft_response: read_string_or(result, "draft_response", ""),
        reasoning: read_string(result, "reasoning"),
    }
}

/// Decodes a generated response. Absent strings read as `""`; action
/// elements without a string `action`, and ids that are not strings, are
/// dropped.
pub fn generate_response(result: &JsonValue) -> (r: GenerateResponse)
    ensures
        r.response_text@ == string_or(*result, "response_text"@, ""@),
        r.suggested_actions@.map_values(|a: SuggestedAction| suggested_view(a))
            == suggested_actions_of(items_at(*result, "suggested_actions"@)),
        r.used_canned_ids@.map_values(|s: String| s@) == strings_of(
            items_at(*result, "used_canned_ids"@),
        ),
        r.reasoning@ == string_or(*result, "reasoning"@, ""@),
{
    GenerateResponse {
        response_text: read_string_or(result, "response_text", ""),
        suggested_actions: read_suggested_actions(result, "suggested_actions"),
        used_canned_ids: read_strings(result, "used_canned_ids"),
        reasoning: read_string_or(result, "reasoning", ""),
    }
}

/// Decodes a refined response; without a refined text the current response
/// is kept. Changes that are not strings are dropped.
pub fn refine_response(result: &JsonValue, current_response: &str) -> (r: RefineResponse)
    ensures
        r.refined_response@ == string_or(*result, "refined_response"@, current_response@),
        r.changes_made@.map_values(|s: String| s@) == strings_of(items_at(*result, "changes_made"@)),
{
    RefineResponse {
        refined_response: read_string_or(result, "refined_response", current_response),
        changes_made: read_strings(result, "changes_made"),
    }
}

/// Decodes a generated test page; the flag defaults to `false`, the strings
/// to `""`.
pub fn generate_testpage(result: &JsonValue) -> (r: TestPageResponse)
    ensures
        r.can_generate == flag(*result, "can_generate"@),
        r.html_content@ == string_or(*result, "html_content"@, ""@),
        r.reason@ == string_or(*result, "reason"@, ""@),
{
    TestPageResponse {
        can_generate: read_flag(result, "can_generate"),
        html_content: read_string_or(result, "html_content", ""),
        reason: read_string_or(result, "reason", ""),
    }
}

} // verus!

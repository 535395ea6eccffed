use vstd::prelude::*;
use crate::error::AgentError;
use crate::json::{entry_index, entry_value, field_of, parse_json, parsed_json, JsonValue};
use crate::lines::{lines_of, split_lines};

verus! {

/// The key under which the agent puts its structured answer.
pub open spec fn answer_key() -> Seq<char> {
    "structured_output"@
}

/// An ASCII whitespace character.
pub open spec fn is_blank_char(c: char) -> bool {
    c == ' ' || c == '\t' || c == '\n' || c == '\x0C' || c == '\r'
}

/// A line made of whitespace alone, the empty line included.
pub open spec fn is_blank(line: Seq<char>) -> bool {
    forall|i: int| 0 <= i < line.len() ==> is_blank_char(#[trigger] line[i])
}

/// The answer that a decoded output record carries, if it is a result
/// envelope: an object whose `type` is the string `"result"` and whose
/// `result` object holds a non-null `structured_output`.
pub open spec fn envelope_answer(record: JsonValue) -> Option<JsonValue> {
    match field_of(record, "type"@) {
        Some(JsonValue::Str(t)) => if t@ == "result"@ {
            match field_of(record, "result"@) {
                Some(inner) => match field_of(inner, answer_key()) {
                    Some(JsonValue::Null) => None,
                    Some(a) => Some(a),
                    None => None,
                },
                None => None,
            }
        } else {
            None
        },
        _ => None,
    }
}

/// The answer that one line of output carries: none for a blank line or for
/// one that does not decode as JSON.
pub open spec fn line_answer(line: Seq<char>) -> Option<JsonValue> {
    if is_blank(line) {
        None
    } else {
        match parsed_json(line) {
            Some(record) => envelope_answer(record),
            None => None,
        }
    }
}

/// The answer of the first line that carries one.
pub open spec fn first_line_answer(lines: Seq<Seq<char>>) -> Option<JsonValue>
    decreases lines.len(),
{
    if lines.len() == 0 {
        None
    } else {
        match line_answer(lines[0]) {
            Some(a) => Some(a),
            None => first_line_answer(lines.drop_first()),
        }
    }
}

/// Whether some entry's key is one of `markers`.
pub open spec fn has_marker(entries: Seq<(String, JsonValue)>, markers: Seq<Seq<char>>) -> bool {
    exists|m: int| 0 <= m < markers.len() && (#[trigger] entry_value(entries, markers[m])) is Some
}

/// The answer read from the whole output as one JSON document.
pub open spec fn whole_text_answer(text: Seq<char>, markers: Seq<Seq<char>>) -> Option<JsonValue> {
    document_answer(parsed_json(text), markers)
}

/// The answer that a decoded document gives: the value under
/// `structured_output` of an object, or else the object itself when it has
/// one of the marker keys; nothing for any other document, or none.
pub open spec fn document_answer(parsed: Option<JsonValue>, markers: Seq<Seq<char>>) -> Option<JsonValue> {
    match parsed {
        Some(JsonValue::Object(entries)) => match entry_value(entries@, answer_key()) {
            Some(a) => Some(a),
            None => if has_marker(entries@, markers) {
                Some(JsonValue::Object(entries))
            } else {
                None
            },
        },
        _ => None,
    }
}

/// The agent's answer in `text`: the first result envelope among its lines,
/// or else what the whole text gives.
pub open spec fn structured_answer(text: Seq<char>, markers: Seq<Seq<char>>) -> Option<JsonValue> {
    match first_line_answer(lines_of(text)) {
        Some(a) => Some(a),
        None => whole_text_answer(text, markers),
    }
}

pub open spec fn marker_texts(markers: Seq<String>) -> Seq<Seq<char>> {
    markers.map_values(|m: String| m@)
}

/// The keys that mark a bare object as a direct answer: one from each kind
/// of answer this service asks for (a detection flag, a final response, a
/// chosen canned response).
pub fn answer_markers() -> (r: Vec<String>)
    ensures
        marker_texts(r@) == seq!["ai_detected_str"@, "final_response"@, "suggested_response_id"@],
{
    let mut r: Vec<String> = Vec::new();
    r.push("ai_detected_str".to_owned());
    r.push("final_response".to_owned());
    r.push("suggested_response_id".to_owned());
    assert(marker_texts(r@) =~= seq!["ai_detected_str"@, "final_response"@, "suggested_response_id"@]);
    r
}

/// Whether `line` holds only blank characters.
fn blank_line(line: &str) -> (r: bool)
    ensures
        r == is_blank(line@),
{
    let mut blank = true;
    for c in it: line.chars()
        invariant
            it.seq() == line@,
            blank == (forall|i: int| 0 <= i < it.index() ==> is_blank_char(#[trigger] line@[i])),
    {
        if !(c == ' ' || c == '\t' || c == '\n' || c == '\x0C' || c == '\r') {
            blank = false;
        }
    }
    blank
}

/// The answer carried by a decoded output record, taken out of it.
pub fn record_answer(record: JsonValue) -> (r: Option<JsonValue>)
    ensures
        r == envelope_answer(record),
{
    let is_result = match record.get("type") {
        Some(JsonValue::Str(t)) => *t == "result".to_owned(),
        _ => false,
    };
    if !is_result {
        return None;
    }
    match record.take_field("result") {
        Some(inner) => match inner.take_field("structured_output") {
            Some(JsonValue::Null) => None,
            Some(a) => Some(a),
            None => None,
        },
        None => None,
    }
}

/// Whether one of `markers` is a key of `entries`.
fn has_any_marker(entries: &Vec<(String, JsonValue)>, markers: &Vec<String>) -> (r: bool)
    ensures
        r == has_marker(entries@, marker_texts(markers@)),
{
    let ghost ms = marker_texts(markers@);
    let mut m: usize = 0;
    while m < markers.len()
        invariant
            m <= markers.len(),
            ms == marker_texts(markers@),
            forall|j: int| 0 <= j < m ==> (#[trigger] entry_value(entries@, ms[j])) is None,
        decreases markers.len() - m,
    {
        assert(ms[m as int] == markers@[m as int]@);
        if entry_index(entries, markers[m].as_str()).is_some() {
            return true;
        }
        m = m + 1;
    }
    false
}

/// Recovers the agent's structured answer from its standard output.
///
/// The lines are scanned first and the first result envelope wins; then the
/// whole output is read as one JSON object, whose `structured_output` is the
/// answer, or which is itself the answer when it has one of `markers` as a
/// key. Failing all of these, the error holds the output unchanged.
pub fn extract_structured_output(stdout: &str, markers: &Vec<String>) -> (r: Result<JsonValue, AgentError>)
    ensures
        match structured_answer(stdout@, marker_texts(markers@)) {
            Some(a) => r == Ok::<JsonValue, AgentError>(a),
            None => r matches Err(AgentError::UnrecognizedOutput(out)) && out@ == stdout@,
        },
{
    let lines = split_lines(stdout);
    let ghost ls = lines_of(stdout@);
    let mut i: usize = 0;
    assert(ls.subrange(0, ls.len() as int) =~= ls);
    while i < lines.len()
        invariant
            lines@.map_values(|l: String| l@) == ls,
            ls == lines_of(stdout@),
            i <= lines.len(),
            first_line_answer(ls) == first_line_answer(ls.subrange(i as int, ls.len() as int)),
        decreases lines.len() - i,
    {
        let ghost rest = ls.subrange(i as int, ls.len() as int);
        assert(rest[0] == lines@[i as int]@);
        assert(rest.drop_first() =~= ls.subrange(i + 1, ls.len() as int));
        let line = lines[i].as_str();
        if !blank_line(line) {
            match parse_json(line) {
                Some(record) => match record_answer(record) {
                    Some(a) => return Ok(a),
                    None => {},
                },
                None => {},
            }
        }
        i = i + 1;
    }
    match whole_text_answer_of(parse_json(stdout), markers) {
        Some(a) => Ok(a),
        None => Err(AgentError::UnrecognizedOutput(stdout.to_owned())),
    }
}

/// The answer that the whole output gives once decoded as one document
/// (`None` when it did not decode): the value under `structured_output` of
/// an object, or else the object itself when one of `markers` is a key.
pub fn whole_text_answer_of(parsed: Option<JsonValue>, markers: &Vec<String>) -> (r: Option<JsonValue>)
    ensures
        r == document_answer(parsed, marker_texts(markers@)),
{
    match parsed {
        Some(JsonValue::Object(entries)) => match entry_index(&entries, "structured_output") {
            Some(k) => {
                let mut entries = entries;
                let (_, a) = entries.swap_remove(k);
                Some(a)
            },
            None => if has_any_marker(&entries, markers) {
                Some(JsonValue::Object(entries))
            } else {
                None
            },
        },
        _ => None,
    }
}

} // verus!

//! Properties of extraction and decoding that hold for every input.
use vstd::prelude::*;
use crate::error::{details_of, AgentError};
use crate::extract::{
    answer_key, envelope_answer, first_line_answer, has_marker, is_blank, line_answer,
    structured_answer, whole_text_answer,
};
use crate::json::{entry_value, field_of, parsed_json, JsonValue};
use crate::lines::lines_of;
use crate::responses::{flag, string_at, string_or, triage_actions_of};

verus! {

/// Whether `record` is a result envelope that carries `payload`: its `type`
/// is the string `"result"`, and its `result` object holds `payload`, which
/// is not null, under `structured_output`.
pub open spec fn result_envelope(record: JsonValue, payload: JsonValue) -> bool {
    &&& field_of(record, "type"@) matches Some(JsonValue::Str(t)) && t@ == "result"@
    &&& field_of(record, "result"@) matches Some(inner) && field_of(inner, answer_key()) == Some(
        payload,
    )
    &&& payload != JsonValue::Null
}

/// A line that decodes as a result envelope carries that envelope's payload.
pub proof fn law_result_line_carries_payload(line: Seq<char>, record: JsonValue, payload: JsonValue)
    requires
        !is_blank(line),
        parsed_json(line) == Some(record),
        result_envelope(record, payload),
    ensures
        line_answer(line) == Some(payload),
{
    assert(envelope_answer(record) == Some(payload));
}

proof fn lemma_skip_lines(ls: Seq<Seq<char>>, k: int)
    requires
        0 <= k <= ls.len(),
        forall|i: int| 0 <= i < k ==> (#[trigger] line_answer(ls[i])) is None,
    ensures
        first_line_answer(ls) == first_line_answer(ls.subrange(k, ls.len() as int)),
    decreases k,
{
    if k > 0 {
        assert(line_answer(ls[0]) is None);
        let rest = ls.drop_first();
        assert forall|i: int| 0 <= i < k - 1 implies (#[trigger] line_answer(rest[i])) is None by {
            assert(rest[i] == ls[i + 1]);
        }
        lemma_skip_lines(rest, k - 1);
        assert(rest.subrange(k - 1, rest.len() as int) =~= ls.subrange(k, ls.len() as int));
    } else {
        assert(ls.subrange(0, ls.len() as int) =~= ls);
    }
}

/// The output whose only line is a result envelope yields that envelope's
/// payload, exactly.
pub proof fn law_single_result_line(
    text: Seq<char>,
    markers: Seq<Seq<char>>,
    line: Seq<char>,
    record: JsonValue,
    payload: JsonValue,
)
    requires
        lines_of(text) == seq![line],
        !is_blank(line),
        parsed_json(line) == Some(record),
        result_envelope(record, payload),
    ensures
        structured_answer(text, markers) == Some(payload),
{
    law_result_line_carries_payload(line, record, payload);
    assert(lines_of(text)[0] == line);
}

/// The first line that carries an answer decides: lines before it carry
/// none, and whatever follows it, a second result line included, is never
/// used.
pub proof fn law_first_result_line_wins(
    text: Seq<char>,
    markers: Seq<Seq<char>>,
    k: int,
    record: JsonValue,
    payload: JsonValue,
)
    requires
        0 <= k < lines_of(text).len(),
        forall|i: int| 0 <= i < k ==> (#[trigger] line_answer(lines_of(text)[i])) is None,
        !is_blank(lines_of(text)[k]),
        parsed_json(lines_of(text)[k]) == Some(record),
        result_envelope(record, payload),
    ensures
        structured_answer(text, markers) == Some(payload),
{
    let ls = lines_of(text);
    lemma_skip_lines(ls, k);
    law_result_line_carries_payload(ls[k], record, payload);
    assert(ls.subrange(k, ls.len() as int)[0] == ls[k]);
}

/// Of two result lines, the answer is the payload of the first.
pub proof fn law_two_result_lines(
    text: Seq<char>,
    markers: Seq<Seq<char>>,
    first: Seq<char>,
    second: Seq<char>,
    record1: JsonValue,
    payload1: JsonValue,
    record2: JsonValue,
    payload2: JsonValue,
)
    requires
        lines_of(text) == seq![first, second],
        !is_blank(first),
        !is_blank(second),
        parsed_json(first) == Some(record1),
        result_envelope(record1, payload1),
        parsed_json(second) == Some(record2),
        result_envelope(record2, payload2),
    ensures
        structured_answer(text, markers) == Some(payload1),
{
    law_first_result_line_wins(text, markers, 0, record1, payload1);
}

proof fn lemma_no_line_answer(ls: Seq<Seq<char>>)
    requires
        forall|i: int| 0 <= i < ls.len() ==> (#[trigger] line_answer(ls[i])) is None,
    ensures
        first_line_answer(ls) is None,
{
    lemma_skip_lines(ls, ls.len() as int);
    assert(ls.subrange(ls.len() as int, ls.len() as int).len() == 0);
}

/// When no line carries an answer but the whole output is one object with a
/// `structured_output`, the value under that key is the answer.
pub proof fn law_whole_text_answer(
    text: Seq<char>,
    markers: Seq<Seq<char>>,
    entries: Vec<(String, JsonValue)>,
    answer: JsonValue,
)
    requires
        forall|i: int| 0 <= i < lines_of(text).len() ==> (#[trigger] line_answer(lines_of(text)[i])) is None,
        parsed_json(text) == Some(JsonValue::Object(entries)),
        entry_value(entries@, answer_key()) == Some(answer),
    ensures
        structured_answer(text, markers) == Some(answer),
{
    lemma_no_line_answer(lines_of(text));
}

/// When no line carries an answer and the whole output is one object
/// without `structured_output` but with a marker key, that object, unchanged,
/// is the answer.
pub proof fn law_direct_shape_answer(
    text: Seq<char>,
    markers: Seq<Seq<char>>,
    entries: Vec<(String, JsonValue)>,
    m: int,
)
    requires
        forall|i: int| 0 <= i < lines_of(text).len() ==> (#[trigger] line_answer(lines_of(text)[i])) is None,
        parsed_json(text) == Some(JsonValue::Object(entries)),
        entry_value(entries@, answer_key()) is None,
        0 <= m < markers.len(),
        entry_value(entries@, markers[m]) is Some,
    ensures
        structured_answer(text, markers) == Some(JsonValue::Object(entries)),
{
    lemma_no_line_answer(lines_of(text));
    assert(has_marker(entries@, markers));
}

/// Output of none of the recognized shapes has no answer, and the error it
/// gives reports the output itself in its detail.
pub proof fn law_unrecognized_output(
    text: Seq<char>,
    markers: Seq<Seq<char>>,
    out: String,
    program: Seq<char>,
)
    requires
        forall|i: int| 0 <= i < lines_of(text).len() ==> (#[trigger] line_answer(lines_of(text)[i])) is None,
        match parsed_json(text) {
            Some(JsonValue::Object(entries)) => entry_value(entries@, answer_key()) is None && forall|
                m: int,
            |
                0 <= m < markers.len() ==> (#[trigger] entry_value(entries@, markers[m])) is None,
            _ => true,
        },
        out@ == text,
    ensures
        structured_answer(text, markers) is None,
        details_of(AgentError::UnrecognizedOutput(out), program) matches Some(d) && d.subrange(
            d.len() - text.len(),
            d.len() as int,
        ) == text,
{
    lemma_no_line_answer(lines_of(text));
    assert(whole_text_answer(text, markers) is None);
    let d = "Output: "@ + text;
    assert(d.subrange(d.len() - text.len(), d.len() as int) =~= text);
}

/// Decoding is defensive: an absent flag reads as `false`, and of a
/// well-formed action element and a malformed one (no string `action`) only
/// the well-formed one is kept.
pub proof fn law_defensive_decoding(answer: JsonValue, key: Seq<char>, good: JsonValue, bad: JsonValue)
    requires
        field_of(answer, key) is None,
        string_at(good, "action"@) is Some,
        string_at(bad, "action"@) is None,
    ensures
        flag(answer, key) == false,
        triage_actions_of(seq![good, bad]) == seq![
            (string_at(good, "action"@).unwrap(), string_or(good, "reason"@, ""@)),
        ],
{
    let both = seq![good, bad];
    assert(both.drop_last() =~= seq![good]);
    assert(seq![good].drop_last() =~= Seq::<JsonValue>::empty());
    assert(both.last() == bad);
    assert(seq![good].last() == good);
    assert(triage_actions_of(Seq::<JsonValue>::empty()) =~= Seq::empty());
    assert(triage_actions_of(seq![good]) =~= seq![
        (string_at(good, "action"@).unwrap(), string_or(good, "reason"@, ""@)),
    ]);
}

} // verus!

use vstd::prelude::*;

verus! {

/// A JSON document as the library sees it.
///
/// Numbers keep the text that serde_json prints for them, so no float is
/// ever needed. Object entries keep the order in which the parser hands them
/// out (the parser gives each key once); a lookup takes the first entry with
/// the key.
#[derive(Debug, PartialEq)]
pub enum JsonValue {
    Null,
    Bool(bool),
    Number(String),
    Str(String),
    Array(Vec<JsonValue>),
    Object(Vec<(String, JsonValue)>),
}

/// The value stored under `key` in a list of object entries (first match).
pub open spec fn entry_value(entries: Seq<(String, JsonValue)>, key: Seq<char>) -> Option<JsonValue>
    decreases entries.len(),
{
    if entries.len() == 0 {
        None
    } else if entries[0].0@ == key {
        Some(entries[0].1)
    } else {
        entry_value(entries.drop_first(), key)
    }
}

/// The value stored under `key` when `v` is an object; `None` otherwise.
pub open spec fn field_of(v: JsonValue, key: Seq<char>) -> Option<JsonValue> {
    match v {
        JsonValue::Object(entries) => entry_value(entries@, key),
        _ => None,
    }
}

/// The index of the first entry whose key is `key`.
pub(crate) fn entry_index(entries: &Vec<(String, JsonValue)>, key: &str) -> (r: Option<usize>)
    ensures
        match r {
            Some(i) => i < entries.len() && entry_value(entries@, key@) == Some(entries@[i as int].1),
            None => entry_value(entries@, key@) is None,
        },
{
    let k = key.to_owned();
    let mut i: usize = 0;
    assert(entries@.subrange(0, entries@.len() as int) =~= entries@);
    while i < entries.len()
        invariant
            i <= entries.len(),
            k@ == key@,
            entry_value(entries@, key@) == entry_value(
                entries@.subrange(i as int, entries@.len() as int),
                key@,
            ),
        decreases entries.len() - i,
    {
        let ghost rest = entries@.subrange(i as int, entries@.len() as int);
        assert(rest[0] == entries@[i as int]);
        if entries[i].0 == k {
            return Some(i);
        }
        assert(rest.drop_first() =~= entries@.subrange(i + 1, entries@.len() as int));
        i = i + 1;
    }
    None
}

impl JsonValue {
    /// Looks up `key` in an object; any other value has no fields.
    pub fn get(&self, key: &str) -> (r: Option<&JsonValue>)
        ensures
            match r {
                Some(x) => field_of(*self, key@) == Some(*x),
                None => field_of(*self, key@) is None,
            },
    {
        match self {
            JsonValue::Object(entries) => match entry_index(entries, key) {
                Some(i) => Some(&entries[i].1),
                None => None,
            },
            _ => None,
        }
    }

    /// Takes the value stored under `key` out of an object.
    pub fn take_field(self, key: &str) -> (r: Option<JsonValue>)
        ensures
            r == field_of(self, key@),
    {
        match self {
            JsonValue::Object(entries) => match entry_index(&entries, key) {
                Some(i) => {
                    let mut entries = entries;
                    let (_, v) = entries.swap_remove(i);
                    Some(v)
                },
                None => None,
            },
            _ => None,
        }
    }
}

/// serde_json's document type; opaque here, and only ever unfolded one level
/// at a time by `unfold`.
#[verifier::external_type_specification]
#[verifier::external_body]
pub struct ExSerdeValue(serde_json::Value);

/// Deepest nesting of arrays and objects that serde_json's parser accepts
/// with its default recursion limit.
const NESTING_LIMIT: usize = 128;

/// One level of a parsed serde_json document: the scalars converted, the
/// children still in serde_json's form.
enum SerdeNode {
    Null,
    Bool(bool),
    Number(String),
    Str(String),
    Array(Vec<serde_json::Value>),
    Object(Vec<(String, serde_json::Value)>),
}

/// What serde_json parses `text` into, converted to `JsonValue`; `None`
/// when the text is not one JSON document.
pub uninterp spec fn parsed_json(text: Seq<char>) -> Option<JsonValue>;

/// Relies on `serde_json::from_str::<serde_json::Value>`: it parses the
/// whole text as one JSON document (surrounding whitespace allowed) and fails
/// otherwise, and its outcome depends on the text alone. The document is then
/// converted by `from_serde`, which is verified and deterministic.
#[verifier::external_body]
pub(crate) fn parse_json(text: &str) -> (r: Option<JsonValue>)
    ensures
        r == parsed_json(text@),
{
    serde_json::from_str::<serde_json::Value>(text).ok().and_then(from_serde)
}

/// Relies on the variants of `serde_json::Value`, on `serde_json::Number`'s
/// `Display` (the number as JSON text) and on `serde_json::Map`'s owning
/// iterator (each entry once).
#[verifier::external_body]
fn unfold(v: serde_json::Value) -> SerdeNode {
    match v {
        serde_json::Value::Null => SerdeNode::Null,
        serde_json::Value::Bool(b) => SerdeNode::Bool(b),
        serde_json::Value::Number(n) => SerdeNode::Number(n.to_string()),
        serde_json::Value::String(s) => SerdeNode::Str(s),
        serde_json::Value::Array(a) => SerdeNode::Array(a),
        serde_json::Value::Object(m) => SerdeNode::Object(m.into_iter().collect()),
    }
}

/// Converts a serde_json document into `JsonValue`.
fn from_serde(v: serde_json::Value) -> Option<JsonValue> {
    convert(v, NESTING_LIMIT)
}

/// Converts `v`, whose arrays and objects nest at most `depth` deep.
fn convert(v: serde_json::Value, depth: usize) -> Option<JsonValue>
    decreases depth,
{
    match unfold(v) {
        SerdeNode::Null => Some(JsonValue::Null),
        SerdeNode::Bool(b) => Some(JsonValue::Bool(b)),
        SerdeNode::Number(n) => Some(JsonValue::Number(n)),
        SerdeNode::Str(s) => Some(JsonValue::Str(s)),
        SerdeNode::Array(items) => {
            if depth == 0 {
                return None;
            }
            let mut out: Vec<JsonValue> = Vec::new();
            let inner: usize = depth - 1;
            for item in items
                invariant
                    inner < depth,
            {
                match convert(item, inner) {
                    Some(x) => out.push(x),
                    None => return None,
                }
            }
            Some(JsonValue::Array(out))
        },
        SerdeNode::Object(entries) => {
            if depth == 0 {
                return None;
            }
            let mut out: Vec<(String, JsonValue)> = Vec::new();
            let inner: usize = depth - 1;
            for entry in entries
                invariant
                    inner < depth,
            {
                let (key, item) = entry;
                match convert(item, inner) {
                    Some(x) => out.push((key, x)),
                    None => return None,
                }
            }
            Some(JsonValue::Object(out))
        },
    }
}

} // verus!

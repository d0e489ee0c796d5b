//! A structured JSON value the library can reason about.
//!
//! The backend's responses arrive as JSON text. `serde_json` does the actual
//! parsing and rendering behind two trusted wrappers; everything the library
//! reads out of a parsed value — field lookups, type tests — is verified code
//! over [`JsonValue`], a plain enum mirroring the JSON data model. A number is
//! carried by its decimal text, which this library never computes with.

use vstd::prelude::*;

verus! {

/// A JSON document as the library holds it: a plain recursive enum. An object
/// keeps its fields in order of appearance; lookups take the first binding of
/// a key.
#[derive(Debug, PartialEq)]
pub enum JsonValue {
    /// The JSON `null`.
    Null,
    /// A JSON boolean.
    Bool(bool),
    /// A JSON number, carried by its decimal text.
    Num(String),
    /// A JSON string.
    Str(String),
    /// A JSON array.
    Arr(Vec<JsonValue>),
    /// A JSON object, fields in order of appearance.
    Obj(Vec<(String, JsonValue)>),
}

/// The first binding of `key` among `fields`, if any: the lookup the
/// extraction logic applies to every object it reads.
pub open spec fn lookup(fields: Seq<(String, JsonValue)>, key: Seq<char>) -> Option<JsonValue>
    decreases fields.len(),
{
    if fields.len() == 0 {
        None
    } else if fields[0].0@ == key {
        Some(fields[0].1)
    } else {
        lookup(fields.drop_first(), key)
    }
}

/// `i` is the index of the first binding of `key` among `fields`.
pub open spec fn first_index_of_key(
    fields: Seq<(String, JsonValue)>,
    key: Seq<char>,
    i: int,
) -> bool {
    &&& 0 <= i < fields.len()
    &&& fields[i].0@ == key
    &&& forall|j: int| 0 <= j < i ==> fields[j].0@ != key
}

/// The recursive lookup agrees with the first matching index: it yields the
/// value at that index, and `None` exactly when no binding of the key exists.
pub proof fn lemma_lookup_first_index(fields: Seq<(String, JsonValue)>, key: Seq<char>, i: int)
    requires
        first_index_of_key(fields, key, i),
    ensures
        lookup(fields, key) == Some(fields[i].1),
    decreases i,
{
    if i > 0 {
        assert(fields[0].0@ != key);
        assert(first_index_of_key(fields.drop_first(), key, i - 1)) by {
            assert(forall|j: int|
                0 <= j < i - 1 ==> fields.drop_first()[j] == fields[j + 1]);
        }
        lemma_lookup_first_index(fields.drop_first(), key, i - 1);
    }
}

/// With no binding of the key among the fields, the lookup yields `None`.
pub proof fn lemma_lookup_absent(fields: Seq<(String, JsonValue)>, key: Seq<char>)
    requires
        forall|j: int| 0 <= j < fields.len() ==> fields[j].0@ != key,
    ensures
        lookup(fields, key) is None,
    decreases fields.len(),
{
    if fields.len() > 0 {
        lemma_lookup_absent(fields.drop_first(), key);
    }
}

/// Compares two strings by their characters.
pub fn string_eq(a: &String, b: &String) -> (r: bool)
    ensures
        r == (a@ == b@),
{
    *a == *b
}

/// Finds the index of the first binding of `key` among `fields`, or reports
/// that the key is absent; the verified core of every object field lookup.
pub fn find_key(fields: &Vec<(String, JsonValue)>, key: &String) -> (r: Option<usize>)
    ensures
        match r {
            Some(i) => first_index_of_key(fields@, key@, i as int) && lookup(fields@, key@)
                == Some(fields@[i as int].1),
            None => lookup(fields@, key@) is None,
        },
{
    let mut i: usize = 0;
    while i < fields.len()
        invariant
            0 <= i <= fields@.len(),
            forall|j: int| 0 <= j < i ==> fields@[j].0@ != key@,
        decreases fields@.len() - i,
    {
        if string_eq(&fields[i].0, key) {
            proof {
                lemma_lookup_first_index(fields@, key@, i as int);
            }
            return Some(i);
        }
        i = i + 1;
    }
    proof {
        lemma_lookup_absent(fields@, key@);
    }
    None
}

/// What `serde_json` parses a given text into, translated to [`JsonValue`]:
/// `None` for text that is not valid JSON.
pub uninterp spec fn parsed_of(text: Seq<char>) -> Option<JsonValue>;

/// The JSON text `serde_json` renders a given value as.
pub uninterp spec fn rendered_of(value: JsonValue) -> Seq<char>;

/// The `serde_json` document type, declared so that the translation helpers
/// below may name it; the library never looks inside such a value.
#[verifier::external_type_specification]
#[verifier::external_body]
pub struct ExValue(serde_json::Value);

/// Translates a `serde_json` value into the library's model, arm by arm; a
/// number becomes its decimal text.
#[verifier::external_body]
fn from_outside_value(v: serde_json::Value) -> JsonValue {
    match v {
        serde_json::Value::Null => JsonValue::Null,
        serde_json::Value::Bool(b) => JsonValue::Bool(b),
        serde_json::Value::Number(n) => JsonValue::Num(n.to_string()),
        serde_json::Value::String(s) => JsonValue::Str(s),
        serde_json::Value::Array(a) => JsonValue::Arr(
            a.into_iter().map(from_outside_value).collect(),
        ),
        serde_json::Value::Object(m) => JsonValue::Obj(
            m.into_iter().map(|(k, x)| (k, from_outside_value(x))).collect(),
        ),
    }
}

/// Translates the library's model back into a `serde_json` value, arm by arm;
/// decimal text that `serde_json` does not accept as a number falls back to
/// `null`.
#[verifier::external_body]
fn to_outside_value(v: &JsonValue) -> serde_json::Value {
    match v {
        JsonValue::Null => serde_json::Value::Null,
        JsonValue::Bool(b) => serde_json::Value::Bool(*b),
        JsonValue::Num(n) => match serde_json::from_str::<serde_json::Number>(n) {
            Ok(num) => serde_json::Value::Number(num),
            Err(_) => serde_json::Value::Null,
        },
        JsonValue::Str(s) => serde_json::Value::String(s.clone()),
        JsonValue::Arr(a) => serde_json::Value::Array(a.iter().map(to_outside_value).collect()),
        JsonValue::Obj(f) => serde_json::Value::Object(
            f.iter().map(|p| (p.0.clone(), to_outside_value(&p.1))).collect(),
        ),
    }
}

/// Relies on `serde_json::from_str`: parsing is a function of the text alone,
/// and fails exactly on text that is not valid JSON. The result is named by
/// [`parsed_of`]; the verified extraction functions say what each outcome
/// means.
#[verifier::external_body]
pub(crate) fn parse_json(text: &str) -> (r: Option<JsonValue>)
    ensures
        r == parsed_of(text@),
{
    match serde_json::from_str::<serde_json::Value>(text) {
        Ok(v) => Some(from_outside_value(v)),
        Err(_) => None,
    }
}

/// Relies on `serde_json::to_string`: rendering is a function of the value
/// alone. The result is named by [`rendered_of`].
#[verifier::external_body]
pub(crate) fn render_json(value: &JsonValue) -> (r: String)
    ensures
        r@ == rendered_of(*value),
{
    match serde_json::to_string(&to_outside_value(value)) {
        Ok(s) => s,
        Err(_) => String::new(),
    }
}

} // verus!

//! A JSON document as plain values, with the accessors the configuration
//! parser reads.

use vstd::prelude::*;
use crate::text::str_eq;
use serde_json::Value;

verus! {

/// A JSON number, as far as the policy code reads it: a non-negative
/// integer, a negative integer, or any other number (whose value is not read).
#[derive(Debug, Clone, Copy)]
pub enum JsonNumber {
    PosInt(u64),
    NegInt(i64),
    Float,
}

/// A JSON value. Object members keep the order in which the document's map
/// yields them.
#[derive(Debug)]
pub enum JsonValue {
    Null,
    Bool(bool),
    Number(JsonNumber),
    String(String),
    Array(Vec<JsonValue>),
    Object(Vec<(String, JsonValue)>),
}

/// The value of the first member named `key`.
pub open spec fn obj_lookup(entries: Seq<(String, JsonValue)>, key: Seq<char>) -> Option<JsonValue>
    decreases entries.len(),
{
    if entries.len() == 0 {
        None
    } else if entries[0].0@ == key {
        Some(entries[0].1)
    } else {
        obj_lookup(entries.skip(1), key)
    }
}

/// `value.get(key)`: a member of an object; nothing for other values.
pub open spec fn json_get(v: JsonValue, key: Seq<char>) -> Option<JsonValue> {
    match v {
        JsonValue::Object(es) => obj_lookup(es@, key),
        _ => None,
    }
}

pub open spec fn json_as_str(v: JsonValue) -> Option<Seq<char>> {
    match v {
        JsonValue::String(s) => Some(s@),
        _ => None,
    }
}

pub open spec fn json_as_u64(v: JsonValue) -> Option<u64> {
    match v {
        JsonValue::Number(JsonNumber::PosInt(n)) => Some(n),
        _ => None,
    }
}

/// The string held by member `key`, when there is one and it is a string.
pub open spec fn str_member(v: JsonValue, key: Seq<char>) -> Option<Seq<char>> {
    match json_get(v, key) {
        Some(x) => json_as_str(x),
        None => None,
    }
}

impl JsonValue {
    /// The member `key` of an object (`None` for other values).
    pub fn get(&self, key: &str) -> (r: Option<&JsonValue>)
        ensures
            match r {
                Some(x) => json_get(*self, key@) == Some(*x),
                None => json_get(*self, key@) is None,
            },
    {
        match self {
            JsonValue::Object(es) => {
                let n = es.len();
                let mut i: usize = 0;
                assert(es@.skip(0) =~= es@);
                while i < n
                    invariant
                        n == es@.len(),
                        i <= n,
                        json_get(*self, key@) == obj_lookup(es@, key@),
                        obj_lookup(es@, key@) == obj_lookup(es@.skip(i as int), key@),
                    decreases n - i,
                {
                    let ghost rest = es@.skip(i as int);
                    assert(rest[0] == es@[i as int]);
                    if str_eq(es[i].0.as_str(), key) {
                        return Some(&es[i].1);
                    }
                    assert(rest.skip(1) =~= es@.skip(i + 1));
                    i = i + 1;
                }
                None
            },
            _ => None,
        }
    }

    pub fn as_str(&self) -> (r: Option<&str>)
        ensures
            match r {
                Some(s) => json_as_str(*self) == Some(s@),
                None => json_as_str(*self) is None,
            },
    {
        match self {
            JsonValue::String(s) => Some(s.as_str()),
            _ => None,
        }
    }

    pub fn as_u64(&self) -> (r: Option<u64>)
        ensures
            r == json_as_u64(*self),
    {
        match self {
            JsonValue::Number(JsonNumber::PosInt(n)) => Some(*n),
            _ => None,
        }
    }

    pub fn as_bool(&self) -> (r: Option<bool>)
        ensures
            r == (match *self {
                JsonValue::Bool(b) => Some(b),
                _ => None,
            }),
    {
        match self {
            JsonValue::Bool(b) => Some(*b),
            _ => None,
        }
    }

    pub fn as_array(&self) -> (r: Option<&Vec<JsonValue>>)
        ensures
            match r {
                Some(a) => *self == JsonValue::Array(*a),
                None => !(*self is Array),
            },
    {
        match self {
            JsonValue::Array(a) => Some(a),
            _ => None,
        }
    }

    pub fn is_object(&self) -> (r: bool)
        ensures
            r == (*self is Object),
    {
        match self {
            JsonValue::Object(_) => true,
            _ => false,
        }
    }
}

// ---------------------------------------------------------------------
// Parsing JSON text (`serde_json`)
// ---------------------------------------------------------------------

#[verifier::external_type_specification]
#[verifier::external_body]
pub struct ExSerdeJsonValue(serde_json::Value);

/// Name for what `serde_json::from_str` makes of a text: the document as a
/// `JsonValue`, or the text of its error.
pub uninterp spec fn json_document(text: Seq<char>) -> Result<JsonValue, Seq<char>>;

/// The document `serde_json` parsed, variant by variant: integers that fit
/// a `u64` or an `i64` keep their value, other numbers are `Float`, and
/// object members come in the order of serde_json's map.
#[verifier::external_body]
fn json_of_serde(v: &Value) -> JsonValue {
    match v {
        Value::Null => JsonValue::Null,
        Value::Bool(b) => JsonValue::Bool(*b),
        Value::Number(n) => JsonValue::Number(match (n.as_u64(), n.as_i64()) {
            (Some(u), _) => JsonNumber::PosInt(u),
            (None, Some(i)) => JsonNumber::NegInt(i),
            _ => JsonNumber::Float,
        }),
        Value::String(s) => JsonValue::String(s.clone()),
        Value::Array(a) => JsonValue::Array(a.iter().map(json_of_serde).collect()),
        Value::Object(o) => JsonValue::Object(o.iter().map(|(k, x)| (k.clone(), json_of_serde(x))).collect()),
    }
}

/// Calls `serde_json::from_str` to parse a JSON text into a document. The
/// contract claims that the outcome, the document or the error's message,
/// is a function of the text alone (named `json_document`).
#[verifier::external_body]
pub(crate) fn parse_json(text: &str) -> (r: Result<JsonValue, String>)
    ensures
        match r {
            Ok(j) => json_document(text@) == Ok::<JsonValue, Seq<char>>(j),
            Err(e) => json_document(text@) == Err::<JsonValue, Seq<char>>(e@),
        },
{
    match serde_json::from_str::<Value>(text) {
        Ok(v) => Ok(json_of_serde(&v)),
        Err(e) => Err(e.to_string()),
    }
}

} // verus!

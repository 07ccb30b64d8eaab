//! The JSON text boundary, through `serde_json`.
//!
//! The pipeline wire format travels as JSON text.  These trusted items
//! turn text into the crate's `JsonValue` and back; everything after
//! them is verified code on plain values.  Parsing and printing are
//! functions of their input alone, so their results carry opaque names
//! (`json_text_model`, `json_text_of`) that the contracts of callers
//! can speak of exactly.

use vstd::prelude::*;

use crate::json::{JsonVal, JsonValue};

verus! {

/// `serde_json`'s value type, declared so that it can stand in
/// signatures; the crate never looks inside one.
#[verifier::external_type_specification]
#[verifier::external_body]
pub struct ExValue(serde_json::Value);

/// The model of what a `serde_json` value holds, as this crate's JSON
/// model: null, booleans, numbers (integers exact, others as their
/// decimal text), strings, arrays and objects.
pub uninterp spec fn value_model(v: serde_json::Value) -> JsonVal;

/// What JSON text parses to, when it parses: a function of the text
/// alone.
pub uninterp spec fn json_text_model(s: Seq<char>) -> Option<JsonVal>;

/// The text a JSON value prints to: a function of the value's model
/// alone.
pub uninterp spec fn json_text_of(v: JsonVal) -> Seq<char>;

/// Relies on reading `serde_json::Value`'s variants, one arm each:
/// integers stay exact through `Number::as_i64`, any other number keeps
/// its decimal text, arrays and objects convert element by element in
/// order.
#[verifier::external_body]
pub fn value_to_json(v: &serde_json::Value) -> (r: JsonValue)
    ensures
        r@ == value_model(*v),
{
    match v {
        serde_json::Value::Null => JsonValue::Null,
        serde_json::Value::Bool(b) => JsonValue::Bool(*b),
        serde_json::Value::Number(n) => match n.as_i64() {
            Some(i) => JsonValue::Int(i),
            None => JsonValue::Num(n.to_string()),
        },
        serde_json::Value::String(s) => JsonValue::Str(s.clone()),
        serde_json::Value::Array(xs) => JsonValue::Arr(xs.iter().map(value_to_json).collect()),
        serde_json::Value::Object(m) => JsonValue::Obj(
            m.iter().map(|e| (e.0.clone(), value_to_json(e.1))).collect(),
        ),
    }
}

/// Builds the `serde_json` value a `JsonValue` stands for, variant by
/// variant; a kept number text that is not a JSON number renders as
/// null.  Only the trusted printer below relies on it.
#[verifier::external_body]
fn json_to_value(v: &JsonValue) -> serde_json::Value {
    match v {
        JsonValue::Null => serde_json::Value::Null,
        JsonValue::Bool(b) => serde_json::Value::Bool(*b),
        JsonValue::Int(i) => serde_json::Value::from(*i),
        JsonValue::Num(s) => match serde_json::from_str::<serde_json::Number>(s) {
            Ok(n) => serde_json::Value::Number(n),
            Err(_) => serde_json::Value::Null,
        },
        JsonValue::Str(s) => serde_json::Value::String(s.clone()),
        JsonValue::Arr(xs) => serde_json::Value::Array(xs.iter().map(json_to_value).collect()),
        JsonValue::Obj(fs) => serde_json::Value::Object(
            fs.iter().map(|e| (e.0.clone(), json_to_value(&e.1))).collect(),
        ),
    }
}

/// Relies on `serde_json::from_str`: whether and what a text parses to
/// depends on the text alone.  The result is converted value by value
/// into the crate's model.
#[verifier::external_body]
pub fn parse_json(s: &str) -> (r: Option<JsonValue>)
    ensures
        match json_text_model(s@) {
            Some(m) => r matches Some(j) && j@ == m,
            None => r is None,
        },
{
    match serde_json::from_str::<serde_json::Value>(s) {
        Ok(v) => Some(value_to_json(&v)),
        Err(_) => None,
    }
}

/// Relies on `serde_json::to_string`: the text a value prints to
/// depends on the value alone.
#[verifier::external_body]
pub fn to_json_text(v: &JsonValue) -> (r: String)
    ensures
        r@ == json_text_of(v@),
{
    serde_json::to_string(&json_to_value(v)).unwrap_or_default()
}

} // verus!

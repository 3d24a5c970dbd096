//! The trusted boundary between textual JSON/YAML and the value tree.
//!
//! Reading and writing text is delegated to serde_json and serde_yaml; each
//! call stands behind a small trusted item whose contract names the outcome.
//! Everything past the value tree is decoded and encoded by verified code.

use vstd::prelude::*;
use crate::error::Error;
use crate::json::{Json, JsonView};

verus! {

#[verifier::external_type_specification]
#[verifier::external_body]
pub struct ExJsonValue(serde_json::Value);

/// The value tree that JSON text denotes, or nothing where the text is
/// malformed. Parsing is a pure function of the text.
pub uninterp spec fn parsed_json(s: Seq<char>) -> Option<JsonView>;

/// The value tree that YAML text denotes, or nothing where the text is
/// malformed. Parsing is a pure function of the text.
pub uninterp spec fn parsed_yaml(s: Seq<char>) -> Option<JsonView>;

/// The compact JSON text of a value tree.
pub uninterp spec fn json_text_of(v: JsonView) -> Seq<char>;

/// The pretty-printed JSON text of a value tree.
pub uninterp spec fn json_pretty_of(v: JsonView) -> Seq<char>;

/// The YAML text of a value tree, or nothing where the YAML emitter
/// refuses the tree.
pub uninterp spec fn yaml_text_of(v: JsonView) -> Option<Seq<char>>;

/// Converts a serde_json value into the crate's value tree: a number that
/// fits in `i64` becomes an integer, any other number keeps its textual
/// form as a string; object entries keep their source order.
#[verifier::external_body]
fn json_of_serde(j: serde_json::Value) -> Json {
    match j {
        serde_json::Value::Null => Json::Null,
        serde_json::Value::Bool(b) => Json::Bool(b),
        serde_json::Value::Number(n) => match n.as_i64() {
            Some(i) => Json::Int(i),
            None => Json::Str(n.to_string()),
        },
        serde_json::Value::String(s) => Json::Str(s),
        serde_json::Value::Array(a) => Json::Arr(a.into_iter().map(json_of_serde).collect()),
        serde_json::Value::Object(m) => Json::Obj(
            m.into_iter().map(|(k, x)| (k, json_of_serde(x))).collect(),
        ),
    }
}

/// Converts the crate's value tree into a serde_json value, entry order
/// kept.
#[verifier::external_body]
fn serde_of_json(v: &Json) -> serde_json::Value {
    match v {
        Json::Null => serde_json::Value::Null,
        Json::Bool(b) => serde_json::Value::Bool(*b),
        Json::Int(i) => serde_json::Value::Number(serde_json::Number::from(*i)),
        Json::Str(s) => serde_json::Value::String(s.clone()),
        Json::Arr(items) => serde_json::Value::Array(items.iter().map(serde_of_json).collect()),
        Json::Obj(entries) => serde_json::Value::Object(
            entries.iter().map(|(k, x)| (k.clone(), serde_of_json(x))).collect(),
        ),
    }
}

/// Relies on serde_json::from_str: the parse of JSON text is a pure
/// function of the text, and fails exactly on malformed input; the failure
/// case carries the reader's message.
#[verifier::external_body]
fn parse_json_text(s: &str) -> (r: Result<Json, String>)
    ensures
        r matches Ok(v) ==> parsed_json(s@) == Some(v@),
        r is Err ==> parsed_json(s@) is None,
{
    match serde_json::from_str::<serde_json::Value>(s) {
        Ok(j) => Ok(json_of_serde(j)),
        Err(e) => Err(e.to_string()),
    }
}

/// Relies on serde_yaml::from_str: the parse of YAML text is a pure
/// function of the text, and fails exactly on malformed input; the failure
/// case carries the reader's message.
#[verifier::external_body]
fn parse_yaml_text(s: &str) -> (r: Result<Json, String>)
    ensures
        r matches Ok(v) ==> parsed_yaml(s@) == Some(v@),
        r is Err ==> parsed_yaml(s@) is None,
{
    match serde_yaml::from_str::<serde_json::Value>(s) {
        Ok(j) => Ok(json_of_serde(j)),
        Err(e) => Err(e.to_string()),
    }
}

/// Relies on serde_json::to_string: on a value tree, whose map keys are
/// strings, encoding cannot fail, and its output is a pure function of the
/// tree.
#[verifier::external_body]
fn emit_json_text(v: &Json) -> (r: String)
    ensures
        r@ == json_text_of(v@),
{
    match serde_json::to_string(&serde_of_json(v)) {
        Ok(s) => s,
        Err(_) => String::new(),
    }
}

/// Relies on serde_json::to_string_pretty: on a value tree, whose map keys
/// are strings, encoding cannot fail, and its output is a pure function of
/// the tree.
#[verifier::external_body]
fn emit_json_pretty(v: &Json) -> (r: String)
    ensures
        r@ == json_pretty_of(v@),
{
    match serde_json::to_string_pretty(&serde_of_json(v)) {
        Ok(s) => s,
        Err(_) => String::new(),
    }
}

/// Relies on serde_yaml::to_string: its output is a pure function of the
/// value tree; the failure case carries the emitter's message.
#[verifier::external_body]
fn emit_yaml_text(v: &Json) -> (r: Result<String, String>)
    ensures
        r matches Ok(s) ==> yaml_text_of(v@) == Some(s@),
        r is Err ==> yaml_text_of(v@) is None,
{
    match serde_yaml::to_string(&serde_of_json(v)) {
        Ok(s) => Ok(s),
        Err(e) => Err(e.to_string()),
    }
}

/// Parses JSON text into a value tree.
pub fn json_from_text(s: &str) -> (r: Result<Json, Error>)
    ensures
        r matches Ok(v) ==> parsed_json(s@) == Some(v@),
        r matches Err(e) ==> parsed_json(s@) is None && e@ matches crate::error::ErrorView::Decode(_),
{
    match parse_json_text(s) {
        Ok(v) => Ok(v),
        Err(m) => Err(Error::Decode(m)),
    }
}

/// Parses YAML text into a value tree.
pub fn yaml_from_text(s: &str) -> (r: Result<Json, Error>)
    ensures
        r matches Ok(v) ==> parsed_yaml(s@) == Some(v@),
        r matches Err(e) ==> parsed_yaml(s@) is None && e@ matches crate::error::ErrorView::Decode(_),
{
    match parse_yaml_text(s) {
        Ok(v) => Ok(v),
        Err(m) => Err(Error::Decode(m)),
    }
}

/// Encodes a value tree as compact JSON text.
pub fn json_text(v: &Json) -> (r: String)
    ensures
        r@ == json_text_of(v@),
{
    emit_json_text(v)
}

/// Encodes a value tree as pretty-printed JSON text.
pub fn json_pretty(v: &Json) -> (r: String)
    ensures
        r@ == json_pretty_of(v@),
{
    emit_json_pretty(v)
}

/// Encodes a value tree as YAML text.
pub fn yaml_text(v: &Json) -> (r: Result<String, Error>)
    ensures
        r matches Ok(s) ==> yaml_text_of(v@) == Some(s@),
        r matches Err(e) ==> yaml_text_of(v@) is None && e@ matches crate::error::ErrorView::Serialization(_),
{
    match emit_yaml_text(v) {
        Ok(s) => Ok(s),
        Err(m) => Err(Error::Serialization(m)),
    }
}

} // verus!

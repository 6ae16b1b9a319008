//! Trusted boundary to the outside JSON parser.
//!
//! The daemon's lines are parsed by `serde_json`; everything this module
//! states about that crate the verifier believes without proof. The parsed
//! tree is handed over as the crate's own [`Json`] model, and all schema
//! logic above this point is verified against these contracts.

use vstd::prelude::*;

use crate::errors::DecodeError;
use crate::json::{Json, JsonNum};

verus! {

/// `serde_json::Value`, declared so it can appear in signatures; opaque to
/// the verifier.
#[verifier::external_type_specification]
#[verifier::external_body]
pub struct ExValue(serde_json::Value);

/// The document a `serde_json::Value` holds, as the crate's own model:
/// strings and booleans as themselves, numbers with the parser's decimal
/// rendering and their integer readings, objects as key/value lists in the
/// parser's iteration order.
pub uninterp spec fn json_contents(v: serde_json::Value) -> Json;

/// What `serde_json::from_slice` makes of the bytes: the parsed document, or
/// nothing when they are not exactly one valid JSON document.
pub uninterp spec fn json_doc(bytes: Seq<u8>) -> Option<Json>;

/// The text `String::from_utf8_lossy` makes of the bytes.
pub uninterp spec fn lossy_text(bytes: Seq<u8>) -> Seq<char>;

/// Relies on `serde_json::from_slice::<serde_json::Value>`: parses the bytes
/// as one JSON document (surrounding whitespace allowed) and fails on
/// anything else, including trailing data. The error is its diagnostic text.
#[verifier::external_body]
fn parse_document(line: &Vec<u8>) -> (r: Result<serde_json::Value, String>)
    ensures
        match r {
            Ok(v) => json_doc(line@) == Some(json_contents(v)),
            Err(_) => json_doc(line@) is None,
        },
{
    serde_json::from_slice::<serde_json::Value>(line.as_slice()).map_err(|e| e.to_string())
}

/// Relies on `serde_json::Value` being a tree of the shapes matched below,
/// on `Number::as_i64` / `Number::as_u64` for the integer readings, and on
/// `Number`'s `Display` for the decimal rendering: together they are exactly
/// the contents of the value.
#[verifier::external_body]
fn value_to_json(v: &serde_json::Value) -> (r: Json)
    ensures
        r == json_contents(*v),
{
    match v {
        serde_json::Value::Null => Json::Null,
        serde_json::Value::Bool(b) => Json::Bool(*b),
        serde_json::Value::Number(n) => Json::Num(
            JsonNum { text: n.to_string(), int: n.as_i64(), uint: n.as_u64() },
        ),
        serde_json::Value::String(s) => Json::Str(s.clone()),
        serde_json::Value::Array(a) => Json::Arr(a.iter().map(value_to_json).collect()),
        serde_json::Value::Object(m) => Json::Obj(
            m.iter().map(|(k, x)| (k.clone(), value_to_json(x))).collect(),
        ),
    }
}

/// Relies on `String::from_utf8_lossy`: the bytes as text, invalid sequences
/// replaced.
#[verifier::external_body]
pub fn bytes_to_text(bytes: &Vec<u8>) -> (r: String)
    ensures
        r@ == lossy_text(bytes@),
{
    String::from_utf8_lossy(bytes.as_slice()).into_owned()
}

/// Parses one raw line into the crate's document model.
pub fn parse_line(line: &Vec<u8>) -> (r: Result<Json, DecodeError>)
    ensures
        match r {
            Ok(j) => json_doc(line@) == Some(j),
            Err(e) => json_doc(line@) is None && e is Syntax,
        },
{
    match parse_document(line) {
        Ok(v) => Ok(value_to_json(&v)),
        Err(msg) => Err(DecodeError::Syntax(msg)),
    }
}

} // verus!

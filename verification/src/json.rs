//! The crate's narrow border with `serde_json`: parsing a request body and
//! serializing a handler's payload. `serde_json::Value` itself stays opaque;
//! the router only ever asks whether a parse produced anything and whether
//! the produced value is JSON `null`.

use vstd::prelude::*;

verus! {

#[verifier::external_type_specification]
#[verifier::external_body]
pub struct ExValue(serde_json::Value);

/// Whether `bytes` is a JSON document that `serde_json` parses successfully.
pub uninterp spec fn json_parses(bytes: Seq<u8>) -> bool;

/// Relies on `serde_json::from_slice::<Value>`: returns `Ok` exactly when
/// the input is a complete, well-formed JSON document, and the outcome is a
/// function of the input bytes alone.
#[verifier::external_body]
pub fn parse_value(bytes: &[u8]) -> (r: Option<serde_json::Value>)
    ensures
        r is Some <==> json_parses(bytes@),
{
    serde_json::from_slice(bytes).ok()
}

/// Relies on `serde_json::Value::is_null`: true exactly for `Value::Null`.
/// Which values are null is invisible to the verifier; callers branch on
/// the answer.
pub assume_specification[ serde_json::Value::is_null ](v: &serde_json::Value) -> (r: bool);

/// Relies on `serde_json::Value::Null` being the JSON null value; it stands
/// in for a body that is absent or failed to parse.
#[verifier::external_body]
pub fn null_value() -> (r: serde_json::Value) {
    serde_json::Value::Null
}

/// Relies on `serde_json::to_string` on an `Option<Value>`: `None` and
/// `Value::Null` encode to the four-character text `null`, and every JSON
/// encoding is at least one character long. Serializing a `Value` cannot
/// fail; the empty-object fallback mirrors that impossibility.
#[verifier::external_body]
pub fn encode_value_opt(msg: &Option<serde_json::Value>) -> (r: String)
    ensures
        r@.len() >= 1,
{
    match serde_json::to_string(msg) {
        Ok(s) => s,
        Err(_) => "{}".to_string(),
    }
}

} // verus!

//! Trusted boundary to `serde_json`: encoding and decoding of a JSON object
//! carrying one string field, which is all the settings file ever holds.

use vstd::prelude::*;

verus! {

/// What parsing `text` as a JSON object and reading the string field named
/// `key` yields: the field's string value, or `None` when `text` is not a
/// JSON object or the field is missing or not a string.
pub uninterp spec fn json_string_field(text: Seq<char>, key: Seq<char>) -> Option<Seq<char>>;

/// Relies on `serde_json::from_str::<serde_json::Value>`: parses `text` and
/// reads the string field named `key` out of the parsed object, as
/// `json_string_field` describes.
#[verifier::external_body]
pub(crate) fn parse_string_field(text: &str, key: &str) -> (r: Option<String>)
    ensures
        r.deep_view() == json_string_field(text@, key@),
{
    match serde_json::from_str::<serde_json::Value>(text) {
        Ok(serde_json::Value::Object(fields)) => match fields.get(key) {
            Some(serde_json::Value::String(value)) => Some(value.clone()),
            _ => None,
        },
        Ok(_) => None,
        Err(_) => None,
    }
}

/// Relies on `serde_json::to_string` of a one-field object: the result is
/// JSON from which `serde_json` reads the field back unchanged (`to_string`
/// of a `serde_json::Value` cannot fail).
#[verifier::external_body]
pub(crate) fn encode_string_field(key: &str, value: &str) -> (r: String)
    ensures
        json_string_field(r@, key@) == Some(value@),
{
    let mut fields = serde_json::Map::new();
    fields.insert(key.to_string(), serde_json::Value::String(value.to_string()));
    serde_json::Value::Object(fields).to_string()
}

} // verus!

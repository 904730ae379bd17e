//! Reading fields of JSON text through `serde_json`, and turning YAML text
//! into JSON text through `serde_yaml`.

use vstd::prelude::*;

verus! {

/// The string value under `key` of the JSON object in `text`, as
/// `serde_json` reads it; none where the text is not JSON, is not an object,
/// or has no string under that key.
pub uninterp spec fn spec_json_str_field(text: Seq<char>, key: Seq<char>) -> Option<Seq<char>>;

/// Calls `serde_json::from_str::<serde_json::Value>` and then `Value::get`
/// and `Value::as_str`. Trusted: the result is `spec_json_str_field` of the
/// text and the key.
#[verifier::external_body]
pub(crate) fn json_str_field(text: &str, key: &str) -> (r: Option<String>)
    ensures
        match r {
            Some(s) => spec_json_str_field(text@, key@) == Some(s@),
            None => spec_json_str_field(text@, key@) is None,
        },
{
    let value: serde_json::Value = serde_json::from_str(text).ok()?;
    value.get(key).and_then(|v| v.as_str()).map(|s| s.to_string())
}

/// Whether the JSON text, as `serde_json` reads it, is an object with a
/// value under `key`.
pub uninterp spec fn spec_json_has_key(text: Seq<char>, key: Seq<char>) -> bool;

/// Calls `serde_json::from_str::<serde_json::Value>` and then `Value::get`.
/// Trusted: the answer is `spec_json_has_key` of the text and the key.
#[verifier::external_body]
pub(crate) fn json_has_key(text: &str, key: &str) -> (r: bool)
    ensures
        r == spec_json_has_key(text@, key@),
{
    match serde_json::from_str::<serde_json::Value>(text) {
        Ok(value) => value.get(key).is_some(),
        Err(_) => false,
    }
}

/// What `serde_yaml` makes of YAML text read as a `serde_json::Value`: the
/// compact JSON text of the value (object keys in sorted order, as
/// `serde_json` keeps them), or the text of the error it reports.
pub uninterp spec fn spec_yaml_to_json(text: Seq<char>) -> Result<Seq<char>, Seq<char>>;

/// Calls `serde_yaml::from_str::<serde_json::Value>` and writes the value
/// with `serde_json`'s compact `Display`, or the error with its `Display`.
/// Trusted: the outcome is `spec_yaml_to_json` of the text.
#[verifier::external_body]
pub(crate) fn yaml_to_json(text: &str) -> (r: Result<String, String>)
    ensures
        match r {
            Ok(j) => spec_yaml_to_json(text@) == Ok::<Seq<char>, Seq<char>>(j@),
            Err(e) => spec_yaml_to_json(text@) == Err::<Seq<char>, Seq<char>>(e@),
        },
{
    match serde_yaml::from_str::<serde_json::Value>(text) {
        Ok(value) => Ok(value.to_string()),
        Err(e) => Err(e.to_string()),
    }
}

/// The JSON string literal of a text as `serde_json` writes it: the text
/// between double quotes, with quotes, backslashes and control characters
/// escaped.
pub uninterp spec fn spec_json_string(text: Seq<char>) -> Seq<char>;

/// Writes `serde_json::Value::String` of the text with `serde_json`'s
/// compact `Display`. Trusted: the result is `spec_json_string` of the text.
#[verifier::external_body]
pub(crate) fn json_quote(text: &str) -> (r: String)
    ensures
        r@ == spec_json_string(text@),
{
    serde_json::Value::String(text.to_string()).to_string()
}

} // verus!

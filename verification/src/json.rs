//! The JSON reading and writing that the service needs, done by `serde_json`
//! behind trusted wrappers.

use vstd::prelude::*;

verus! {

/// The string value of the field `key` where `body` is the UTF-8 text of a
/// JSON object whose field `key` holds a string; `None` where `body` is not
/// well-formed JSON, is not an object, lacks the field, or holds it with a
/// value of another type.
pub uninterp spec fn json_string_field(body: Seq<u8>, key: Seq<char>) -> Option<Seq<char>>;

/// The JSON string literal, surrounding quotes included, that encodes the
/// characters `s` under standard JSON string escaping.
pub uninterp spec fn json_quoted(s: Seq<char>) -> Seq<char>;

/// Relies on `serde_json::from_slice` and `serde_json::Value`: the bytes
/// parse as a JSON object with a string-valued field `key` exactly when the
/// result is `Some`, and the result depends on the arguments alone.
#[verifier::external_body]
pub fn string_field(body: &[u8], key: &str) -> (r: Option<String>)
    ensures
        r is Some <==> json_string_field(body@, key@) is Some,
        r matches Some(s) ==> json_string_field(body@, key@) == Some(s@),
{
    match serde_json::from_slice::<serde_json::Value>(body) {
        Ok(serde_json::Value::Object(fields)) => match fields.get(key) {
            Some(serde_json::Value::String(value)) => Some(value.clone()),
            _ => None,
        },
        _ => None,
    }
}

/// Relies on `serde_json::to_string` on a string slice: it returns the JSON
/// string literal encoding the characters, depends on them alone, and never
/// fails on a string.
#[verifier::external_body]
pub fn quote_string(s: &str) -> (r: String)
    ensures
        r@ == json_quoted(s@),
{
    match serde_json::to_string(s) {
        Ok(quoted) => quoted,
        Err(_) => String::new(),
    }
}

} // verus!

//! The JSON values that a context carries, and their compact text. Both come
//! from `serde_json`; nothing here looks inside a value.

use vstd::prelude::*;

verus! {

#[verifier::external_type_specification]
#[verifier::external_body]
pub struct ExValue(serde_json::Value);

#[verifier::external_type_specification]
#[verifier::external_body]
pub struct ExJsonError(serde_json::Error);

/// The JSON string value that `serde_json::Value::from` makes of a text.
pub uninterp spec fn text_value(s: Seq<char>) -> serde_json::Value;

/// The compact JSON text that `serde_json::to_string` gives for a value, or
/// `None` where it reports an error.
pub uninterp spec fn json_text(v: serde_json::Value) -> Option<Seq<char>>;

/// Calls `serde_json::Value::from` on a string slice, which builds
/// `Value::String` of an owned copy. Trusted: the result is the value named
/// `text_value` of the text.
#[verifier::external_body]
pub(crate) fn string_value(s: &str) -> (v: serde_json::Value)
    ensures
        v == text_value(s@),
{
    serde_json::Value::from(s)
}

/// Calls `serde_json::to_string` on a value. Trusted: the text, or the
/// failure, is the one named `json_text` of the value.
#[verifier::external_body]
pub(crate) fn value_to_json(v: &serde_json::Value) -> (r: Result<String, serde_json::Error>)
    ensures
        match r {
            Ok(s) => json_text(*v) == Some(s@),
            Err(_) => json_text(*v) is None,
        },
{
    serde_json::to_string(v)
}

/// Calls `Clone::clone` of `serde_json::Value`. Trusted: the copy is the same
/// JSON value.
#[verifier::external_body]
pub(crate) fn clone_value(v: &serde_json::Value) -> (r: serde_json::Value)
    ensures
        r == *v,
{
    v.clone()
}

} // verus!

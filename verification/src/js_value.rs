//! JSON values as the script engine hands them over.

use vstd::prelude::*;

verus! {

/// A JSON value of `serde_json`. The library carries such values between the
/// host and the engine and never looks inside one.
#[verifier::external_type_specification]
#[verifier::external_body]
pub struct ExJsonValue(serde_json::Value);

/// A JSON-compatible value exchanged with script code.
pub type JsValue = serde_json::Value;

/// The compact JSON text that `serde_json` prints for a value.
pub uninterp spec fn json_text(value: serde_json::Value) -> Seq<char>;

/// Prints a value as compact JSON through the `Display` impl of
/// `serde_json::Value` (`to_string`). Trusted: the text depends on the value
/// alone, so it is named `json_text(value)`; nothing else is claimed of it.
#[verifier::external_body]
pub(crate) fn to_json_text(value: &serde_json::Value) -> (text: String)
    ensures
        text@ == json_text(*value),
{
    value.to_string()
}

} // verus!

//! The one piece of JSON that the service writes by itself: an object with a
//! single member whose value is a string. The encoding is `serde_json`'s.

use vstd::prelude::*;

verus! {

/// The error type of `serde_json`, opaque to the verifier.
#[verifier::external_type_specification]
#[verifier::external_body]
pub struct ExJsonError(serde_json::Error);

/// The compact JSON text, as `serde_json` writes it, of the object whose one
/// member is named `key` and has the string `text` as its value.
pub uninterp spec fn json_text_member(key: Seq<char>, text: Seq<char>) -> Seq<u8>;

/// Builds the object `{key: text}` as a `serde_json::Value` and calls
/// `serde_json::to_vec` on it. Two things are claimed of the call. It
/// succeeds: the encoder fails only where the writer does, where a value
/// refuses to be written or where a key is no string, and here it writes one
/// string key and one string value into a vector in memory. And its bytes
/// are by definition `json_text_member` of the two strings.
#[verifier::external_body]
pub(crate) fn encode_text_member(key: &str, text: &str) -> (encoded: Result<
    Vec<u8>,
    serde_json::Error,
>)
    ensures
        encoded is Ok,
        encoded matches Ok(bytes) ==> bytes@ == json_text_member(key@, text@),
{
    let mut object = serde_json::Map::new();
    object.insert(String::from(key), serde_json::Value::String(String::from(text)));
    serde_json::to_vec(&serde_json::Value::Object(object))
}

/// Calls `to_string` on a `serde_json::Error`, which renders it through the
/// error's `Display`. Nothing is claimed of the text.
#[verifier::external_body]
pub(crate) fn describe_error(error: &serde_json::Error) -> (detail: String) {
    error.to_string()
}

} // verus!

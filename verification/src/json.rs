//! JSON documents as this library sees them: a value parsed by serde_json,
//! together with the text it was parsed from.

use vstd::prelude::*;

verus! {

/// The value type of serde_json; opaque to the verifier.
#[verifier::external_type_specification]
#[verifier::external_body]
pub struct ExJsonValue(serde_json::Value);

/// The error type of serde_json; opaque to the verifier.
#[verifier::external_type_specification]
#[verifier::external_body]
pub struct ExJsonError(serde_json::Error);

/// Whether serde_json accepts the bytes as one JSON document
/// (`serde_json::from_slice::<serde_json::Value>` returns `Ok`).
pub uninterp spec fn json_accepts(text: Seq<u8>) -> bool;

/// The string held by member `field` of the document parsed from `text`,
/// as serde_json's `Value::get` finds it; `None` when the document is not an
/// object, has no such member, or the member is not a string.
pub uninterp spec fn json_string_member(text: Seq<u8>, field: Seq<char>) -> Option<Seq<char>>;

/// A JSON document. Its view is the text it was parsed from: the only way to
/// obtain one is to parse that text.
pub struct JsonValue {
    value: serde_json::Value,
    text: Ghost<Seq<u8>>,
}

impl View for JsonValue {
    type V = Seq<u8>;

    closed spec fn view(&self) -> Seq<u8> {
        self.text@
    }
}

/// The view of an optional string.
pub open spec fn opt_string_view(s: Option<String>) -> Option<Seq<char>> {
    match s {
        Some(t) => Some(t@),
        None => None,
    }
}

/// Calls `serde_json::from_slice::<serde_json::Value>`. Claimed: it succeeds
/// exactly on the texts that `json_accepts` names; on success the document
/// remembers the parsed text.
#[verifier::external_body]
pub(crate) fn json_from_slice(bytes: &[u8]) -> (r: Result<JsonValue, serde_json::Error>)
    ensures
        r is Ok <==> json_accepts(bytes@),
        r matches Ok(v) ==> v@ == bytes@,
{
    match serde_json::from_slice::<serde_json::Value>(bytes) {
        Ok(value) => Ok(JsonValue { value, text: Ghost(bytes@) }),
        Err(e) => Err(e),
    }
}

/// Calls `serde_json::Value::get` with a string index and keeps the member
/// only where it is a JSON string (`Value::String`), as `Value::as_str` does.
/// Claimed: the result is what `json_string_member` names for the document's
/// text and the field; this rests on the document's value having been parsed
/// from that text, which `json_from_slice`, the only constructor, ensures.
/// Which member serde_json finds for a given text is named, not stated.
#[verifier::external_body]
fn json_member_str(value: &JsonValue, field: &str) -> (r: Option<String>)
    ensures
        opt_string_view(r) == json_string_member(value@, field@),
{
    match value.value.get(field) {
        Some(serde_json::Value::String(s)) => Some(s.clone()),
        _ => None,
    }
}

/// Parses a JSON document from text.
pub fn parse_json(text: &str) -> (r: Result<JsonValue, serde_json::Error>)
    ensures
        r is Ok <==> json_accepts(vstd::utf8::encode_utf8(text@)),
        r matches Ok(v) ==> v@ == vstd::utf8::encode_utf8(text@),
{
    json_from_slice(text.as_bytes())
}

/// Returns a string field from a JSON object: `None` if the value is not an
/// object, the field does not exist, or its value is not a string.
pub fn get_string_field(value: &JsonValue, field: &str) -> (r: Option<String>)
    ensures
        opt_string_view(r) == json_string_member(value@, field@),
{
    json_member_str(value, field)
}

} // verus!

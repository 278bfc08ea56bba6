//! Trusted shims around serde_json, the structural decoder for captured
//! bodies.

use vstd::prelude::*;

verus! {

/// `serde_json::Value` is the generic JSON document type that
/// `TypedResponse::into_json` hands back; this crate only routes such
/// values, it never looks inside them.
#[verifier::external_type_specification]
#[verifier::external_body]
pub struct ExValue(serde_json::Value);

/// `serde_json::Error` is the deserialization error type that decoding
/// reports and that caller-chosen failure shapes must be constructible from.
#[verifier::external_type_specification]
#[verifier::external_body]
pub struct ExError(serde_json::Error);

/// Whether a byte sequence is a well-formed JSON document in serde_json's
/// eyes. It depends on the bytes alone.
pub uninterp spec fn json_document(bytes: Seq<u8>) -> bool;

/// Relies on `serde_json::from_slice::<Value>`: parsing into the generic
/// JSON value succeeds exactly on well-formed JSON documents, and the
/// outcome depends on the bytes alone.
#[verifier::external_body]
pub(crate) fn parse_value(bytes: &[u8]) -> (r: Result<serde_json::Value, serde_json::Error>)
    ensures
        r is Ok <==> json_document(bytes@),
{
    serde_json::from_slice(bytes)
}

/// Relies on `serde_json::Error`'s `Display` impl: renders the error as a
/// human-readable message.
#[verifier::external_body]
pub(crate) fn error_message(error: &serde_json::Error) -> String {
    error.to_string()
}

/// Relies on `serde_json::Map::insert` and `serde_json::Value::Object`:
/// builds the JSON object whose single field, under the given key, holds the
/// given string.
#[verifier::external_body]
pub(crate) fn string_field_object(key: &str, text: String) -> serde_json::Value {
    let mut fields = serde_json::Map::new();
    fields.insert(key.to_owned(), serde_json::Value::String(text));
    serde_json::Value::Object(fields)
}

/// Relies on `serde_json::from_slice`: the outcome and the decoded value
/// depend on the caller-chosen `Deserialize` impl, so nothing is assumed of
/// them.
#[verifier::external_body]
pub(crate) fn decode<D: serde::de::DeserializeOwned>(bytes: &[u8]) -> Result<D, serde_json::Error> {
    serde_json::from_slice(bytes)
}

} // verus!

//! The outside JSON values that events carry through unread, and the
//! serde_json calls that turn them into the text the store keeps.
use vstd::prelude::*;

verus! {

/// An arbitrary JSON value (the `customDetails` blob).
#[verifier::external_type_specification]
#[verifier::external_body]
pub struct ExJsonValue(serde_json::Value);

/// An image attached to an event (`src`, optional `href` and `alt`).
#[verifier::external_type_specification]
#[verifier::external_body]
pub struct ExEventImage(ilert::ilert_builders::EventImage);

/// A link attached to an event (`href`, optional `text`).
#[verifier::external_type_specification]
#[verifier::external_body]
pub struct ExEventLink(ilert::ilert_builders::EventLink);

/// Relies on serde_json::to_string: the compact JSON text of `v`. It fails
/// only for a failing `Serialize` impl or a map with non-string keys, which
/// the types stored here (ilert's images and links, `serde_json::Value`)
/// never give. Nothing is assumed of the text.
#[verifier::external_body]
pub(crate) fn encode_json<T: serde::Serialize>(v: &T) -> (r: String) {
    serde_json::to_string(v).unwrap_or_default()
}

/// Relies on serde_json::from_str: the value that `s` encodes, or `None`
/// where it is not JSON of the expected shape. Nothing is assumed of it.
#[verifier::external_body]
pub(crate) fn decode_json<T: serde::de::DeserializeOwned>(s: &str) -> (r: Option<T>) {
    serde_json::from_str(s).ok()
}

} // verus!

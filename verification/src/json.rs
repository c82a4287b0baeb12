//! The JSON reader: `serde_json` behind contracts.
//!
//! Nothing in this file is proved. Each function here makes one call into
//! `serde_json`, and its contract states what the rest of the library relies
//! on: that what is read depends on the bytes alone. The library looks at
//! two things in a document, the members of its object that hold a string and
//! those that hold a boolean; these are given names.

use vstd::prelude::*;

verus! {

/// A parsed JSON document (`serde_json::Value`), opaque to the verifier.
#[verifier::external_type_specification]
#[verifier::external_body]
pub struct ExJsonValue(serde_json::Value);

/// The error of `serde_json`, opaque to the verifier.
#[verifier::external_type_specification]
#[verifier::external_body]
pub struct ExJsonError(serde_json::Error);

/// The string members of a document: each key under which the object holds
/// a JSON string, with the string's text. Empty where the document is no
/// object.
pub uninterp spec fn json_strings(doc: serde_json::Value) -> Map<Seq<char>, Seq<char>>;

/// The boolean members of a document: each key under which the object holds
/// `true` or `false`, with that value. Empty where the document is no object.
pub uninterp spec fn json_flags(doc: serde_json::Value) -> Map<Seq<char>, bool>;

/// What `serde_json::from_slice` reads from `text`: the string members and
/// the boolean members of the document, or `None` where it reports an error.
pub uninterp spec fn json_members(text: Seq<u8>) -> Option<
    (Map<Seq<char>, Seq<char>>, Map<Seq<char>, bool>),
>;

/// Calls `serde_json::from_slice` for a `serde_json::Value`. The contract
/// claims only that the outcome depends on the bytes alone: an error comes
/// exactly where `json_members` of the bytes is `None`, and a document that
/// is read holds the members that `json_members` names.
#[verifier::external_body]
pub(crate) fn parse_document(text: &[u8]) -> (r: Result<serde_json::Value, serde_json::Error>)
    ensures
        match r {
            Ok(doc) => json_members(text@) == Some((json_strings(doc), json_flags(doc))),
            Err(_) => json_members(text@) is None,
        },
{
    serde_json::from_slice::<serde_json::Value>(text)
}

/// Calls `serde_json::Value::get` with a string key and hands out what is
/// found, as text if it is a JSON string and as a truth value if it is a
/// JSON boolean. The contract claims that this is what `json_strings` and
/// `json_flags` hold under the key.
#[verifier::external_body]
pub(crate) fn member(doc: &serde_json::Value, key: &str) -> (r: (Option<String>, Option<bool>))
    ensures
        json_strings(*doc).get(key@) == match r.0 {
            Some(text) => Some(text@),
            None => None,
        },
        json_flags(*doc).get(key@) == r.1,
{
    match doc.get(key) {
        Some(serde_json::Value::String(text)) => (Some(text.clone()), None),
        Some(serde_json::Value::Bool(flag)) => (None, Some(*flag)),
        _ => (None, None),
    }
}

} // verus!

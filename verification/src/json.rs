//! JSON documents, read with `serde_json`.
//!
//! A parsed document is a `serde_json::Value`, which the verifier cannot look
//! into. [`Json`] is the tree such a value stands for, and the few accessors
//! below are the only way the rest of the crate reads one. Their contracts
//! are taken on trust from `serde_json`.

use vstd::prelude::*;

verus! {

/// The tree that a JSON value stands for. Numbers are not told apart: nothing
/// in this crate reads one.
pub enum Json {
    Null,
    Bool(bool),
    Number,
    Text(Seq<char>),
    Array(Seq<Json>),
    Object(Map<Seq<char>, Json>),
}

impl Json {
    /// The member `key` of an object; `None` for a missing key and for
    /// anything that is not an object.
    pub open spec fn member(self, key: Seq<char>) -> Option<Json> {
        match self {
            Json::Object(members) => if members.contains_key(key) {
                Some(members[key])
            } else {
                None
            },
            _ => None,
        }
    }

    /// The items of an array; `None` for anything else.
    pub open spec fn elements(self) -> Option<Seq<Json>> {
        match self {
            Json::Array(items) => Some(items),
            _ => None,
        }
    }

    /// The characters of a string; `None` for anything else.
    pub open spec fn text(self) -> Option<Seq<char>> {
        match self {
            Json::Text(chars) => Some(chars),
            _ => None,
        }
    }
}

/// `serde_json::Value`: a parsed JSON value. Nothing of its inside is known
/// here; it is read through the accessors below.
#[verifier::external_type_specification]
#[verifier::external_body]
pub struct ExValue(serde_json::Value);

/// `serde_json::Error`: why a text was rejected. Carried, never read.
#[verifier::external_type_specification]
#[verifier::external_body]
pub struct ExJsonError(serde_json::Error);

/// The tree held by a parsed value.
pub uninterp spec fn json_tree(value: serde_json::Value) -> Json;

/// The tree that `serde_json` reads from a text as one JSON document, or
/// `None` where it rejects the text.
pub uninterp spec fn json_document(text: Seq<u8>) -> Option<Json>;

/// Parses `text` as one JSON document with `serde_json::from_slice`.
///
/// Trusted: the outcome depends on the bytes alone. It is `Ok` exactly when
/// `serde_json` accepts them as a document, and the value then holds that
/// document's tree.
#[verifier::external_body]
pub(crate) fn parse_document(text: &[u8]) -> (r: Result<serde_json::Value, serde_json::Error>)
    ensures
        match r {
            Ok(value) => json_document(text@) == Some(json_tree(value)),
            Err(_) => json_document(text@) is None,
        },
{
    serde_json::from_slice(text)
}

/// Looks up `key` with `serde_json::Value::get`.
///
/// Trusted: the result is the member of that name if `value` is an object
/// that has one, and `None` otherwise.
#[verifier::external_body]
pub(crate) fn member<'a>(value: &'a serde_json::Value, key: &str) -> (r: Option<&'a serde_json::Value>)
    ensures
        match r {
            Some(found) => json_tree(*value).member(key@) == Some(json_tree(*found)),
            None => json_tree(*value).member(key@) is None,
        },
{
    value.get(key)
}

/// The items of an array, through `serde_json::Value::as_array`.
///
/// Trusted: the result is the vector of items, in order, if `value` is an
/// array, and `None` otherwise.
#[verifier::external_body]
pub(crate) fn elements(value: &serde_json::Value) -> (r: Option<&Vec<serde_json::Value>>)
    ensures
        match r {
            Some(items) => json_tree(*value).elements() == Some(
                items@.map_values(|item: serde_json::Value| json_tree(item)),
            ),
            None => json_tree(*value).elements() is None,
        },
{
    value.as_array()
}

/// The characters of a string, through `serde_json::Value::as_str`.
///
/// Trusted: the result is the string if `value` is one, and `None`
/// otherwise.
#[verifier::external_body]
pub(crate) fn text(value: &serde_json::Value) -> (r: Option<&str>)
    ensures
        match r {
            Some(chars) => json_tree(*value).text() == Some(chars@),
            None => json_tree(*value).text() is None,
        },
{
    value.as_str()
}

} // verus!

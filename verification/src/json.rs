//! Stored JSON documents, and the entries of those that are objects.

use vstd::prelude::*;

verus! {

/// `serde_json::Value`: a JSON document.
#[verifier::external_type_specification]
#[verifier::external_body]
pub struct ExValue(serde_json::Value);

/// `serde_json::Value`'s `Clone`: the copy is the same document.
pub assume_specification[ <serde_json::Value as Clone>::clone ](
    value: &serde_json::Value,
) -> (copy: serde_json::Value)
    ensures
        copy == *value,
;

/// A copy of an optional document.
pub fn opt_json(value: &Option<serde_json::Value>) -> (copy: Option<serde_json::Value>)
    ensures
        copy == *value,
{
    match value {
        Some(value) => Some(value.clone()),
        None => None,
    }
}

/// The entries of a document that is an object, and none of any other: what
/// `serde_json::Value::as_object` lends out.
pub uninterp spec fn entries(value: serde_json::Value) -> Option<
    Map<Seq<char>, serde_json::Value>,
>;

/// Whether a document is `null`: what `serde_json::Value::is_null` answers.
pub uninterp spec fn null(value: serde_json::Value) -> bool;

/// The document that is a text: `serde_json::Value::String`.
pub uninterp spec fn text_document(text: Seq<char>) -> serde_json::Value;

/// An object with a text under a key: `serde_json::Map::insert` of a
/// `serde_json::Value::String`.
pub uninterp spec fn with_text(
    value: serde_json::Value,
    key: Seq<char>,
    text: Seq<char>,
) -> serde_json::Value;

/// `serde_json::Value::as_object` and `serde_json::Map::iter`: every key of an
/// object with whether its value is `null`, and nothing for any other
/// document. Every entry is listed, and nothing else.
#[verifier::external_body]
pub(crate) fn fields(value: &serde_json::Value) -> (fields: Option<Vec<(String, bool)>>)
    ensures
        fields is Some == entries(*value) is Some,
        fields is Some ==> forall|i: int|
            0 <= i < fields->0@.len() ==> entries(*value)->0.contains_key(
                (#[trigger] fields->0@[i]).0@,
            ) && fields->0@[i].1 == null(entries(*value)->0[fields->0@[i].0@]),
        fields is Some ==> forall|key: Seq<char>| #[trigger]
            entries(*value)->0.contains_key(key) ==> exists|i: int|
                0 <= i < fields->0@.len() && (#[trigger] fields->0@[i]).0@ == key,
{
    value.as_object().map(
        |object| object.iter().map(|(key, value)| (key.clone(), value.is_null())).collect(),
    )
}

/// `serde_json::Map::insert` on a copy of the object: the text stands under
/// the key, in place of what stood there, and every other entry is kept.
/// Nothing for a document that is no object.
#[verifier::external_body]
pub(crate) fn put_text(value: &serde_json::Value, key: &str, text: &str) -> (object: Option<
    serde_json::Value,
>)
    ensures
        object is Some == entries(*value) is Some,
        object is Some ==> object->0 == with_text(*value, key@, text@),
        object is Some ==> entries(object->0) == Some(
            entries(*value)->0.insert(key@, text_document(text@)),
        ),
{
    let mut object = value.as_object()?.clone();
    object.insert(key.to_string(), serde_json::Value::String(text.to_string()));
    Some(serde_json::Value::Object(object))
}

} // verus!

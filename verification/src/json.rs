//! JSON values (`serde_json::Value`) and the `serde_json` operations the
//! library makes on them. What is inside a value is named, not modelled.
use vstd::prelude::*;

verus! {

#[verifier::external_type_specification]
#[verifier::external_body]
pub struct ExJsonValue(serde_json::Value);

/// Whether the value is an object (`Value::is_object`).
pub uninterp spec fn json_value_is_object(v: serde_json::Value) -> bool;

/// The JSON text of the value (`serde_json::to_string`).
pub uninterp spec fn json_text(v: serde_json::Value) -> Seq<char>;

/// The string value holding the text (`Value::String`).
pub uninterp spec fn json_string(text: Seq<char>) -> serde_json::Value;

/// The object that collecting the entries into a `serde_json::Map` gives
/// (`Value::Object` of `FromIterator<(String, Value)> for Map`).
pub uninterp spec fn json_object_of(entries: Seq<(Seq<char>, serde_json::Value)>) -> serde_json::Value;

/// The object `v` after `Map::insert(key, item)` on it.
pub uninterp spec fn json_object_with_entry(
    v: serde_json::Value,
    key: Seq<char>,
    item: serde_json::Value,
) -> serde_json::Value;

/// The views of a list of JSON object entries.
pub open spec fn json_entry_views(entries: Seq<(String, serde_json::Value)>) -> Seq<
    (Seq<char>, serde_json::Value),
> {
    entries.map_values(|e: (String, serde_json::Value)| (e.0@, e.1))
}

/// Wraps `serde_json::to_string` on a JSON value, with the error turned into
/// its `Display` text. Claimed: it succeeds, with the value's JSON text. Its
/// documentation lets it fail only for a `Serialize` impl that fails or a map
/// with keys that are not strings, and a `Value` has neither.
#[verifier::external_body]
pub(crate) fn json_to_string(value: &serde_json::Value) -> (text: Result<String, String>)
    ensures
        text is Ok,
        text matches Ok(t) ==> t@ == json_text(*value),
{
    serde_json::to_string(value).map_err(|err| err.to_string())
}

/// Wraps `Value::is_object`.
#[verifier::external_body]
pub(crate) fn json_is_object(value: &serde_json::Value) -> (is_object: bool)
    ensures
        is_object == json_value_is_object(*value),
{
    value.is_object()
}

/// Wraps `Value::String`: the string value holding the text.
#[verifier::external_body]
pub(crate) fn json_string_value(text: &str) -> (v: serde_json::Value)
    ensures
        v == json_string(text@),
{
    serde_json::Value::String(text.to_string())
}

/// Wraps `Value::Object` of the entries collected into a `serde_json::Map`.
#[verifier::external_body]
pub(crate) fn json_object_from_entries(entries: Vec<(String, serde_json::Value)>) -> (v: serde_json::Value)
    ensures
        v == json_object_of(json_entry_views(entries@)),
{
    serde_json::Value::Object(entries.into_iter().collect())
}

/// Wraps `Map::insert` on the object that `Value::as_object_mut` gives.
/// Claimed: the result says whether the value is an object; an object gets the
/// entry, and any other value is left as it was.
#[verifier::external_body]
pub(crate) fn json_object_insert(value: &mut serde_json::Value, key: &str, item: serde_json::Value) -> (was_object: bool)
    ensures
        was_object == json_value_is_object(*old(value)),
        was_object ==> *final(value) == json_object_with_entry(*old(value), key@, item),
        !was_object ==> *final(value) == *old(value),
{
    match value.as_object_mut() {
        Some(object) => {
            object.insert(key.to_string(), item);
            true
        },
        None => false,
    }
}

} // verus!

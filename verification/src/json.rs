//! JSON values, carried through the models as `serde_json::Value`.

use vstd::prelude::*;

verus! {

#[verifier::external_type_specification]
#[verifier::external_body]
pub struct ExJsonValue(serde_json::Value);

/// What `serde_json::Value::String` holds for a text.
pub uninterp spec fn json_string_of(text: Seq<char>) -> serde_json::Value;

/// A JSON string value made with `serde_json::Value::String`.
#[verifier::external_body]
pub(crate) fn json_string(text: &str) -> (v: serde_json::Value)
    ensures
        v == json_string_of(text@),
{
    serde_json::Value::String(text.to_owned())
}

/// What `serde_json::Value::Object` holds for the given keys and values
/// (pairwise; a later key replaces an earlier equal one).
pub uninterp spec fn json_object_of(keys: Seq<Seq<char>>, values: Seq<serde_json::Value>) -> serde_json::Value;

/// A JSON object made with `serde_json::Value::Object` from keys and values
/// taken pairwise.
#[verifier::external_body]
pub(crate) fn json_object(keys: Vec<String>, values: Vec<serde_json::Value>) -> (v: serde_json::Value)
    requires
        keys@.len() == values@.len(),
    ensures
        v == json_object_of(keys@.map_values(|k: String| k@), values@),
{
    serde_json::Value::Object(keys.into_iter().zip(values).collect())
}

/// What `serde_json::Value::Array` holds for the given values.
pub uninterp spec fn json_array_of(values: Seq<serde_json::Value>) -> serde_json::Value;

/// A JSON array made with `serde_json::Value::Array`.
#[verifier::external_body]
pub(crate) fn json_array(values: Vec<serde_json::Value>) -> (v: serde_json::Value)
    ensures
        v == json_array_of(values@),
{
    serde_json::Value::Array(values)
}

/// What `serde_json::Value::from` makes of an unsigned integer (a JSON number).
pub uninterp spec fn json_number_of(n: u64) -> serde_json::Value;

/// A JSON number made with `serde_json::Value::from`.
#[verifier::external_body]
pub(crate) fn json_number(n: u64) -> (v: serde_json::Value)
    ensures
        v == json_number_of(n),
{
    serde_json::Value::from(n)
}

/// What `value[key].as_str()` gives: the text of the string under `key`
/// where `value` is an object holding a string there, and `None` otherwise.
pub uninterp spec fn str_field_of(value: serde_json::Value, key: Seq<char>) -> Option<Seq<char>>;

/// The text of the string under `key` in `value` (`serde_json`'s index by
/// key, then `Value::as_str`).
#[verifier::external_body]
pub(crate) fn str_field(value: &serde_json::Value, key: &str) -> (r: Option<String>)
    ensures
        match r {
            Some(t) => str_field_of(*value, key@) == Some(t@),
            None => str_field_of(*value, key@) is None,
        },
{
    value[key].as_str().map(|t| t.to_owned())
}

/// What setting an existing field gives: `value` with the field `key`
/// holding `new` where `value` is an object with that field, and `value`
/// unchanged otherwise.
pub uninterp spec fn with_existing_field_of(
    value: serde_json::Value,
    key: Seq<char>,
    new: serde_json::Value,
) -> serde_json::Value;

/// Overwrites the field `key` of `value` where it exists
/// (`serde_json::Value::get_mut`).
#[verifier::external_body]
pub(crate) fn set_existing_field(value: serde_json::Value, key: &str, new: serde_json::Value) -> (r:
    serde_json::Value)
    ensures
        r == with_existing_field_of(value, key@, new),
{
    let mut value = value;
    if let Some(slot) = value.get_mut(key) {
        *slot = new;
    }
    value
}

/// `Clone` of `serde_json::Value`, which the crate derives: the copy is
/// the same value.
pub assume_specification[ <serde_json::Value as Clone>::clone ](v: &serde_json::Value) -> (r:
    serde_json::Value)
    ensures
        r == *v,
;

} // verus!

//! The calls into `serde_json`.
//!
//! The relay reads a frame as a JSON object and writes the strings of a frame
//! as JSON string literals. What `serde_json` computes is not proved here:
//! each function below states what the rest of the crate relies on, and the
//! results that are too long to state have a name.

use vstd::prelude::*;

verus! {

/// `serde_json::Value`: any JSON value. The relay passes it on and asks it
/// for its string or its items; it never looks inside.
#[verifier::external_type_specification]
#[verifier::external_body]
pub struct ExValue(serde_json::Value);

/// What a JSON value is to the relay: a string, an array, or anything else.
pub enum Json {
    Text(Seq<char>),
    List(Seq<Json>),
    Other,
}

/// What a `serde_json::Value` holds: `Text` for `Value::String`, `List` for
/// `Value::Array` with its items in order, `Other` for the remaining variants.
pub uninterp spec fn json_of(value: serde_json::Value) -> Json;

/// What `serde_json::from_str` makes of a text that is read as a JSON object:
/// the entries of the object, each key once, or the message of the
/// `serde_json::Error`, as its `Display` writes it.
pub uninterp spec fn json_object(text: Seq<char>) -> Result<Seq<(Seq<char>, Json)>, Seq<char>>;

/// The JSON string literal that `serde_json` writes for a string: the
/// characters between double quotes, escaped where JSON asks for it.
pub uninterp spec fn json_quote(text: Seq<char>) -> Seq<char>;

/// The key and the value of one entry of a parsed object.
pub open spec fn entry_of(entry: (String, serde_json::Value)) -> (Seq<char>, Json) {
    (entry.0@, json_of(entry.1))
}

/// The values of some parsed items.
pub open spec fn items_of(items: Seq<serde_json::Value>) -> Seq<Json> {
    items.map_values(|item: serde_json::Value| json_of(item))
}

/// `serde_json::from_str` into a `serde_json::Map`, whose entries are handed
/// out in the order in which the map iterates; on failure, the message of the
/// error. What comes back is what [`json_object`] names.
#[verifier::external_body]
pub(crate) fn parse_object(text: &str) -> (r: Result<Vec<(String, serde_json::Value)>, String>)
    ensures
        match r {
            Ok(entries) => json_object(text@) == Ok::<Seq<(Seq<char>, Json)>, Seq<char>>(
                entries@.map_values(|entry: (String, serde_json::Value)| entry_of(entry)),
            ),
            Err(detail) => json_object(text@) == Err::<Seq<(Seq<char>, Json)>, Seq<char>>(
                detail@,
            ),
        },
{
    match serde_json::from_str::<serde_json::Map<String, serde_json::Value>>(text) {
        Ok(object) => Ok(object.into_iter().collect()),
        Err(error) => Err(error.to_string()),
    }
}

/// `serde_json::Value::as_str`: the string of a `Value::String`, `None` for
/// every other variant.
#[verifier::external_body]
pub(crate) fn value_text(value: &serde_json::Value) -> (r: Option<String>)
    ensures
        match r {
            Some(text) => json_of(*value) == Json::Text(text@),
            None => !(json_of(*value) is Text),
        },
{
    value.as_str().map(str::to_owned)
}

/// `serde_json::Value::as_array`: the items of a `Value::Array`, `None` for
/// every other variant.
#[verifier::external_body]
pub(crate) fn value_items(value: &serde_json::Value) -> (r: Option<Vec<serde_json::Value>>)
    ensures
        match r {
            Some(items) => json_of(*value) == Json::List(items_of(items@)),
            None => !(json_of(*value) is List),
        },
{
    value.as_array().cloned()
}

/// The `Display` of a `serde_json::Value::String`: the JSON string literal
/// for `text`, which [`json_quote`] names.
#[verifier::external_body]
pub(crate) fn quote(text: &str) -> (r: String)
    ensures
        r@ == json_quote(text@),
{
    serde_json::Value::from(text).to_string()
}

} // verus!

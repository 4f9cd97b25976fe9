//! JSON documents, built and written by `serde_json`. The declarations in
//! this file state what the library relies on from `serde_json::Value`,
//! `serde_json::Map` and `serde_json::to_string_pretty`; Verus takes them as
//! given.

use vstd::prelude::*;

verus! {

/// A JSON document, as plain mathematics. The members of an object are a map:
/// they have no order of their own.
pub enum Json {
    Null,
    Bool(bool),
    Number(int),
    Text(Seq<char>),
    Array(Seq<Json>),
    Object(Map<Seq<char>, Json>),
}

/// `serde_json::Value`, of which Verus sees no more than the declarations of
/// this file say.
#[verifier::external_type_specification]
#[verifier::external_body]
pub struct ExValue(serde_json::Value);

/// `serde_json::Map`, likewise.
#[verifier::external_type_specification]
#[verifier::external_body]
#[verifier::reject_recursive_types(K)]
#[verifier::reject_recursive_types(V)]
pub struct ExMap<K, V>(serde_json::Map<K, V>);

/// `serde_json::Error`, likewise.
#[verifier::external_type_specification]
#[verifier::external_body]
pub struct ExError(serde_json::Error);

/// The members of a JSON object under construction.
pub type Members = serde_json::Map<String, serde_json::Value>;

/// The document that a value of `serde_json` holds.
pub uninterp spec fn json_of(value: serde_json::Value) -> Json;

/// The members that a map of `serde_json` holds, by name.
pub uninterp spec fn members_of(members: serde_json::Map<String, serde_json::Value>) -> Map<
    Seq<char>,
    Json,
>;

/// The text that `serde_json::to_string_pretty` writes for a document, or
/// `None` where it fails.
pub uninterp spec fn pretty_text(document: Json) -> Option<Seq<char>>;

/// The documents that a list of values holds, in order.
pub open spec fn documents_of(values: Seq<serde_json::Value>) -> Seq<Json> {
    values.map_values(|v: serde_json::Value| json_of(v))
}

/// `serde_json::Value::Null`.
#[verifier::external_body]
pub(crate) fn json_null() -> (value: serde_json::Value)
    ensures
        json_of(value) == Json::Null,
{
    serde_json::Value::Null
}

/// `serde_json::Value::Bool`.
#[verifier::external_body]
pub(crate) fn json_bool(b: bool) -> (value: serde_json::Value)
    ensures
        json_of(value) == Json::Bool(b),
{
    serde_json::Value::Bool(b)
}

/// `serde_json::Value::from` for `u64`: the number itself.
#[verifier::external_body]
pub(crate) fn json_number(n: u64) -> (value: serde_json::Value)
    ensures
        json_of(value) == Json::Number(n as int),
{
    serde_json::Value::from(n)
}

/// `serde_json::Value::String`.
#[verifier::external_body]
pub(crate) fn json_text(text: &str) -> (value: serde_json::Value)
    ensures
        json_of(value) == Json::Text(text@),
{
    serde_json::Value::String(text.to_string())
}

/// `serde_json::Value::Array`: the documents of the items, in order.
#[verifier::external_body]
pub(crate) fn json_array(items: Vec<serde_json::Value>) -> (value: serde_json::Value)
    ensures
        json_of(value) == Json::Array(documents_of(items@)),
{
    serde_json::Value::Array(items)
}

/// `serde_json::Map::new`: no members.
#[verifier::external_body]
pub(crate) fn members_new() -> (fresh: Members)
    ensures
        members_of(fresh) == (Map::<Seq<char>, Json>::empty()),
{
    serde_json::Map::new()
}

/// `serde_json::Map::insert`: the map holds `value` under `name`, in place
/// of what it held under that name, and its other members as before.
#[verifier::external_body]
pub(crate) fn members_insert(
    members: &mut Members,
    name: &str,
    value: serde_json::Value,
)
    ensures
        members_of(*final(members)) == members_of(*old(members)).insert(name@, json_of(value)),
{
    members.insert(name.to_string(), value);
}

/// `serde_json::Value::Object`.
#[verifier::external_body]
pub(crate) fn json_object(members: Members) -> (value: serde_json::Value)
    ensures
        json_of(value) == Json::Object(members_of(members)),
{
    serde_json::Value::Object(members)
}

/// `serde_json::to_string_pretty`: the text of the document that the value
/// holds, or the serializer's error.
#[verifier::external_body]
pub(crate) fn json_pretty(value: &serde_json::Value) -> (text: Result<String, serde_json::Error>)
    ensures
        match text {
            Ok(t) => pretty_text(json_of(*value)) == Some(t@),
            Err(_) => pretty_text(json_of(*value)) is None,
        },
{
    serde_json::to_string_pretty(value)
}

/// `serde_json::Error`'s `to_string`: the error in words.
#[verifier::external_body]
pub(crate) fn json_error_text(error: &serde_json::Error) -> (text: String) {
    error.to_string()
}

} // verus!

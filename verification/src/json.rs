//! JSON documents as `serde_json` holds them: the mathematical value of a
//! document, and the contracts under which its functions are called.

use vstd::prelude::*;

verus! {

/// A JSON document as a mathematical value. A number without fraction or
/// exponent is an `Integer`; any other number is a `Decimal`, told apart by
/// the digits it is written with.
pub enum JsonView {
    Null,
    Bool(bool),
    Integer(int),
    Decimal(Seq<char>),
    Text(Seq<char>),
    Array(Seq<JsonView>),
    Object(Map<Seq<char>, JsonView>),
}

/// The member of `doc` under `key`, where `doc` is an object that has one.
pub open spec fn member_of(doc: JsonView, key: Seq<char>) -> Option<JsonView> {
    match doc {
        JsonView::Object(members) => if members.contains_key(key) {
            Some(members[key])
        } else {
            None
        },
        _ => None,
    }
}

/// The text of `doc`, where `doc` is a JSON string.
pub open spec fn text_of(doc: JsonView) -> Option<Seq<char>> {
    match doc {
        JsonView::Text(text) => Some(text),
        _ => None,
    }
}

/// `serde_json::Value`, carried as it is; what it holds is `json_value`.
#[verifier::external_type_specification]
#[verifier::external_body]
pub struct ExValue(serde_json::Value);

/// `serde_json::Map`, carried as it is; what it holds is `json_members`.
#[verifier::external_type_specification]
#[verifier::external_body]
#[verifier::reject_recursive_types(K)]
#[verifier::reject_recursive_types(V)]
pub struct ExMap<K, V>(serde_json::Map<K, V>);

/// `serde_json::Error`, of which nothing is read.
#[verifier::external_type_specification]
#[verifier::external_body]
pub struct ExJsonError(serde_json::Error);

/// The document that a `serde_json::Value` holds.
pub uninterp spec fn json_value(value: serde_json::Value) -> JsonView;

/// The members that a `serde_json::Map` holds, by key.
pub uninterp spec fn json_members(object: serde_json::Map<String, serde_json::Value>) -> Map<
    Seq<char>,
    JsonView,
>;

/// The document that a text parses to, where it is JSON.
pub uninterp spec fn json_parsed(text: Seq<u8>) -> Option<JsonView>;

/// The single-line JSON text that a document is written as.
pub uninterp spec fn json_text(doc: JsonView) -> Seq<char>;

/// Calls `serde_json::from_slice` for a `Value`. The contract names the
/// outcome: the document read, or none where the text is rejected.
#[verifier::external_body]
pub(crate) fn parse_value(text: &[u8]) -> (parsed: Result<serde_json::Value, serde_json::Error>)
    ensures
        match parsed {
            Ok(value) => json_parsed(text@) == Some(json_value(value)),
            Err(_) => json_parsed(text@) is None,
        },
{
    serde_json::from_slice(text)
}

/// Calls `serde_json::to_string` on a `Value`. Writing a `Value` into
/// memory has no failing step: every key is a string and a number that is
/// not finite cannot be held. The contract says so and names the text.
#[verifier::external_body]
pub(crate) fn to_text(value: &serde_json::Value) -> (written: Result<String, serde_json::Error>)
    ensures
        written is Ok,
        written matches Ok(text) ==> text@ == json_text(json_value(*value)),
{
    serde_json::to_string(value)
}

/// Calls `Value::as_object_mut`, which hands out the map of an object and
/// nothing for any other kind of value. What is done to the map is done to
/// the object.
#[verifier::external_body]
pub(crate) fn as_object_mut(value: &mut serde_json::Value) -> (object: Option<
    &mut serde_json::Map<String, serde_json::Value>,
>)
    ensures
        match object {
            Some(members) => {
                &&& json_value(*old(value)) == JsonView::Object(json_members(*members))
                &&& json_value(*final(value)) == JsonView::Object(json_members(*final(members)))
            },
            None => !(json_value(*old(value)) is Object) && *final(value) == *old(value),
        },
{
    value.as_object_mut()
}

/// Calls `Value::get` with a string key, which finds the member of that
/// name in an object and nothing in any other kind of value.
#[verifier::external_body]
pub(crate) fn member<'a>(value: &'a serde_json::Value, key: &str) -> (found: Option<
    &'a serde_json::Value,
>)
    ensures
        match found {
            Some(inner) => member_of(json_value(*value), key@) == Some(json_value(*inner)),
            None => member_of(json_value(*value), key@) is None,
        },
{
    value.get(key)
}

/// Calls `Value::as_str`, which hands out the text of a JSON string and
/// nothing for any other kind of value.
#[verifier::external_body]
pub(crate) fn as_text<'a>(value: &'a serde_json::Value) -> (text: Option<&'a str>)
    ensures
        match text {
            Some(s) => json_value(*value) == JsonView::Text(s@),
            None => !(json_value(*value) is Text),
        },
{
    value.as_str()
}

/// Calls `Value::from` on a `String`: a JSON string of the same text.
#[verifier::external_body]
pub(crate) fn text_value(text: String) -> (value: serde_json::Value)
    ensures
        json_value(value) == JsonView::Text(text@),
{
    serde_json::Value::from(text)
}

/// Calls `Value::from` on a `u64`: the JSON number that is this integer.
#[verifier::external_body]
pub(crate) fn integer_value(number: u64) -> (value: serde_json::Value)
    ensures
        json_value(value) == JsonView::Integer(number as int),
{
    serde_json::Value::from(number)
}

/// Calls `Value::from` on a `Map`: the object with those members.
#[verifier::external_body]
pub(crate) fn object_value(object: serde_json::Map<String, serde_json::Value>) -> (value:
    serde_json::Value)
    ensures
        json_value(value) == JsonView::Object(json_members(object)),
{
    serde_json::Value::from(object)
}

/// Calls `Map::new`: a map without members.
#[verifier::external_body]
pub(crate) fn new_object() -> (object: serde_json::Map<String, serde_json::Value>)
    ensures
        json_members(object) =~= Map::empty(),
{
    serde_json::Map::new()
}

/// Calls `Map::insert`, which binds the key to the value and hands back the
/// value that the key was bound to before, if any.
#[verifier::external_body]
pub(crate) fn object_insert(
    object: &mut serde_json::Map<String, serde_json::Value>,
    key: String,
    value: serde_json::Value,
) -> (replaced: Option<serde_json::Value>)
    ensures
        json_members(*final(object)) == json_members(*old(object)).insert(key@, json_value(value)),
        match replaced {
            Some(previous) => json_members(*old(object)).contains_key(key@) && json_value(previous)
                == json_members(*old(object))[key@],
            None => !json_members(*old(object)).contains_key(key@),
        },
{
    object.insert(key, value)
}

} // verus!

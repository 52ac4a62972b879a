//! JSON values and objects of `serde_json`, with a mathematical view.
//!
//! A value of `serde_json` is a tree of values. [`json_of`] and [`fields_of`]
//! say what such a tree holds, and the functions below are the only places
//! where the library hands a tree to `serde_json` or takes one from it.
use serde_json::Value;
use vstd::prelude::*;
use vstd::string::*;

verus! {

/// What a JSON value is, apart from how it is stored.
pub enum Json {
    Null,
    Bool(bool),
    /// A number that is held as an integer, whichever machine integer holds it.
    Number(int),
    /// A number that is held as a double, whether or not its value is an integer,
    /// by the bits of the double.
    Real(u64),
    Str(Seq<char>),
    Array(Seq<Json>),
    Object(Map<Seq<char>, Json>),
}

/// `serde_json::Value`, the JSON tree; proofs see only what [`json_of`] says of it.
#[verifier::external_type_specification]
#[verifier::external_body]
pub struct ExValue(serde_json::Value);

/// `serde_json::Map`, the object of a JSON tree; proofs see only what
/// [`fields_of`] says of it.
#[verifier::external_type_specification]
#[verifier::external_body]
#[verifier::reject_recursive_types(K)]
#[verifier::reject_recursive_types(V)]
pub struct ExFields<K, V>(serde_json::Map<K, V>);

/// What a tree of `serde_json` holds.
pub uninterp spec fn json_of(value: Value) -> Json;

/// What an object of `serde_json` holds: the value under each of its keys.
pub uninterp spec fn fields_of(fields: serde_json::Map<String, Value>) -> Map<Seq<char>, Json>;

/// The text that `{:?}` gives for a tree of `serde_json`.
pub uninterp spec fn debug_of(value: Json) -> Seq<char>;

/// What each of several trees holds.
pub open spec fn jsons_of(values: Seq<Value>) -> Seq<Json> {
    values.map_values(|value: Value| json_of(value))
}

/// The text that `{:?}` gives for an optional tree.
pub open spec fn optional_debug_of(value: Option<Value>) -> Seq<char> {
    match value {
        Some(v) => "Some("@ + debug_of(json_of(v)) + ")"@,
        None => "None"@,
    }
}

/// The JSON of an optional text: the text, or null where there is none.
pub open spec fn optional_text(text: Option<Seq<char>>) -> Json {
    match text {
        Some(t) => Json::Str(t),
        None => Json::Null,
    }
}

/// The field of a JSON object under a key; none if the value is no object or
/// has no such field.
pub open spec fn field_of(value: Json, key: Seq<char>) -> Option<Json> {
    match value {
        Json::Object(fields) => if fields.contains_key(key) {
            Some(fields[key])
        } else {
            None
        },
        _ => None,
    }
}

/// The text of an optional JSON value; none if there is no value or it is no text.
pub open spec fn text_of(value: Option<Json>) -> Option<Seq<char>> {
    match value {
        Some(Json::Str(text)) => Some(text),
        _ => None,
    }
}

/// `serde_json::Map::new`: an object without fields.
#[verifier::external_body]
pub(crate) fn empty_fields() -> (fields: serde_json::Map<String, Value>)
    ensures
        fields_of(fields) == (Map::<Seq<char>, Json>::empty()),
{
    serde_json::Map::new()
}

/// `serde_json::Map::insert`: the key holds the value afterwards, the other
/// keys are as before, and what the key held before is handed back.
#[verifier::external_body]
pub(crate) fn insert_field(
    fields: &mut serde_json::Map<String, Value>,
    key: String,
    value: Value,
) -> (previous: Option<Value>)
    ensures
        fields_of(*final(fields)) == fields_of(*old(fields)).insert(key@, json_of(value)),
        match previous {
            Some(v) => fields_of(*old(fields)).contains_key(key@) && json_of(v) == fields_of(
                *old(fields),
            )[key@],
            None => !fields_of(*old(fields)).contains_key(key@),
        },
{
    fields.insert(key, value)
}

/// `serde_json::Map::get`: the value under the key, or none where the object
/// has no such key.
#[verifier::external_body]
pub(crate) fn get_field<'a>(
    fields: &'a serde_json::Map<String, Value>,
    key: &str,
) -> (value: Option<&'a Value>)
    ensures
        match value {
            Some(v) => fields_of(*fields).contains_key(key@) && json_of(*v) == fields_of(
                *fields,
            )[key@],
            None => !fields_of(*fields).contains_key(key@),
        },
{
    fields.get(key)
}

/// `serde_json::Map::is_empty`: whether the object has no field.
#[verifier::external_body]
pub(crate) fn has_no_field(fields: &serde_json::Map<String, Value>) -> (empty: bool)
    ensures
        empty == fields_of(*fields).dom().is_empty(),
{
    fields.is_empty()
}

/// `Value::as_str`: the text of a tree that is a text, and nothing otherwise.
#[verifier::external_body]
pub(crate) fn as_text(value: &Value) -> (text: Option<&str>)
    ensures
        match text {
            Some(t) => json_of(*value) == Json::Str(t@),
            None => !(json_of(*value) is Str),
        },
{
    value.as_str()
}

/// `Value::from` of the unit value: null.
#[verifier::external_body]
pub(crate) fn null_value() -> (value: Value)
    ensures
        json_of(value) == Json::Null,
{
    Value::from(())
}

/// `Value::from` of a `bool`: that boolean.
#[verifier::external_body]
pub(crate) fn bool_value(b: bool) -> (value: Value)
    ensures
        json_of(value) == Json::Bool(b),
{
    Value::from(b)
}

/// `Value::from` of an `i64`: that integer.
#[verifier::external_body]
pub(crate) fn signed_value(n: i64) -> (value: Value)
    ensures
        json_of(value) == Json::Number(n as int),
{
    Value::from(n)
}

/// `Value::from` of a `u64`: that integer.
#[verifier::external_body]
pub(crate) fn unsigned_value(n: u64) -> (value: Value)
    ensures
        json_of(value) == Json::Number(n as int),
{
    Value::from(n)
}

/// `Value::from` of a `&str`: a text with the same characters.
#[verifier::external_body]
pub(crate) fn text_value(text: &str) -> (value: Value)
    ensures
        json_of(value) == Json::Str(text@),
{
    Value::from(text)
}

/// `Value::from` of a vector of trees: the array of those trees, in order.
#[verifier::external_body]
pub(crate) fn array_value(items: Vec<Value>) -> (value: Value)
    ensures
        json_of(value) == Json::Array(jsons_of(items@)),
{
    Value::from(items)
}

/// `Value::from` of an object: the tree that is this object.
#[verifier::external_body]
pub(crate) fn object_value(fields: serde_json::Map<String, Value>) -> (value: Value)
    ensures
        json_of(value) == Json::Object(fields_of(fields)),
{
    Value::from(fields)
}

/// `Value::clone`: a tree that holds the same.
#[verifier::external_body]
pub(crate) fn copy_value(value: &Value) -> (copy: Value)
    ensures
        json_of(copy) == json_of(*value),
{
    value.clone()
}

/// `{:?}` of a `Value`: a text that depends on nothing but what the tree holds.
/// What the text is for a given tree is left unsaid.
#[verifier::external_body]
fn debug_text(value: &Value) -> (text: String)
    ensures
        text@ == debug_of(json_of(*value)),
{
    format!("{:?}", value)
}

/// The text that `{:?}` gives for an optional tree.
pub(crate) fn optional_debug_text(value: &Option<Value>) -> (text: String)
    ensures
        text@ == optional_debug_of(*value),
{
    match value {
        Some(v) => {
            let mut text = "Some(".to_owned();
            text.append(debug_text(v).as_str());
            text.append(")");
            text
        },
        None => "None".to_owned(),
    }
}

/// Puts a text under a key.
pub(crate) fn insert_text(fields: &mut serde_json::Map<String, Value>, key: &str, text: &str)
    ensures
        fields_of(*final(fields)) == fields_of(*old(fields)).insert(key@, Json::Str(text@)),
{
    insert_field(fields, key.to_owned(), text_value(text));
}

/// The tree of an optional text: the text, or null where there is none.
pub(crate) fn optional_text_value(text: &Option<String>) -> (value: Value)
    ensures
        json_of(value) == optional_text(
            match text {
                Some(t) => Some(t@),
                None => None,
            },
        ),
{
    match text {
        Some(t) => text_value(t.as_str()),
        None => null_value(),
    }
}

/// The array of copies of some trees.
pub(crate) fn copied_array(items: &Vec<Value>) -> (value: Value)
    ensures
        json_of(value) == Json::Array(jsons_of(items@)),
{
    let mut copies: Vec<Value> = Vec::new();
    let mut i: usize = 0;
    while i < items.len()
        invariant
            i <= items.len(),
            copies.len() == i,
            forall|j: int| 0 <= j < i ==> json_of(#[trigger] copies@[j]) == json_of(items@[j]),
        decreases items.len() - i,
    {
        copies.push(copy_value(&items[i]));
        i = i + 1;
    }
    proof {
        assert(jsons_of(copies@) =~= jsons_of(items@));
    }
    array_value(copies)
}

} // verus!

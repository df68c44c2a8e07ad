//! JSON documents.
//!
//! Parsing and printing JSON text is the work of `serde_json`. This module
//! declares its document type, gives a mathematical model of what a document
//! holds, and states, for each `serde_json` function that the crate calls, what
//! the function does in terms of that model. None of these statements is proved
//! here: each rests on the source of `serde_json`.

use vstd::prelude::*;

verus! {

/// A JSON document as a mathematical value.
pub enum JsonValue {
    Null,
    Bool(bool),
    /// A number that `serde_json` holds as an integer: any integer from
    /// `i64::MIN` to `u64::MAX`.
    Int(int),
    /// A number that `serde_json` holds as floating point. The field tells two
    /// such numbers apart and has no other meaning.
    Real(int),
    Str(Seq<char>),
    Array(Seq<JsonValue>),
    Object(Map<Seq<char>, JsonValue>),
}

impl JsonValue {
    /// The member `key` of an object; `None` where the document is no object or
    /// has no such member.
    pub open spec fn field(self, key: Seq<char>) -> Option<JsonValue> {
        match self {
            JsonValue::Object(members) => if members.contains_key(key) {
                Some(members[key])
            } else {
                None
            },
            _ => None,
        }
    }

    /// The members of an object that has none.
    pub open spec fn no_members() -> Map<Seq<char>, JsonValue> {
        Map::empty()
    }

    /// The text of a string document.
    pub open spec fn as_str(self) -> Option<Seq<char>> {
        match self {
            JsonValue::Str(s) => Some(s),
            _ => None,
        }
    }

    /// The value of a boolean document.
    pub open spec fn as_bool(self) -> Option<bool> {
        match self {
            JsonValue::Bool(b) => Some(b),
            _ => None,
        }
    }

    /// The items of an array document.
    pub open spec fn as_array(self) -> Option<Seq<JsonValue>> {
        match self {
            JsonValue::Array(items) => Some(items),
            _ => None,
        }
    }

    /// The value of an integer document that fits a signed 64-bit integer.
    pub open spec fn as_i64(self) -> Option<i64> {
        match self {
            JsonValue::Int(i) => if i64::MIN <= i <= i64::MAX {
                Some(i as i64)
            } else {
                None
            },
            _ => None,
        }
    }

    /// The value of an integer document that is not negative.
    pub open spec fn as_u64(self) -> Option<u64> {
        match self {
            JsonValue::Int(i) => if 0 <= i <= u64::MAX {
                Some(i as u64)
            } else {
                None
            },
            _ => None,
        }
    }
}

/// `serde_json::Value`: a JSON document, of which only `json_model` speaks.
#[verifier::external_type_specification]
#[verifier::external_body]
pub struct ExValue(serde_json::Value);

/// `serde_json::Error`: why a text was refused.
#[verifier::external_type_specification]
#[verifier::external_body]
pub struct ExError(serde_json::Error);

/// `serde_json::Map`: the members of an object, of which only `json_members`
/// speaks.
#[verifier::external_type_specification]
#[verifier::external_body]
#[verifier::reject_recursive_types(K)]
#[verifier::reject_recursive_types(V)]
pub struct ExMap<K, V>(serde_json::Map<K, V>);

/// What a `serde_json::Value` holds.
pub uninterp spec fn json_model(value: serde_json::Value) -> JsonValue;

/// The members that a `serde_json::Map` holds, by name.
pub uninterp spec fn json_members(members: serde_json::Map<String, serde_json::Value>) -> Map<
    Seq<char>,
    JsonValue,
>;

/// An error of `serde_json` in words: what its `to_string` returns.
pub uninterp spec fn json_error_text(error: serde_json::Error) -> Seq<char>;

/// The document that `serde_json::from_str` reads from a text; `None` where it
/// rejects the text.
pub uninterp spec fn json_parse(text: Seq<char>) -> Option<JsonValue>;

/// The text that `serde_json::to_string` writes for a document.
pub uninterp spec fn json_print(document: JsonValue) -> Seq<char>;

/// `serde_json::from_str` for a `Value`: the result is fixed by the text, and
/// an accepted text gives the document that `json_parse` names.
#[verifier::external_body]
pub(crate) fn parse_value(text: &str) -> (r: Result<serde_json::Value, serde_json::Error>)
    ensures
        r is Ok <==> json_parse(text@) is Some,
        r matches Ok(value) ==> json_parse(text@) == Some(json_model(value)),
{
    serde_json::from_str::<serde_json::Value>(text)
}

/// `serde_json::to_string` for a `Value`: it succeeds, and the text is the one
/// that `json_print` names for the document. Writing fails only where a key of
/// a map is no string, a number is not finite or the writer fails; a `Value`
/// holds string keys and finite numbers, and the writer is a `Vec`.
#[verifier::external_body]
pub(crate) fn print_value(value: &serde_json::Value) -> (r: Result<String, serde_json::Error>)
    ensures
        r is Ok,
        r matches Ok(text) ==> text@ == json_print(json_model(*value)),
{
    serde_json::to_string(value)
}

/// `Error::to_string`.
#[verifier::external_body]
pub(crate) fn json_error_to_string(error: &serde_json::Error) -> (r: String)
    ensures
        r@ == json_error_text(*error),
{
    error.to_string()
}

/// `Value::get` with a string index: the member of that name where the value is
/// an object that has one, else `None`.
#[verifier::external_body]
pub(crate) fn value_get<'a>(value: &'a serde_json::Value, key: &str) -> (r: Option<
    &'a serde_json::Value,
>)
    ensures
        match r {
            Some(member) => json_model(*value).field(key@) == Some(json_model(*member)),
            None => json_model(*value).field(key@) is None,
        },
{
    value.get(key)
}

/// `Value::as_str`: the text where the value is a string, else `None`.
#[verifier::external_body]
pub(crate) fn value_as_str<'a>(value: &'a serde_json::Value) -> (r: Option<&'a str>)
    ensures
        match r {
            Some(text) => json_model(*value).as_str() == Some(text@),
            None => json_model(*value).as_str() is None,
        },
{
    value.as_str()
}

/// `Value::as_i64`: the number where the value is an integer that fits `i64`,
/// else `None`.
#[verifier::external_body]
pub(crate) fn value_as_i64(value: &serde_json::Value) -> (r: Option<i64>)
    ensures
        r == json_model(*value).as_i64(),
{
    value.as_i64()
}

/// `Value::as_u64`: the number where the value is an integer that is not
/// negative, else `None`.
#[verifier::external_body]
pub(crate) fn value_as_u64(value: &serde_json::Value) -> (r: Option<u64>)
    ensures
        r == json_model(*value).as_u64(),
{
    value.as_u64()
}

/// `Value::as_bool`: the truth value where the value is a boolean, else `None`.
#[verifier::external_body]
pub(crate) fn value_as_bool(value: &serde_json::Value) -> (r: Option<bool>)
    ensures
        r == json_model(*value).as_bool(),
{
    value.as_bool()
}

/// `Value::as_array`: the items where the value is an array, else `None`.
#[verifier::external_body]
pub(crate) fn value_as_array<'a>(value: &'a serde_json::Value) -> (r: Option<
    &'a Vec<serde_json::Value>,
>)
    ensures
        match r {
            Some(items) => json_model(*value).as_array() matches Some(models) && models.len()
                == items@.len() && forall|i: int|
                0 <= i < items@.len() ==> json_model(#[trigger] items@[i]) == models[i],
            None => json_model(*value).as_array() is None,
        },
{
    value.as_array()
}

/// `Value::is_null`.
#[verifier::external_body]
pub(crate) fn value_is_null(value: &serde_json::Value) -> (r: bool)
    ensures
        r == (json_model(*value) is Null),
{
    value.is_null()
}

/// `Value::clone`: the copy holds the same document.
#[verifier::external_body]
pub(crate) fn value_clone(value: &serde_json::Value) -> (r: serde_json::Value)
    ensures
        json_model(r) == json_model(*value),
{
    value.clone()
}

/// `Value::from` for a string slice: a string document with that text.
#[verifier::external_body]
pub(crate) fn value_from_str(text: &str) -> (r: serde_json::Value)
    ensures
        json_model(r) == JsonValue::Str(text@),
{
    serde_json::Value::from(text)
}

/// `Value::from` for a `bool`: the boolean document with that value.
#[verifier::external_body]
pub(crate) fn value_from_bool(truth: bool) -> (r: serde_json::Value)
    ensures
        json_model(r) == JsonValue::Bool(truth),
{
    serde_json::Value::from(truth)
}

/// `Value::from` for an `i64`: the integer document with that value.
#[verifier::external_body]
pub(crate) fn value_from_i64(number: i64) -> (r: serde_json::Value)
    ensures
        json_model(r) == JsonValue::Int(number as int),
{
    serde_json::Value::from(number)
}

/// `Value::from` for a `u64`: the integer document with that value.
#[verifier::external_body]
pub(crate) fn value_from_u64(number: u64) -> (r: serde_json::Value)
    ensures
        json_model(r) == JsonValue::Int(number as int),
{
    serde_json::Value::from(number)
}

/// `Map::new`: a map without members.
#[verifier::external_body]
pub(crate) fn map_new() -> (r: serde_json::Map<String, serde_json::Value>)
    ensures
        json_members(r) == JsonValue::no_members(),
{
    serde_json::Map::new()
}

/// `Map::insert`: afterwards the map holds `value` under `key`, in place of
/// what it held under that name, and its other members as before.
#[verifier::external_body]
pub(crate) fn map_insert(
    members: &mut serde_json::Map<String, serde_json::Value>,
    key: String,
    value: serde_json::Value,
)
    ensures
        json_members(*final(members)) == json_members(*old(members)).insert(
            key@,
            json_model(value),
        ),
{
    members.insert(key, value);
}

/// `Value::Object`: the object document with the members of the map.
#[verifier::external_body]
pub(crate) fn value_object(members: serde_json::Map<String, serde_json::Value>) -> (r:
    serde_json::Value)
    ensures
        json_model(r) == JsonValue::Object(json_members(members)),
{
    serde_json::Value::Object(members)
}

} // verus!

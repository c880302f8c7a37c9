//! The crate's window onto JSON. The engine's replies are parsed with
//! serde_json; everything the broker then reads out of a parsed document is
//! specified against the mathematical model `Json` below, so that the
//! decoders built on top of these few trusted calls are verified exactly.

use vstd::prelude::*;

verus! {

/// Mathematical model of a parsed JSON document. Numbers are split into
/// those that are unsigned 64-bit integers — the only numbers the broker
/// reads — and all others (negative or fractional).
pub enum Json {
    Null,
    Bool(bool),
    UInt(u64),
    NumOther,
    Str(Seq<char>),
    Arr(Seq<Json>),
    Obj(Map<Seq<char>, Json>),
}

#[verifier::external_type_specification]
#[verifier::external_body]
pub struct ExValue(serde_json::Value);

/// What a parsed `serde_json::Value` holds, in the model above.
pub uninterp spec fn json_view(v: serde_json::Value) -> Json;

/// What serde_json's parser makes of a text: `None` exactly when the text
/// is not valid JSON. The result depends on the text alone.
pub uninterp spec fn json_parse(s: Seq<char>) -> Option<Json>;

/// Relies on serde_json::from_str::<Value>: parses the text, succeeding
/// exactly when it is valid JSON; the result is a function of the text.
#[verifier::external_body]
pub(crate) fn parse_json(s: &str) -> (r: Option<serde_json::Value>)
    ensures
        match r {
            Some(v) => json_parse(s@) == Some(json_view(v)),
            None => json_parse(s@) is None,
        },
{
    serde_json::from_str::<serde_json::Value>(s).ok()
}

/// Relies on serde_json::Value::get with a string index: on an object, the
/// field under that key if present; `None` on a missing key or any
/// non-object value.
#[verifier::external_body]
pub(crate) fn json_get<'a>(v: &'a serde_json::Value, key: &str) -> (r: Option<
    &'a serde_json::Value,
>)
    ensures
        match json_view(*v) {
            Json::Obj(m) => {
                if m.contains_key(key@) {
                    r matches Some(f) && json_view(*f) == m[key@]
                } else {
                    r is None
                }
            },
            _ => r is None,
        },
{
    v.get(key)
}

/// Relies on serde_json::Value::as_str: the borrowed text of a JSON string,
/// `None` on any other value.
#[verifier::external_body]
pub(crate) fn json_as_str<'a>(v: &'a serde_json::Value) -> (r: Option<&'a str>)
    ensures
        match json_view(*v) {
            Json::Str(s) => r matches Some(t) && t@ == s,
            _ => r is None,
        },
{
    v.as_str()
}

/// Relies on serde_json::Value::as_u64: the value of a number that is an
/// unsigned 64-bit integer, `None` on any other number or value.
#[verifier::external_body]
pub(crate) fn json_as_u64(v: &serde_json::Value) -> (r: Option<u64>)
    ensures
        match json_view(*v) {
            Json::UInt(n) => r == Some(n),
            _ => r is None,
        },
{
    v.as_u64()
}

/// Relies on serde_json::Value::as_array: the elements of a JSON array in
/// document order, `None` on any other value.
#[verifier::external_body]
pub(crate) fn json_as_array<'a>(v: &'a serde_json::Value) -> (r: Option<
    &'a Vec<serde_json::Value>,
>)
    ensures
        match json_view(*v) {
            Json::Arr(elems) => r matches Some(a) && a@.len() == elems.len() && (forall|i: int|
                0 <= i < elems.len() ==> json_view(#[trigger] a@[i]) == elems[i]),
            _ => r is None,
        },
{
    v.as_array()
}

/// Relies on serde_json::Value::is_object: true exactly on a JSON object.
#[verifier::external_body]
pub(crate) fn json_is_object(v: &serde_json::Value) -> (r: bool)
    ensures
        r == (json_view(*v) is Obj),
{
    v.is_object()
}

/// Relies on serde_json::Value::is_null: true exactly on JSON null.
#[verifier::external_body]
pub(crate) fn json_is_null(v: &serde_json::Value) -> (r: bool)
    ensures
        r == (json_view(*v) is Null),
{
    v.is_null()
}

/// The field under `key`, when `j` is an object that has it.
pub open spec fn obj_field(j: Json, key: Seq<char>) -> Option<Json> {
    match j {
        Json::Obj(m) => if m.contains_key(key) {
            Some(m[key])
        } else {
            None
        },
        _ => None,
    }
}

/// The text of the string field under `key`, when there is one.
pub open spec fn str_field(j: Json, key: Seq<char>) -> Option<Seq<char>> {
    match obj_field(j, key) {
        Some(Json::Str(s)) => Some(s),
        _ => None,
    }
}

/// The value of the unsigned-integer field under `key`, when there is one.
pub open spec fn u64_field(j: Json, key: Seq<char>) -> Option<u64> {
    match obj_field(j, key) {
        Some(Json::UInt(n)) => Some(n),
        _ => None,
    }
}

/// Look a field up and copy its text out, when it is a string field.
pub(crate) fn get_str_field(v: &serde_json::Value, key: &str) -> (r: Option<String>)
    ensures
        match str_field(json_view(*v), key@) {
            Some(s) => r matches Some(t) && t@ == s,
            None => r is None,
        },
{
    match json_get(v, key) {
        Some(f) => match json_as_str(f) {
            Some(t) => Some(t.to_owned()),
            None => None,
        },
        None => None,
    }
}

/// Look a field up and read it as an unsigned 64-bit integer, when it is
/// a number of that shape.
pub(crate) fn get_u64_field(v: &serde_json::Value, key: &str) -> (r: Option<u64>)
    ensures
        r == u64_field(json_view(*v), key@),
{
    match json_get(v, key) {
        Some(f) => json_as_u64(f),
        None => None,
    }
}

/// Look a field up and borrow its elements, when it is an array field.
pub(crate) fn get_array_field<'a>(v: &'a serde_json::Value, key: &str) -> (r: Option<
    &'a Vec<serde_json::Value>,
>)
    ensures
        match obj_field(json_view(*v), key@) {
            Some(Json::Arr(elems)) => r matches Some(a) && a@.len() == elems.len() && (forall|
                i: int,
            |
                0 <= i < elems.len() ==> json_view(#[trigger] a@[i]) == elems[i]),
            _ => r is None,
        },
{
    match json_get(v, key) {
        Some(f) => json_as_array(f),
        None => None,
    }
}

/// Look a field up and borrow it, when it is an object's field.
pub(crate) fn get_field<'a>(v: &'a serde_json::Value, key: &str) -> (r: Option<
    &'a serde_json::Value,
>)
    ensures
        match obj_field(json_view(*v), key@) {
            Some(f) => r matches Some(w) && json_view(*w) == f,
            None => r is None,
        },
{
    json_get(v, key)
}

} // verus!

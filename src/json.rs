use vstd::prelude::*;

verus! {

/// Mathematical picture of a JSON document.
///
/// Numbers that are integers (positive ones up to `u64::MAX`, negative ones
/// down to `i64::MIN`) are `Int`; every other number is `Float`. Object keys
/// are unique, as in serde_json's default map.
pub enum JsonModel {
    Null,
    Bool(bool),
    Int(int),
    Float,
    Str(Seq<char>),
    Array(Seq<JsonModel>),
    Object(Map<Seq<char>, JsonModel>),
}

#[verifier::external_type_specification]
#[verifier::external_body]
pub struct ExValue(serde_json::Value);

/// The document that a `serde_json::Value` holds.
pub uninterp spec fn json_model(v: serde_json::Value) -> JsonModel;

/// The document that serde_json reads from these bytes, or `None` where the
/// bytes are not one JSON text.
pub uninterp spec fn json_text_model(b: Seq<u8>) -> Option<JsonModel>;

/// The member `key` of an object; `None` for a missing key or a non-object.
pub open spec fn member(m: JsonModel, key: Seq<char>) -> Option<JsonModel> {
    match m {
        JsonModel::Object(fields) => if fields.contains_key(key) {
            Some(fields[key])
        } else {
            None
        },
        _ => None,
    }
}

/// The value as an `i64`, when it is an integer in that range.
pub open spec fn int_of(m: JsonModel) -> Option<i64> {
    match m {
        JsonModel::Int(n) => if i64::MIN <= n <= i64::MAX {
            Some(n as i64)
        } else {
            None
        },
        _ => None,
    }
}

/// The value as a string, when it is one.
pub open spec fn str_of(m: JsonModel) -> Option<Seq<char>> {
    match m {
        JsonModel::Str(s) => Some(s),
        _ => None,
    }
}

/// An integer member of an object, read as `get(key).and_then(as_i64)` does.
pub open spec fn int_member(m: JsonModel, key: Seq<char>) -> Option<i64> {
    match member(m, key) {
        Some(v) => int_of(v),
        None => None,
    }
}

/// A string member of an object, read as `get(key).and_then(as_str)` does.
pub open spec fn str_member(m: JsonModel, key: Seq<char>) -> Option<Seq<char>> {
    match member(m, key) {
        Some(v) => str_of(v),
        None => None,
    }
}

/// Relies on serde_json::from_slice to read one JSON text from bytes into a
/// `Value`, failing on anything else.
#[verifier::external_body]
pub(crate) fn parse_json(b: &[u8]) -> (r: Option<serde_json::Value>)
    ensures
        match r {
            Some(v) => json_text_model(b@) == Some(json_model(v)),
            None => json_text_model(b@).is_none(),
        },
{
    serde_json::from_slice::<serde_json::Value>(b).ok()
}

/// Relies on serde_json::Value::get with a string index: the member of an
/// object under that key, `None` for a missing key or a value that is not an
/// object.
#[verifier::external_body]
pub(crate) fn get_member<'a>(v: &'a serde_json::Value, key: &str) -> (r: Option<
    &'a serde_json::Value,
>)
    ensures
        match r {
            Some(x) => member(json_model(*v), key@) == Some(json_model(*x)),
            None => member(json_model(*v), key@).is_none(),
        },
{
    v.get(key)
}

/// Relies on serde_json::Value::as_i64: an integer that fits in `i64`.
#[verifier::external_body]
pub(crate) fn value_as_i64(v: &serde_json::Value) -> (r: Option<i64>)
    ensures
        r == int_of(json_model(*v)),
{
    v.as_i64()
}

/// Relies on serde_json::Value::as_str: the text of a string value.
#[verifier::external_body]
pub(crate) fn value_as_str<'a>(v: &'a serde_json::Value) -> (r: Option<&'a str>)
    ensures
        match r {
            Some(s) => str_of(json_model(*v)) == Some(s@),
            None => str_of(json_model(*v)).is_none(),
        },
{
    v.as_str()
}

/// Relies on serde_json::Value::as_array: the elements of an array value.
#[verifier::external_body]
pub(crate) fn value_as_array<'a>(v: &'a serde_json::Value) -> (r: Option<&'a Vec<serde_json::Value>>)
    ensures
        match json_model(*v) {
            JsonModel::Array(items) => r.is_some() && r.unwrap()@.len() == items.len() && forall|
                i: int,
            |
                0 <= i < items.len() ==> json_model(#[trigger] r.unwrap()@[i]) == items[i],
            _ => r.is_none(),
        },
{
    v.as_array()
}

/// Reads an integer member of a parsed object.
pub(crate) fn read_int_member(v: &serde_json::Value, key: &str) -> (r: Option<i64>)
    ensures
        r == int_member(json_model(*v), key@),
{
    match get_member(v, key) {
        Some(x) => value_as_i64(x),
        None => None,
    }
}

} // verus!

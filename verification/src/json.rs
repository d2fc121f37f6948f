use vstd::prelude::*;

verus! {

#[verifier::external_type_specification]
#[verifier::external_body]
pub struct ExValue(serde_json::Value);

#[verifier::external_type_specification]
#[verifier::external_body]
pub struct ExJsonError(serde_json::Error);

/// Mathematical view of a JSON document, as far as this library reads
/// one.  A number carries only its `i64` reading — the one thing the
/// envelope decoders ask of a number.
pub ghost enum JsonModel {
    Null,
    Bool { value: bool },
    Num { int_value: Option<i64> },
    Str { text: Seq<char> },
    Arr { items: Seq<JsonModel> },
    Obj { fields: Map<Seq<char>, JsonModel> },
}

/// The JSON document a `serde_json::Value` holds.
pub uninterp spec fn json_model(v: serde_json::Value) -> JsonModel;

/// What parsing a piece of text yields: `Some` of the parsed document
/// exactly when `serde_json::from_str::<Value>` accepts the text — an
/// outcome that depends on the text alone.
pub uninterp spec fn json_of(s: Seq<char>) -> Option<JsonModel>;

/// Relies on `serde_json::from_str::<Value>`: it accepts exactly the
/// well-formed JSON texts, deterministically in the text alone, and
/// the value it returns holds the parsed document.
#[verifier::external_body]
pub fn parse_json(s: &str) -> (r: Result<serde_json::Value, serde_json::Error>)
    ensures
        r is Ok <==> json_of(s@) is Some,
        r matches Ok(v) ==> Some(json_model(v)) == json_of(s@),
{
    serde_json::from_str::<serde_json::Value>(s)
}

/// Relies on `serde_json::Value::get` with a string key: on a JSON
/// object it looks the key up; on anything else it returns `None`.
#[verifier::external_body]
pub fn json_get<'a>(v: &'a serde_json::Value, key: &str) -> (r: Option<&'a serde_json::Value>)
    ensures
        (match json_model(*v) {
            JsonModel::Obj { fields } => {
                &&& r is Some <==> fields.contains_key(key@)
                &&& (r matches Some(inner) ==> fields.contains_key(key@) && json_model(*inner)
                    == fields[key@])
            },
            _ => r is None,
        }),
{
    v.get(key)
}

/// Relies on `serde_json::Value::as_bool`: `Some` of the value exactly
/// on a JSON boolean.
#[verifier::external_body]
pub fn json_as_bool(v: &serde_json::Value) -> (r: Option<bool>)
    ensures
        (match json_model(*v) {
            JsonModel::Bool { value } => r == Some(value),
            _ => r is None,
        }),
{
    v.as_bool()
}

/// Relies on `serde_json::Value::as_str`: `Some` of the text exactly
/// on a JSON string.
#[verifier::external_body]
pub fn json_as_str<'a>(v: &'a serde_json::Value) -> (r: Option<&'a str>)
    ensures
        (match json_model(*v) {
            JsonModel::Str { text } => r matches Some(s) && s@ == text,
            _ => r is None,
        }),
{
    v.as_str()
}

/// Relies on `serde_json::Value::as_array`: `Some` of the elements
/// exactly on a JSON array.
#[verifier::external_body]
pub fn json_as_array<'a>(v: &'a serde_json::Value) -> (r: Option<&'a Vec<serde_json::Value>>)
    ensures
        (match json_model(*v) {
            JsonModel::Arr { items } => r matches Some(elements) && elements@.len() == items.len()
                && (forall|i: int|
                0 <= i < items.len() ==> json_model(#[trigger] elements@[i]) == items[i]),
            _ => r is None,
        }),
{
    v.as_array()
}

/// Relies on `serde_json::Value::as_i64`: `Some` exactly on a JSON
/// number representable as an `i64`, with that representation.
#[verifier::external_body]
pub fn json_as_i64(v: &serde_json::Value) -> (r: Option<i64>)
    ensures
        (match json_model(*v) {
            JsonModel::Num { int_value } => r == int_value,
            _ => r is None,
        }),
{
    v.as_i64()
}

/// Relies on `serde_json::Value::is_null`: true exactly on JSON `null`.
#[verifier::external_body]
pub fn json_is_null(v: &serde_json::Value) -> (r: bool)
    ensures
        r == (json_model(*v) is Null),
{
    v.is_null()
}

} // verus!

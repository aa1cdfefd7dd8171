//! Trusted boundary to serde_json and to ssi's base64url decoding: the
//! generic JSON and JWK low-level parsing primitives that resolution
//! builds on. Everything here is a thin wrapper whose contract Verus
//! believes; the schema validation on top of it is verified code.
//!
//! The contracts speak of a mathematical model of JSON values,
//! [`JsonVal`], tied to serde_json's opaque value type by the
//! uninterpreted [`json_rep`]: every accessor states what it returns in
//! terms of the model, so that verified code above can relate a byte
//! sequence to the document it decodes to.

use vstd::prelude::*;

verus! {

#[verifier::external_type_specification]
#[verifier::external_body]
pub struct ExJsonValue(serde_json::Value);

/// Mathematical model of a JSON value. Numbers carry no content because
/// nothing in this crate reads one.
pub enum JsonVal {
    Null,
    Bool(bool),
    Number,
    Text(Seq<char>),
    Arr(Seq<JsonVal>),
    Obj(Map<Seq<char>, JsonVal>),
}

/// The model of the value that a serde_json value holds.
pub uninterp spec fn json_rep(v: serde_json::Value) -> JsonVal;

/// Field lookup in the model: a value for the key when the value is an
/// object holding that key, `None` on any other value.
pub open spec fn js_get(v: JsonVal, key: Seq<char>) -> Option<JsonVal> {
    match v {
        JsonVal::Obj(m) => if m.contains_key(key) {
            Some(m[key])
        } else {
            None
        },
        _ => None,
    }
}

/// The parse outcome that serde_json assigns to a byte sequence: the
/// model of the parsed value, or the parse error's message.
pub uninterp spec fn json_parse_of(bytes: Seq<u8>) -> Result<JsonVal, Seq<char>>;

/// Relies on `serde_json::from_slice`: whether a byte sequence parses as
/// JSON, the value it parses to, and the error message when it does not,
/// depend on the bytes alone.
#[verifier::external_body]
pub(crate) fn json_from_slice(bytes: &[u8]) -> (r: Result<serde_json::Value, String>)
    ensures
        r is Ok <==> json_parse_of(bytes@) is Ok,
        r matches Ok(v) ==> (json_parse_of(bytes@) matches Ok(jv) && json_rep(v) == jv),
        r matches Err(m) ==> (json_parse_of(bytes@) matches Err(e) && m@ == e),
{
    serde_json::from_slice::<serde_json::Value>(bytes).map_err(|e| e.to_string())
}

/// Relies on `serde_json::Value::get`: looks a field up when the value is
/// an object, and returns `None` on any other kind of value.
#[verifier::external_body]
pub(crate) fn json_get<'a>(value: &'a serde_json::Value, field: &str) -> (r: Option<
    &'a serde_json::Value,
>)
    ensures
        r is Some <==> js_get(json_rep(*value), field@) is Some,
        r matches Some(inner) ==> js_get(json_rep(*value), field@) == Some(json_rep(*inner)),
{
    value.get(field)
}

/// Relies on `serde_json::Value::as_str`: the string content when the
/// value is a JSON string, `None` otherwise.
#[verifier::external_body]
pub(crate) fn json_as_str<'a>(value: &'a serde_json::Value) -> (r: Option<&'a str>)
    ensures
        r is Some <==> json_rep(*value) is Text,
        r matches Some(s) ==> json_rep(*value) == JsonVal::Text(s@),
{
    value.as_str()
}

/// Relies on `serde_json::Value::as_array`: the elements when the value
/// is a JSON array, `None` otherwise.
#[verifier::external_body]
pub(crate) fn json_as_array<'a>(value: &'a serde_json::Value) -> (r: Option<
    &'a Vec<serde_json::Value>,
>)
    ensures
        r is Some <==> json_rep(*value) is Arr,
        r matches Some(items) ==> (json_rep(*value) matches JsonVal::Arr(elems) && (items@.len()
            == elems.len() && forall|i: int|
            0 <= i < elems.len() ==> json_rep(items@[i]) == elems[i])),
{
    value.as_array()
}

/// The byte sequence that base64url decoding assigns to a string, if any.
pub uninterp spec fn base64url_bytes_of(s: Seq<char>) -> Option<Seq<u8>>;

/// Relies on `ssi::jwk::Base64urlUInt::try_from(String)`, which base64url-
/// decodes the string into the coordinate bytes it denotes; the outcome
/// depends on the characters alone.
#[verifier::external_body]
pub(crate) fn base64url_decode(s: &str) -> (r: Option<Vec<u8>>)
    ensures
        r is Some <==> base64url_bytes_of(s@) is Some,
        r matches Some(v) ==> base64url_bytes_of(s@) == Some(v@),
{
    match ssi::jwk::Base64urlUInt::try_from(s.to_string()) {
        Ok(b) => Some(b.0),
        Err(_) => None,
    }
}

} // verus!

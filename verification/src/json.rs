//! Ghost model of JSON documents and the trusted boundary to serde_json.
//!
//! Configuration payloads reach the bridge as JSON text. The text is parsed
//! by serde_json; everything this crate states about a parsed document is
//! phrased over [`JsonData`], a ghost image of the document, through the
//! uninterpreted functions [`parsed_json`] (what a text parses to) and
//! [`jmodel`] (what a parsed value holds).

use vstd::prelude::*;

verus! {

/// How a JSON number is stored by the parser.
///
/// The split matters because the integer accessors below answer differently
/// for each storage form: a number written `5.0` is stored as floating point
/// and has no `u64` reading, while `5` does.
pub enum JsonNum {
    /// Stored as a non-negative 64-bit integer.
    UInt(u64),
    /// Stored as a negative 64-bit integer.
    IInt(i64),
    /// Stored as a floating-point value. The integer accessors reject it,
    /// so no value is modelled for it.
    Float,
}

/// A ghost JSON document: the model over which every contract about
/// configuration payloads is stated.
pub enum JsonData {
    Null,
    Bool(bool),
    Num(JsonNum),
    Text(Seq<char>),
    Arr(Seq<JsonData>),
    Obj(Map<Seq<char>, JsonData>),
}

#[verifier::external_type_specification]
#[verifier::external_body]
pub struct ExValue(serde_json::Value);

/// The ghost document a `serde_json::Value` holds.
pub uninterp spec fn jmodel(v: serde_json::Value) -> JsonData;

/// What `serde_json::from_str` makes of a text: the parsed document, or
/// nothing where the text is not valid JSON. Parsing depends on the text
/// alone.
pub uninterp spec fn parsed_json(s: Seq<char>) -> Option<JsonData>;

/// Relies on `serde_json::from_str::<Value>`: returns the document the text
/// parses to, or nothing for invalid JSON.
#[verifier::external_body]
pub(crate) fn parse_json(s: &str) -> (r: Option<serde_json::Value>)
    ensures
        r.is_some() == parsed_json(s@).is_some(),
        r matches Some(v) ==> Some(jmodel(v)) == parsed_json(s@),
{
    serde_json::from_str(s).ok()
}

/// Relies on `serde_json::Value::get`: on an object it looks the key up,
/// on any other value it returns nothing.
#[verifier::external_body]
pub(crate) fn json_get<'a>(v: &'a serde_json::Value, key: &str) -> (r: Option<
    &'a serde_json::Value,
>)
    ensures
        match jmodel(*v) {
            JsonData::Obj(m) => {
                &&& r.is_some() == m.dom().contains(key@)
                &&& (r matches Some(f) ==> m.dom().contains(key@) && jmodel(*f) == m[key@])
            },
            _ => r.is_none(),
        },
{
    v.get(key)
}

/// Relies on `serde_json::Value::as_bool`: the payload of a boolean,
/// nothing for any other value.
#[verifier::external_body]
pub(crate) fn json_as_bool(v: &serde_json::Value) -> (r: Option<bool>)
    ensures
        r == match jmodel(*v) {
            JsonData::Bool(b) => Some(b),
            _ => None::<bool>,
        },
{
    v.as_bool()
}

/// Relies on `serde_json::Value::as_u64`: the value of a number stored as a
/// non-negative integer, nothing for any other value.
#[verifier::external_body]
pub(crate) fn json_as_u64(v: &serde_json::Value) -> (r: Option<u64>)
    ensures
        r == match jmodel(*v) {
            JsonData::Num(JsonNum::UInt(n)) => Some(n),
            _ => None::<u64>,
        },
{
    v.as_u64()
}

/// Relies on `serde_json::Value::as_i64`: the value of a number stored as an
/// integer when it fits in `i64`, nothing for any other value.
#[verifier::external_body]
pub(crate) fn json_as_i64(v: &serde_json::Value) -> (r: Option<i64>)
    ensures
        r == match jmodel(*v) {
            JsonData::Num(JsonNum::UInt(n)) => if n <= i64::MAX as u64 {
                Some(n as i64)
            } else {
                None::<i64>
            },
            JsonData::Num(JsonNum::IInt(n)) => Some(n),
            _ => None::<i64>,
        },
{
    v.as_i64()
}

/// Relies on `serde_json::Value::as_str`: the contents of a string value,
/// nothing for any other value.
#[verifier::external_body]
pub(crate) fn json_as_str<'a>(v: &'a serde_json::Value) -> (r: Option<&'a str>)
    ensures
        match jmodel(*v) {
            JsonData::Text(t) => r matches Some(s) && s@ == t,
            _ => r.is_none(),
        },
{
    v.as_str()
}

/// Relies on `serde_json::Value::is_object`: whether the value is an object.
#[verifier::external_body]
pub(crate) fn json_is_object(v: &serde_json::Value) -> (r: bool)
    ensures
        r == (jmodel(*v) is Obj),
{
    v.is_object()
}

} // verus!

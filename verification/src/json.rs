//! The trusted boundary around `serde_json`.
//!
//! Configuration sources are JSON texts; parsing them is `serde_json`'s work.
//! A parsed `serde_json::Value` is opaque to the verifier, so this module
//! gives its contents a name: [`json_model`] maps a value to the ghost [`Json`]
//! tree it stands for, and [`parsed_json`] names what parsing a given text
//! yields. Each wrapper states over those names what the corresponding
//! `serde_json` accessor returns; everything that interprets the tree is
//! verified code in the configuration module.

use vstd::prelude::*;

verus! {

/// The ghost shape of a JSON document.
///
/// A number is abstracted to `Num(Some(n))` where `serde_json` represents it
/// as an unsigned integer `n` — the only numbers the configuration reads —
/// and to `Num(None)` where it is negative, fractional, or too large for a
/// `u64`.
pub ghost enum Json {
    Null,
    Bool(bool),
    Num(Option<u64>),
    Str(Seq<char>),
    Arr(Seq<Json>),
    Obj(Map<Seq<char>, Json>),
}

#[verifier::external_type_specification]
#[verifier::external_body]
pub struct ExValue(serde_json::Value);

#[verifier::external_type_specification]
#[verifier::external_body]
pub struct ExJsonError(serde_json::Error);

/// The ghost tree a `serde_json::Value` holds.
pub uninterp spec fn json_model(v: serde_json::Value) -> Json;

/// What parsing a text as JSON yields: `None` where `serde_json` refuses the
/// text (malformed JSON, or nesting past its recursion limit), otherwise the
/// tree of the parsed value.
pub uninterp spec fn parsed_json(s: Seq<char>) -> Option<Json>;

/// Relies on `serde_json::from_str::<Value>`: what a text parses to is a
/// function of the text alone.
#[verifier::external_body]
pub(crate) fn parse_json(s: &str) -> (r: Result<serde_json::Value, serde_json::Error>)
    ensures
        match r {
            Ok(v) => parsed_json(s@) == Some(json_model(v)),
            Err(_) => parsed_json(s@) is None,
        },
{
    serde_json::from_str(s)
}

/// Relies on `serde_json::Value::is_object`: true exactly on `Value::Object`.
#[verifier::external_body]
pub(crate) fn json_is_object(v: &serde_json::Value) -> (r: bool)
    ensures
        r == (json_model(*v) is Obj),
{
    v.is_object()
}

/// Relies on `serde_json::Value::get` with a string index: on an object it
/// looks the key up in the object's map, on every other value it returns
/// `None`.
#[verifier::external_body]
pub(crate) fn json_get<'a>(v: &'a serde_json::Value, key: &str) -> (r: Option<
    &'a serde_json::Value,
>)
    ensures
        match json_model(*v) {
            Json::Obj(m) => {
                &&& r is Some <==> m.contains_key(key@)
                &&& (r matches Some(u) ==> json_model(*u) == m[key@])
            },
            _ => r is None,
        },
{
    v.get(key)
}

/// Relies on `serde_json::Value::as_u64`: the number, exactly where the value
/// is a number that is an integer representable in a `u64`.
#[verifier::external_body]
pub(crate) fn json_as_u64(v: &serde_json::Value) -> (r: Option<u64>)
    ensures
        r == (match json_model(*v) {
            Json::Num(n) => n,
            _ => None::<u64>,
        }),
{
    v.as_u64()
}

/// Relies on `serde_json::Value::as_bool`: the boolean, exactly where the
/// value is one.
#[verifier::external_body]
pub(crate) fn json_as_bool(v: &serde_json::Value) -> (r: Option<bool>)
    ensures
        r == (match json_model(*v) {
            Json::Bool(b) => Some(b),
            _ => None::<bool>,
        }),
{
    v.as_bool()
}

/// Relies on `serde_json::Value::as_str`: the borrowed text, exactly where
/// the value is a string.
#[verifier::external_body]
pub(crate) fn json_as_str<'a>(v: &'a serde_json::Value) -> (r: Option<&'a str>)
    ensures
        match json_model(*v) {
            Json::Str(s) => r matches Some(t) && t@ == s,
            _ => r is None,
        },
{
    v.as_str()
}

} // verus!

//! Trusted boundary to serde_json: a declaration of its `Value` type and
//! thin wrappers around the `Value` accessors the library reads through.
//!
//! Every one of these calls is a function of its arguments alone, so each
//! result carries a name; the library's contracts speak of the names, and
//! every decision taken on a result is made by verified functions.

use vstd::prelude::*;

verus! {

#[verifier::external_type_specification]
#[verifier::external_body]
pub struct ExValue(serde_json::Value);

/// What `serde_json::from_str` makes of a text: a parsed value, or nothing
/// where the text is not a valid JSON document.
pub uninterp spec fn parse_of(s: Seq<char>) -> Option<serde_json::Value>;

/// The text is a valid JSON document.
pub open spec fn is_json(s: Seq<char>) -> bool {
    parse_of(s) is Some
}

/// What `serde_json::Value::get` finds under a key: the value an object
/// holds there, or nothing where the key is absent or the value no object.
pub uninterp spec fn field_of(v: serde_json::Value, key: Seq<char>) -> Option<serde_json::Value>;

/// What `serde_json::Value::as_array` returns: the elements of an array
/// value, or nothing where the value is no array.
pub uninterp spec fn array_of(v: serde_json::Value) -> Option<Seq<serde_json::Value>>;

/// What `serde_json::Value::as_str` returns: the text of a string value, or
/// nothing where the value is no string.
pub uninterp spec fn str_of(v: serde_json::Value) -> Option<Seq<char>>;

/// What `serde_json::Value::is_null` returns: the value is JSON null.
pub uninterp spec fn null_of(v: serde_json::Value) -> bool;

/// What serde_json's `Display` impl renders a value as: its compact JSON
/// text (a string value keeps its quotes).
pub uninterp spec fn text_of(v: serde_json::Value) -> Seq<char>;

/// Relies on serde_json::from_str: parses a JSON document into a generic
/// `Value`, or fails where the text is not valid JSON.
#[verifier::external_body]
pub(crate) fn parse_json(s: &str) -> (r: Option<serde_json::Value>)
    ensures
        r == parse_of(s@),
{
    serde_json::from_str(s).ok()
}

/// Relies on serde_json::Value::get: looks a key up in a JSON object,
/// `None` where the key is absent or the value is no object.
#[verifier::external_body]
pub(crate) fn json_get<'a>(v: &'a serde_json::Value, key: &str) -> (r: Option<
    &'a serde_json::Value,
>)
    ensures
        r is Some <==> field_of(*v, key@) is Some,
        r matches Some(x) ==> field_of(*v, key@) == Some(*x),
{
    v.get(key)
}

/// Relies on serde_json::Value::as_array: the elements of a JSON array,
/// `None` where the value is no array.
#[verifier::external_body]
pub(crate) fn json_as_array<'a>(v: &'a serde_json::Value) -> (r: Option<&'a Vec<serde_json::Value>>)
    ensures
        r is Some <==> array_of(*v) is Some,
        r matches Some(a) ==> array_of(*v) == Some(a@),
{
    v.as_array()
}

/// Relies on serde_json::Value::as_str: the text of a JSON string,
/// `None` where the value is no string.
#[verifier::external_body]
pub(crate) fn json_as_str<'a>(v: &'a serde_json::Value) -> (r: Option<&'a str>)
    ensures
        r is Some <==> str_of(*v) is Some,
        r matches Some(t) ==> str_of(*v) == Some(t@),
{
    v.as_str()
}

/// Relies on serde_json::Value::is_null: whether the value is JSON null.
#[verifier::external_body]
pub(crate) fn json_is_null(v: &serde_json::Value) -> (r: bool)
    ensures
        r == null_of(*v),
{
    v.is_null()
}

/// Relies on serde_json's Display impl for Value via ToString: the value
/// rendered as compact JSON text.
#[verifier::external_body]
pub(crate) fn json_text(v: &serde_json::Value) -> (r: String)
    ensures
        r@ == text_of(*v),
{
    v.to_string()
}

} // verus!

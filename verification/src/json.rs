//! The calls into serde_json that the bridge protocol makes. JSON values are
//! carried through the library as they are; what the library knows of one is
//! what the names below say, each a function of its arguments alone.
use vstd::prelude::*;

verus! {

#[verifier::external_type_specification]
#[verifier::external_body]
pub struct ExJsonValue(serde_json::Value);

#[verifier::external_type_specification]
#[verifier::external_body]
pub struct ExJsonError(serde_json::Error);

/// What `serde_json::from_str::<Value>` gives for a text: the JSON value it
/// holds, or the error that refuses it.
pub uninterp spec fn json_parse(text: Seq<char>) -> Result<serde_json::Value, serde_json::Error>;

/// Whether serde_json accepts a text as one JSON value.
pub open spec fn json_text_accepted(text: Seq<char>) -> bool {
    json_parse(text) is Ok
}

/// The JSON null: the value serde_json reads from the text `null`.
pub open spec fn json_null() -> serde_json::Value {
    json_parse("null"@)->Ok_0
}

/// What `<serde_json::Error as Display>::to_string` gives for an error.
pub uninterp spec fn json_error_message(e: serde_json::Error) -> Seq<char>;

/// What `Value::get` followed by `Value::as_str` gives: the string held
/// under `key` when the value is an object whose member `key` is a JSON
/// string, and nothing otherwise.
pub uninterp spec fn json_str_member(v: serde_json::Value, key: Seq<char>) -> Option<Seq<char>>;

/// What `Value::get` gives: the member `key` when the value is an object
/// that has one, and nothing otherwise.
pub uninterp spec fn json_member(v: serde_json::Value, key: Seq<char>) -> Option<serde_json::Value>;

/// The bytes that serde_json writes for a string: the string as a JSON
/// string literal.
pub uninterp spec fn json_string_bytes(s: Seq<char>) -> Seq<u8>;

/// The bytes that serde_json writes for a JSON value, compactly.
pub uninterp spec fn json_value_bytes(v: serde_json::Value) -> Seq<u8>;

/// Whether a byte sequence holds no line feed.
pub open spec fn no_line_feed(b: Seq<u8>) -> bool {
    forall|i: int| 0 <= i < b.len() ==> b[i] != 10u8
}

/// The string view of an optional string.
pub open spec fn opt_str_view(s: Option<String>) -> Option<Seq<char>> {
    match s {
        Some(x) => Some(x@),
        None => None,
    }
}

/// `serde_json::from_str::<Value>`: parses a text as one JSON value.
/// Claimed: what it gives is `json_parse` of the text, a function of the
/// text alone.
#[verifier::external_body]
pub(crate) fn parse_value(text: &str) -> (r: Result<serde_json::Value, serde_json::Error>)
    ensures
        r == json_parse(text@),
{
    serde_json::from_str::<serde_json::Value>(text)
}

/// `<serde_json::Error as Display>::to_string`: the text of a parse error.
/// Claimed: it is `json_error_message` of the error.
#[verifier::external_body]
pub(crate) fn error_text(e: &serde_json::Error) -> (r: String)
    ensures
        r@ == json_error_message(*e),
{
    e.to_string()
}

/// `Value::get` followed by `Value::as_str`: the string held under `key`.
/// Claimed: it is `json_str_member` of the value and the key.
#[verifier::external_body]
pub(crate) fn str_member(v: &serde_json::Value, key: &str) -> (r: Option<String>)
    ensures
        opt_str_view(r) == json_str_member(*v, key@),
{
    match v.get(key) {
        Some(m) => m.as_str().map(|s| s.to_string()),
        None => None,
    }
}

/// `Value::get` followed by `Clone::clone`: a copy of the member `key`.
/// Claimed: it is `json_member` of the value and the key (a clone of a
/// `Value` is equal to it).
#[verifier::external_body]
pub(crate) fn member(v: &serde_json::Value, key: &str) -> (r: Option<serde_json::Value>)
    ensures
        r == json_member(*v, key@),
{
    v.get(key).cloned()
}

/// `Value::Null`. Claimed: it is the value serde_json reads from the text
/// `null`.
#[verifier::external_body]
pub(crate) fn null_value() -> (r: serde_json::Value)
    ensures
        r == json_null(),
{
    serde_json::Value::Null
}

/// `serde_json::to_vec` on a string. Claimed: it succeeds (a string has no
/// way to refuse serialization, and writing into a `Vec<u8>` cannot fail);
/// the bytes are named by `json_string_bytes`, a function of the string
/// alone, and hold no line feed (serde_json escapes every control character
/// inside a string and writes nothing around the literal but its quotes).
#[verifier::external_body]
pub(crate) fn encode_string(s: &str) -> (r: Result<Vec<u8>, serde_json::Error>)
    ensures
        r is Ok,
        r matches Ok(b) ==> b@ == json_string_bytes(s@) && no_line_feed(b@),
{
    serde_json::to_vec(s)
}

/// `serde_json::to_vec` on a JSON value. Claimed: it succeeds (a `Value`'s
/// object keys are strings, a non-finite float is written as null, and
/// writing into a `Vec<u8>` cannot fail); the bytes are named by
/// `json_value_bytes`, a function of the value alone, and hold no line feed
/// (the compact formatter writes no whitespace, and strings are escaped as
/// above).
#[verifier::external_body]
pub(crate) fn encode_value(v: &serde_json::Value) -> (r: Result<Vec<u8>, serde_json::Error>)
    ensures
        r is Ok,
        r matches Ok(b) ==> b@ == json_value_bytes(*v) && no_line_feed(b@),
{
    serde_json::to_vec(v)
}

} // verus!

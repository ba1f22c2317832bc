//! JSON values, as `serde_json` parses and renders them.
//!
//! A `serde_json::Value` is opaque to the verifier. Contracts speak of it
//! through `json_text`, its compact rendering, and the items below are
//! believed, not proved.

use vstd::prelude::*;

verus! {

#[verifier::external_type_specification]
#[verifier::external_body]
pub struct ExJsonValue(serde_json::Value);

#[verifier::external_type_specification]
#[verifier::external_body]
pub struct ExJsonError(serde_json::Error);

/// What a JSON value holds: its compact rendering, as `Display` for
/// `serde_json::Value` writes it.
pub uninterp spec fn json_text(value: serde_json::Value) -> Seq<char>;

/// The message of a parse error, as `Display` for `serde_json::Error` writes it.
pub uninterp spec fn json_error_text(error: serde_json::Error) -> Seq<char>;

/// What `serde_json::from_slice` makes of a byte string: the rendering of the
/// parsed value, or the message of the error.
pub uninterp spec fn json_parse(bytes: Seq<u8>) -> Result<Seq<char>, Seq<char>>;

/// The rendering of the member that indexing a value by a key gives.
pub uninterp spec fn json_member(text: Seq<char>, key: Seq<char>) -> Seq<char>;

/// The string that a value holds, if it is a JSON string.
pub uninterp spec fn json_string(text: Seq<char>) -> Option<Seq<char>>;

/// The bit pattern of the double that a value holds, if it is a JSON number.
pub uninterp spec fn json_number_bits(text: Seq<char>) -> Option<u64>;

/// The `Debug` rendering of a value.
pub uninterp spec fn json_debug(text: Seq<char>) -> Seq<char>;

/// The character is written into a JSON string as it stands: it is no
/// control character, quote or backslash.
pub open spec fn is_plain_char(c: char) -> bool {
    c as u32 >= 0x20 && c != '"' && c != '\\'
}

/// Every character of the key is written as it stands.
pub open spec fn is_plain_key(key: Seq<char>) -> bool {
    forall|i: int| 0 <= i < key.len() ==> is_plain_char(#[trigger] key[i])
}

/// The rendering of the object whose only member is the plain key `key`,
/// holding the value rendered as `text`.
pub open spec fn object_text(key: Seq<char>, text: Seq<char>) -> Seq<char> {
    seq!['{', '"'] + key + seq!['"', ':'] + text + seq!['}']
}

/// Calls `serde_json::from_slice` for a `Value`. Believed: the outcome is a
/// function of the bytes alone, named `json_parse`.
#[verifier::external_body]
pub(crate) fn parse(bytes: &[u8]) -> (parsed: Result<serde_json::Value, serde_json::Error>)
    ensures
        match parsed {
            Ok(value) => json_parse(bytes@) == Ok::<Seq<char>, Seq<char>>(json_text(value)),
            Err(error) => json_parse(bytes@) == Err::<Seq<char>, Seq<char>>(
                json_error_text(error),
            ),
        },
{
    serde_json::from_slice::<serde_json::Value>(bytes)
}

/// Calls `to_string` on a `serde_json::Error`. Believed: the text is the
/// error's message.
#[verifier::external_body]
pub(crate) fn error_message(error: &serde_json::Error) -> (text: String)
    ensures
        text@ == json_error_text(*error),
{
    error.to_string()
}

/// Calls `to_string` on a `serde_json::Value`. Believed: the text is the
/// value's compact rendering.
#[verifier::external_body]
pub(crate) fn render(value: &serde_json::Value) -> (text: String)
    ensures
        text@ == json_text(*value),
{
    value.to_string()
}

/// Indexes a `serde_json::Value` by a key and clones the member. Believed: the
/// member is a function of the value and the key, named `json_member`.
#[verifier::external_body]
pub(crate) fn member(value: &serde_json::Value, key: &str) -> (found: serde_json::Value)
    ensures
        json_text(found) == json_member(json_text(*value), key@),
{
    value[key].clone()
}

/// Calls `Value::as_str`. Believed: the outcome is a function of the value,
/// named `json_string`.
#[verifier::external_body]
pub(crate) fn as_string(value: &serde_json::Value) -> (held: Option<String>)
    ensures
        match held {
            Some(s) => json_string(json_text(*value)) == Some(s@),
            None => json_string(json_text(*value)) is None,
        },
{
    match value.as_str() {
        Some(s) => Some(s.to_string()),
        None => None,
    }
}

/// Calls `Value::as_f64` and hands the double out as its bit pattern.
/// Believed: the outcome is a function of the value, named `json_number_bits`.
#[verifier::external_body]
pub(crate) fn as_number_bits(value: &serde_json::Value) -> (held: Option<u64>)
    ensures
        held == json_number_bits(json_text(*value)),
{
    match value.as_f64() {
        Some(x) => Some(x.to_bits()),
        None => None,
    }
}

/// Formats a `serde_json::Value` with `Debug`. Believed: the text is a
/// function of the value, named `json_debug`.
#[verifier::external_body]
pub(crate) fn debug_text(value: &serde_json::Value) -> (text: String)
    ensures
        text@ == json_debug(json_text(*value)),
{
    format!("{:?}", value)
}

/// Builds a `serde_json::Map` with one entry and wraps it as `Value::Object`.
/// Believed: for a key that needs no escaping the object renders as an
/// opening brace, the key in quotes, a colon, the member and a closing brace.
#[verifier::external_body]
pub(crate) fn object_of(key: &str, value: serde_json::Value) -> (object: serde_json::Value)
    requires
        is_plain_key(key@),
    ensures
        json_text(object) == object_text(key@, json_text(value)),
{
    let mut entries = serde_json::Map::new();
    entries.insert(key.to_string(), value);
    serde_json::Value::Object(entries)
}

} // verus!

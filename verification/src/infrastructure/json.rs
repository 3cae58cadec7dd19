//! Reading and writing JSON text through `serde_json`.
use vstd::prelude::*;

verus! {

/// `serde_json::from_str::<serde_json::Value>` accepts `text`.
pub uninterp spec fn json_is_valid(text: Seq<char>) -> bool;

/// For a JSON document `text`: the string member `key` of its top-level
/// object, if the document is an object with such a string member.
pub uninterp spec fn json_member_str(text: Seq<char>, key: Seq<char>) -> Option<Seq<char>>;

/// For a JSON document `text`: the string member `inner` of the object member
/// `outer` of its top-level object, if there is one.
pub uninterp spec fn json_nested_member_str(
    text: Seq<char>,
    outer: Seq<char>,
    inner: Seq<char>,
) -> Option<Seq<char>>;

/// The message (`Display`) of the error that
/// `serde_json::from_str::<serde_json::Value>` gives for `text`.
pub uninterp spec fn json_error_text(text: Seq<char>) -> Seq<char>;

#[verifier::external_type_specification]
#[verifier::external_body]
pub struct ExJsonError(serde_json::Error);

/// A lowercase hexadecimal digit for `n < 16`.
pub open spec fn hex_digit(n: u32) -> char {
    if n < 10 {
        (('0' as u32) + n) as char
    } else {
        (('a' as u32) + n - 10) as char
    }
}

/// How `serde_json` writes one character inside a string literal.
pub open spec fn json_escape_char(c: char) -> Seq<char> {
    if c == '"' {
        seq!['\\', '"']
    } else if c == '\\' {
        seq!['\\', '\\']
    } else if c as u32 == 0x08 {
        seq!['\\', 'b']
    } else if c as u32 == 0x0c {
        seq!['\\', 'f']
    } else if c == '\n' {
        seq!['\\', 'n']
    } else if c == '\r' {
        seq!['\\', 'r']
    } else if c == '\t' {
        seq!['\\', 't']
    } else if (c as u32) < 0x20 {
        seq!['\\', 'u', '0', '0', hex_digit((c as u32) / 16), hex_digit((c as u32) % 16)]
    } else {
        seq![c]
    }
}

/// The escaped characters of `s`.
pub open spec fn json_escape(s: Seq<char>) -> Seq<char>
    decreases s.len(),
{
    if s.len() == 0 {
        Seq::empty()
    } else {
        json_escape(s.drop_last()) + json_escape_char(s.last())
    }
}

/// The JSON string literal for `s`.
pub open spec fn json_quoted(s: Seq<char>) -> Seq<char> {
    seq!['"'] + json_escape(s) + seq!['"']
}

/// Calls `serde_json::to_string` on a string: the JSON literal for `s`,
/// escaped as `serde_json`'s string formatter does (`"`, `\`, the short
/// escapes, `\u00xx` for other control characters, everything else as is).
/// Serializing a `str` does not fail.
#[verifier::external_body]
pub(crate) fn json_string_literal(s: &str) -> (r: String)
    ensures
        r@ == json_quoted(s@),
{
    match serde_json::to_string(s) {
        Ok(text) => text,
        Err(_) => String::new(),
    }
}

/// Parses `text` with `serde_json::from_str::<serde_json::Value>` and reads
/// the string member `key` of the top-level object (`Value::get` then
/// `Value::as_str`). The call fails exactly when the text is not JSON.
#[verifier::external_body]
pub(crate) fn lookup_member_str(text: &str, key: &str) -> (r: Result<Option<String>, serde_json::Error>)
    ensures
        r is Ok <==> json_is_valid(text@),
        r matches Ok(v) ==> v.deep_view() == json_member_str(text@, key@),
{
    let value: serde_json::Value = serde_json::from_str(text)?;
    Ok(value.get(key).and_then(serde_json::Value::as_str).map(str::to_owned))
}

/// Parses `text` with `serde_json::from_str::<serde_json::Value>` and reads
/// `value[outer][inner]` as a string (`Value::get` twice, then
/// `Value::as_str`). The call fails exactly when the text is not JSON; the
/// failure carries the parse error's message (its `Display`), which depends
/// on the text alone.
#[verifier::external_body]
pub(crate) fn lookup_nested_member_str(text: &str, outer: &str, inner: &str) -> (r: Result<
    Option<String>,
    String,
>)
    ensures
        r is Ok <==> json_is_valid(text@),
        r matches Ok(v) ==> v.deep_view() == json_nested_member_str(text@, outer@, inner@),
        r matches Err(m) ==> m@ == json_error_text(text@),
{
    match serde_json::from_str::<serde_json::Value>(text) {
        Ok(value) => Ok(value.get(outer).and_then(|o| o.get(inner)).and_then(serde_json::Value::as_str).map(str::to_owned)),
        Err(error) => Err(error.to_string()),
    }
}

} // verus!

//! The standard text of a result body: JSON re-serialised by `serde_json`, or,
//! where the body is not JSON, the body as one JSON string.
use vstd::prelude::*;
use vstd::utf8::*;
use crate::hex_text::hex_digit;

verus! {

/// The text `String::from_utf8_lossy` makes of a byte sequence.
pub uninterp spec fn utf8_lossy_text(bytes: Seq<u8>) -> Seq<char>;

/// `serde_json`'s compact serialisation of the value that `text` parses to, or
/// `None` where `text` is not one JSON value.
pub uninterp spec fn json_reserialized(text: Seq<char>) -> Option<Seq<char>>;

/// The escape `serde_json` writes for one character inside a JSON string.
pub open spec fn json_escape_char(c: char) -> Seq<char> {
    if c == '"' {
        seq!['\\', '"']
    } else if c == '\\' {
        seq!['\\', '\\']
    } else if c == '\u{8}' {
        seq!['\\', 'b']
    } else if c == '\t' {
        seq!['\\', 't']
    } else if c == '\n' {
        seq!['\\', 'n']
    } else if c == '\u{c}' {
        seq!['\\', 'f']
    } else if c == '\r' {
        seq!['\\', 'r']
    } else if (c as u32) < 0x20 {
        seq!['\\', 'u', '0', '0', hex_digit(c as int / 16), hex_digit(c as int % 16)]
    } else {
        seq![c]
    }
}

/// The escaped contents of a JSON string.
pub open spec fn json_escape(s: Seq<char>) -> Seq<char>
    decreases s.len(),
{
    if s.len() == 0 {
        seq![]
    } else {
        json_escape_char(s[0]) + json_escape(s.drop_first())
    }
}

/// A JSON string literal holding `s`.
pub open spec fn json_string_literal(s: Seq<char>) -> Seq<char> {
    seq!['"'] + json_escape(s) + seq!['"']
}

/// The standard text of a response body: its JSON re-serialisation where it is
/// JSON, else the (lossily decoded) body as a JSON string literal.
pub open spec fn standard_result_text(body: Seq<u8>) -> Seq<char> {
    match json_reserialized(utf8_lossy_text(body)) {
        Some(t) => t,
        None => json_string_literal(utf8_lossy_text(body)),
    }
}

/// `String::from_utf8_lossy`: the contract names the text and, as its
/// documentation says, gives back the decoded text unchanged on valid UTF-8.
#[verifier::external_body]
pub(crate) fn utf8_lossy(bytes: &[u8]) -> (res: String)
    ensures
        res@ == utf8_lossy_text(bytes@),
        valid_utf8(bytes@) ==> res@ == decode_utf8(bytes@),
{
    String::from_utf8_lossy(bytes).into_owned()
}

/// `serde_json::from_str::<serde_json::Value>` followed by `serde_json::to_string`
/// of the parsed value (which cannot fail on a `Value`): the contract names the result.
#[verifier::external_body]
pub(crate) fn json_reserialize(text: &str) -> (res: Option<String>)
    ensures
        match res {
            Some(s) => json_reserialized(text@) == Some(s@),
            None => json_reserialized(text@) is None,
        },
{
    match serde_json::from_str::<serde_json::Value>(text) {
        Ok(value) => Some(serde_json::to_string(&value).unwrap_or_default()),
        Err(_) => None,
    }
}

/// `serde_json::to_string` of `serde_json::Value::String(text)`: the contract states
/// `serde_json`'s escaping exactly.
#[verifier::external_body]
pub(crate) fn json_quote(text: &str) -> (res: String)
    ensures
        res@ == json_string_literal(text@),
{
    serde_json::to_string(&serde_json::Value::String(text.to_string())).unwrap_or_default()
}

/// Escaping never shortens text: every character escapes to at least itself.
pub proof fn lemma_json_escape_len(s: Seq<char>)
    ensures
        json_escape(s).len() >= s.len(),
    decreases s.len(),
{
    if s.len() > 0 {
        lemma_json_escape_len(s.drop_first());
    }
}

/// A body that is JSON becomes its re-serialisation; a body that is not becomes one
/// JSON string literal holding the whole lossily decoded body: a quote, every
/// character of the body escaped, in order, and a closing quote (so at least two
/// characters more than the body's text).
pub proof fn lemma_standard_text_of_body(body: Seq<u8>)
    ensures
        json_reserialized(utf8_lossy_text(body)) matches Some(t) ==> standard_result_text(body)
            == t,
        json_reserialized(utf8_lossy_text(body)) is None ==> {
            &&& standard_result_text(body) == seq!['"'] + json_escape(utf8_lossy_text(body))
                + seq!['"']
            &&& standard_result_text(body).len() >= utf8_lossy_text(body).len() + 2
        },
{
    lemma_json_escape_len(utf8_lossy_text(body));
}

/// The standard text of a response body, the one that is hashed, bound and signed.
pub fn standardize_result(body: &[u8]) -> (res: String)
    ensures
        res@ == standard_result_text(body@),
        json_reserialized(utf8_lossy_text(body@)) matches Some(t) ==> res@ == t,
        json_reserialized(utf8_lossy_text(body@)) is None ==> res@ == seq!['"'] + json_escape(
            utf8_lossy_text(body@),
        ) + seq!['"'],
{
    let text = utf8_lossy(body);
    match json_reserialize(text.as_str()) {
        Some(s) => s,
        None => json_quote(text.as_str()),
    }
}

} // verus!

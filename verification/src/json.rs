//! JSON text, as `serde_json` writes and reads it.

use vstd::prelude::*;

verus! {

/// Whether `c` stands for itself inside a JSON string: it is neither the
/// quotation mark, nor the backslash, nor a control character.
pub open spec fn is_plain_json_char(c: char) -> bool {
    c != '"' && c != '\\' && c as u32 >= 0x20
}

/// Whether no symbol of `s` needs an escape inside a JSON string.
pub open spec fn needs_no_escape(s: Seq<char>) -> bool {
    forall|i: int| 0 <= i < s.len() ==> is_plain_json_char(#[trigger] s[i])
}

/// `s` between two quotation marks.
pub open spec fn quoted(s: Seq<char>) -> Seq<char> {
    seq!['"'] + s + seq!['"']
}

/// The JSON string that `serde_json::to_string` writes for a text with a
/// symbol that needs an escape.
pub uninterp spec fn escaped_json_string(s: Seq<char>) -> Seq<char>;

/// The JSON string for the text `s`: `s` in quotation marks where nothing in
/// it needs an escape, and the escaped form otherwise.
pub open spec fn json_string_text(s: Seq<char>) -> Seq<char> {
    if needs_no_escape(s) {
        quoted(s)
    } else {
        escaped_json_string(s)
    }
}

/// `serde_json::to_string` on a string slice. Writing a string into memory
/// has no way to fail. The text that comes back starts and ends with a
/// quotation mark; between them each symbol stands for itself unless the
/// escape table marks it, which it does for the quotation mark, the
/// backslash and the control characters below U+0020 only.
#[verifier::external_body]
fn to_json_string(s: &str) -> (r: Option<String>)
    ensures
        r is Some,
        r->0@ == (if needs_no_escape(s@) {
            quoted(s@)
        } else {
            escaped_json_string(s@)
        }),
{
    match serde_json::to_string(s) {
        Ok(text) => Some(text),
        Err(_) => None,
    }
}

/// Writes `s` as a JSON string.
pub fn json_string(s: &str) -> (text: String)
    ensures
        text@ == json_string_text(s@),
{
    match to_json_string(s) {
        Some(text) => text,
        None => vstd::pervasive::unreached(),
    }
}

/// What came of reading bytes as a JSON document and writing the document
/// out again in pretty-printed form.
pub enum JsonRendering {
    /// The bytes are a JSON document, and this is its pretty-printed text.
    Pretty(String),
    /// The bytes are a JSON document, but it could not be written out.
    Unprintable,
    /// The bytes are not a JSON document.
    NotJson,
}

/// Whether `serde_json::from_slice` reads `bytes` as a JSON document.
pub uninterp spec fn parses_as_json(bytes: Seq<u8>) -> bool;

/// The text that `serde_json::to_string_pretty` writes for the document
/// read from `bytes`, or `None` where it fails.
pub uninterp spec fn pretty_json_text(bytes: Seq<u8>) -> Option<Seq<char>>;

/// `serde_json::from_slice` into a `serde_json::Value`, and on success
/// `serde_json::to_string_pretty` on that value. Both depend on the bytes
/// alone; the outcome tells which of the two failed, if any.
#[verifier::external_body]
pub(crate) fn pretty_json(bytes: &Vec<u8>) -> (r: JsonRendering)
    ensures
        r is NotJson <==> !parses_as_json(bytes@),
        r is Unprintable ==> pretty_json_text(bytes@) is None,
        r matches JsonRendering::Pretty(text) ==> pretty_json_text(bytes@) == Some(text@),
{
    match serde_json::from_slice::<serde_json::Value>(bytes) {
        Ok(value) => match serde_json::to_string_pretty(&value) {
            Ok(text) => JsonRendering::Pretty(text),
            Err(_) => JsonRendering::Unprintable,
        },
        Err(_) => JsonRendering::NotJson,
    }
}

} // verus!

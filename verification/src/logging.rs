//! The log block of one inbound request: a title line, one line per header
//! in arrival order, and the body, pretty-printed where it is JSON.

use hyper::http::HeaderValue;
use vstd::prelude::*;
use vstd::string::*;
use vstd::utf8::{decode_utf8, valid_utf8};

use crate::id::RequestId;
use crate::json::{parses_as_json, pretty_json, pretty_json_text, JsonRendering};

verus! {

/// One header of a request: its name, and its value as the bytes that
/// arrived.
pub struct Header {
    pub name: String,
    pub value: Vec<u8>,
}

/// What of a request is known before its body is read.
pub struct RequestHead {
    pub method: String,
    pub path: String,
    pub headers: Vec<Header>,
}

/// What came of reading the body of a request.
pub enum BodyRead {
    /// The whole body.
    Bytes(Vec<u8>),
    /// The transport failed before the body was complete.
    Failed,
}

/// Whether `b` is the code of a visible ASCII character, the space or the
/// tab.
pub open spec fn is_visible_ascii(b: u8) -> bool {
    (32 <= b && b < 127) || b == 9
}

/// Whether a header value consists of visible ASCII only, so that it can be
/// shown as text.
pub open spec fn is_visible_text(value: Seq<u8>) -> bool {
    forall|i: int| 0 <= i < value.len() ==> is_visible_ascii(#[trigger] value[i])
}

/// The bytes of `value`, each read as one character.
pub open spec fn bytes_as_chars(value: Seq<u8>) -> Seq<char> {
    Seq::new(value.len(), |i: int| value[i] as char)
}

/// How a header value is shown: as its text, or as a placeholder where it is
/// not visible ASCII.
pub open spec fn header_value_text(value: Seq<u8>) -> Seq<char> {
    if is_visible_text(value) {
        bytes_as_chars(value)
    } else {
        "<non-unicode>"@
    }
}

/// The line of one header.
pub open spec fn header_line_text(name: Seq<char>, value: Seq<u8>) -> Seq<char> {
    name + ": "@ + header_value_text(value) + "\n"@
}

/// The lines of the headers, in their order.
pub open spec fn header_block_text(headers: Seq<Header>) -> Seq<char>
    decreases headers.len(),
{
    if headers.len() == 0 {
        Seq::empty()
    } else {
        header_block_text(headers.drop_last()) + header_line_text(
            headers.last().name@,
            headers.last().value@,
        )
    }
}

/// The first line of the block: identifier, method and path.
pub open spec fn title_line_text(id: Seq<char>, method: Seq<char>, path: Seq<char>) -> Seq<char> {
    id + " "@ + method + " "@ + path + "\n"@
}

/// The text that `String::from_utf8_lossy` gives for bytes that are not
/// valid UTF-8.
pub uninterp spec fn replaced_utf8_text(bytes: Seq<u8>) -> Seq<char>;

/// `bytes` read as UTF-8, with each invalid sequence replaced.
pub open spec fn lossy_text(bytes: Seq<u8>) -> Seq<char> {
    if valid_utf8(bytes) {
        decode_utf8(bytes)
    } else {
        replaced_utf8_text(bytes)
    }
}

/// How the bytes of a body are shown, given what came of rendering them as
/// JSON.
pub open spec fn rendered_body_text(rendering: JsonRendering, bytes: Seq<u8>) -> Seq<char> {
    match rendering {
        JsonRendering::Pretty(text) => text@,
        JsonRendering::Unprintable => "<encoding error>"@,
        JsonRendering::NotJson => lossy_text(bytes),
    }
}

/// How the bytes of a body are shown: pretty-printed where they are a JSON
/// document, else as text.
pub open spec fn body_bytes_text(bytes: Seq<u8>) -> Seq<char> {
    if parses_as_json(bytes) {
        match pretty_json_text(bytes) {
            Some(text) => text,
            None => "<encoding error>"@,
        }
    } else {
        lossy_text(bytes)
    }
}

/// How the body of a request is shown.
pub open spec fn body_text(body: BodyRead) -> Seq<char> {
    match body {
        BodyRead::Bytes(bytes) => body_bytes_text(bytes@),
        BodyRead::Failed => "<body error>"@,
    }
}

/// The whole log block of a request. It ends in an empty line.
pub open spec fn log_text(id: Seq<char>, head: RequestHead, body: BodyRead) -> Seq<char> {
    title_line_text(id, head.method@, head.path@) + header_block_text(head.headers@) + body_text(
        body,
    ) + "\n\n"@
}

/// `HeaderValue::to_str` on the header value made of `value` by
/// `HeaderValue::from_bytes`. The first takes every byte but the control
/// characters other than the tab; the second yields the text where every
/// byte is visible ASCII, the space or the tab.
#[verifier::external_body]
fn visible_text(value: &Vec<u8>) -> (text: Option<String>)
    ensures
        text is Some <==> is_visible_text(value@),
        text matches Some(t) ==> t@ == bytes_as_chars(value@),
{
    match HeaderValue::from_bytes(value) {
        Ok(header) => match header.to_str() {
            Ok(text) => Some(text.to_string()),
            Err(_) => None,
        },
        Err(_) => None,
    }
}

/// `String::from_utf8_lossy`: the string of the bytes where they are valid
/// UTF-8, and else that string with each invalid sequence replaced by
/// U+FFFD.
#[verifier::external_body]
fn from_utf8_lossy(bytes: &Vec<u8>) -> (text: String)
    ensures
        text@ == (if valid_utf8(bytes@) {
            decode_utf8(bytes@)
        } else {
            replaced_utf8_text(bytes@)
        }),
{
    String::from_utf8_lossy(bytes).into_owned()
}

/// Renders the first line of the block.
pub fn title_line(id: &RequestId, method: &str, path: &str) -> (line: String)
    ensures
        line@ == title_line_text(id@, method@, path@),
{
    let mut line = id.as_str().to_owned();
    line.append(" ");
    line.append(method);
    line.append(" ");
    line.append(path);
    line.append("\n");
    line
}

/// Renders the line of one header.
pub fn header_line(header: &Header) -> (line: String)
    ensures
        line@ == header_line_text(header.name@, header.value@),
{
    let mut line = header.name.as_str().to_owned();
    line.append(": ");
    match visible_text(&header.value) {
        Some(text) => line.append(text.as_str()),
        None => line.append("<non-unicode>"),
    }
    line.append("\n");
    line
}

/// Renders the lines of all headers, in arrival order.
pub fn header_block(headers: &Vec<Header>) -> (block: String)
    ensures
        block@ == header_block_text(headers@),
{
    let mut block = String::new();
    let mut i: usize = 0;
    while i < headers.len()
        invariant
            i <= headers.len(),
            block@ == header_block_text(headers@.take(i as int)),
        decreases headers.len() - i,
    {
        let line = header_line(&headers[i]);
        block.append(line.as_str());
        proof {
            assert(headers@.take(i + 1).drop_last() == headers@.take(i as int));
        }
        i += 1;
    }
    proof {
        assert(headers@.take(headers.len() as int) == headers@);
    }
    block
}

/// Picks the text for the bytes of a body, once it is known what came of
/// rendering them as JSON.
pub fn rendered_body(rendering: JsonRendering, bytes: &Vec<u8>) -> (text: String)
    ensures
        text@ == rendered_body_text(rendering, bytes@),
{
    match rendering {
        JsonRendering::Pretty(text) => text,
        JsonRendering::Unprintable => "<encoding error>".to_owned(),
        JsonRendering::NotJson => from_utf8_lossy(bytes),
    }
}

/// Renders the body of a request.
pub fn render_body(body: &BodyRead) -> (text: String)
    ensures
        text@ == body_text(*body),
{
    match body {
        BodyRead::Bytes(bytes) => rendered_body(pretty_json(bytes), bytes),
        BodyRead::Failed => "<body error>".to_owned(),
    }
}

/// Renders the log block of a request.
pub fn render_log(id: &RequestId, head: &RequestHead, body: &BodyRead) -> (text: String)
    ensures
        text@ == log_text(id@, *head, *body),
{
    let mut text = title_line(id, head.method.as_str(), head.path.as_str());
    let block = header_block(&head.headers);
    text.append(block.as_str());
    let shown = render_body(body);
    text.append(shown.as_str());
    text.append("\n\n");
    text
}

} // verus!

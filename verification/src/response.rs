//! The response to a request: a JSON body that carries the request's
//! identifier, and headers, both padded to a configured size.

use vstd::prelude::*;
use vstd::string::*;
use vstd::utf8::{encode_utf8, is_ascii_chars_encode_utf8};

use crate::alphabet::all_alphanumeric;
use crate::id::{is_id_text, RequestId};
use crate::json::{json_string, json_string_text, needs_no_escape, quoted};
use crate::padding::{padding_len, random_string};

verus! {

/// The length of a body with an empty `data` field: the braces, the line
/// breaks, the indentation, the two keys with their punctuation, the
/// quotation marks of both values, and the identifier.
pub const BODY_OVERHEAD: usize = 32;

/// The bytes that the head of a response is taken to hold besides the
/// padding: the status line, the other headers and the name of the padding
/// header.
pub const HEADER_OVERHEAD: usize = 146;

/// One header of a response.
pub struct ResponseHeader {
    pub name: String,
    pub value: String,
}

/// Whether `data` is padding that brings an artifact with `overhead` symbols
/// of structure up to `target`: alphanumeric, and as long as it takes.
pub open spec fn is_padding(data: Seq<char>, target: usize, overhead: usize) -> bool {
    data.len() == padding_len(target, overhead) && all_alphanumeric(data)
}

/// The body for the identifier `id`, with a `data` field where there is
/// padding: a JSON object, one field per line, indented by two spaces.
pub open spec fn response_body_text(id: Seq<char>, data: Option<Seq<char>>) -> Seq<char> {
    match data {
        Some(data) => "{\n  \"id\": "@ + json_string_text(id) + ",\n  \"data\": "@
            + json_string_text(data) + "\n}"@,
        None => "{\n  \"id\": "@ + json_string_text(id) + "\n}"@,
    }
}

/// Whether `body` is a body for `id` under the configured size: without a
/// `data` field where no size is set, else with padding for that size.
pub open spec fn is_response_body(body: Seq<char>, id: Seq<char>, size: Option<usize>) -> bool {
    match size {
        Some(target) => exists|data: Seq<char>| #[trigger]
            is_padding(data, target, BODY_OVERHEAD) && body == response_body_text(id, Some(data)),
        None => body == response_body_text(id, None),
    }
}

/// Whether `header` is the content type of every response.
pub open spec fn is_content_type(header: ResponseHeader) -> bool {
    header.name@ == "content-type"@ && header.value@ == "application/json; charset=utf8"@
}

/// Whether `headers` are the headers of a response under the configured
/// size: the content type, followed by a padding header where a size is set.
pub open spec fn are_response_headers(headers: Seq<ResponseHeader>, size: Option<usize>) -> bool {
    match size {
        Some(target) => headers.len() == 2 && is_content_type(headers[0]) && headers[1].name@
            == "x-header-data"@ && is_padding(headers[1].value@, target, HEADER_OVERHEAD),
        None => headers.len() == 1 && is_content_type(headers[0]),
    }
}

/// Whether `c` may stand in the value of a header as text: a visible ASCII
/// character, the space or the tab.
pub open spec fn is_header_char(c: char) -> bool {
    (' ' <= c && c <= '~') || c == '\t'
}

/// Whether every symbol of `s` may stand in the value of a header.
pub open spec fn is_header_text(s: Seq<char>) -> bool {
    forall|i: int| 0 <= i < s.len() ==> is_header_char(#[trigger] s[i])
}

/// The value of every header of a response may stand in a header: the
/// content type by its text, the padding because it is alphanumeric.
pub proof fn lemma_header_values_are_text(headers: Seq<ResponseHeader>, size: Option<usize>)
    requires
        are_response_headers(headers, size),
    ensures
        forall|i: int| 0 <= i < headers.len() ==> is_header_text(#[trigger] headers[i].value@),
{
    reveal_strlit("application/json; charset=utf8");
}

/// Alphanumeric text needs no escape in a JSON string.
pub proof fn lemma_alphanumeric_is_plain(s: Seq<char>)
    requires
        all_alphanumeric(s),
    ensures
        needs_no_escape(s),
        json_string_text(s) == quoted(s),
{
}

/// A body with a `data` field of alphanumeric padding is `BODY_OVERHEAD`
/// longer than the padding, counted in symbols and, as all of them are
/// ASCII, counted in bytes.
pub proof fn lemma_body_length(id: Seq<char>, data: Seq<char>)
    requires
        is_id_text(id),
        all_alphanumeric(data),
    ensures
        response_body_text(id, Some(data)).len() == BODY_OVERHEAD + data.len(),
        encode_utf8(response_body_text(id, Some(data))).len() == BODY_OVERHEAD + data.len(),
{
    lemma_alphanumeric_is_plain(id);
    lemma_alphanumeric_is_plain(data);
    reveal_strlit("{\n  \"id\": ");
    reveal_strlit(",\n  \"data\": ");
    reveal_strlit("\n}");
    let body = response_body_text(id, Some(data));
    is_ascii_chars_encode_utf8(body);
}

/// Where the configured size is at least `BODY_OVERHEAD`, the body is
/// exactly that long.
pub proof fn lemma_body_meets_target(body: Seq<char>, id: Seq<char>, target: usize)
    requires
        is_id_text(id),
        is_response_body(body, id, Some(target)),
        target >= BODY_OVERHEAD,
    ensures
        body.len() == target,
        encode_utf8(body).len() == target,
{
    let data = choose|data: Seq<char>| #[trigger]
        is_padding(data, target, BODY_OVERHEAD) && body == response_body_text(id, Some(data));
    lemma_body_length(id, data);
}

/// Where the configured size is below `BODY_OVERHEAD`, the `data` field of
/// the body is the empty string.
pub proof fn lemma_body_below_overhead(body: Seq<char>, id: Seq<char>, target: usize)
    requires
        is_response_body(body, id, Some(target)),
        target < BODY_OVERHEAD,
    ensures
        body == response_body_text(id, Some(Seq::empty())),
{
    let data = choose|data: Seq<char>| #[trigger]
        is_padding(data, target, BODY_OVERHEAD) && body == response_body_text(id, Some(data));
    assert(data =~= Seq::empty());
}

/// Writes the body for `id`, with `data` as the padding where there is any.
pub fn body_with(id: &RequestId, data: Option<&str>) -> (body: String)
    ensures
        body@ == response_body_text(
            id@,
            match data {
                Some(d) => Some(d@),
                None => None,
            },
        ),
{
    let mut body = "{\n  \"id\": ".to_owned();
    body.append(json_string(id.as_str()).as_str());
    match data {
        Some(data) => {
            body.append(",\n  \"data\": ");
            body.append(json_string(data).as_str());
        },
        None => {},
    }
    body.append("\n}");
    body
}

/// Writes the body of the response to the request `id`. Where a size is
/// set, the body is padded to it with random data.
pub fn compose_body(id: &RequestId, size: Option<usize>) -> (body: String)
    ensures
        is_response_body(body@, id@, size),
        size matches Some(target) ==> body@.len() == BODY_OVERHEAD + padding_len(
            target,
            BODY_OVERHEAD,
        ),
        size matches Some(target) ==> encode_utf8(body@).len() == body@.len(),
        size matches Some(target) ==> (target >= BODY_OVERHEAD ==> body@.len() == target),
{
    match size {
        Some(target) => {
            let data = random_string(target, BODY_OVERHEAD);
            let body = body_with(id, Some(data.as_str()));
            let shown: &str = id.as_str();
            proof {
                assert(is_padding(data@, target, BODY_OVERHEAD));
                lemma_body_length(shown@, data@);
            }
            body
        },
        None => body_with(id, None),
    }
}

/// Assembles the headers of a response. Where a size is set, a header of
/// random data pads the head to it.
pub fn compose_headers(size: Option<usize>) -> (headers: Vec<ResponseHeader>)
    ensures
        are_response_headers(headers@, size),
{
    let mut headers: Vec<ResponseHeader> = Vec::new();
    headers.push(
        ResponseHeader {
            name: "content-type".to_owned(),
            value: "application/json; charset=utf8".to_owned(),
        },
    );
    match size {
        Some(target) => {
            let value = random_string(target, HEADER_OVERHEAD);
            headers.push(ResponseHeader { name: "x-header-data".to_owned(), value });
        },
        None => {},
    }
    headers
}

} // verus!

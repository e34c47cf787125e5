use echo_server::id::{IdGenerator, RequestId};
use echo_server::json::json_string;
use echo_server::response::{
    body_with, compose_body, compose_headers, BODY_OVERHEAD, HEADER_OVERHEAD,
};

fn id(text: &str) -> RequestId {
    RequestId::from_text(text.to_string()).unwrap()
}

fn field(body: &str, name: &str) -> Option<String> {
    let value: serde_json::Value = serde_json::from_str(body).unwrap();
    value.get(name).and_then(|v| v.as_str()).map(|s| s.to_string())
}

fn field_count(body: &str) -> usize {
    let value: serde_json::Value = serde_json::from_str(body).unwrap();
    value.as_object().unwrap().len()
}

#[test]
fn json_string_quotes_and_escapes() {
    assert_eq!(json_string("abc"), "\"abc\"");
    assert_eq!(json_string(""), "\"\"");
    assert_eq!(json_string("a b/c"), "\"a b/c\"");
    assert_eq!(json_string("gr\u{fc}n"), "\"gr\u{fc}n\"");
    assert_eq!(json_string("a\"b"), "\"a\\\"b\"");
    assert_eq!(json_string("a\\b"), "\"a\\\\b\"");
    assert_eq!(json_string("a\nb\tc"), "\"a\\nb\\tc\"");
    assert_eq!(json_string("\u{1}"), "\"\\u0001\"");
}

#[test]
fn body_without_data_holds_the_id() {
    assert_eq!(body_with(&id("aB3z"), None), "{\n  \"id\": \"aB3z\"\n}");
    assert_eq!(body_with(&IdGenerator::new(1234).id_for(0), None), "{\n  \"id\": \"In4R\"\n}");
}

#[test]
fn body_with_data_holds_id_and_data() {
    assert_eq!(
        body_with(&id("aB3z"), Some("xyz")),
        "{\n  \"id\": \"aB3z\",\n  \"data\": \"xyz\"\n}"
    );
    assert_eq!(body_with(&id("aB3z"), Some("")), "{\n  \"id\": \"aB3z\",\n  \"data\": \"\"\n}");
}

#[test]
fn body_with_data_that_needs_escapes_reads_back() {
    let data = "say \"hi\"\\\n\u{7}";
    let body = body_with(&id("aB3z"), Some(data));
    assert_eq!(
        body,
        "{\n  \"id\": \"aB3z\",\n  \"data\": \"say \\\"hi\\\"\\\\\\n\\u0007\"\n}"
    );
    assert_eq!(field(&body, "id").as_deref(), Some("aB3z"));
    assert_eq!(field(&body, "data").as_deref(), Some(data));
}

// The overhead of the body is what the encoder writes around the padding:
//   `{` and a line break                          2
//   two spaces, `"id": ` and the quoted id    8 + 6
//   `,` and a line break                          2
//   two spaces, `"data": ` and two quotes    10 + 2
//   a line break and `}`                          2
#[test]
fn body_overhead_is_the_length_of_a_body_with_empty_data() {
    assert_eq!(BODY_OVERHEAD, 2 + 8 + 6 + 2 + 10 + 2 + 2);
    assert_eq!(body_with(&id("aB3z"), Some("")).len(), BODY_OVERHEAD);
    assert_eq!(body_with(&id("aB3z"), Some("0123456789")).len(), BODY_OVERHEAD + 10);
}

#[test]
fn composed_body_meets_its_target() {
    let generator = IdGenerator::random();
    for target in [BODY_OVERHEAD, BODY_OVERHEAD + 1, 33, 64, 100, 1000, 65_536] {
        let id = generator.id_for(target as u64);
        let body = compose_body(&id, Some(target));
        assert_eq!(body.len(), target);
        assert_eq!(field(&body, "id").as_deref(), Some(id.as_str()));
        let data = field(&body, "data").unwrap();
        assert_eq!(data.len(), target - BODY_OVERHEAD);
        assert!(data.chars().all(|c| c.is_ascii_alphanumeric()));
    }
}

#[test]
fn composed_body_below_the_overhead_has_empty_data() {
    for target in [0, 1, 4, 31] {
        let body = compose_body(&id("aB3z"), Some(target));
        assert_eq!(body, "{\n  \"id\": \"aB3z\",\n  \"data\": \"\"\n}");
        assert_eq!(body.len(), BODY_OVERHEAD);
    }
}

#[test]
fn composed_body_without_a_size_has_no_data() {
    let body = compose_body(&id("aB3z"), None);
    assert_eq!(body, "{\n  \"id\": \"aB3z\"\n}");
    assert_eq!(field_count(&body), 1);
    assert_eq!(field(&body, "data"), None);
}

#[test]
fn headers_without_a_size_are_the_content_type() {
    let headers = compose_headers(None);
    assert_eq!(headers.len(), 1);
    assert_eq!(headers[0].name, "content-type");
    assert_eq!(headers[0].value, "application/json; charset=utf8");
}

#[test]
fn headers_with_a_size_carry_padding() {
    for target in [HEADER_OVERHEAD, HEADER_OVERHEAD + 1, 200, 8192] {
        let headers = compose_headers(Some(target));
        assert_eq!(headers.len(), 2);
        assert_eq!(headers[0].name, "content-type");
        assert_eq!(headers[0].value, "application/json; charset=utf8");
        assert_eq!(headers[1].name, "x-header-data");
        assert_eq!(headers[1].value.len(), target - HEADER_OVERHEAD);
        assert!(headers[1].value.chars().all(|c| c.is_ascii_alphanumeric()));
    }
    assert_eq!(HEADER_OVERHEAD, 146);
    assert_eq!(compose_headers(Some(200))[1].value.len(), 54);
}

#[test]
fn headers_below_the_overhead_carry_an_empty_value() {
    for target in [0, 1, 145] {
        let headers = compose_headers(Some(target));
        assert_eq!(headers.len(), 2);
        assert_eq!(headers[1].name, "x-header-data");
        assert_eq!(headers[1].value, "");
    }
}

#[test]
fn composed_headers_are_valid_header_lines() {
    for header in compose_headers(Some(1000)) {
        assert!(hyper::http::HeaderName::from_bytes(header.name.as_bytes()).is_ok());
        assert!(hyper::http::HeaderValue::from_str(&header.value).is_ok());
    }
}

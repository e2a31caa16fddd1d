use ghostd::handling::{
    complete_head_text, handle_parsed, handle_parsed_at, handle_request, head_text_from, Handled, HeadError,
};
use ghostd::headers::{collect_content_length, RawHeader};
use ghostd::request::{parse, request_from_head, ParseError, RawHead, Request, BUFFER_SIZE};
use ghostd::state::State;
use std::time::Duration;

fn buffer(text: &[u8]) -> [u8; BUFFER_SIZE] {
    let mut b = [0u8; BUFFER_SIZE];
    b[..text.len()].copy_from_slice(text);
    b
}

fn head(method: Option<&str>, path: Option<&str>, headers: Vec<(&str, &[u8])>, complete: Option<usize>) -> RawHead {
    RawHead {
        method: method.map(|m| m.to_string()),
        path: path.map(|p| p.to_string()),
        headers: headers
            .into_iter()
            .map(|(n, v)| RawHeader { name: n.to_string(), value: v.to_vec() })
            .collect(),
        complete,
    }
}

#[test]
fn parse_get_request() {
    let r = parse(buffer(b"GET /value HTTP/1.1\r\nHost: localhost\r\n\r\n"));
    assert_eq!(r.unwrap(), Request::GET { path: "/value".to_string() });
}

#[test]
fn parse_post_request_reads_pending_body() {
    let r = parse(buffer(b"POST /value HTTP/1.1\r\nContent-Length: 5\r\n\r\nhello"));
    assert_eq!(r.unwrap(), Request::POST { path: "/value".to_string(), body: "TODO".to_string() });
}

#[test]
fn parse_other_method_is_refused() {
    let r = parse(buffer(b"PUT /value HTTP/1.1\r\n\r\n"));
    assert_eq!(r.unwrap_err(), ParseError::Method);
}

#[test]
fn parse_malformed_bytes_is_partial_request() {
    let r = parse(buffer(b"\x01\x02 nonsense"));
    assert_eq!(r.unwrap_err(), ParseError::PartialRequest);
}

#[test]
fn parse_too_many_headers_is_partial_request() {
    let mut text = b"GET / HTTP/1.1\r\n".to_vec();
    for i in 0..9 {
        text.extend_from_slice(format!("X-H{}: v\r\n", i).as_bytes());
    }
    text.extend_from_slice(b"\r\n");
    assert_eq!(parse(buffer(&text)).unwrap_err(), ParseError::PartialRequest);
}

#[test]
fn parse_unterminated_path_has_no_path() {
    let mut text = b"GET /".to_vec();
    text.resize(BUFFER_SIZE, b'a');
    assert_eq!(parse(buffer(&text)).unwrap_err(), ParseError::Path);
}

#[test]
fn parse_error_from_httparse_error() {
    assert_eq!(ParseError::from(httparse::Error::Token), ParseError::PartialRequest);
    assert_eq!(ParseError::from(httparse::Error::TooManyHeaders), ParseError::PartialRequest);
}

#[test]
fn request_from_head_cases() {
    assert_eq!(
        request_from_head(Ok(head(Some("GET"), Some("/a"), vec![], Some(10)))).unwrap(),
        Request::GET { path: "/a".to_string() }
    );
    assert_eq!(
        request_from_head(Ok(head(Some("POST"), Some("/b"), vec![("content-length", b"3")], None)))
            .unwrap(),
        Request::POST { path: "/b".to_string(), body: "TODO".to_string() }
    );
    assert_eq!(
        request_from_head(Ok(head(Some("GET"), None, vec![], None))).unwrap_err(),
        ParseError::Path
    );
    assert_eq!(
        request_from_head(Ok(head(Some("DELETE"), Some("/"), vec![], Some(3)))).unwrap_err(),
        ParseError::Method
    );
    assert_eq!(
        request_from_head(Err(httparse::Error::Version)).unwrap_err(),
        ParseError::PartialRequest
    );
}

#[test]
fn collect_content_length_finds_header_in_any_case() {
    let headers = vec![
        RawHeader { name: "Host".to_string(), value: b"x".to_vec() },
        RawHeader { name: "CONTENT-length".to_string(), value: b"12".to_vec() },
    ];
    let map = collect_content_length(&headers);
    assert_eq!(map.len(), 1);
    assert_eq!(map.get("content-length").unwrap(), "12");
    let none = collect_content_length(&vec![RawHeader { name: "Host".to_string(), value: b"x".to_vec() }]);
    assert!(none.is_empty());
}

#[test]
fn complete_head_text_of_full_request() {
    let text = b"GET /value HTTP/1.1\r\nHost: x\r\n\r\nbody";
    let r = complete_head_text(&buffer(text));
    assert_eq!(r, Ok(Some("GET /value HTTP/1.1\r\nHost: x\r\n\r\n".to_string())));
}

#[test]
fn complete_head_text_of_incomplete_head() {
    let mut text = b"GET /".to_vec();
    text.resize(BUFFER_SIZE, b'a');
    assert_eq!(complete_head_text(&buffer(&text)), Ok(None));
}

#[test]
fn complete_head_text_of_malformed_bytes() {
    assert_eq!(complete_head_text(&buffer(b"\x01 bad")), Err(HeadError::Malformed));
}

#[test]
fn complete_head_text_of_non_utf8_head() {
    let text = b"GET / HTTP/1.1\r\nX: \xff\xfe\r\n\r\n";
    assert_eq!(complete_head_text(&buffer(text)), Err(HeadError::NotUtf8));
}

#[test]
fn head_text_from_given_head() {
    let bytes = b"abcdef";
    assert_eq!(
        head_text_from(bytes, Ok(head(Some("GET"), Some("/"), vec![], Some(3)))),
        Ok(Some("abc".to_string()))
    );
    assert_eq!(head_text_from(bytes, Ok(head(None, None, vec![], None))), Ok(None));
    assert_eq!(head_text_from(bytes, Err(httparse::Error::Token)), Err(HeadError::Malformed));
}

#[test]
fn handle_request_get_serves_state() {
    let mut s = State::new(Duration::from_secs(5));
    s.set("shared".to_string());
    let h = handle_request(&mut s, buffer(b"GET /value HTTP/1.1\r\n\r\n"));
    assert_eq!(h, Handled::Read { value: "shared".to_string() });
    assert_eq!(s.get(), "shared");
}

#[test]
fn handle_request_post_stores_body() {
    let mut s = State::new(Duration::from_secs(5));
    let h = handle_request(&mut s, buffer(b"POST /value HTTP/1.1\r\nContent-Length: 2\r\n\r\nhi"));
    assert_eq!(h, Handled::Stored { body: "TODO".to_string() });
    assert_eq!(s.get(), "TODO");
}

#[test]
fn handle_request_failure_keeps_state() {
    let mut s = State::new(Duration::from_secs(5));
    s.set("kept".to_string());
    let h = handle_request(&mut s, buffer(b"\x01"));
    assert_eq!(h, Handled::Failed);
    assert_eq!(s.get(), "kept");
}

#[test]
fn write_then_read_serves_written_text() {
    let mut s = State::new(Duration::from_secs(5));
    handle_parsed(&mut s, Ok(Request::POST { path: "/value".to_string(), body: "note".to_string() }));
    let h = handle_parsed(&mut s, Ok(Request::GET { path: "/value".to_string() }));
    assert_eq!(h, Handled::Read { value: "note".to_string() });
}

#[test]
fn handle_parsed_at_stamps_write() {
    let mut s = State::new(Duration::from_secs(5));
    let now = tokio::time::Instant::now();
    let h = handle_parsed_at(&mut s, Ok(Request::POST { path: "/value".to_string(), body: "x".to_string() }), now);
    assert_eq!(h, Handled::Stored { body: "x".to_string() });
    assert_eq!(s.get(), "x");
    let h = handle_parsed_at(&mut s, Err(ParseError::Method), now);
    assert_eq!(h, Handled::Failed);
    assert_eq!(s.get(), "x");
}

#[test]
fn request_from_head_ignores_other_header_values() {
    let r = request_from_head(Ok(head(Some("POST"), Some("/v"), vec![("X-Other", b"\x01")], None)));
    assert_eq!(r.unwrap(), Request::POST { path: "/v".to_string(), body: "TODO".to_string() });
    let g = request_from_head(Ok(head(Some("GET"), Some("/v"), vec![("Content-Length", b"\x01")], None)));
    assert_eq!(g.unwrap(), Request::GET { path: "/v".to_string() });
}

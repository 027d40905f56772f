use std::time::Duration;

use archivindex::http::{is_complete, response, Reply, Request};

#[test]
fn response_frames_the_body_and_closes() {
    assert_eq!(
        response("200 OK", &[("content-type", "text/plain")], "hello"),
        b"HTTP/1.1 200 OK\r\ncontent-type: text/plain\r\ncontent-length: 5\r\n\
          connection: close\r\n\r\nhello"
    );
}

#[test]
fn a_request_is_read_through_its_announced_body() {
    let bytes: &[u8] =
        b"POST /submit?x=1 HTTP/1.1\r\nHost: test\r\nContent-Length: 5\r\n\r\nhelloEXTRA";
    let request = Request::read(bytes);

    assert_eq!(request.method(), "POST");
    assert_eq!(request.path(), "/submit?x=1");
    assert_eq!(request.header("host"), Some("test"));
    assert_eq!(request.header("missing"), None);
    assert_eq!(request.body(), b"hello");
    assert_eq!(request.bytes().len(), request.head().len() + 5);
}

#[test]
fn abandoned_request_retains_received_bytes() {
    let bytes: &[u8] = b"GET /partial HTTP/1.1\r\nContent-Length: 10\r\n\r\nabc";
    let request = Request::read(bytes);

    assert_eq!(request.path(), "/partial");
    assert_eq!(request.body(), b"abc");

    let bytes: &[u8] = b"GE";
    let request = Request::read(bytes);

    assert_eq!(request.method(), "GE");
    assert_eq!(request.path(), "/");
    assert_eq!(request.body(), b"");
}

#[test]
fn a_request_is_complete_once_its_declared_body_arrived() {
    assert!(!is_complete(b"GET / HTTP/1.1\r\n"));
    assert!(is_complete(b"GET / HTTP/1.1\r\n\r\n"));
    assert!(!is_complete(b"POST / HTTP/1.1\r\nContent-Length: 3\r\n\r\nab"));
    assert!(is_complete(b"POST / HTTP/1.1\r\nContent-Length: 3\r\n\r\nabc"));
    assert!(is_complete(b"POST / HTTP/1.1\r\nContent-Length: 3\r\n\r\nabcd"));
}

#[test]
fn reading_past_a_complete_request_changes_nothing() {
    let complete: &[u8] = b"POST /a HTTP/1.1\r\ncontent-length: 2\r\n\r\nhi";
    let longer: &[u8] = b"POST /a HTTP/1.1\r\ncontent-length: 2\r\n\r\nhiGET /b";

    assert_eq!(Request::read(complete), Request::read(longer));
}

#[test]
fn an_invalid_content_length_declares_no_body() {
    let request = Request::read(b"PUT /x HTTP/1.1\r\nContent-Length: five\r\n\r\nbody");

    assert_eq!(request.body(), b"");
    assert_eq!(request.bytes(), b"PUT /x HTTP/1.1\r\nContent-Length: five\r\n\r\n");
}

#[test]
fn header_names_match_in_any_case_and_values_are_trimmed() {
    let request = Request::read(b"GET / HTTP/1.1\r\nX-Token:   abc  \r\nx-token: second\r\n\r\n");

    assert_eq!(request.header("X-TOKEN"), Some("abc"));
    assert_eq!(request.method(), "GET");
}

#[test]
fn an_invalid_head_is_decoded_lossily() {
    let request = Request::read(b"GET /\xff HTTP/1.1\r\n\r\n");

    assert_eq!(request.path(), "/\u{fffd}");
    assert_eq!(request.head(), "GET /\u{fffd} HTTP/1.1\r\n\r\n");
}

#[test]
fn a_reply_carries_its_bytes_and_linger() {
    let reply = Reply::new(b"raw".to_vec());
    assert_eq!(reply.bytes(), b"raw");
    assert_eq!(reply.linger(), None);

    let lingering = reply.lingering(Duration::from_millis(20));
    assert_eq!(lingering.bytes(), b"raw");
    assert_eq!(lingering.linger(), Some(Duration::from_millis(20)));

    assert_eq!(Reply::from(b"x".to_vec()).bytes(), b"x");
    assert_eq!(Reply::default().bytes(), b"");
}

#[test]
fn a_response_without_headers_still_frames_its_body() {
    assert_eq!(
        response("404 Not Found", &[], ""),
        b"HTTP/1.1 404 Not Found\r\ncontent-length: 0\r\nconnection: close\r\n\r\n"
    );
}

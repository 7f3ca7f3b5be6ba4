use canned_responder::payload::{response_bytes, RESPONSE};

#[test]
fn response_is_byte_exact() {
    let expected: &[u8] = b"\nHTTP/1.1 200 OK\nContent-Type: text/html; charset=utf-8\nContent-Length: 13\n\nHello, World!";
    assert_eq!(response_bytes(), expected);
    assert_eq!(response_bytes().len(), 89);
}

#[test]
fn response_text_and_bytes_agree() {
    assert_eq!(RESPONSE.as_bytes(), response_bytes());
}

#[test]
fn response_starts_with_a_single_newline() {
    let bytes = response_bytes();
    assert_eq!(bytes[0], b'\n');
    assert_eq!(&bytes[1..16], b"HTTP/1.1 200 OK");
    assert_eq!(bytes[16], b'\n');
}

#[test]
fn response_body_matches_declared_length() {
    let bytes = response_bytes();
    let body = &bytes[bytes.len() - 13..];
    assert_eq!(body, b"Hello, World!");
    assert!(RESPONSE.contains("Content-Length: 13\n\n"));
    assert!(RESPONSE.contains("Content-Type: text/html; charset=utf-8\n"));
}

#[test]
fn response_has_no_trailing_newline_and_no_carriage_return() {
    let bytes = response_bytes();
    assert_eq!(bytes[bytes.len() - 1], b'!');
    assert!(!bytes.contains(&b'\r'));
}

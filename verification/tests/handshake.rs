use websockets::handshake::answer_request;
use websockets::handshake::check_response;
use websockets::handshake::client_key;
use websockets::handshake::client_request;
use websockets::handshake::encode_key_anser;
use websockets::handshake::form_handshake_response;
use websockets::handshake::handshake;
use websockets::handshake::response_with_accept;
use websockets::handshake::verify_accept;
use websockets::handshake::verify_response;
use websockets::headers::bytes_eq;
use websockets::headers::process_headers;
use websockets::headers::read_headers;
use websockets::headers::split_line;
use websockets::headers::Headers;
use websockets::ProtocolError;

const SAMPLE_KEY: &str = "dGhlIHNhbXBsZSBub25jZQ==";
const SAMPLE_ACCEPT: &str = "s3pPLMBiTxaQ9kYGzzhZRbK+xOo=";
const SAMPLE_RESPONSE: &str = "HTTP/1.1 101 Switching Protocols\r\nConnection: Upgrade\r\nUpgrade: websocket\r\nSec-WebSocket-Accept: s3pPLMBiTxaQ9kYGzzhZRbK+xOo=\r\n\r\n";

#[test]
fn magic_answer() {
    let key = "dGhlIHNhbXBsZSBub25jZQ==";
    let result = encode_key_anser(key);
    assert_eq!(result, "s3pPLMBiTxaQ9kYGzzhZRbK+xOo=");
}

#[test]
fn accept_value_of_another_key() {
    assert_eq!(encode_key_anser("x3JJHMbDL1EzLkh9GBhXDw=="), "HSmrc0sMlYUkAGmm5OPpG2HaGWk=");
}

#[test]
fn accept_value_is_not_the_key() {
    assert_ne!(encode_key_anser(SAMPLE_KEY), SAMPLE_KEY);
    assert_eq!(encode_key_anser(SAMPLE_KEY).len(), 28);
}

#[test]
fn response_around_accept_value_is_literal() {
    assert_eq!(response_with_accept(SAMPLE_ACCEPT), SAMPLE_RESPONSE);
    assert_eq!(
        response_with_accept(""),
        "HTTP/1.1 101 Switching Protocols\r\nConnection: Upgrade\r\nUpgrade: websocket\r\nSec-WebSocket-Accept: \r\n\r\n"
    );
}

#[test]
fn response_for_key_is_literal() {
    assert_eq!(form_handshake_response(SAMPLE_KEY), SAMPLE_RESPONSE);
}

#[test]
fn handshake_answers_upgrade_request() {
    let request = "GET /chat HTTP/1.1\r\nHost: server.example.com\r\nUpgrade: websocket\r\nConnection: Upgrade\r\nSec-WebSocket-Key: dGhlIHNhbXBsZSBub25jZQ==\r\nSec-WebSocket-Version: 13\r\n\r\n";
    assert_eq!(handshake(request), Ok(SAMPLE_RESPONSE.to_string()));
}

#[test]
fn handshake_accepts_bare_line_feeds() {
    let request = "GET / HTTP/1.1\nSec-WebSocket-Key: dGhlIHNhbXBsZSBub25jZQ==\n\n";
    assert_eq!(handshake(request), Ok(SAMPLE_RESPONSE.to_string()));
}

#[test]
fn handshake_without_key_is_missing_key() {
    let request = "GET /chat HTTP/1.1\r\nHost: server.example.com\r\nUpgrade: websocket\r\n\r\n";
    assert_eq!(handshake(request), Err(ProtocolError::MissingKey));
    assert_eq!(handshake(""), Err(ProtocolError::MissingKey));
}

#[test]
fn handshake_ignores_key_after_blank_line() {
    let request = "GET / HTTP/1.1\r\nHost: a\r\n\r\nSec-WebSocket-Key: dGhlIHNhbXBsZSBub25jZQ==\r\n\r\n";
    assert_eq!(handshake(request), Err(ProtocolError::MissingKey));
}

#[test]
fn handshake_header_name_is_case_sensitive() {
    let request = "GET / HTTP/1.1\r\nsec-websocket-key: dGhlIHNhbXBsZSBub25jZQ==\r\n\r\n";
    assert_eq!(handshake(request), Err(ProtocolError::MissingKey));
}

#[test]
fn handshake_needs_colon_and_space() {
    let request = "GET / HTTP/1.1\r\nSec-WebSocket-Key:dGhlIHNhbXBsZSBub25jZQ==\r\n\r\n";
    assert_eq!(handshake(request), Err(ProtocolError::MissingKey));
}

#[test]
fn handshake_last_key_wins() {
    let request = "GET / HTTP/1.1\r\nSec-WebSocket-Key: x3JJHMbDL1EzLkh9GBhXDw==\r\nSec-WebSocket-Key: dGhlIHNhbXBsZSBub25jZQ==\r\n\r\n";
    assert_eq!(handshake(request), Ok(SAMPLE_RESPONSE.to_string()));
}

#[test]
fn headers_are_split_at_first_separator() {
    let headers = process_headers("A: b: c\r\nD:  e\r\nF: \r\n\r\n");
    assert_eq!(headers.get(b"A"), Some(&b"b: c".to_vec()));
    assert_eq!(headers.get(b"D"), Some(&b" e".to_vec()));
    assert_eq!(headers.get(b"F"), Some(&b"".to_vec()));
    assert_eq!(headers.get(b"G"), None);
}

#[test]
fn headers_line_endings() {
    let headers = process_headers("A: 1\nB: 2\r\nC: 3\r");
    assert_eq!(headers.get(b"A"), Some(&b"1".to_vec()));
    assert_eq!(headers.get(b"B"), Some(&b"2".to_vec()));
    assert_eq!(headers.get(b"C"), Some(&b"3\r".to_vec()));
}

#[test]
fn headers_stop_at_first_empty_line() {
    let headers = process_headers("A: 1\r\n\r\nB: 2\r\n");
    assert_eq!(headers.get(b"A"), Some(&b"1".to_vec()));
    assert_eq!(headers.get(b"B"), None);
    let none = process_headers("\nA: 1\n");
    assert_eq!(none.get(b"A"), None);
}

#[test]
fn headers_later_value_replaces_earlier() {
    let headers = process_headers("A: 1\r\nB: 2\r\nA: 3\r\n\r\n");
    assert_eq!(headers.get(b"A"), Some(&b"3".to_vec()));
    assert_eq!(headers.get(b"B"), Some(&b"2".to_vec()));
}

#[test]
fn headers_insert_and_get() {
    let mut headers = Headers::new();
    assert_eq!(headers.get(b"k"), None);
    headers.insert(b"k".to_vec(), b"v1".to_vec());
    headers.insert(b"other".to_vec(), b"x".to_vec());
    headers.insert(b"k".to_vec(), b"v2".to_vec());
    assert_eq!(headers.get(b"k"), Some(&b"v2".to_vec()));
    assert_eq!(headers.get(b"other"), Some(&b"x".to_vec()));
    assert_eq!(headers.get(b""), None);
}

#[test]
fn split_line_cases() {
    assert_eq!(split_line(b"Name: value"), Some((&b"Name"[..], &b"value"[..])));
    assert_eq!(split_line(b": "), Some((&b""[..], &b""[..])));
    assert_eq!(split_line(b"a: b: c"), Some((&b"a"[..], &b"b: c"[..])));
    assert_eq!(split_line(b"GET / HTTP/1.1"), None);
    assert_eq!(split_line(b"a:b"), None);
    assert_eq!(split_line(b"a:"), None);
    assert_eq!(split_line(b""), None);
}

#[test]
fn bytes_eq_cases() {
    assert!(bytes_eq(b"", b""));
    assert!(bytes_eq(b"abc", b"abc"));
    assert!(!bytes_eq(b"abc", b"abd"));
    assert!(!bytes_eq(b"abc", b"ab"));
    assert!(!bytes_eq(b"", b"a"));
}

#[test]
fn client_key_is_base64_of_nonce() {
    assert_eq!(client_key(b"the sample nonce"), SAMPLE_KEY);
    assert_eq!(client_key(&[0u8; 16]), "AAAAAAAAAAAAAAAAAAAAAA==");
}

#[test]
fn client_request_is_literal() {
    assert_eq!(
        client_request("server.example.com", "/chat", SAMPLE_KEY),
        "GET /chat HTTP/1.1\r\nHost: server.example.com\r\nUpgrade: websocket\r\nConnection: Upgrade\r\nSec-WebSocket-Key: dGhlIHNhbXBsZSBub25jZQ==\r\nSec-WebSocket-Version: 13\r\n\r\n"
    );
}

#[test]
fn client_request_is_answered_by_server() {
    let request = client_request("localhost:1234", "/", SAMPLE_KEY);
    assert_eq!(handshake(&request), Ok(SAMPLE_RESPONSE.to_string()));
}

#[test]
fn check_response_accepts_matching_value() {
    assert_eq!(check_response(SAMPLE_RESPONSE, SAMPLE_KEY), Ok(()));
}

#[test]
fn check_response_rejects_other_value() {
    assert_eq!(
        check_response(SAMPLE_RESPONSE, "x3JJHMbDL1EzLkh9GBhXDw=="),
        Err(ProtocolError::AcceptMismatch)
    );
}

#[test]
fn check_response_without_accept_header() {
    let response = "HTTP/1.1 101 Switching Protocols\r\nConnection: Upgrade\r\nUpgrade: websocket\r\n\r\n";
    assert_eq!(check_response(response, SAMPLE_KEY), Err(ProtocolError::MissingAccept));
}

#[test]
fn verify_accept_compares_bytes() {
    assert_eq!(verify_accept(SAMPLE_ACCEPT.as_bytes(), SAMPLE_ACCEPT), Ok(()));
    assert_eq!(verify_accept(b"", ""), Ok(()));
    assert_eq!(verify_accept(b"abc", "abd"), Err(ProtocolError::AcceptMismatch));
    assert_eq!(verify_accept(b"abc ", "abc"), Err(ProtocolError::AcceptMismatch));
}

#[test]
fn accept_value_has_28_characters() {
    for key in ["", "a", SAMPLE_KEY, "x3JJHMbDL1EzLkh9GBhXDw==", "not base64 at all, and rather long for a key"] {
        assert_eq!(encode_key_anser(key).chars().count(), 28);
    }
    assert_eq!(client_key(&[0xffu8; 16]).chars().count(), 24);
}

#[test]
fn answer_request_takes_raw_bytes() {
    let mut request = b"GET / HTTP/1.1\r\nX-Raw: ".to_vec();
    request.extend_from_slice(&[0xff, 0xfe]);
    request.extend_from_slice(b"\r\nSec-WebSocket-Key: dGhlIHNhbXBsZSBub25jZQ==\r\n\r\n");
    assert_eq!(answer_request(&request), Ok(SAMPLE_RESPONSE.to_string()));
    assert_eq!(answer_request(b"GET / HTTP/1.1\r\n\r\n"), Err(ProtocolError::MissingKey));
    assert_eq!(answer_request(&[]), Err(ProtocolError::MissingKey));
}

#[test]
fn verify_response_takes_raw_bytes() {
    assert_eq!(verify_response(SAMPLE_RESPONSE.as_bytes(), SAMPLE_KEY), Ok(()));
    assert_eq!(
        verify_response(b"HTTP/1.1 101 Switching Protocols\r\nSec-WebSocket-Accept: \xff\r\n\r\n", SAMPLE_KEY),
        Err(ProtocolError::AcceptMismatch)
    );
    assert_eq!(verify_response(b"\r\n", SAMPLE_KEY), Err(ProtocolError::MissingAccept));
}

#[test]
fn read_headers_keeps_bytes_as_they_are() {
    let headers = read_headers(b"A: \xff\xfe\r\nB: 2\r\n\r\n");
    assert_eq!(headers.get(b"A"), Some(&vec![0xff, 0xfe]));
    assert_eq!(headers.get(b"B"), Some(&b"2".to_vec()));
}

//! The opening handshake: the HTTP upgrade exchange that turns a byte stream
//! into a WebSocket connection.

use crate::digest::base64_of;
use crate::digest::base64_standard;
use crate::digest::sha1_digest;
use crate::digest::sha1_of;
use crate::error::ProtocolError;
use crate::headers::bytes_eq;
use crate::headers::headers_of;
use crate::headers::read_headers;
use vstd::prelude::*;
use vstd::slice::slice_to_vec;
use vstd::string::StringSliceAdditionalSpecFns;
use vstd::utf8::encode_utf8;

verus! {

/// The GUID that the protocol appends to the key before hashing.
pub const MAGIC_STRING: &'static str = "258EAFA5-E914-47DA-95CA-C5AB0DC85B11";

/// Name of the request header that carries the client's key.
pub const KEY_HEADER: &'static str = "Sec-WebSocket-Key";

/// Name of the response header that carries the server's answer to the key.
pub const ACCEPT_HEADER: &'static str = "Sec-WebSocket-Accept";

/// The server's response up to the accept value.
pub const RESPONSE_HEAD: &'static str =
    "HTTP/1.1 101 Switching Protocols\r\nConnection: Upgrade\r\nUpgrade: websocket\r\nSec-WebSocket-Accept: ";

/// The end of the last header line and the empty line that ends a message.
pub const MESSAGE_END: &'static str = "\r\n\r\n";

/// The accept value that answers a key: base64 of the SHA-1 digest of the
/// key followed by the GUID.
pub open spec fn accept_value(key: Seq<u8>) -> Seq<char> {
    base64_standard(sha1_digest(key + MAGIC_STRING.spec_bytes()))
}

/// The server's response around a given accept value.
pub open spec fn response_text(accept: Seq<char>) -> Seq<char> {
    RESPONSE_HEAD@ + accept + MESSAGE_END@
}

/// The client's upgrade request.
pub open spec fn request_text(host: Seq<char>, path: Seq<char>, key: Seq<char>) -> Seq<char> {
    "GET "@ + path + " HTTP/1.1\r\nHost: "@ + host
        + "\r\nUpgrade: websocket\r\nConnection: Upgrade\r\nSec-WebSocket-Key: "@ + key
        + "\r\nSec-WebSocket-Version: 13\r\n\r\n"@
}

/// What the server makes of an upgrade request: the response to the value of
/// its `Sec-WebSocket-Key` header, or the error that the header is missing.
pub open spec fn handshake_outcome(msg: Seq<u8>) -> Result<Seq<char>, ProtocolError> {
    let headers = headers_of(msg);
    let name = KEY_HEADER.spec_bytes();
    if headers.contains_key(name) {
        Ok(response_text(accept_value(headers[name])))
    } else {
        Err(ProtocolError::MissingKey)
    }
}

/// What the client makes of the server's response to the request that
/// carried `key`: the response must carry a `Sec-WebSocket-Accept` header,
/// and its value must be the accept value of `key`.
pub open spec fn response_outcome(response: Seq<u8>, key: Seq<u8>) -> Result<(), ProtocolError> {
    let headers = headers_of(response);
    let name = ACCEPT_HEADER.spec_bytes();
    if !headers.contains_key(name) {
        Err(ProtocolError::MissingAccept)
    } else if headers[name] == encode_utf8(accept_value(key)) {
        Ok(())
    } else {
        Err(ProtocolError::AcceptMismatch)
    }
}

/// The accept value for a key given as bytes. It is 28 characters long,
/// whatever the key.
pub fn accept_for(key: &[u8]) -> (accept: String)
    ensures
        accept@ == accept_value(key@),
        accept@.len() == 28,
{
    let mut message = slice_to_vec(key);
    message.extend_from_slice(MAGIC_STRING.as_bytes());
    assert(message@ =~= key@ + MAGIC_STRING.spec_bytes());
    let digest = sha1_of(message.as_slice());
    base64_of(digest.as_slice())
}

/// The accept value for a key. It is 28 characters long, whatever the key.
pub fn encode_key_anser(key: &str) -> (accept: String)
    ensures
        accept@ == accept_value(key.spec_bytes()),
        accept@.len() == 28,
{
    accept_for(key.as_bytes())
}

/// The server's response around a given accept value.
pub fn response_with_accept(accept: &str) -> (response: String)
    ensures
        response@ == response_text(accept@),
{
    let mut response = String::from_str(RESPONSE_HEAD);
    response.append(accept);
    response.append(MESSAGE_END);
    response
}

/// The server's response to a request that carries `key`.
pub fn form_handshake_response(key: &str) -> (response: String)
    ensures
        response@ == response_text(accept_value(key.spec_bytes())),
{
    let accept = encode_key_anser(key);
    response_with_accept(accept.as_str())
}

/// Server side of the handshake: answers the upgrade request `msg`. The
/// request must carry a `Sec-WebSocket-Key` header among the header lines
/// before its first empty line; the response answers the value of that
/// header, the last one if there are several.
pub fn handshake(msg: &str) -> (r: Result<String, ProtocolError>)
    ensures
        match r {
            Ok(response) => handshake_outcome(msg.spec_bytes()) == Ok::<Seq<char>, ProtocolError>(
                response@,
            ),
            Err(e) => handshake_outcome(msg.spec_bytes()) == Err::<Seq<char>, ProtocolError>(e),
        },
{
    answer_request(msg.as_bytes())
}

/// Server side of the handshake on the raw bytes of the upgrade request.
pub fn answer_request(request: &[u8]) -> (r: Result<String, ProtocolError>)
    ensures
        match r {
            Ok(response) => handshake_outcome(request@) == Ok::<Seq<char>, ProtocolError>(
                response@,
            ),
            Err(e) => handshake_outcome(request@) == Err::<Seq<char>, ProtocolError>(e),
        },
{
    let headers = read_headers(request);
    match headers.get(KEY_HEADER.as_bytes()) {
        Some(key) => {
            let accept = accept_for(key.as_slice());
            Ok(response_with_accept(accept.as_str()))
        },
        None => Err(ProtocolError::MissingKey),
    }
}

/// The key that a client sends: base64 of 16 bytes, which the caller has
/// drawn at random. It is 24 characters long.
pub fn client_key(nonce: &[u8; 16]) -> (key: String)
    ensures
        key@ == base64_standard(nonce@),
        key@.len() == 24,
{
    base64_of(nonce.as_slice())
}

/// Client side of the handshake: the upgrade request for `path` on `host`
/// that carries `key`.
pub fn client_request(host: &str, path: &str, key: &str) -> (request: String)
    ensures
        request@ == request_text(host@, path@, key@),
{
    let mut request = String::from_str("GET ");
    request.append(path);
    request.append(" HTTP/1.1\r\nHost: ");
    request.append(host);
    request.append("\r\nUpgrade: websocket\r\nConnection: Upgrade\r\nSec-WebSocket-Key: ");
    request.append(key);
    request.append("\r\nSec-WebSocket-Version: 13\r\n\r\n");
    request
}

/// Holds the accept value that a server sent against the one that the key
/// calls for.
pub fn verify_accept(received: &[u8], expected: &str) -> (r: Result<(), ProtocolError>)
    ensures
        r == if received@ == expected.spec_bytes() {
            Ok::<(), ProtocolError>(())
        } else {
            Err::<(), ProtocolError>(ProtocolError::AcceptMismatch)
        },
{
    if bytes_eq(received, expected.as_bytes()) {
        Ok(())
    } else {
        Err(ProtocolError::AcceptMismatch)
    }
}

/// Client side of the handshake: checks the server's response to the request
/// that carried `key`. The response must carry a `Sec-WebSocket-Accept`
/// header, and its value must be the accept value of `key`.
pub fn check_response(response: &str, key: &str) -> (r: Result<(), ProtocolError>)
    ensures
        r == response_outcome(response.spec_bytes(), key.spec_bytes()),
{
    verify_response(response.as_bytes(), key)
}

/// Client side of the handshake on the raw bytes of the server's response.
pub fn verify_response(response: &[u8], key: &str) -> (r: Result<(), ProtocolError>)
    ensures
        r == response_outcome(response@, key.spec_bytes()),
{
    let headers = read_headers(response);
    match headers.get(ACCEPT_HEADER.as_bytes()) {
        Some(received) => {
            let expected = encode_key_anser(key);
            verify_accept(received.as_slice(), expected.as_str())
        },
        None => Err(ProtocolError::MissingAccept),
    }
}

} // verus!

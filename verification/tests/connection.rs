use websockets::handshake::client_request;
use websockets::Connection;
use websockets::ConnectionState;
use websockets::Event;
use websockets::Message;
use websockets::OpCode;
use websockets::ProtocolError;
use websockets::WebsocketFrame;
use websockets::WsError;

const REQUEST: &[u8] = b"GET /chat HTTP/1.1\r\nHost: server.example.com\r\nUpgrade: websocket\r\nConnection: Upgrade\r\nSec-WebSocket-Key: dGhlIHNhbXBsZSBub25jZQ==\r\nSec-WebSocket-Version: 13\r\n\r\n";
const RESPONSE: &str = "HTTP/1.1 101 Switching Protocols\r\nConnection: Upgrade\r\nUpgrade: websocket\r\nSec-WebSocket-Accept: s3pPLMBiTxaQ9kYGzzhZRbK+xOo=\r\n\r\n";

fn open_connection() -> Connection {
    let mut conn = Connection::new();
    conn.accept(REQUEST).unwrap();
    conn
}

fn feed_frame(conn: &mut Connection, frame: &WebsocketFrame) {
    conn.receive(&frame.encode().unwrap()).unwrap();
}

#[test]
fn new_connection_is_handshaking() {
    let conn = Connection::new();
    assert_eq!(conn.state(), ConnectionState::Handshaking);
    assert!(!conn.close_sent());
    assert!(!conn.has_fragment());
    assert_eq!(conn.buffered_len(), 0);
}

#[test]
fn server_handshake_opens_connection() {
    let mut conn = Connection::new();
    assert_eq!(conn.accept(REQUEST), Ok(RESPONSE.to_string()));
    assert_eq!(conn.state(), ConnectionState::Open);
}

#[test]
fn failed_server_handshake_closes_connection() {
    let mut conn = Connection::new();
    assert_eq!(
        conn.accept(b"GET / HTTP/1.1\r\nHost: x\r\n\r\n"),
        Err(WsError::Protocol(ProtocolError::MissingKey))
    );
    assert_eq!(conn.state(), ConnectionState::Closed);
    assert_eq!(conn.accept(REQUEST), Err(WsError::ConnectionClosed));
    assert_eq!(conn.poll(), Err(WsError::ConnectionClosed));
}

#[test]
fn second_handshake_is_invalid_state() {
    let mut conn = open_connection();
    assert_eq!(conn.accept(REQUEST), Err(WsError::InvalidState));
    assert_eq!(conn.connect(RESPONSE.as_bytes(), "dGhlIHNhbXBsZSBub25jZQ=="), Err(WsError::InvalidState));
    assert_eq!(conn.state(), ConnectionState::Open);
}

#[test]
fn client_handshake_opens_connection() {
    let mut conn = Connection::new();
    assert_eq!(conn.connect(RESPONSE.as_bytes(), "dGhlIHNhbXBsZSBub25jZQ=="), Ok(()));
    assert_eq!(conn.state(), ConnectionState::Open);
}

#[test]
fn client_handshake_mismatch_closes_connection() {
    let mut conn = Connection::new();
    assert_eq!(
        conn.connect(RESPONSE.as_bytes(), "x3JJHMbDL1EzLkh9GBhXDw=="),
        Err(WsError::Protocol(ProtocolError::AcceptMismatch))
    );
    assert_eq!(conn.state(), ConnectionState::Closed);
}

#[test]
fn client_handshake_missing_accept_closes_connection() {
    let mut conn = Connection::new();
    assert_eq!(
        conn.connect(b"HTTP/1.1 101 Switching Protocols\r\n\r\n", "dGhlIHNhbXBsZSBub25jZQ=="),
        Err(WsError::Protocol(ProtocolError::MissingAccept))
    );
    assert_eq!(conn.state(), ConnectionState::Closed);
}

#[test]
fn client_and_server_agree() {
    let key = "dGhlIHNhbXBsZSBub25jZQ==";
    let request = client_request("localhost", "/", key);
    let mut server = Connection::new();
    let response = server.accept(request.as_bytes()).unwrap();
    let mut client = Connection::new();
    assert_eq!(client.connect(response.as_bytes(), key), Ok(()));
    let wire = client.send_text("hello").unwrap();
    server.receive(&wire).unwrap();
    assert_eq!(
        server.poll(),
        Ok(Event::Message(Message { opcode: OpCode::Text, payload: b"hello".to_vec() }))
    );
}

#[test]
fn frames_before_handshake_are_invalid_state() {
    let mut conn = Connection::new();
    assert_eq!(conn.poll(), Err(WsError::InvalidState));
    assert_eq!(conn.next_frame(), Err(WsError::InvalidState));
    assert_eq!(conn.receive(&[0x81, 0x00]), Err(WsError::InvalidState));
    assert_eq!(conn.send_text("x"), Err(WsError::InvalidState));
    assert_eq!(conn.handle_frame(WebsocketFrame::ping()), Err(WsError::InvalidState));
    assert_eq!(conn.state(), ConnectionState::Handshaking);
    assert_eq!(conn.buffered_len(), 0);
}

#[test]
fn poll_without_data_asks_for_more() {
    let mut conn = open_connection();
    assert_eq!(conn.poll(), Ok(Event::NeedData));
    conn.receive(&[0x81]).unwrap();
    assert_eq!(conn.poll(), Ok(Event::NeedData));
    assert_eq!(conn.buffered_len(), 1);
    assert_eq!(conn.state(), ConnectionState::Open);
}

#[test]
fn whole_text_message_is_surfaced() {
    let mut conn = open_connection();
    feed_frame(&mut conn, &WebsocketFrame::string("hi").with_mask([1, 2, 3, 4]));
    assert_eq!(
        conn.poll(),
        Ok(Event::Message(Message { opcode: OpCode::Text, payload: b"hi".to_vec() }))
    );
    assert_eq!(conn.buffered_len(), 0);
    assert_eq!(conn.poll(), Ok(Event::NeedData));
}

#[test]
fn ping_is_answered_with_pong_echoing_payload() {
    let mut conn = open_connection();
    feed_frame(&mut conn, &WebsocketFrame::new(true, OpCode::Ping, b"probe".to_vec()));
    assert_eq!(
        conn.poll(),
        Ok(Event::Ping { pong: WebsocketFrame::new(true, OpCode::Pong, b"probe".to_vec()) })
    );
    assert_eq!(conn.state(), ConnectionState::Open);
}

#[test]
fn pong_needs_no_action() {
    let mut conn = open_connection();
    feed_frame(&mut conn, &WebsocketFrame::new(true, OpCode::Pong, b"ack".to_vec()));
    assert_eq!(conn.poll(), Ok(Event::Pong { payload: b"ack".to_vec() }));
    assert_eq!(conn.state(), ConnectionState::Open);
}

#[test]
fn fragmented_message_is_reassembled() {
    let mut conn = open_connection();
    feed_frame(&mut conn, &WebsocketFrame::new(false, OpCode::Binary, vec![1, 2]));
    feed_frame(&mut conn, &WebsocketFrame::new(false, OpCode::Continuation, vec![3]));
    feed_frame(&mut conn, &WebsocketFrame::new(true, OpCode::Continuation, vec![4, 5]));
    assert_eq!(conn.poll(), Ok(Event::Partial));
    assert!(conn.has_fragment());
    assert_eq!(conn.poll(), Ok(Event::Partial));
    assert_eq!(
        conn.poll(),
        Ok(Event::Message(Message { opcode: OpCode::Binary, payload: vec![1, 2, 3, 4, 5] }))
    );
    assert!(!conn.has_fragment());
    assert_eq!(conn.poll(), Ok(Event::NeedData));
}

#[test]
fn ping_between_fragments_keeps_the_fragment() {
    let mut conn = open_connection();
    feed_frame(&mut conn, &WebsocketFrame::new(false, OpCode::Text, b"ab".to_vec()));
    feed_frame(&mut conn, &WebsocketFrame::new(true, OpCode::Ping, vec![7]));
    feed_frame(&mut conn, &WebsocketFrame::new(true, OpCode::Continuation, b"cd".to_vec()));
    assert_eq!(conn.poll(), Ok(Event::Partial));
    assert_eq!(conn.poll(), Ok(Event::Ping { pong: WebsocketFrame::new(true, OpCode::Pong, vec![7]) }));
    assert!(conn.has_fragment());
    assert_eq!(
        conn.poll(),
        Ok(Event::Message(Message { opcode: OpCode::Text, payload: b"abcd".to_vec() }))
    );
}

#[test]
fn continuation_without_start_is_protocol_error() {
    let mut conn = open_connection();
    feed_frame(&mut conn, &WebsocketFrame::new(true, OpCode::Continuation, b"x".to_vec()));
    assert_eq!(conn.poll(), Err(WsError::Protocol(ProtocolError::ContinuationWithoutStart)));
    assert_eq!(conn.state(), ConnectionState::Closed);
    assert_eq!(conn.poll(), Err(WsError::ConnectionClosed));
}

#[test]
fn continuation_after_finished_message_is_protocol_error() {
    let mut conn = open_connection();
    assert_eq!(
        conn.handle_frame(WebsocketFrame::new(false, OpCode::Text, b"a".to_vec())),
        Ok(Event::Partial)
    );
    assert_eq!(
        conn.handle_frame(WebsocketFrame::new(true, OpCode::Continuation, b"b".to_vec())),
        Ok(Event::Message(Message { opcode: OpCode::Text, payload: b"ab".to_vec() }))
    );
    assert_eq!(
        conn.handle_frame(WebsocketFrame::new(false, OpCode::Continuation, b"c".to_vec())),
        Err(WsError::Protocol(ProtocolError::ContinuationWithoutStart))
    );
    assert_eq!(conn.state(), ConnectionState::Closed);
}

#[test]
fn unknown_opcode_closes_connection() {
    let mut conn = open_connection();
    conn.receive(&[0x83, 0x00]).unwrap();
    assert_eq!(conn.poll(), Err(WsError::Protocol(ProtocolError::UnknownOpcode)));
    assert_eq!(conn.state(), ConnectionState::Closed);
    assert_eq!(conn.poll(), Err(WsError::ConnectionClosed));
    assert_eq!(conn.receive(&[0x81, 0x00]), Err(WsError::ConnectionClosed));
}

#[test]
fn oversized_control_frame_is_refused_on_dispatch() {
    let mut conn = open_connection();
    assert_eq!(
        conn.handle_frame(WebsocketFrame::new(true, OpCode::Ping, vec![0; 126])),
        Err(WsError::Protocol(ProtocolError::ControlFrameTooLong))
    );
    assert_eq!(conn.state(), ConnectionState::Closed);
}

#[test]
fn close_while_open_is_echoed_once() {
    let mut conn = open_connection();
    feed_frame(&mut conn, &WebsocketFrame::new(true, OpCode::Close, vec![0x03, 0xe8]));
    feed_frame(&mut conn, &WebsocketFrame::string("late"));
    assert_eq!(
        conn.poll(),
        Ok(Event::Close { reply: Some(WebsocketFrame::new(true, OpCode::Close, vec![0x03, 0xe8])) })
    );
    assert_eq!(conn.state(), ConnectionState::Closing);
    assert!(conn.close_sent());
    assert_eq!(conn.poll(), Err(WsError::ConnectionClosed));
    assert_eq!(conn.next_frame(), Err(WsError::ConnectionClosed));
    assert_eq!(conn.receive(&[0x88, 0x00]), Err(WsError::ConnectionClosed));
    assert_eq!(conn.close(&[]), Err(WsError::ConnectionClosed));
    assert_eq!(conn.send_text("x"), Err(WsError::ConnectionClosed));
    assert_eq!(conn.state(), ConnectionState::Closing);
    conn.shutdown();
    assert_eq!(conn.state(), ConnectionState::Closed);
    assert_eq!(conn.poll(), Err(WsError::ConnectionClosed));
}

#[test]
fn close_sent_first_then_answer_closes() {
    let mut conn = open_connection();
    assert_eq!(conn.close(&[0x03, 0xe8]), Ok(vec![0x88, 0x02, 0x03, 0xe8]));
    assert_eq!(conn.state(), ConnectionState::Closing);
    assert!(conn.close_sent());
    assert_eq!(conn.close(&[]), Err(WsError::ConnectionClosed));
    assert_eq!(conn.send_text("x"), Err(WsError::ConnectionClosed));
    assert_eq!(conn.poll(), Ok(Event::NeedData));
    feed_frame(&mut conn, &WebsocketFrame::string("still coming"));
    feed_frame(&mut conn, &WebsocketFrame::new(true, OpCode::Close, vec![0x03, 0xe8]));
    assert_eq!(
        conn.poll(),
        Ok(Event::Message(Message { opcode: OpCode::Text, payload: b"still coming".to_vec() }))
    );
    assert_eq!(conn.poll(), Ok(Event::Close { reply: None }));
    assert_eq!(conn.state(), ConnectionState::Closed);
    assert_eq!(conn.poll(), Err(WsError::ConnectionClosed));
}

#[test]
fn zero_byte_read_closes_connection() {
    let mut conn = open_connection();
    assert_eq!(conn.receive(&[]), Err(WsError::ConnectionClosed));
    assert_eq!(conn.state(), ConnectionState::Closed);
    assert_eq!(conn.poll(), Err(WsError::ConnectionClosed));
}

#[test]
fn shutdown_closes_from_any_state() {
    let mut conn = Connection::new();
    conn.shutdown();
    assert_eq!(conn.state(), ConnectionState::Closed);
    let mut conn = open_connection();
    conn.shutdown();
    assert_eq!(conn.state(), ConnectionState::Closed);
    assert_eq!(conn.send_binary(&[1]), Err(WsError::ConnectionClosed));
}

#[test]
fn send_encodes_unmasked_final_frames() {
    let mut conn = open_connection();
    assert_eq!(conn.send_text("Hello"), Ok(vec![0x81, 0x05, 0x48, 0x65, 0x6c, 0x6c, 0x6f]));
    assert_eq!(conn.send_binary(&[0xde, 0xad]), Ok(vec![0x82, 0x02, 0xde, 0xad]));
    assert_eq!(conn.ping(&[]), Ok(vec![0x89, 0x00]));
    assert_eq!(conn.pong(&[0x01]), Ok(vec![0x8a, 0x01, 0x01]));
    assert_eq!(conn.state(), ConnectionState::Open);
}

#[test]
fn send_frame_keeps_mask_and_fin() {
    let mut conn = open_connection();
    let frame = WebsocketFrame::new(false, OpCode::Text, b"Hello".to_vec()).with_mask([0x37, 0xfa, 0x21, 0x3d]);
    assert_eq!(
        conn.send_frame(&frame),
        Ok(vec![0x01, 0x85, 0x37, 0xfa, 0x21, 0x3d, 0x7f, 0x9f, 0x4d, 0x51, 0x58])
    );
}

#[test]
fn send_refuses_oversized_control_frame_and_stays_open() {
    let mut conn = open_connection();
    assert_eq!(
        conn.ping(&[0u8; 126]),
        Err(WsError::Protocol(ProtocolError::ControlFrameTooLong))
    );
    assert_eq!(
        conn.close(&[0u8; 126]),
        Err(WsError::Protocol(ProtocolError::ControlFrameTooLong))
    );
    assert_eq!(conn.state(), ConnectionState::Open);
    assert!(!conn.close_sent());
}

#[test]
fn next_frame_hands_out_raw_frames() {
    let mut conn = open_connection();
    let frame = WebsocketFrame::new(false, OpCode::Continuation, vec![1]);
    feed_frame(&mut conn, &frame);
    assert_eq!(conn.next_frame(), Ok(Some(frame)));
    assert_eq!(conn.next_frame(), Ok(None));
    assert_eq!(conn.state(), ConnectionState::Open);
}

#[test]
fn server_handshake_reads_request_as_raw_bytes() {
    let mut request = b"GET / HTTP/1.1\r\nX-Raw: \xff\r\n".to_vec();
    request.extend_from_slice(b"Sec-WebSocket-Key: dGhlIHNhbXBsZSBub25jZQ==\r\n\r\n");
    let mut conn = Connection::new();
    assert_eq!(conn.accept(&request), Ok(RESPONSE.to_string()));
    assert_eq!(conn.state(), ConnectionState::Open);
}

use websockets::FrameReader;
use websockets::OpCode;
use websockets::ProtocolError;
use websockets::WebsocketFrame;
use websockets::WsError;

#[test]
fn reader_starts_empty() {
    let mut reader = FrameReader::new();
    assert!(reader.buffered().is_empty());
    assert_eq!(reader.next_frame(), Ok(None));
}

#[test]
fn reader_zero_byte_read_is_connection_closed() {
    let mut reader = FrameReader::new();
    assert_eq!(reader.feed(&[]), Err(WsError::ConnectionClosed));
    assert_eq!(reader.feed(&[0x81]), Ok(()));
    assert_eq!(reader.feed(&[]), Err(WsError::ConnectionClosed));
    assert_eq!(reader.buffered(), &[0x81]);
}

#[test]
fn pipelining_two_frames_in_one_buffer() {
    let first = WebsocketFrame::string("one");
    let second = WebsocketFrame::new(true, OpCode::Binary, vec![1, 2, 3, 4]).with_mask([5, 6, 7, 8]);
    let mut wire = first.encode().unwrap();
    wire.extend(second.encode().unwrap());
    let mut reader = FrameReader::new();
    reader.feed(&wire).unwrap();
    assert_eq!(reader.next_frame(), Ok(Some(first)));
    assert_eq!(reader.buffered(), &second.encode().unwrap()[..]);
    assert_eq!(reader.next_frame(), Ok(Some(second)));
    assert!(reader.buffered().is_empty());
    assert_eq!(reader.next_frame(), Ok(None));
}

#[test]
fn partial_delivery_leaves_buffer_unmodified() {
    let frame = WebsocketFrame::new(true, OpCode::Binary, (0..200u8).collect());
    let wire = frame.encode().unwrap();
    let mut reader = FrameReader::new();
    reader.feed(&wire[..50]).unwrap();
    assert_eq!(reader.next_frame(), Ok(None));
    assert_eq!(reader.buffered(), &wire[..50]);
    reader.feed(&wire[50..]).unwrap();
    assert_eq!(reader.next_frame(), Ok(Some(frame)));
    assert!(reader.buffered().is_empty());
}

#[test]
fn reader_byte_by_byte() {
    let frame = WebsocketFrame::string("drip").with_mask([0xaa, 0xbb, 0xcc, 0xdd]);
    let wire = frame.encode().unwrap();
    let mut reader = FrameReader::new();
    for (i, byte) in wire.iter().enumerate() {
        assert_eq!(reader.next_frame(), Ok(None));
        assert_eq!(reader.buffered().len(), i);
        reader.feed(&[*byte]).unwrap();
    }
    assert_eq!(reader.next_frame(), Ok(Some(frame)));
    assert!(reader.buffered().is_empty());
}

#[test]
fn reader_keeps_start_of_next_frame() {
    let first = WebsocketFrame::string("a");
    let second = WebsocketFrame::string("bcd");
    let mut wire = first.encode().unwrap();
    let second_wire = second.encode().unwrap();
    wire.extend_from_slice(&second_wire[..2]);
    let mut reader = FrameReader::new();
    reader.feed(&wire).unwrap();
    assert_eq!(reader.next_frame(), Ok(Some(first)));
    assert_eq!(reader.buffered(), &second_wire[..2]);
    assert_eq!(reader.next_frame(), Ok(None));
    reader.feed(&second_wire[2..]).unwrap();
    assert_eq!(reader.next_frame(), Ok(Some(second)));
}

#[test]
fn reader_error_leaves_buffer_unmodified() {
    let mut reader = FrameReader::new();
    reader.feed(&[0x83, 0x01, 0x00]).unwrap();
    assert_eq!(reader.next_frame(), Err(ProtocolError::UnknownOpcode));
    assert_eq!(reader.buffered(), &[0x83, 0x01, 0x00]);
    assert_eq!(reader.next_frame(), Err(ProtocolError::UnknownOpcode));
}

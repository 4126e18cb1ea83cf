//! One WebSocket session as an explicit state machine. The connection owns
//! no transport: its owner reads and writes the byte stream and reports what
//! happened; every decision is taken here.
//!
//! Lifecycle: Handshaking, Open, Closing, Closed, in that order and never
//! back. Frames are read while the connection is Open, and while it is
//! Closing after a Close of its own to which the peer has not answered yet.
//!
//! Masking policy: frames are accepted masked or unmasked, whichever side
//! sent them. Frames that the connection builds itself are unmasked; an owner
//! that has to mask gives its frames a key before encoding them.

use crate::codec::decode_frame;
use crate::codec::encode_frame;
use crate::codec::DecodeModel;
use crate::error::ProtocolError;
use crate::error::WsError;
use crate::frame::plain_frame;
use crate::frame::FrameModel;
use crate::frame::WebsocketFrame;
use crate::handshake::answer_request;
use crate::handshake::handshake_outcome;
use crate::handshake::response_outcome;
use crate::handshake::verify_response;
use crate::message::outcome_model;
use crate::message::Event;
use crate::message::EventModel;
use crate::message::Message;
use crate::message::MessageModel;
use crate::opcode::OpCode;
use crate::reader::FrameReader;
use vstd::prelude::*;
use vstd::slice::slice_to_vec;
use vstd::string::StringSliceAdditionalSpecFns;

verus! {

/// Phase of a connection's life.
#[derive(Debug, Clone, Copy, PartialEq, Eq, Structural)]
pub enum ConnectionState {
    /// The upgrade exchange has not been completed.
    Handshaking,
    /// Frames flow in both directions.
    Open,
    /// A Close frame has been sent or received.
    Closing,
    /// The connection is over.
    Closed,
}

impl ConnectionState {
    /// Position of the state in the lifecycle.
    pub open spec fn rank(self) -> nat {
        match self {
            ConnectionState::Handshaking => 0,
            ConnectionState::Open => 1,
            ConnectionState::Closing => 2,
            ConnectionState::Closed => 3,
        }
    }
}

/// Mathematical value of a [`Connection`].
#[verifier::ext_equal]
pub struct ConnectionModel {
    pub state: ConnectionState,
    /// Bytes received and not yet consumed into a frame.
    pub buffer: Seq<u8>,
    /// Kind and bytes so far of the fragmented message being reassembled.
    pub fragment: Option<(OpCode, Seq<u8>)>,
    /// Whether this side has sent, or been told to send, its Close frame.
    pub close_sent: bool,
    /// Whether the peer's Close frame has arrived.
    pub close_received: bool,
}

impl ConnectionModel {
    /// Before the connection is closing no Close has gone either way, and a
    /// closing connection has sent its Close or has it at hand to send.
    pub open spec fn wf(self) -> bool {
        &&& self.state.rank() <= 1 ==> !self.close_sent && !self.close_received
        &&& self.state == ConnectionState::Closing ==> self.close_sent
    }

    /// The connection as it is created.
    pub open spec fn initial() -> ConnectionModel {
        ConnectionModel {
            state: ConnectionState::Handshaking,
            buffer: Seq::empty(),
            fragment: None,
            close_sent: false,
            close_received: false,
        }
    }

    /// Whether frames are read in this state.
    pub open spec fn reading(self) -> bool {
        self.state == ConnectionState::Open || (self.state == ConnectionState::Closing
            && !self.close_received)
    }

    /// The error that answers an operation which the state does not allow.
    pub open spec fn refusal(self) -> WsError {
        if self.state.rank() >= 2 {
            WsError::ConnectionClosed
        } else {
            WsError::InvalidState
        }
    }

    /// The same connection in another state.
    pub open spec fn moved_to(self, state: ConnectionState) -> ConnectionModel {
        ConnectionModel { state, ..self }
    }

    /// Server side of the handshake: the request has arrived.
    pub open spec fn on_request(self, request: Seq<u8>) -> (
        ConnectionModel,
        Result<Seq<char>, WsError>,
    ) {
        if self.state != ConnectionState::Handshaking {
            (self, Err(self.refusal()))
        } else {
            match handshake_outcome(request) {
                Ok(response) => (self.moved_to(ConnectionState::Open), Ok(response)),
                Err(e) => (self.moved_to(ConnectionState::Closed), Err(WsError::Protocol(e))),
            }
        }
    }

    /// Client side of the handshake: the server's response to the request
    /// that carried `key` has arrived.
    pub open spec fn on_response(self, response: Seq<u8>, key: Seq<u8>) -> (
        ConnectionModel,
        Result<(), WsError>,
    ) {
        if self.state != ConnectionState::Handshaking {
            (self, Err(self.refusal()))
        } else {
            match response_outcome(response, key) {
                Ok(_) => (self.moved_to(ConnectionState::Open), Ok(())),
                Err(e) => (self.moved_to(ConnectionState::Closed), Err(WsError::Protocol(e))),
            }
        }
    }

    /// A read of the transport has returned `data`.
    pub open spec fn on_data(self, data: Seq<u8>) -> (ConnectionModel, Result<(), WsError>) {
        if !self.reading() {
            (self, Err(self.refusal()))
        } else if data.len() == 0 {
            (self.moved_to(ConnectionState::Closed), Err(WsError::ConnectionClosed))
        } else {
            (ConnectionModel { buffer: self.buffer + data, ..self }, Ok(()))
        }
    }

    /// The frame `f` has arrived.
    pub open spec fn on_frame(self, f: FrameModel) -> (
        ConnectionModel,
        Result<EventModel, WsError>,
    ) {
        if !self.reading() {
            (self, Err(self.refusal()))
        } else if !f.valid() {
            (
                self.moved_to(ConnectionState::Closed),
                Err(WsError::Protocol(ProtocolError::ControlFrameTooLong)),
            )
        } else {
            match f.opcode {
                OpCode::Ping => (
                    self,
                    Ok(EventModel::Ping { pong: plain_frame(OpCode::Pong, f.payload) }),
                ),
                OpCode::Pong => (self, Ok(EventModel::Pong { payload: f.payload })),
                OpCode::Text | OpCode::Binary => if f.fin {
                    (
                        self,
                        Ok(
                            EventModel::Message(
                                MessageModel { opcode: f.opcode, payload: f.payload },
                            ),
                        ),
                    )
                } else {
                    (
                        ConnectionModel { fragment: Some((f.opcode, f.payload)), ..self },
                        Ok(EventModel::Partial),
                    )
                },
                OpCode::Continuation => match self.fragment {
                    None => (
                        self.moved_to(ConnectionState::Closed),
                        Err(WsError::Protocol(ProtocolError::ContinuationWithoutStart)),
                    ),
                    Some((opcode, bytes)) => if f.fin {
                        (
                            ConnectionModel { fragment: None, ..self },
                            Ok(
                                EventModel::Message(
                                    MessageModel { opcode, payload: bytes + f.payload },
                                ),
                            ),
                        )
                    } else {
                        (
                            ConnectionModel {
                                fragment: Some((opcode, bytes + f.payload)),
                                ..self
                            },
                            Ok(EventModel::Partial),
                        )
                    },
                },
                OpCode::Close => if self.close_sent {
                    (
                        ConnectionModel {
                            state: ConnectionState::Closed,
                            close_received: true,
                            ..self
                        },
                        Ok(EventModel::Close { reply: None }),
                    )
                } else {
                    (
                        ConnectionModel {
                            state: ConnectionState::Closing,
                            close_sent: true,
                            close_received: true,
                            ..self
                        },
                        Ok(EventModel::Close { reply: Some(plain_frame(OpCode::Close, f.payload)) }),
                    )
                },
            }
        }
    }

    /// The frame at the front of the buffer, if a whole one is there, is
    /// taken out. `Ok(None)` asks for more data; malformed bytes close the
    /// connection for good.
    pub open spec fn take_frame(self) -> (ConnectionModel, Result<Option<FrameModel>, WsError>) {
        if !self.reading() {
            (self, Err(self.refusal()))
        } else {
            match decode_frame(self.buffer) {
                DecodeModel::NeedMoreData => (self, Ok(None)),
                DecodeModel::Error(e) => (
                    self.moved_to(ConnectionState::Closed),
                    Err(WsError::Protocol(e)),
                ),
                DecodeModel::Decoded(f, consumed) => (
                    ConnectionModel { buffer: self.buffer.skip(consumed as int), ..self },
                    Ok(Some(f)),
                ),
            }
        }
    }

    /// One step of the read side: the frame at the front of the buffer, if a
    /// whole one is there, is taken out and dispatched.
    pub open spec fn poll(self) -> (ConnectionModel, Result<EventModel, WsError>) {
        match self.take_frame().1 {
            Ok(Some(f)) => self.take_frame().0.on_frame(f),
            Ok(None) => (self.take_frame().0, Ok(EventModel::NeedData)),
            Err(e) => (self.take_frame().0, Err(e)),
        }
    }

    /// The application sends the frame `f`.
    pub open spec fn on_send(self, f: FrameModel) -> (ConnectionModel, Result<Seq<u8>, WsError>) {
        if self.state != ConnectionState::Open {
            (self, Err(self.refusal()))
        } else if !f.valid() {
            (self, Err(WsError::Protocol(ProtocolError::ControlFrameTooLong)))
        } else if f.opcode == OpCode::Close {
            (
                ConnectionModel { state: ConnectionState::Closing, close_sent: true, ..self },
                Ok(encode_frame(f)),
            )
        } else {
            (self, Ok(encode_frame(f)))
        }
    }
}

/// Mathematical value of what a send comes to.
pub open spec fn sent_model(r: Result<Vec<u8>, WsError>) -> Result<Seq<u8>, WsError> {
    match r {
        Ok(bytes) => Ok(bytes@),
        Err(e) => Err(e),
    }
}

/// Mathematical value of what taking a frame comes to.
pub open spec fn frame_model(r: Result<Option<WebsocketFrame>, WsError>) -> Result<
    Option<FrameModel>,
    WsError,
> {
    match r {
        Ok(Some(frame)) => Ok(Some(frame@)),
        Ok(None) => Ok(None),
        Err(e) => Err(e),
    }
}

/// Mathematical value of what a handshake step comes to.
pub open spec fn text_model(r: Result<String, WsError>) -> Result<Seq<char>, WsError> {
    match r {
        Ok(text) => Ok(text@),
        Err(e) => Err(e),
    }
}

/// A single WebSocket session.
pub struct Connection {
    state: ConnectionState,
    reader: FrameReader,
    fragment: Option<(OpCode, Vec<u8>)>,
    close_sent: bool,
    close_received: bool,
}

impl View for Connection {
    type V = ConnectionModel;

    closed spec fn view(&self) -> ConnectionModel {
        ConnectionModel {
            state: self.state,
            buffer: self.reader@,
            fragment: match self.fragment {
                Some((opcode, bytes)) => Some((opcode, bytes@)),
                None => None,
            },
            close_sent: self.close_sent,
            close_received: self.close_received,
        }
    }
}

impl Connection {
    /// A connection that waits for the handshake.
    pub fn new() -> (c: Self)
        ensures
            c@ == ConnectionModel::initial(),
    {
        Connection {
            state: ConnectionState::Handshaking,
            reader: FrameReader::new(),
            fragment: None,
            close_sent: false,
            close_received: false,
        }
    }

    /// The state of the connection.
    pub fn state(&self) -> (s: ConnectionState)
        ensures
            s == self@.state,
    {
        self.state
    }

    /// Whether this side has sent, or been told to send, its Close frame.
    pub fn close_sent(&self) -> (b: bool)
        ensures
            b == self@.close_sent,
    {
        self.close_sent
    }

    /// Number of bytes received and not yet consumed into a frame.
    pub fn buffered_len(&self) -> (n: usize)
        ensures
            n == self@.buffer.len(),
    {
        self.reader.buffered().len()
    }

    /// Whether a fragmented message is being reassembled.
    pub fn has_fragment(&self) -> (b: bool)
        ensures
            b == self@.fragment is Some,
    {
        self.fragment.is_some()
    }

    fn is_reading(&self) -> (b: bool)
        ensures
            b == self@.reading(),
    {
        match self.state {
            ConnectionState::Open => true,
            ConnectionState::Closing => !self.close_received,
            _ => false,
        }
    }

    fn refuse(&self) -> (e: WsError)
        ensures
            e == self@.refusal(),
    {
        match self.state {
            ConnectionState::Closing | ConnectionState::Closed => WsError::ConnectionClosed,
            _ => WsError::InvalidState,
        }
    }

    /// Server side of the handshake. Takes the bytes of the upgrade request
    /// and gives the response to send. On success the connection is Open; a
    /// request without key closes it for good.
    pub fn accept(&mut self, request: &[u8]) -> (r: Result<String, WsError>)
        ensures
            final(self)@ == old(self)@.on_request(request@).0,
            text_model(r) == old(self)@.on_request(request@).1,
    {
        if self.state != ConnectionState::Handshaking {
            return Err(self.refuse());
        }
        match answer_request(request) {
            Ok(response) => {
                self.state = ConnectionState::Open;
                Ok(response)
            },
            Err(e) => {
                self.state = ConnectionState::Closed;
                Err(WsError::Protocol(e))
            },
        }
    }

    /// Client side of the handshake. Takes the bytes of the server's
    /// response to the request that carried `key`. On success the connection
    /// is Open; a missing or wrong accept value closes it for good.
    pub fn connect(&mut self, response: &[u8], key: &str) -> (r: Result<(), WsError>)
        ensures
            final(self)@ == old(self)@.on_response(response@, key.spec_bytes()).0,
            r == old(self)@.on_response(response@, key.spec_bytes()).1,
    {
        if self.state != ConnectionState::Handshaking {
            return Err(self.refuse());
        }
        match verify_response(response, key) {
            Ok(_) => {
                self.state = ConnectionState::Open;
                Ok(())
            },
            Err(e) => {
                self.state = ConnectionState::Closed;
                Err(WsError::Protocol(e))
            },
        }
    }

    /// Takes in what one read of the transport returned. A read of zero
    /// bytes means that the peer is gone: the connection is Closed.
    pub fn receive(&mut self, data: &[u8]) -> (r: Result<(), WsError>)
        ensures
            final(self)@ == old(self)@.on_data(data@).0,
            r == old(self)@.on_data(data@).1,
    {
        if !self.is_reading() {
            return Err(self.refuse());
        }
        match self.reader.feed(data) {
            Ok(_) => Ok(()),
            Err(e) => {
                self.state = ConnectionState::Closed;
                Err(e)
            },
        }
    }

    /// The transport has failed, or a closing connection has written all it
    /// had to write: the connection is Closed.
    pub fn shutdown(&mut self)
        ensures
            final(self)@ == old(self)@.moved_to(ConnectionState::Closed),
    {
        self.state = ConnectionState::Closed;
    }

    /// Applies the rules of the protocol to one frame that has arrived.
    pub fn handle_frame(&mut self, frame: WebsocketFrame) -> (r: Result<Event, WsError>)
        ensures
            final(self)@ == old(self)@.on_frame(frame@).0,
            outcome_model(r) == old(self)@.on_frame(frame@).1,
    {
        if !self.is_reading() {
            return Err(self.refuse());
        }
        if !frame.is_valid() {
            self.state = ConnectionState::Closed;
            return Err(WsError::Protocol(ProtocolError::ControlFrameTooLong));
        }
        let WebsocketFrame { fin, opcode, mask_key: _, payload } = frame;
        match opcode {
            OpCode::Ping => Ok(Event::Ping { pong: WebsocketFrame::new(true, OpCode::Pong, payload) }),
            OpCode::Pong => Ok(Event::Pong { payload }),
            OpCode::Text | OpCode::Binary => {
                if fin {
                    Ok(Event::Message(Message { opcode, payload }))
                } else {
                    self.fragment = Some((opcode, payload));
                    Ok(Event::Partial)
                }
            },
            OpCode::Continuation => {
                match self.fragment.take() {
                    None => {
                        self.state = ConnectionState::Closed;
                        Err(WsError::Protocol(ProtocolError::ContinuationWithoutStart))
                    },
                    Some((first, mut bytes)) => {
                        let mut payload = payload;
                        bytes.append(&mut payload);
                        if fin {
                            Ok(Event::Message(Message { opcode: first, payload: bytes }))
                        } else {
                            self.fragment = Some((first, bytes));
                            Ok(Event::Partial)
                        }
                    },
                }
            },
            OpCode::Close => {
                self.close_received = true;
                if self.close_sent {
                    self.state = ConnectionState::Closed;
                    Ok(Event::Close { reply: None })
                } else {
                    self.close_sent = true;
                    self.state = ConnectionState::Closing;
                    Ok(Event::Close { reply: Some(WebsocketFrame::new(true, OpCode::Close, payload)) })
                }
            },
        }
    }

    /// Takes the frame at the front of the buffer, if a whole one is there,
    /// without applying the rules of the protocol to it. `Ok(None)` asks for
    /// more data. Malformed bytes close the connection for good: the protocol
    /// has no way to find the next frame behind them.
    pub fn next_frame(&mut self) -> (r: Result<Option<WebsocketFrame>, WsError>)
        ensures
            final(self)@ == old(self)@.take_frame().0,
            frame_model(r) == old(self)@.take_frame().1,
    {
        if !self.is_reading() {
            return Err(self.refuse());
        }
        match self.reader.next_frame() {
            Ok(frame) => Ok(frame),
            Err(e) => {
                self.state = ConnectionState::Closed;
                Err(WsError::Protocol(e))
            },
        }
    }

    /// One step of the read side: takes the frame at the front of the
    /// buffer, if a whole one is there, and applies the rules of the protocol
    /// to it.
    pub fn poll(&mut self) -> (r: Result<Event, WsError>)
        ensures
            final(self)@ == old(self)@.poll().0,
            outcome_model(r) == old(self)@.poll().1,
    {
        match self.next_frame() {
            Ok(Some(frame)) => self.handle_frame(frame),
            Ok(None) => Ok(Event::NeedData),
            Err(e) => Err(e),
        }
    }

    /// Sends a frame: gives the bytes to write. Frames are sent only while
    /// the connection is Open; sending a Close frame makes it Closing. A
    /// frame that is not valid is refused and changes nothing.
    pub fn send_frame(&mut self, frame: &WebsocketFrame) -> (r: Result<Vec<u8>, WsError>)
        ensures
            final(self)@ == old(self)@.on_send(frame@).0,
            sent_model(r) == old(self)@.on_send(frame@).1,
    {
        if self.state != ConnectionState::Open {
            return Err(self.refuse());
        }
        match frame.encode() {
            Ok(bytes) => {
                if frame.opcode == OpCode::Close {
                    self.close_sent = true;
                    self.state = ConnectionState::Closing;
                }
                Ok(bytes)
            },
            Err(e) => Err(WsError::Protocol(e)),
        }
    }

    /// Sends `text` as one Text message.
    pub fn send_text(&mut self, text: &str) -> (r: Result<Vec<u8>, WsError>)
        ensures
            final(self)@ == old(self)@.on_send(plain_frame(OpCode::Text, text.spec_bytes())).0,
            sent_model(r) == old(self)@.on_send(plain_frame(OpCode::Text, text.spec_bytes())).1,
    {
        let frame = WebsocketFrame::string(text);
        self.send_frame(&frame)
    }

    /// Sends `data` as one Binary message.
    pub fn send_binary(&mut self, data: &[u8]) -> (r: Result<Vec<u8>, WsError>)
        ensures
            final(self)@ == old(self)@.on_send(plain_frame(OpCode::Binary, data@)).0,
            sent_model(r) == old(self)@.on_send(plain_frame(OpCode::Binary, data@)).1,
    {
        let frame = WebsocketFrame::new(true, OpCode::Binary, slice_to_vec(data));
        self.send_frame(&frame)
    }

    /// Sends a Ping that carries `payload`.
    pub fn ping(&mut self, payload: &[u8]) -> (r: Result<Vec<u8>, WsError>)
        ensures
            final(self)@ == old(self)@.on_send(plain_frame(OpCode::Ping, payload@)).0,
            sent_model(r) == old(self)@.on_send(plain_frame(OpCode::Ping, payload@)).1,
    {
        let frame = WebsocketFrame::new(true, OpCode::Ping, slice_to_vec(payload));
        self.send_frame(&frame)
    }

    /// Sends a Pong that carries `payload`.
    pub fn pong(&mut self, payload: &[u8]) -> (r: Result<Vec<u8>, WsError>)
        ensures
            final(self)@ == old(self)@.on_send(plain_frame(OpCode::Pong, payload@)).0,
            sent_model(r) == old(self)@.on_send(plain_frame(OpCode::Pong, payload@)).1,
    {
        let frame = WebsocketFrame::new(true, OpCode::Pong, slice_to_vec(payload));
        self.send_frame(&frame)
    }

    /// Starts the closing handshake: sends a Close that carries `payload`.
    pub fn close(&mut self, payload: &[u8]) -> (r: Result<Vec<u8>, WsError>)
        ensures
            final(self)@ == old(self)@.on_send(plain_frame(OpCode::Close, payload@)).0,
            sent_model(r) == old(self)@.on_send(plain_frame(OpCode::Close, payload@)).1,
    {
        let frame = WebsocketFrame::new(true, OpCode::Close, slice_to_vec(payload));
        self.send_frame(&frame)
    }
}

} // verus!

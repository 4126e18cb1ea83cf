//! Error taxonomy of the protocol engine.

use vstd::prelude::*;

verus! {

/// A violation of the WebSocket protocol by the peer, or a frame that the
/// protocol does not allow to be built.
#[derive(Debug, Clone, Copy, PartialEq, Eq, Structural)]
pub enum ProtocolError {
    /// The upgrade request carries no `Sec-WebSocket-Key` header.
    MissingKey,
    /// The upgrade response carries no `Sec-WebSocket-Accept` header.
    MissingAccept,
    /// The upgrade response's accept value does not answer the key sent.
    AcceptMismatch,
    /// The low four bits of a frame's first byte name no opcode.
    UnknownOpcode,
    /// A Continuation frame arrived while no fragmented message was open.
    ContinuationWithoutStart,
    /// A Close, Ping or Pong frame with more than 125 bytes of payload.
    ControlFrameTooLong,
    /// An extended length field holding a value that a shorter form encodes.
    InvalidLength,
}

/// Everything that can go wrong on a connection.
#[derive(Debug, Clone, Copy, PartialEq, Eq, Structural)]
pub enum WsError {
    /// The transport reached end of stream or failed, or the connection has
    /// already been shut down.
    ConnectionClosed,
    /// The peer broke the protocol.
    Protocol(ProtocolError),
    /// A Text payload that is not valid UTF-8.
    Encoding,
    /// The operation is not part of the connection's current lifecycle phase.
    InvalidState,
}

impl ProtocolError {
    /// Human-readable description.
    pub open spec fn text(self) -> Seq<char> {
        match self {
            ProtocolError::MissingKey => "missing key"@,
            ProtocolError::MissingAccept => "missing accept"@,
            ProtocolError::AcceptMismatch => "accept mismatch"@,
            ProtocolError::UnknownOpcode => "unknown opcode"@,
            ProtocolError::ContinuationWithoutStart => "continuation without a fragment start"@,
            ProtocolError::ControlFrameTooLong => "control frame payload too long"@,
            ProtocolError::InvalidLength => "invalid extended length"@,
        }
    }

    /// The description as an owned string.
    pub fn message(&self) -> (s: String)
        ensures
            s@ == self.text(),
    {
        match self {
            ProtocolError::MissingKey => String::from_str("missing key"),
            ProtocolError::MissingAccept => String::from_str("missing accept"),
            ProtocolError::AcceptMismatch => String::from_str("accept mismatch"),
            ProtocolError::UnknownOpcode => String::from_str("unknown opcode"),
            ProtocolError::ContinuationWithoutStart => String::from_str(
                "continuation without a fragment start",
            ),
            ProtocolError::ControlFrameTooLong => String::from_str(
                "control frame payload too long",
            ),
            ProtocolError::InvalidLength => String::from_str("invalid extended length"),
        }
    }
}

impl WsError {
    /// Human-readable description.
    pub open spec fn text(self) -> Seq<char> {
        match self {
            WsError::ConnectionClosed => "connection closed"@,
            WsError::Protocol(e) => "protocol error: "@ + e.text(),
            WsError::Encoding => "text payload is not valid UTF-8"@,
            WsError::InvalidState => "operation not valid in this state"@,
        }
    }

    /// The description as an owned string.
    pub fn message(&self) -> (s: String)
        ensures
            s@ == self.text(),
    {
        match self {
            WsError::ConnectionClosed => String::from_str("connection closed"),
            WsError::Protocol(e) => {
                let mut s = String::from_str("protocol error: ");
                let detail = e.message();
                s.append(detail.as_str());
                s
            },
            WsError::Encoding => String::from_str("text payload is not valid UTF-8"),
            WsError::InvalidState => String::from_str("operation not valid in this state"),
        }
    }
}

} // verus!

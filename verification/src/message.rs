//! What the application sees of a connection: whole messages and
//! control-frame events, never raw frames.

use crate::error::WsError;
use crate::frame::FrameModel;
use crate::frame::WebsocketFrame;
use crate::opcode::OpCode;
use crate::text::from_utf8;
use crate::text::hex_dump;
use crate::text::hex_string;
use vstd::prelude::*;
use vstd::slice::slice_to_vec;
use vstd::utf8::decode_utf8;
use vstd::utf8::valid_utf8;

verus! {

/// One whole message, reassembled where it came in fragments.
#[derive(Debug, Clone, PartialEq, Eq)]
pub struct Message {
    /// Kind of the message: that of the frame that began it.
    pub opcode: OpCode,
    pub payload: Vec<u8>,
}

/// Mathematical value of a [`Message`].
#[verifier::ext_equal]
pub struct MessageModel {
    pub opcode: OpCode,
    pub payload: Seq<u8>,
}

impl View for Message {
    type V = MessageModel;

    open spec fn view(&self) -> MessageModel {
        MessageModel { opcode: self.opcode, payload: self.payload@ }
    }
}

impl Message {
    /// The message as text. The payload of a Text message must be valid
    /// UTF-8; that of any other message is rendered as space-separated
    /// hexadecimal pairs.
    pub fn text(&self) -> (r: Result<String, WsError>)
        ensures
            match r {
                Ok(s) => if self.opcode == OpCode::Text {
                    valid_utf8(self.payload@) && s@ == decode_utf8(self.payload@)
                } else {
                    s@ == hex_dump(self.payload@)
                },
                Err(e) => self.opcode == OpCode::Text && !valid_utf8(self.payload@) && e
                    == WsError::Encoding,
            },
    {
        match self.opcode {
            OpCode::Text => match from_utf8(slice_to_vec(self.payload.as_slice())) {
                Some(s) => Ok(s),
                None => Err(WsError::Encoding),
            },
            _ => Ok(hex_string(self.payload.as_slice())),
        }
    }
}

/// What one step of a connection's read side comes to.
#[derive(Debug, Clone, PartialEq, Eq)]
pub enum Event {
    /// No whole frame is buffered: read from the transport and hand the
    /// bytes over.
    NeedData,
    /// A whole message arrived.
    Message(Message),
    /// A part of a fragmented message was stored; nothing to surface yet.
    Partial,
    /// A Ping arrived. `pong` is the Pong that must be sent in answer.
    Ping { pong: WebsocketFrame },
    /// A Pong arrived. Nothing is to be done.
    Pong { payload: Vec<u8> },
    /// A Close arrived. `reply` is the Close that must be sent in answer; it
    /// is absent where this side has already sent its Close.
    Close { reply: Option<WebsocketFrame> },
}

/// Mathematical value of an [`Event`].
#[verifier::ext_equal]
pub enum EventModel {
    NeedData,
    Message(MessageModel),
    Partial,
    Ping { pong: FrameModel },
    Pong { payload: Seq<u8> },
    Close { reply: Option<FrameModel> },
}

impl View for Event {
    type V = EventModel;

    open spec fn view(&self) -> EventModel {
        match self {
            Event::NeedData => EventModel::NeedData,
            Event::Message(m) => EventModel::Message(m@),
            Event::Partial => EventModel::Partial,
            Event::Ping { pong } => EventModel::Ping { pong: pong@ },
            Event::Pong { payload } => EventModel::Pong { payload: payload@ },
            Event::Close { reply } => EventModel::Close {
                reply: match reply {
                    Some(f) => Some(f@),
                    None => None,
                },
            },
        }
    }
}

/// Mathematical value of a step's result.
pub open spec fn outcome_model(r: Result<Event, WsError>) -> Result<EventModel, WsError> {
    match r {
        Ok(event) => Ok(event@),
        Err(e) => Err(e),
    }
}

} // verus!

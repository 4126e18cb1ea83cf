//! In-memory representation of one WebSocket frame.

use crate::error::WsError;
use crate::opcode::OpCode;
use crate::text::from_utf8;
use crate::text::hex_dump;
use crate::text::hex_string;
use vstd::prelude::*;
use vstd::slice::slice_to_vec;
use vstd::string::StringSliceAdditionalSpecFns;
use vstd::utf8::decode_utf8;
use vstd::utf8::valid_utf8;

verus! {

/// One protocol unit: header fields and payload. The payload is held
/// unmasked; the length that goes on the wire is always derived from it.
#[derive(Debug, Clone, PartialEq, Eq)]
pub struct WebsocketFrame {
    /// `false` means that continuation frames follow for the same message.
    pub fin: bool,
    pub opcode: OpCode,
    /// The masking key; present exactly when the frame is masked on the wire.
    pub mask_key: Option<[u8; 4]>,
    pub payload: Vec<u8>,
}

/// Mathematical value of a frame.
#[verifier::ext_equal]
pub struct FrameModel {
    pub fin: bool,
    pub opcode: OpCode,
    pub mask_key: Option<[u8; 4]>,
    pub payload: Seq<u8>,
}

impl FrameModel {
    /// Control frames carry at most 125 bytes, and no payload is longer than
    /// the 64-bit length field can say.
    pub open spec fn valid(self) -> bool {
        &&& self.opcode.control() ==> self.payload.len() <= 125
        &&& self.payload.len() <= u64::MAX
    }

    /// Whether the payload goes masked on the wire.
    pub open spec fn masked(self) -> bool {
        self.mask_key is Some
    }
}

/// A final, unmasked frame.
pub open spec fn plain_frame(opcode: OpCode, payload: Seq<u8>) -> FrameModel {
    FrameModel { fin: true, opcode, mask_key: None, payload }
}

impl View for WebsocketFrame {
    type V = FrameModel;

    open spec fn view(&self) -> FrameModel {
        FrameModel {
            fin: self.fin,
            opcode: self.opcode,
            mask_key: self.mask_key,
            payload: self.payload@,
        }
    }
}

impl Default for WebsocketFrame {
    /// A final, unmasked, empty Text frame.
    fn default() -> (f: Self)
        ensures
            f@ == (FrameModel {
                fin: true,
                opcode: OpCode::Text,
                mask_key: None,
                payload: Seq::empty(),
            }),
    {
        WebsocketFrame { fin: true, opcode: OpCode::Text, mask_key: None, payload: Vec::new() }
    }
}

impl WebsocketFrame {
    /// A frame made of the given parts, unmasked.
    pub fn new(fin: bool, opcode: OpCode, payload: Vec<u8>) -> (f: Self)
        ensures
            f@ == (FrameModel { fin, opcode, mask_key: None, payload: payload@ }),
    {
        WebsocketFrame { fin, opcode, mask_key: None, payload }
    }

    /// The same frame, to be masked with `key` on the wire.
    pub fn with_mask(self, key: [u8; 4]) -> (f: Self)
        ensures
            f@ == (FrameModel { mask_key: Some(key), ..self@ }),
    {
        WebsocketFrame {
            fin: self.fin,
            opcode: self.opcode,
            mask_key: Some(key),
            payload: self.payload,
        }
    }

    /// A final, unmasked Ping frame without payload.
    pub fn ping() -> (f: Self)
        ensures
            f@ == (FrameModel {
                fin: true,
                opcode: OpCode::Ping,
                mask_key: None,
                payload: Seq::empty(),
            }),
    {
        WebsocketFrame { fin: true, opcode: OpCode::Ping, mask_key: None, payload: Vec::new() }
    }

    /// A final, unmasked Pong frame without payload.
    pub fn pong() -> (f: Self)
        ensures
            f@ == (FrameModel {
                fin: true,
                opcode: OpCode::Pong,
                mask_key: None,
                payload: Seq::empty(),
            }),
    {
        WebsocketFrame { fin: true, opcode: OpCode::Pong, mask_key: None, payload: Vec::new() }
    }

    /// A final, unmasked Text frame that carries `s`.
    pub fn string(s: &str) -> (f: Self)
        ensures
            f@ == (FrameModel {
                fin: true,
                opcode: OpCode::Text,
                mask_key: None,
                payload: s.spec_bytes(),
            }),
    {
        WebsocketFrame {
            fin: true,
            opcode: OpCode::Text,
            mask_key: None,
            payload: s.as_bytes_vec(),
        }
    }

    /// The payload for display: the text of a Text frame, which must be
    /// valid UTF-8; the bytes of a Binary frame as space-separated
    /// hexadecimal pairs; nothing for any other frame.
    pub fn text(&self) -> (r: Result<String, WsError>)
        ensures
            match r {
                Ok(s) => match self.opcode {
                    OpCode::Text => valid_utf8(self.payload@) && s@ == decode_utf8(self.payload@),
                    OpCode::Binary => s@ == hex_dump(self.payload@),
                    _ => s@ == Seq::<char>::empty(),
                },
                Err(e) => self.opcode == OpCode::Text && !valid_utf8(self.payload@) && e
                    == WsError::Encoding,
            },
    {
        match self.opcode {
            OpCode::Text => match from_utf8(slice_to_vec(self.payload.as_slice())) {
                Some(s) => Ok(s),
                None => Err(WsError::Encoding),
            },
            OpCode::Binary => Ok(hex_string(self.payload.as_slice())),
            _ => Ok(String::new()),
        }
    }

    /// Whether this frame ends its message.
    pub fn is_last(&self) -> (b: bool)
        ensures
            b == self@.fin,
    {
        self.fin
    }

    /// Whether the frame may go on the wire.
    pub fn is_valid(&self) -> (b: bool)
        ensures
            b == self@.valid(),
    {
        let n = self.payload.len();
        !self.opcode.is_control() || n <= 125
    }
}

} // verus!

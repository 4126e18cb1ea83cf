//! Conversion between wire bytes and frames, independent of any I/O.
//!
//! Wire layout: one byte with FIN in bit 7 and the opcode in the low four
//! bits; one byte with MASK in bit 7 and a 7-bit length marker; a 2-byte or
//! 8-byte big-endian length when the marker is 126 or 127; the 4-byte masking
//! key when MASK is set; the payload.
//!
//! Length policy: the encoder always writes the shortest form of a length,
//! and the decoder takes no other: an extended length field whose value the
//! marker alone, or the 2-byte field, could have stated is an error. A
//! control frame that announces more than 125 bytes is an error as well. A
//! 64-bit length is taken as it stands; until that many bytes are buffered
//! the answer is that more data is needed.
//!
//! Masking policy: the codec takes no side. It decodes masked and unmasked
//! frames alike and encodes a frame masked exactly when it carries a key.
//! The three reserved bits of the first byte are ignored on decode and sent
//! as zero.

use crate::buffer;
use crate::buffer::be_bytes;
use crate::cursor::be_value;
use crate::cursor::Cursor;
use crate::error::ProtocolError;
use crate::frame::FrameModel;
use crate::frame::WebsocketFrame;
use crate::mask::apply_mask;
use crate::mask::mask_bytes;
use crate::opcode::OpCode;
use vstd::prelude::*;
use vstd::slice::slice_to_vec;

verus! {

/// Outcome of one attempt to decode a frame from the front of a buffer.
#[derive(Debug, Clone, PartialEq, Eq)]
pub enum DecodeResult {
    /// The buffer holds no complete frame yet.
    NeedMoreData,
    /// A frame, and the number of bytes of the buffer that it took.
    Decoded(WebsocketFrame, usize),
    /// The bytes at the front of the buffer are no frame.
    Error(ProtocolError),
}

/// Mathematical value of a [`DecodeResult`].
pub enum DecodeModel {
    NeedMoreData,
    Decoded(FrameModel, nat),
    Error(ProtocolError),
}

impl View for DecodeResult {
    type V = DecodeModel;

    open spec fn view(&self) -> DecodeModel {
        match self {
            DecodeResult::NeedMoreData => DecodeModel::NeedMoreData,
            DecodeResult::Decoded(frame, consumed) => DecodeModel::Decoded(
                frame@,
                *consumed as nat,
            ),
            DecodeResult::Error(e) => DecodeModel::Error(*e),
        }
    }
}

/// First header byte: FIN in bit 7, the opcode in the low four bits.
pub open spec fn first_byte(fin: bool, opcode: OpCode) -> u8 {
    ((if fin { 128int } else { 0int }) + opcode.wire_value()) as u8
}

/// The 7-bit length marker for a payload of `n` bytes: the length itself up to
/// 125, 126 up to 65535, 127 beyond.
pub open spec fn length_marker(n: nat) -> u8 {
    if n <= 125 {
        n as u8
    } else if n <= 65535 {
        126
    } else {
        127
    }
}

/// Second header byte: MASK in bit 7, the length marker below it.
pub open spec fn second_byte(masked: bool, n: nat) -> u8 {
    ((if masked { 128int } else { 0int }) + length_marker(n)) as u8
}

/// Number of extended length bytes that follow a length marker.
pub open spec fn extended_size(marker: u8) -> int {
    if marker == 126 {
        2
    } else if marker == 127 {
        8
    } else {
        0
    }
}

/// The extended length field for a payload of `n` bytes.
pub open spec fn extended_length(n: nat) -> Seq<u8> {
    be_bytes(n, extended_size(length_marker(n)) as nat)
}

/// Masking key and payload as they go on the wire.
pub open spec fn wire_payload(f: FrameModel) -> Seq<u8> {
    match f.mask_key {
        Some(key) => key@ + apply_mask(f.payload, key),
        None => f.payload,
    }
}

/// The wire bytes of a frame.
pub open spec fn encode_frame(f: FrameModel) -> Seq<u8> {
    seq![first_byte(f.fin, f.opcode), second_byte(f.masked(), f.payload.len())] + extended_length(
        f.payload.len(),
    ) + wire_payload(f)
}

/// The four bytes of `b` from `at` on, as a key.
pub open spec fn key_at(b: Seq<u8>, at: int) -> [u8; 4] {
    [b[at], b[at + 1], b[at + 2], b[at + 3]]
}

/// An extended length field is invalid when the marker alone, or the shorter
/// field, could have stated the same length.
pub open spec fn overlong_length(marker: u8, length: nat) -> bool {
    (marker == 126 && length < 126) || (marker == 127 && length < 65536)
}

/// What the front of `b` decodes to.
pub open spec fn decode_frame(b: Seq<u8>) -> DecodeModel {
    if b.len() < 2 {
        DecodeModel::NeedMoreData
    } else {
        let fin = b[0] >= 128;
        let masked = b[1] >= 128;
        let marker = b[1] % 128;
        let key_pos: int = 2 + extended_size(marker);
        let data_pos: int = key_pos + if masked { 4int } else { 0int };
        let length: nat = if marker <= 125 {
            marker as nat
        } else {
            be_value(b.subrange(2, key_pos))
        };
        match OpCode::of_wire(b[0] % 16) {
            None => DecodeModel::Error(ProtocolError::UnknownOpcode),
            Some(opcode) => if opcode.control() && marker > 125 {
                DecodeModel::Error(ProtocolError::ControlFrameTooLong)
            } else if b.len() < key_pos {
                DecodeModel::NeedMoreData
            } else if overlong_length(marker, length) {
                DecodeModel::Error(ProtocolError::InvalidLength)
            } else if b.len() < data_pos + length {
                DecodeModel::NeedMoreData
            } else {
                let raw = b.subrange(data_pos, data_pos + length);
                let key = key_at(b, key_pos);
                DecodeModel::Decoded(
                    FrameModel {
                        fin,
                        opcode,
                        mask_key: if masked { Some(key) } else { None },
                        payload: if masked { apply_mask(raw, key) } else { raw },
                    },
                    (data_pos + length) as nat,
                )
            },
        }
    }
}

/// What is left of a buffer once the frame at its front, if there is a whole
/// one, has been taken out.
pub open spec fn after_frame(buffer: Seq<u8>) -> Seq<u8> {
    match decode_frame(buffer) {
        DecodeModel::Decoded(_, consumed) => buffer.skip(consumed as int),
        _ => buffer,
    }
}

impl WebsocketFrame {
    /// Encodes the frame. A control frame with more than 125 bytes of payload
    /// is refused, never truncated.
    pub fn encode(&self) -> (r: Result<Vec<u8>, ProtocolError>)
        ensures
            match r {
                Ok(bytes) => self@.valid() && bytes@ == encode_frame(self@),
                Err(e) => !self@.valid() && e == ProtocolError::ControlFrameTooLong,
            },
    {
        let n = self.payload.len();
        if self.opcode.is_control() && n > 125 {
            return Err(ProtocolError::ControlFrameTooLong);
        }
        let mut buf = buffer::with_capacity(1024);
        let fin_bit: u8 = if self.fin { 128 } else { 0 };
        let mask_bit: u8 = if self.mask_key.is_some() { 128 } else { 0 };
        buffer::put_u8(&mut buf, fin_bit + self.opcode.to_num());
        if n <= 125 {
            buffer::put_u8(&mut buf, mask_bit + n as u8);
        } else if n <= 65535 {
            buffer::put_u8(&mut buf, mask_bit + 126);
            buffer::put_u16(&mut buf, n as u16);
        } else {
            buffer::put_u8(&mut buf, mask_bit + 127);
            buffer::put_u64(&mut buf, n as u64);
        }
        match &self.mask_key {
            Some(key) => {
                let masked = mask_bytes(self.payload.as_slice(), key);
                buffer::put_slice(&mut buf, key.as_slice());
                buffer::put_slice(&mut buf, masked.as_slice());
            },
            None => {
                buffer::put_slice(&mut buf, self.payload.as_slice());
            },
        }
        let bytes = slice_to_vec(buffer::as_slice(&buf));
        assert(bytes@ =~= encode_frame(self@));
        Ok(bytes)
    }

    /// Tries to decode one frame from the front of `bytes`, which it leaves
    /// untouched. Decoding is all or nothing: short of a whole frame the
    /// answer is `NeedMoreData`, whatever part of the frame is there.
    pub fn decode(bytes: &[u8]) -> (r: DecodeResult)
        ensures
            r@ == decode_frame(bytes@),
            r matches DecodeResult::Decoded(frame, consumed) ==> frame@.valid() && 2 <= consumed
                <= bytes@.len(),
    {
        let mut cur = Cursor::new(bytes);
        let b0 = match cur.read_u8() {
            Some(b) => b,
            None => {
                return DecodeResult::NeedMoreData;
            },
        };
        let b1 = match cur.read_u8() {
            Some(b) => b,
            None => {
                return DecodeResult::NeedMoreData;
            },
        };
        let opcode = match OpCode::from_num(b0 % 16) {
            Some(op) => op,
            None => {
                return DecodeResult::Error(ProtocolError::UnknownOpcode);
            },
        };
        let fin = b0 >= 128;
        let masked = b1 >= 128;
        let marker = b1 % 128;
        if opcode.is_control() && marker > 125 {
            return DecodeResult::Error(ProtocolError::ControlFrameTooLong);
        }
        let length: u64 = if marker == 126 {
            match cur.read_u16() {
                Some(v) => {
                    if v < 126 {
                        return DecodeResult::Error(ProtocolError::InvalidLength);
                    }
                    v as u64
                },
                None => {
                    return DecodeResult::NeedMoreData;
                },
            }
        } else if marker == 127 {
            match cur.read_u64() {
                Some(v) => {
                    if v < 65536 {
                        return DecodeResult::Error(ProtocolError::InvalidLength);
                    }
                    v
                },
                None => {
                    return DecodeResult::NeedMoreData;
                },
            }
        } else {
            marker as u64
        };
        let mask_key = if masked {
            match cur.read_key() {
                Some(key) => Some(key),
                None => {
                    return DecodeResult::NeedMoreData;
                },
            }
        } else {
            None
        };
        if (cur.remaining() as u64) < length {
            return DecodeResult::NeedMoreData;
        }
        let raw = match cur.read_slice(length as usize) {
            Some(s) => s,
            None => {
                return DecodeResult::NeedMoreData;
            },
        };
        let payload = match &mask_key {
            Some(key) => mask_bytes(raw, key),
            None => slice_to_vec(raw),
        };
        let frame = WebsocketFrame { fin, opcode, mask_key, payload };
        proof {
            if masked {
                assert(mask_key.unwrap() =~= key_at(bytes@, 2 + extended_size(marker)));
            }
        }
        DecodeResult::Decoded(frame, cur.consumed())
    }
}

} // verus!

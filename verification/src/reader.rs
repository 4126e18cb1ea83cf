//! The incremental buffer reader: it gathers the bytes that the transport
//! delivers, in whatever pieces, and hands out one frame at a time.

use crate::buffer;
use crate::buffer::contents;
use crate::codec::after_frame;
use crate::codec::decode_frame;
use crate::codec::DecodeModel;
use crate::codec::DecodeResult;
use crate::error::ProtocolError;
use crate::error::WsError;
use crate::frame::WebsocketFrame;
use bytes::BytesMut;
use vstd::prelude::*;

verus! {

/// Bytes received and not yet consumed into a frame.
pub struct FrameReader {
    buf: BytesMut,
}

impl View for FrameReader {
    type V = Seq<u8>;

    closed spec fn view(&self) -> Seq<u8> {
        contents(self.buf)
    }
}

impl FrameReader {
    /// A reader that holds no bytes.
    pub fn new() -> (r: Self)
        ensures
            r@ == Seq::<u8>::empty(),
    {
        FrameReader { buf: buffer::with_capacity(1024) }
    }

    /// Takes in what one read of the transport returned. A read of zero
    /// bytes means that the peer has closed the connection, which is an
    /// error and not a reason to read again.
    pub fn feed(&mut self, data: &[u8]) -> (r: Result<(), WsError>)
        ensures
            data@.len() == 0 ==> r == Err::<(), WsError>(WsError::ConnectionClosed) && final(self)@
                == old(self)@,
            data@.len() > 0 ==> r == Ok::<(), WsError>(()) && final(self)@ == old(self)@ + data@,
    {
        if data.len() == 0 {
            return Err(WsError::ConnectionClosed);
        }
        buffer::put_slice(&mut self.buf, data);
        Ok(())
    }

    /// The bytes held.
    pub fn buffered(&self) -> (s: &[u8])
        ensures
            s@ == self@,
    {
        buffer::as_slice(&self.buf)
    }

    /// Tries to take one frame from the front of the buffer. A frame is
    /// removed whole, with exactly its own bytes; short of a whole frame, and
    /// on malformed bytes, the buffer stays as it is. `Ok(None)` asks for more
    /// data.
    pub fn next_frame(&mut self) -> (r: Result<Option<WebsocketFrame>, ProtocolError>)
        ensures
            final(self)@ == after_frame(old(self)@),
            match decode_frame(old(self)@) {
                DecodeModel::Decoded(f, _) => r matches Ok(Some(frame)) && frame@ == f,
                DecodeModel::NeedMoreData => r matches Ok(None),
                DecodeModel::Error(e) => r == Err::<Option<WebsocketFrame>, ProtocolError>(e),
            },
    {
        match WebsocketFrame::decode(buffer::as_slice(&self.buf)) {
            DecodeResult::Decoded(frame, consumed) => {
                buffer::advance(&mut self.buf, consumed);
                Ok(Some(frame))
            },
            DecodeResult::NeedMoreData => Ok(None),
            DecodeResult::Error(e) => Err(e),
        }
    }
}

} // verus!

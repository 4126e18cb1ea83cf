//! What holds of the connection state machine in every state and across
//! steps.

use crate::codec::decode_frame;
use crate::codec::DecodeModel;
use crate::codec_laws::lemma_decoded_valid;
use crate::connection::ConnectionModel;
use crate::connection::ConnectionState;
use crate::error::ProtocolError;
use crate::error::WsError;
use crate::frame::plain_frame;
use crate::frame::FrameModel;
use crate::message::EventModel;
use crate::message::MessageModel;
use crate::opcode::OpCode;
use vstd::prelude::*;

verus! {

/// A connection starts out well-formed, and no step makes it otherwise.
pub proof fn lemma_well_formed_is_kept(
    m: ConnectionModel,
    request: Seq<u8>,
    response: Seq<u8>,
    key: Seq<u8>,
    data: Seq<u8>,
    f: FrameModel,
)
    requires
        m.wf(),
    ensures
        ConnectionModel::initial().wf(),
        m.on_request(request).0.wf(),
        m.on_response(response, key).0.wf(),
        m.on_data(data).0.wf(),
        m.on_frame(f).0.wf(),
        m.take_frame().0.wf(),
        m.poll().0.wf(),
        m.on_send(f).0.wf(),
        m.moved_to(ConnectionState::Closed).wf(),
{
}

/// The lifecycle is linear: no step takes a connection back to an earlier
/// state.
pub proof fn lemma_states_never_go_back(
    m: ConnectionModel,
    request: Seq<u8>,
    response: Seq<u8>,
    key: Seq<u8>,
    data: Seq<u8>,
    f: FrameModel,
)
    ensures
        m.on_request(request).0.state.rank() >= m.state.rank(),
        m.on_response(response, key).0.state.rank() >= m.state.rank(),
        m.on_data(data).0.state.rank() >= m.state.rank(),
        m.on_frame(f).0.state.rank() >= m.state.rank(),
        m.take_frame().0.state.rank() >= m.state.rank(),
        m.poll().0.state.rank() >= m.state.rank(),
        m.on_send(f).0.state.rank() >= m.state.rank(),
        m.moved_to(ConnectionState::Closed).state.rank() >= m.state.rank(),
{
}

/// Once closed, always closed: every read, every send and every handshake
/// step on a Closed connection fails with `ConnectionClosed` and changes
/// nothing.
pub proof fn lemma_closed_is_final(
    m: ConnectionModel,
    request: Seq<u8>,
    response: Seq<u8>,
    key: Seq<u8>,
    data: Seq<u8>,
    f: FrameModel,
)
    requires
        m.state == ConnectionState::Closed,
    ensures
        m.on_request(request) == (m, Err::<Seq<char>, WsError>(WsError::ConnectionClosed)),
        m.on_response(response, key) == (m, Err::<(), WsError>(WsError::ConnectionClosed)),
        m.on_data(data) == (m, Err::<(), WsError>(WsError::ConnectionClosed)),
        m.on_frame(f) == (m, Err::<EventModel, WsError>(WsError::ConnectionClosed)),
        m.poll() == (m, Err::<EventModel, WsError>(WsError::ConnectionClosed)),
        m.on_send(f) == (m, Err::<Seq<u8>, WsError>(WsError::ConnectionClosed)),
{
}

/// Before the handshake is done only the handshake is valid: reads and sends
/// fail with `InvalidState` and change nothing.
pub proof fn lemma_handshake_comes_first(m: ConnectionModel, data: Seq<u8>, f: FrameModel)
    requires
        m.state == ConnectionState::Handshaking,
    ensures
        m.on_data(data) == (m, Err::<(), WsError>(WsError::InvalidState)),
        m.on_frame(f) == (m, Err::<EventModel, WsError>(WsError::InvalidState)),
        m.poll() == (m, Err::<EventModel, WsError>(WsError::InvalidState)),
        m.on_send(f) == (m, Err::<Seq<u8>, WsError>(WsError::InvalidState)),
{
}

/// A Continuation frame that arrives while no fragmented message is open is
/// a protocol error, and a fatal one: nothing is surfaced and the connection
/// is Closed.
pub proof fn lemma_continuation_without_start(m: ConnectionModel, f: FrameModel)
    requires
        m.reading(),
        m.fragment is None,
        f.opcode == OpCode::Continuation,
        f.valid(),
    ensures
        m.on_frame(f).1 == Err::<EventModel, WsError>(
            WsError::Protocol(ProtocolError::ContinuationWithoutStart),
        ),
        m.on_frame(f).0.state == ConnectionState::Closed,
{
}

/// A message that arrives in three fragments is surfaced once, whole, in
/// order and under the opcode of its first frame; until its last frame has
/// come nothing is surfaced, and after it no fragment is open.
pub proof fn lemma_reassembly(
    m: ConnectionModel,
    opcode: OpCode,
    first: Seq<u8>,
    middle: Seq<u8>,
    last: Seq<u8>,
)
    requires
        m.reading(),
        opcode == OpCode::Text || opcode == OpCode::Binary,
        first.len() <= u64::MAX,
        middle.len() <= u64::MAX,
        last.len() <= u64::MAX,
    ensures
        ({
            let start = FrameModel { fin: false, opcode, mask_key: None, payload: first };
            let more = FrameModel {
                fin: false,
                opcode: OpCode::Continuation,
                mask_key: None,
                payload: middle,
            };
            let end = plain_frame(OpCode::Continuation, last);
            let opened = m.on_frame(start);
            let grown = opened.0.on_frame(more);
            let done = grown.0.on_frame(end);
            &&& opened.1 == Ok::<EventModel, WsError>(EventModel::Partial)
            &&& opened.0.fragment == Some((opcode, first))
            &&& grown.1 == Ok::<EventModel, WsError>(EventModel::Partial)
            &&& grown.0.fragment == Some((opcode, first + middle))
            &&& done.1 == Ok::<EventModel, WsError>(
                EventModel::Message(MessageModel { opcode, payload: first + middle + last }),
            )
            &&& done.0.fragment is None
            &&& done.0.state == m.state
        }),
{
}

/// Control frames may come between the fragments of a message: a Ping is
/// answered by a Pong that echoes its payload, a Pong by nothing, and
/// neither touches the connection, the open fragment included.
pub proof fn lemma_ping_pong_leave_fragments(m: ConnectionModel, f: FrameModel)
    requires
        m.reading(),
        f.valid(),
    ensures
        f.opcode == OpCode::Ping ==> m.on_frame(f) == (
            m,
            Ok::<EventModel, WsError>(EventModel::Ping { pong: plain_frame(OpCode::Pong, f.payload) }),
        ),
        f.opcode == OpCode::Ping ==> plain_frame(OpCode::Pong, f.payload).valid(),
        f.opcode == OpCode::Pong ==> m.on_frame(f) == (
            m,
            Ok::<EventModel, WsError>(EventModel::Pong { payload: f.payload }),
        ),
{
}

/// A Close frame that is decoded while the connection is Open makes it
/// Closing and asks for one Close in answer, which echoes the payload; every
/// read after that reports `ConnectionClosed` and changes nothing.
pub proof fn lemma_close_while_open(m: ConnectionModel)
    requires
        m.wf(),
        m.state == ConnectionState::Open,
        decode_frame(m.buffer) matches DecodeModel::Decoded(f, _) && f.opcode == OpCode::Close,
    ensures
        ({
            let payload = decode_frame(m.buffer)->Decoded_0.payload;
            let after = m.poll().0;
            &&& m.poll().1 == Ok::<EventModel, WsError>(
                EventModel::Close { reply: Some(plain_frame(OpCode::Close, payload)) },
            )
            &&& plain_frame(OpCode::Close, payload).valid()
            &&& after.state == ConnectionState::Closing
            &&& after.close_sent
            &&& after.poll() == (after, Err::<EventModel, WsError>(WsError::ConnectionClosed))
        }),
{
    lemma_decoded_valid(m.buffer);
}

/// At most one Close is ever sent. A step asks for a Close in answer, or
/// lets the application send one, only where none has been sent; it records
/// that one has; and no step forgets it.
pub proof fn lemma_close_is_sent_at_most_once(
    m: ConnectionModel,
    request: Seq<u8>,
    response: Seq<u8>,
    key: Seq<u8>,
    data: Seq<u8>,
    f: FrameModel,
)
    requires
        m.wf(),
    ensures
        m.on_frame(f).1 matches Ok(EventModel::Close { reply: Some(_) }) ==> !m.close_sent
            && m.on_frame(f).0.close_sent,
        m.poll().1 matches Ok(EventModel::Close { reply: Some(_) }) ==> !m.close_sent
            && m.poll().0.close_sent,
        f.opcode == OpCode::Close && m.on_send(f).1 is Ok ==> !m.close_sent && m.on_send(
            f,
        ).0.close_sent,
        m.close_sent ==> {
            &&& m.on_request(request).0.close_sent
            &&& m.on_response(response, key).0.close_sent
            &&& m.on_data(data).0.close_sent
            &&& m.on_frame(f).0.close_sent
            &&& m.poll().0.close_sent
            &&& m.on_send(f).0.close_sent
            &&& m.moved_to(ConnectionState::Closed).close_sent
        },
{
}

/// The peer's answer to a Close of this side ends the exchange: the
/// connection is Closed and nothing more is to be sent.
pub proof fn lemma_close_answered(m: ConnectionModel, payload: Seq<u8>, f: FrameModel)
    requires
        m.wf(),
        m.state == ConnectionState::Open,
        payload.len() <= 125,
        f.opcode == OpCode::Close,
        f.valid(),
    ensures
        ({
            let closing = m.on_send(plain_frame(OpCode::Close, payload)).0;
            &&& closing.state == ConnectionState::Closing
            &&& closing.reading()
            &&& closing.on_frame(f).1 == Ok::<EventModel, WsError>(EventModel::Close { reply: None })
            &&& closing.on_frame(f).0.state == ConnectionState::Closed
        }),
{
}

} // verus!

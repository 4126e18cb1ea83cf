//! What holds of the codec as a whole: decoding undoes encoding, a decoded
//! frame does not depend on what follows it in the buffer, and a frame that
//! has arrived only in part is never mistaken for anything else.

use crate::buffer::be_bytes;
use crate::codec::after_frame;
use crate::codec::decode_frame;
use crate::codec::encode_frame;
use crate::codec::extended_length;
use crate::codec::extended_size;
use crate::codec::key_at;
use crate::codec::length_marker;
use crate::codec::DecodeModel;
use crate::error::ProtocolError;
use crate::cursor::be_value;
use crate::cursor::lemma_be_value_bound;
use crate::cursor::lemma_be_value_push;
use crate::cursor::pow256;
use crate::frame::FrameModel;
use crate::mask::apply_mask;
use crate::mask::lemma_mask_involution;
use crate::opcode::lemma_opcode_registry;
use crate::opcode::OpCode;
use vstd::prelude::*;

verus! {

/// Writing a number big-endian in `n` bytes and reading it back gives the
/// number, as long as it fits in `n` bytes.
pub proof fn lemma_be_round_trip(v: nat, n: nat)
    requires
        v < pow256(n),
    ensures
        be_bytes(v, n).len() == n,
        be_value(be_bytes(v, n)) == v,
    decreases n,
{
    if n > 0 {
        lemma_be_round_trip(v / 256, (n - 1) as nat);
        lemma_be_value_push(be_bytes(v / 256, (n - 1) as nat), (v % 256) as u8);
    }
}

/// Length of the wire form: two header bytes, the extended length, the key of
/// a masked frame, the payload.
pub proof fn lemma_encode_len(f: FrameModel)
    requires
        f.valid(),
    ensures
        encode_frame(f).len() == 2 + extended_size(length_marker(f.payload.len())) + (if f.masked() {
            4int
        } else {
            0int
        }) + f.payload.len(),
{
    let n = f.payload.len();
    reveal_with_fuel(pow256, 9);
    if n > 125 {
        lemma_be_round_trip(n, extended_size(length_marker(n)) as nat);
    }
}

/// Round trip: every valid frame decodes from its own wire form, and the
/// decoder takes exactly the bytes that the encoder wrote.
pub proof fn lemma_round_trip(f: FrameModel)
    requires
        f.valid(),
    ensures
        decode_frame(encode_frame(f)) == DecodeModel::Decoded(f, encode_frame(f).len()),
{
    lemma_decode_encoded(f, Seq::empty());
    assert(encode_frame(f) + Seq::<u8>::empty() =~= encode_frame(f));
}

/// A valid frame decodes from its wire form whatever bytes follow it.
pub proof fn lemma_decode_encoded(f: FrameModel, rest: Seq<u8>)
    requires
        f.valid(),
    ensures
        decode_frame(encode_frame(f) + rest) == DecodeModel::Decoded(f, encode_frame(f).len()),
{
    let e = encode_frame(f);
    let b = e + rest;
    let n = f.payload.len();
    let marker = length_marker(n);
    let ext = extended_size(marker);
    let key_pos: int = 2 + ext;
    let data_pos: int = key_pos + if f.masked() { 4int } else { 0int };
    lemma_encode_len(f);
    lemma_opcode_registry(f.opcode, b[0]);
    reveal_with_fuel(pow256, 9);
    assert(b[0] == e[0] && b[1] == e[1]);
    if n > 125 {
        lemma_be_round_trip(n, ext as nat);
        assert(b.subrange(2, key_pos) =~= extended_length(n));
    }
    assert(b.subrange(data_pos, data_pos + n) =~= match f.mask_key {
        Some(key) => apply_mask(f.payload, key),
        None => f.payload,
    });
    match f.mask_key {
        Some(key) => {
            assert(key_at(b, key_pos) =~= key);
            lemma_mask_involution(f.payload, key);
        },
        None => {},
    }
}

/// What has been decoded stays decoded: bytes that arrive behind a complete
/// frame, or behind a malformed header, do not change the outcome.
pub proof fn lemma_decode_prefix(b: Seq<u8>, rest: Seq<u8>)
    requires
        decode_frame(b) != DecodeModel::NeedMoreData,
    ensures
        decode_frame(b + rest) == decode_frame(b),
{
    let c = b + rest;
    let marker = b[1] % 128;
    let key_pos: int = 2 + extended_size(marker);
    let data_pos: int = key_pos + if b[1] >= 128 { 4int } else { 0int };
    assert(c[0] == b[0] && c[1] == b[1]);
    if b.len() >= key_pos {
        assert(c.subrange(2, key_pos) =~= b.subrange(2, key_pos));
        if let DecodeModel::Decoded(f, n) = decode_frame(b) {
            if b[1] >= 128 {
                assert(key_at(c, key_pos) =~= key_at(b, key_pos));
            }
            assert(c.subrange(data_pos, n as int) =~= b.subrange(data_pos, n as int));
        }
    }
}

/// A decoded frame is valid, and the decoder took no more than the buffer
/// held.
pub proof fn lemma_decoded_valid(b: Seq<u8>)
    ensures
        decode_frame(b) matches DecodeModel::Decoded(f, n) ==> f.valid() && 2 <= n <= b.len(),
{
    if let DecodeModel::Decoded(f, n) = decode_frame(b) {
        let marker = b[1] % 128;
        let key_pos: int = 2 + extended_size(marker);
        if marker > 125 {
            lemma_be_value_bound(b.subrange(2, key_pos));
            reveal_with_fuel(pow256, 9);
        }
    }
}

/// Pipelining: a buffer that holds two frames back to back decodes to the
/// first frame, and what is left to the second, with nothing left after it.
pub proof fn lemma_pipelining(f1: FrameModel, f2: FrameModel)
    requires
        f1.valid(),
        f2.valid(),
    ensures
        ({
            let buffer = encode_frame(f1) + encode_frame(f2);
            let n1 = encode_frame(f1).len();
            let n2 = encode_frame(f2).len();
            &&& decode_frame(buffer) == DecodeModel::Decoded(f1, n1)
            &&& after_frame(buffer) == encode_frame(f2)
            &&& decode_frame(after_frame(buffer)) == DecodeModel::Decoded(f2, n2)
            &&& after_frame(after_frame(buffer)) == Seq::<u8>::empty()
        }),
{
    let buffer = encode_frame(f1) + encode_frame(f2);
    lemma_decode_encoded(f1, encode_frame(f2));
    lemma_round_trip(f2);
    assert(buffer.skip(encode_frame(f1).len() as int) =~= encode_frame(f2));
    assert(encode_frame(f2).skip(encode_frame(f2).len() as int) =~= Seq::<u8>::empty());
}

/// An opcode value outside the registry is an error, whatever the rest of
/// the bytes say; it is never mapped to some opcode.
pub proof fn lemma_unknown_opcode(b: Seq<u8>)
    requires
        b.len() >= 2,
        OpCode::of_wire(b[0] % 16) is None,
    ensures
        decode_frame(b) == DecodeModel::Error(ProtocolError::UnknownOpcode),
        after_frame(b) == b,
{
}

/// Partial delivery: as long as any byte of a valid frame is missing, the
/// decoder asks for more data and the buffer is left as it is; once the rest
/// has arrived the decoder gives the frame.
pub proof fn lemma_partial_delivery(f: FrameModel, k: int)
    requires
        f.valid(),
        0 <= k < encode_frame(f).len(),
    ensures
        decode_frame(encode_frame(f).take(k)) == DecodeModel::NeedMoreData,
        after_frame(encode_frame(f).take(k)) == encode_frame(f).take(k),
        decode_frame(encode_frame(f).take(k) + encode_frame(f).skip(k)) == DecodeModel::Decoded(
            f,
            encode_frame(f).len(),
        ),
{
    let e = encode_frame(f);
    let p = e.take(k);
    let n = f.payload.len();
    let marker = length_marker(n);
    let ext = extended_size(marker);
    let key_pos: int = 2 + ext;
    lemma_encode_len(f);
    lemma_round_trip(f);
    assert(p + e.skip(k) =~= e);
    reveal_with_fuel(pow256, 9);
    if k >= 2 {
        lemma_opcode_registry(f.opcode, p[0]);
        assert(p[0] == e[0] && p[1] == e[1]);
        if k >= key_pos && n > 125 {
            lemma_be_round_trip(n, ext as nat);
            assert(p.subrange(2, key_pos) =~= extended_length(n));
        }
    }
}

} // verus!

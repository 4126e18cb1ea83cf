//! The growable byte buffer of the `bytes` crate, as far as the engine uses
//! it. Nothing in this file is proved: each function hands one call to the
//! outside crate and states what that call is documented to do.
//!
//! A buffer grows as bytes are appended. As with `Vec`, growing fails only
//! where the memory cannot be had, which the contracts do not speak of.

use bytes::Buf;
use bytes::BufMut;
use bytes::BytesMut;
use vstd::prelude::*;

verus! {

/// `bytes::BytesMut`, of which the engine sees nothing but the bytes held.
#[verifier::external_type_specification]
#[verifier::external_body]
pub struct ExBytesMut(bytes::BytesMut);

/// The bytes that a buffer holds, in order, the next one to be read first.
pub uninterp spec fn contents(buf: BytesMut) -> Seq<u8>;

/// The big-endian representation of `v` in `n` bytes.
pub open spec fn be_bytes(v: nat, n: nat) -> Seq<u8>
    decreases n,
{
    if n == 0 {
        Seq::empty()
    } else {
        be_bytes(v / 256, (n - 1) as nat).push((v % 256) as u8)
    }
}

/// `BytesMut::with_capacity`: a buffer that holds no bytes yet. The capacity
/// only says how much room is set aside; the call panics when it is more than
/// an allocation can be, which the precondition rules out.
#[verifier::external_body]
pub(crate) fn with_capacity(capacity: usize) -> (buf: BytesMut)
    requires
        capacity <= isize::MAX,
    ensures
        contents(buf) == Seq::<u8>::empty(),
{
    BytesMut::with_capacity(capacity)
}

/// `BufMut::put_u8` on a `BytesMut`: the byte is appended; the buffer grows
/// as needed.
#[verifier::external_body]
pub(crate) fn put_u8(buf: &mut BytesMut, v: u8)
    ensures
        contents(*final(buf)) == contents(*old(buf)).push(v),
{
    buf.put_u8(v)
}

/// `BufMut::put_u16` on a `BytesMut`: the two bytes of `v` are appended in
/// big-endian order.
#[verifier::external_body]
pub(crate) fn put_u16(buf: &mut BytesMut, v: u16)
    ensures
        contents(*final(buf)) == contents(*old(buf)) + be_bytes(v as nat, 2),
{
    buf.put_u16(v)
}

/// `BufMut::put_u64` on a `BytesMut`: the eight bytes of `v` are appended in
/// big-endian order.
#[verifier::external_body]
pub(crate) fn put_u64(buf: &mut BytesMut, v: u64)
    ensures
        contents(*final(buf)) == contents(*old(buf)) + be_bytes(v as nat, 8),
{
    buf.put_u64(v)
}

/// `BufMut::put_slice` on a `BytesMut`, which is `extend_from_slice`: the
/// bytes of `src` are appended in order.
#[verifier::external_body]
pub(crate) fn put_slice(buf: &mut BytesMut, src: &[u8])
    ensures
        contents(*final(buf)) == contents(*old(buf)) + src@,
{
    buf.put_slice(src)
}

/// `AsRef<[u8]>` of `BytesMut`: the held bytes as a slice.
#[verifier::external_body]
pub(crate) fn as_slice(buf: &BytesMut) -> (s: &[u8])
    ensures
        s@ == contents(*buf),
{
    buf.as_ref()
}

/// `Buf::advance` on a `BytesMut`: the first `n` bytes are dropped. The call
/// panics when `n` exceeds the number of bytes held, which the precondition
/// rules out.
#[verifier::external_body]
pub(crate) fn advance(buf: &mut BytesMut, n: usize)
    requires
        n <= contents(*old(buf)).len(),
    ensures
        contents(*final(buf)) == contents(*old(buf)).skip(n as int),
{
    buf.advance(n)
}

} // verus!

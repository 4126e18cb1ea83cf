//! SHA-1 and base64, which the opening handshake takes from the `sha1` and
//! `base64` crates. Nothing in this file is proved: each function hands one
//! call to the outside crate and gives its result a name.

use base64::Engine;
use sha1::Digest;
use sha1::Sha1;
use vstd::prelude::*;

verus! {

/// The SHA-1 digest of a message.
pub uninterp spec fn sha1_digest(message: Seq<u8>) -> Seq<u8>;

/// The base64 text of a byte sequence, standard alphabet, padded.
pub uninterp spec fn base64_standard(bytes: Seq<u8>) -> Seq<char>;

/// `Sha1::digest`: the digest of the whole message, which is 20 bytes long.
#[verifier::external_body]
pub(crate) fn sha1_of(message: &[u8]) -> (digest: Vec<u8>)
    ensures
        digest@ == sha1_digest(message@),
        digest@.len() == 20,
{
    Sha1::digest(message).to_vec()
}

/// `Engine::encode` of the `STANDARD` engine. The output has four characters
/// for every three bytes begun. The call panics when that length does not fit
/// in `usize`; the precondition rules that out.
#[verifier::external_body]
pub(crate) fn base64_of(bytes: &[u8]) -> (text: String)
    requires
        (bytes@.len() / 3 + 1) * 4 <= usize::MAX,
    ensures
        text@ == base64_standard(bytes@),
        text@.len() == (bytes@.len() + 2) / 3 * 4,
{
    base64::engine::general_purpose::STANDARD.encode(bytes)
}

} // verus!

//! XOR masking of frame payloads.

use vstd::prelude::*;

verus! {

/// The payload with byte `i` XOR-ed with byte `i mod 4` of the key.
pub open spec fn apply_mask(data: Seq<u8>, key: [u8; 4]) -> Seq<u8> {
    Seq::new(data.len(), |i: int| data[i] ^ key[i % 4])
}

/// Masks (or, being its own inverse, unmasks) `data` with `key`.
pub fn mask_bytes(data: &[u8], key: &[u8; 4]) -> (out: Vec<u8>)
    ensures
        out@ == apply_mask(data@, *key),
{
    let mut out: Vec<u8> = Vec::with_capacity(data.len());
    let mut i: usize = 0;
    while i < data.len()
        invariant
            i <= data.len(),
            out@ == apply_mask(data@.take(i as int), *key),
        decreases data.len() - i,
    {
        out.push(data[i] ^ key[i % 4]);
        i = i + 1;
        assert(out@ =~= apply_mask(data@.take(i as int), *key));
    }
    assert(data@.take(i as int) =~= data@);
    out
}

/// Masking keeps the length.
pub proof fn lemma_mask_len(data: Seq<u8>, key: [u8; 4])
    ensures
        apply_mask(data, key).len() == data.len(),
{
}

/// Masking is its own inverse: masking twice with the same key gives back
/// the bytes that went in.
pub proof fn lemma_mask_involution(data: Seq<u8>, key: [u8; 4])
    ensures
        apply_mask(apply_mask(data, key), key) == data,
{
    assert(forall|a: u8, b: u8| #[trigger] ((a ^ b) ^ b) == a) by (bit_vector);
    assert(apply_mask(apply_mask(data, key), key) =~= data);
}

} // verus!

//! A bounded read cursor over a byte slice: every read checks what is left
//! before it consumes anything.

use vstd::prelude::*;
use vstd::slice::slice_subrange;

verus! {

/// The number that a byte sequence stands for in big-endian order.
pub open spec fn be_value(s: Seq<u8>) -> nat
    decreases s.len(),
{
    if s.len() == 0 {
        0
    } else {
        be_value(s.drop_last()) * 256 + s.last() as nat
    }
}

/// 256 to the power `n`.
pub open spec fn pow256(n: nat) -> nat
    decreases n,
{
    if n == 0 {
        1
    } else {
        256 * pow256((n - 1) as nat)
    }
}

/// A big-endian number of `n` bytes is below 256 to the `n`.
pub proof fn lemma_be_value_bound(s: Seq<u8>)
    ensures
        be_value(s) < pow256(s.len()),
    decreases s.len(),
{
    if s.len() > 0 {
        lemma_be_value_bound(s.drop_last());
        assert(be_value(s) <= (pow256((s.len() - 1) as nat) - 1) * 256 + 255) by (nonlinear_arith)
            requires
                be_value(s) == be_value(s.drop_last()) * 256 + s.last() as nat,
                be_value(s.drop_last()) <= pow256((s.len() - 1) as nat) - 1,
                s.last() <= 255,
        ;
    }
}

/// Appending one byte shifts the number by eight bits and adds the byte.
pub proof fn lemma_be_value_push(s: Seq<u8>, b: u8)
    ensures
        be_value(s.push(b)) == be_value(s) * 256 + b as nat,
{
    assert(s.push(b).drop_last() =~= s);
}

/// Position in a byte slice, never past its end.
pub struct Cursor<'a> {
    data: &'a [u8],
    pos: usize,
}

impl<'a> Cursor<'a> {
    #[verifier::type_invariant]
    spec fn in_bounds(self) -> bool {
        self.pos <= self.data@.len()
    }

    /// The whole input, consumed part included.
    pub closed spec fn input(self) -> Seq<u8> {
        self.data@
    }

    /// Number of bytes consumed so far.
    pub closed spec fn position(self) -> nat {
        self.pos as nat
    }

    /// Number of bytes not yet consumed.
    pub open spec fn left(self) -> int {
        self.input().len() - self.position()
    }

    /// The next `n` bytes.
    pub open spec fn peek(self, n: nat) -> Seq<u8> {
        self.input().subrange(self.position() as int, (self.position() + n) as int)
    }

    /// A cursor at the start of `data`.
    pub fn new(data: &'a [u8]) -> (c: Self)
        ensures
            c.input() == data@,
            c.position() == 0,
    {
        Cursor { data, pos: 0 }
    }

    /// Number of bytes consumed so far.
    pub fn consumed(&self) -> (n: usize)
        ensures
            n == self.position(),
            n <= self.input().len(),
    {
        proof {
            use_type_invariant(self);
        }
        self.pos
    }

    /// Number of bytes not yet consumed.
    pub fn remaining(&self) -> (n: usize)
        ensures
            n == self.left(),
    {
        proof {
            use_type_invariant(self);
        }
        self.data.len() - self.pos
    }

    /// Consumes `n` bytes and hands them out, or consumes nothing when fewer
    /// than `n` are left.
    pub fn read_slice(&mut self, n: usize) -> (r: Option<&'a [u8]>)
        ensures
            final(self).input() == old(self).input(),
            r is Some <==> n <= old(self).left(),
            match r {
                Some(s) => s@ == old(self).peek(n as nat) && final(self).position() == old(self).position() + n,
                None => final(self).position() == old(self).position(),
            },
    {
        proof {
            use_type_invariant(&*self);
        }
        if self.data.len() - self.pos < n {
            return None;
        }
        let s = slice_subrange(self.data, self.pos, self.pos + n);
        self.pos = self.pos + n;
        Some(s)
    }

    /// Consumes one byte, if one is left.
    pub fn read_u8(&mut self) -> (r: Option<u8>)
        ensures
            final(self).input() == old(self).input(),
            r is Some <==> 1 <= old(self).left(),
            match r {
                Some(v) => v == old(self).input()[old(self).position() as int] && final(self).position() == old(self).position() + 1,
                None => final(self).position() == old(self).position(),
            },
    {
        match self.read_slice(1) {
            Some(s) => Some(s[0]),
            None => None,
        }
    }

    /// Consumes a 16-bit big-endian number, if two bytes are left.
    pub fn read_u16(&mut self) -> (r: Option<u16>)
        ensures
            final(self).input() == old(self).input(),
            r is Some <==> 2 <= old(self).left(),
            match r {
                Some(v) => v == be_value(old(self).peek(2)) && final(self).position() == old(self).position() + 2,
                None => final(self).position() == old(self).position(),
            },
    {
        match self.read_slice(2) {
            Some(s) => {
                proof {
                    reveal_with_fuel(be_value, 3);
                }
                Some((s[0] as u16) * 256 + (s[1] as u16))
            },
            None => None,
        }
    }

    /// Consumes a 64-bit big-endian number, if eight bytes are left.
    pub fn read_u64(&mut self) -> (r: Option<u64>)
        ensures
            final(self).input() == old(self).input(),
            r is Some <==> 8 <= old(self).left(),
            match r {
                Some(v) => v == be_value(old(self).peek(8)) && final(self).position() == old(self).position() + 8,
                None => final(self).position() == old(self).position(),
            },
    {
        match self.read_slice(8) {
            Some(s) => {
                let mut acc: u64 = 0;
                let mut i: usize = 0;
                while i < 8
                    invariant
                        i <= 8,
                        s@.len() == 8,
                        acc == be_value(s@.take(i as int)),
                    decreases 8 - i,
                {
                    proof {
                        lemma_be_value_bound(s@.take(i as int));
                        reveal_with_fuel(pow256, 8);
                        lemma_be_value_push(s@.take(i as int), s@[i as int]);
                        assert(s@.take(i as int).push(s@[i as int]) =~= s@.take(i + 1));
                    }
                    acc = acc * 256 + (s[i] as u64);
                    i = i + 1;
                }
                assert(s@.take(8) =~= s@);
                Some(acc)
            },
            None => None,
        }
    }

    /// Consumes a 4-byte masking key, if four bytes are left.
    pub fn read_key(&mut self) -> (r: Option<[u8; 4]>)
        ensures
            final(self).input() == old(self).input(),
            r is Some <==> 4 <= old(self).left(),
            match r {
                Some(k) => k@ == old(self).peek(4) && final(self).position() == old(self).position() + 4,
                None => final(self).position() == old(self).position(),
            },
    {
        match self.read_slice(4) {
            Some(s) => {
                let k = [s[0], s[1], s[2], s[3]];
                assert(k@ =~= s@);
                Some(k)
            },
            None => None,
        }
    }
}

} // verus!

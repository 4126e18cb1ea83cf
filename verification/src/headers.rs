//! Header lines of an HTTP upgrade message.
//!
//! The message is read as bytes. Lines end at a line feed; a carriage return
//! directly before that line feed belongs to the line ending. The first empty
//! line ends the headers. A line holds a header when it contains a colon
//! followed by a space: the name stands before the first such pair, the value
//! after it. A name that comes again replaces the earlier value.

use vstd::prelude::*;
use vstd::slice::slice_subrange;
use vstd::slice::slice_to_vec;
use vstd::string::StringSliceAdditionalSpecFns;

verus! {

/// Number of bytes before the first line feed of `b`, or the length of `b`
/// when it holds none.
pub open spec fn line_len(b: Seq<u8>) -> int
    decreases b.len(),
{
    if b.len() == 0 || b[0] == 10 {
        0
    } else {
        1 + line_len(b.drop_first())
    }
}

/// The first line of `b`, without its line ending.
pub open spec fn first_line(b: Seq<u8>) -> Seq<u8> {
    let n = line_len(b);
    if 0 < n < b.len() && b[n - 1] == 13 {
        b.take(n - 1)
    } else {
        b.take(n)
    }
}

/// What follows the first line of `b` and its line ending.
pub open spec fn after_first_line(b: Seq<u8>) -> Seq<u8> {
    let n = line_len(b);
    if 0 <= n < b.len() {
        b.skip(n + 1)
    } else {
        Seq::empty()
    }
}

/// Whether a colon followed by a space stands at offset `j` of `line`.
pub open spec fn separator_at(line: Seq<u8>, j: int) -> bool {
    0 <= j && j + 2 <= line.len() && line[j] == 58 && line[j + 1] == 32
}

/// Offset of the first colon-and-space pair in `line`, or the length of
/// `line` when it holds none.
pub open spec fn separator_pos(line: Seq<u8>) -> int
    decreases line.len(),
{
    if line.len() < 2 {
        line.len() as int
    } else if separator_at(line, 0) {
        0
    } else {
        1 + separator_pos(line.drop_first())
    }
}

/// Name and value of the header that `line` holds, if it holds one.
pub open spec fn split_header(line: Seq<u8>) -> Option<(Seq<u8>, Seq<u8>)> {
    let p = separator_pos(line);
    if 0 <= p && p + 2 <= line.len() {
        Some((line.take(p), line.skip(p + 2)))
    } else {
        None
    }
}

/// The headers `acc`, extended and overridden by the header lines at the
/// front of `b`, up to the first empty line.
pub open spec fn parse_headers(b: Seq<u8>, acc: Map<Seq<u8>, Seq<u8>>) -> Map<Seq<u8>, Seq<u8>>
    decreases b.len(),
{
    if b.len() == 0 || first_line(b).len() == 0 {
        acc
    } else {
        parse_headers(
            after_first_line(b),
            match split_header(first_line(b)) {
                Some((name, value)) => acc.insert(name, value),
                None => acc,
            },
        )
    }
}

/// The headers of a message, by name.
pub open spec fn headers_of(b: Seq<u8>) -> Map<Seq<u8>, Seq<u8>> {
    parse_headers(b, Map::empty())
}

/// The map that a list of name-value pairs stands for: later pairs win.
pub open spec fn entries_map(entries: Seq<(Vec<u8>, Vec<u8>)>) -> Map<Seq<u8>, Seq<u8>>
    decreases entries.len(),
{
    if entries.len() == 0 {
        Map::empty()
    } else {
        entries_map(entries.drop_last()).insert(entries.last().0@, entries.last().1@)
    }
}

/// Headers by name.
pub struct Headers {
    entries: Vec<(Vec<u8>, Vec<u8>)>,
}

impl View for Headers {
    type V = Map<Seq<u8>, Seq<u8>>;

    closed spec fn view(&self) -> Map<Seq<u8>, Seq<u8>> {
        entries_map(self.entries@)
    }
}

/// Whether two byte strings are equal.
pub fn bytes_eq(a: &[u8], b: &[u8]) -> (r: bool)
    ensures
        r == (a@ == b@),
{
    if a.len() != b.len() {
        return false;
    }
    let mut i: usize = 0;
    while i < a.len()
        invariant
            i <= a.len(),
            a.len() == b.len(),
            a@.take(i as int) == b@.take(i as int),
        decreases a.len() - i,
    {
        if a[i] != b[i] {
            return false;
        }
        assert(a@.take(i + 1) =~= a@.take(i as int).push(a@[i as int]));
        assert(b@.take(i + 1) =~= b@.take(i as int).push(b@[i as int]));
        i = i + 1;
    }
    assert(a@.take(i as int) =~= a@);
    assert(b@.take(i as int) =~= b@);
    true
}

impl Headers {
    /// No headers.
    pub fn new() -> (h: Self)
        ensures
            h@ == Map::<Seq<u8>, Seq<u8>>::empty(),
    {
        Headers { entries: Vec::new() }
    }

    /// Sets the value of `name`, replacing an earlier one.
    pub fn insert(&mut self, name: Vec<u8>, value: Vec<u8>)
        ensures
            final(self)@ == old(self)@.insert(name@, value@),
    {
        proof {
            assert(self.entries@.push((name, value)).drop_last() =~= self.entries@);
        }
        self.entries.push((name, value));
    }

    /// The value of `name`, if there is one.
    pub fn get(&self, name: &[u8]) -> (r: Option<&Vec<u8>>)
        ensures
            r is Some <==> self@.contains_key(name@),
            r matches Some(value) ==> value@ == self@[name@],
    {
        let mut i: usize = self.entries.len();
        assert(self.entries@.take(i as int) =~= self.entries@);
        while i > 0
            invariant
                i <= self.entries.len(),
                self@.contains_key(name@) <==> entries_map(
                    self.entries@.take(i as int),
                ).contains_key(name@),
                self@.contains_key(name@) ==> self@[name@] == entries_map(
                    self.entries@.take(i as int),
                )[name@],
            decreases i,
        {
            proof {
                assert(self.entries@.take(i as int).drop_last() =~= self.entries@.take(i - 1));
                assert(self.entries@.take(i as int).last() == self.entries@[i - 1]);
            }
            i = i - 1;
            if bytes_eq(self.entries[i].0.as_slice(), name) {
                return Some(&self.entries[i].1);
            }
        }
        None
    }
}

/// The first `n` bytes of `b` hold no line feed and a line feed, or the end
/// of `b`, follows them: then the first line of `b` is `n` bytes long.
pub proof fn lemma_line_len(b: Seq<u8>, n: int)
    requires
        0 <= n <= b.len(),
        forall|j: int| 0 <= j < n ==> b[j] != 10,
        n == b.len() || b[n] == 10,
    ensures
        line_len(b) == n,
    decreases n,
{
    if n > 0 {
        lemma_line_len(b.drop_first(), n - 1);
    }
}

/// No colon-and-space pair starts within the first `p` bytes of `line`, and
/// one starts at `p` or `line` ends before one could: then `p`, or the length
/// of `line`, is the separator's offset.
pub proof fn lemma_separator_pos(line: Seq<u8>, p: int)
    requires
        0 <= p <= line.len(),
        forall|j: int| 0 <= j < p ==> !#[trigger] separator_at(line, j),
        p + 2 <= line.len() ==> separator_at(line, p),
    ensures
        p + 2 <= line.len() ==> separator_pos(line) == p,
        p + 2 > line.len() ==> separator_pos(line) == line.len(),
    decreases line.len(),
{
    if line.len() >= 2 && p > 0 {
        let rest = line.drop_first();
        assert(!separator_at(line, 0));
        assert forall|j: int| 0 <= j < p - 1 implies !#[trigger] separator_at(rest, j) by {
            assert(!separator_at(line, j + 1));
        }
        lemma_separator_pos(rest, p - 1);
    }
}

/// Splits a line at its first colon-and-space pair.
pub fn split_line(line: &[u8]) -> (r: Option<(&[u8], &[u8])>)
    ensures
        match split_header(line@) {
            Some((name, value)) => r matches Some((n, v)) && n@ == name && v@ == value,
            None => r is None,
        },
{
    let mut p: usize = 0;
    while p < line.len() && p + 1 < line.len()
        invariant
            p <= line.len(),
            forall|j: int| 0 <= j < p ==> !#[trigger] separator_at(line@, j),
        decreases line.len() - p,
    {
        if line[p] == 58 && line[p + 1] == 32 {
            proof {
                lemma_separator_pos(line@, p as int);
            }
            let name = slice_subrange(line, 0, p);
            let value = slice_subrange(line, p + 2, line.len());
            return Some((name, value));
        }
        p = p + 1;
    }
    proof {
        lemma_separator_pos(line@, p as int);
    }
    None
}

/// Reads the header lines of a message, up to its first empty line.
pub fn process_headers(headers: &str) -> (map: Headers)
    ensures
        map@ == headers_of(headers.spec_bytes()),
{
    read_headers(headers.as_bytes())
}

/// Reads the header lines of a message given as raw bytes, up to its first
/// empty line.
pub fn read_headers(bytes: &[u8]) -> (map: Headers)
    ensures
        map@ == headers_of(bytes@),
{
    let mut map = Headers::new();
    let mut pos: usize = 0;
    assert(bytes@.skip(0) =~= bytes@);
    while pos < bytes.len()
        invariant
            pos <= bytes.len(),
            parse_headers(bytes@.skip(pos as int), map@) == headers_of(bytes@),
        decreases bytes.len() - pos,
    {
        let ghost rest = bytes@.skip(pos as int);
        let mut end: usize = pos;
        while end < bytes.len() && bytes[end] != 10
            invariant
                pos <= end <= bytes.len(),
                forall|j: int| pos <= j < end ==> bytes@[j] != 10,
            decreases bytes.len() - end,
        {
            end = end + 1;
        }
        let terminated = end < bytes.len();
        let stop = if terminated && end > pos && bytes[end - 1] == 13 {
            end - 1
        } else {
            end
        };
        let line = slice_subrange(bytes, pos, stop);
        let next = if terminated {
            end + 1
        } else {
            end
        };
        proof {
            lemma_line_len(rest, end - pos);
            assert(line@ =~= first_line(rest));
            assert(bytes@.skip(next as int) =~= after_first_line(rest));
        }
        if line.len() == 0 {
            return map;
        }
        match split_line(line) {
            Some((name, value)) => {
                map.insert(slice_to_vec(name), slice_to_vec(value));
            },
            None => {},
        }
        pos = next;
    }
    map
}

} // verus!

use vstd::prelude::*;

verus! {

/// A read position over a borrowed byte slice.
pub struct Cursor<'a> {
    pub data: &'a [u8],
    pub position: usize,
}

/// True when `t` stands in `s` at position `pos`.
pub open spec fn holds_at(s: Seq<u8>, pos: int, t: Seq<u8>) -> bool {
    &&& 0 <= pos
    &&& pos + t.len() <= s.len()
    &&& s.subrange(pos, pos + t.len()) == t
}

/// Splitting a concatenation that stands at `pos` into its two parts.
pub proof fn lemma_holds_at_split(s: Seq<u8>, pos: int, a: Seq<u8>, b: Seq<u8>)
    requires
        holds_at(s, pos, a + b),
    ensures
        holds_at(s, pos, a),
        holds_at(s, pos + a.len(), b),
{
    assert(s.subrange(pos, pos + a.len()) =~= (a + b).subrange(0, a.len() as int));
    assert((a + b).subrange(0, a.len() as int) =~= a);
    assert(s.subrange(pos + a.len(), pos + a.len() + b.len()) =~= (a + b).subrange(
        a.len() as int,
        (a + b).len() as int,
    ));
    assert((a + b).subrange(a.len() as int, (a + b).len() as int) =~= b);
}

/// A sequence stands whole at its own start.
pub proof fn lemma_holds_at_whole(s: Seq<u8>)
    ensures
        holds_at(s, 0, s),
{
    assert(s.subrange(0, s.len() as int) =~= s);
}

/// A byte that stands at `pos` is the byte of `s` there.
pub proof fn lemma_holds_at_index(s: Seq<u8>, pos: int, t: Seq<u8>, i: int)
    requires
        holds_at(s, pos, t),
        0 <= i < t.len(),
    ensures
        s[pos + i] == t[i],
{
    assert(s.subrange(pos, pos + t.len())[i] == s[pos + i]);
}

/// Reading one byte at `pos`.
pub open spec fn parse_byte(s: Seq<u8>, pos: int) -> Option<(u8, int)> {
    if 0 <= pos < s.len() {
        Some((s[pos], pos + 1))
    } else {
        None
    }
}

impl<'a> Cursor<'a> {
    /// A cursor at the start of `data`.
    pub fn new(data: &'a [u8]) -> (res: Cursor<'a>)
        ensures
            res.data@ == data@,
            res.position == 0,
    {
        Cursor { data, position: 0 }
    }

    /// The number of bytes left after the position (none when it stands past the end).
    pub fn remaining(&self) -> (res: usize)
        ensures
            res == if self.position <= self.data@.len() {
                self.data@.len() - self.position
            } else {
                0
            },
    {
        if self.position <= self.data.len() {
            self.data.len() - self.position
        } else {
            0
        }
    }
}

/// Reads the byte at the cursor and moves past it; `None`, with the cursor unmoved, at the end.
pub fn read_byte(buffer: &mut Cursor) -> (res: Option<u8>)
    ensures
        final(buffer).data@ == old(buffer).data@,
        match res {
            Some(b) => parse_byte(old(buffer).data@, old(buffer).position as int) == Some(
                (b, final(buffer).position as int),
            ),
            None => parse_byte(old(buffer).data@, old(buffer).position as int) is None
                && final(buffer).position == old(buffer).position,
        },
{
    if buffer.position < buffer.data.len() {
        let b = buffer.data[buffer.position];
        buffer.position = buffer.position + 1;
        Some(b)
    } else {
        None
    }
}

} // verus!

use vstd::prelude::*;
use vstd::utf8::{decode_utf8, encode_utf8, valid_utf8};

use crate::codec::buffer::Buffer;
use crate::codec::cursor::{holds_at, lemma_holds_at_split, Cursor};
use crate::codec::varint::{lemma_varint_cut, lemma_varint_i32_roundtrip, parse_varint, spec_varint, varint_stop, VarInt};

verus! {

/// Decodes UTF-8 bytes into a `String` (`String::from_utf8`); `None` exactly when the bytes
/// are not UTF-8. The contract restates the documentation in vstd's model of UTF-8.
#[verifier::external_body]
fn string_from_utf8(bytes: Vec<u8>) -> (res: Option<String>)
    ensures
        match res {
            Some(s) => valid_utf8(bytes@) && s@ == decode_utf8(bytes@),
            None => !valid_utf8(bytes@),
        },
{
    String::from_utf8(bytes).ok()
}

/// A string read at `pos`: a `VarInt` byte length, then that many bytes of UTF-8.
pub open spec fn parse_str(s: Seq<u8>, pos: int) -> Option<(Seq<char>, int)> {
    match parse_varint(s, pos) {
        Some((n, p)) => if n < 0 || p + n > s.len() {
            None
        } else if valid_utf8(s.subrange(p, p + n)) {
            Some((decode_utf8(s.subrange(p, p + n)), p + n))
        } else {
            None
        },
        None => None,
    }
}

/// Where a failed string read at `pos` leaves the cursor: where the length read stopped, after
/// a length that is negative or longer than the input, or after the bytes that are not UTF-8.
pub open spec fn str_stop(s: Seq<u8>, pos: int) -> int {
    match parse_varint(s, pos) {
        Some((n, p)) => if n < 0 || p + n > s.len() {
            p
        } else {
            p + n
        },
        None => varint_stop(s, pos),
    }
}

/// The wire form of a string: its UTF-8 byte length as a `VarInt`, then the bytes.
pub open spec fn spec_str(v: Seq<char>) -> Seq<u8> {
    spec_varint(encode_utf8(v).len() as i32) + encode_utf8(v)
}

/// Strings whose UTF-8 length fits the `VarInt` length prefix.
pub open spec fn str_fits(v: Seq<char>) -> bool {
    encode_utf8(v).len() <= i32::MAX
}

pub proof fn lemma_str_roundtrip(s: Seq<u8>, pos: int, v: Seq<char>)
    requires
        str_fits(v),
        holds_at(s, pos, spec_str(v)),
    ensures
        parse_str(s, pos) == Some((v, pos + spec_str(v).len())),
{
    let bytes = encode_utf8(v);
    let n = bytes.len() as i32;
    lemma_holds_at_split(s, pos, spec_varint(n), bytes);
    lemma_varint_i32_roundtrip(s, pos, n);
    let p = pos + spec_varint(n).len();
    assert(s.subrange(p, p + n) == bytes);
    vstd::utf8::encode_utf8_valid_utf8(v);
    vstd::utf8::encode_utf8_decode_utf8(v);
}

/// A string cut short by the end of the input does not read.
pub proof fn lemma_str_cut(s: Seq<u8>, pos: int, v: Seq<char>)
    requires
        str_fits(v),
        0 <= pos <= s.len() < pos + spec_str(v).len(),
        holds_at(s, pos, spec_str(v).take(s.len() - pos)),
    ensures
        parse_str(s, pos) is None,
{
    let bytes = encode_utf8(v);
    let n = bytes.len() as i32;
    let vb = spec_varint(n);
    let m = s.len() - pos;
    if m < vb.len() {
        assert(spec_str(v).take(m) =~= vb.take(m));
        lemma_varint_cut(s, pos, n);
    } else {
        assert(spec_str(v).take(m) =~= vb + bytes.take(m - vb.len()));
        lemma_holds_at_split(s, pos, vb, bytes.take(m - vb.len()));
        lemma_varint_i32_roundtrip(s, pos, n);
    }
}

/// Reads a string at the cursor and moves past it.
pub fn read_str(buffer: &mut Cursor) -> (res: Option<String>)
    ensures
        final(buffer).data@ == old(buffer).data@,
        match res {
            Some(v) => parse_str(old(buffer).data@, old(buffer).position as int) == Some(
                (v@, final(buffer).position as int),
            ) && final(buffer).position <= final(buffer).data@.len(),
            None => {
                &&& parse_str(old(buffer).data@, old(buffer).position as int) is None
                &&& final(buffer).position as int == str_stop(
                    old(buffer).data@,
                    old(buffer).position as int,
                )
                &&& old(buffer).position <= old(buffer).data@.len() ==> final(buffer).position
                    <= final(buffer).data@.len()
            },
        },
{
    let ghost s = buffer.data@;
    let n = match i32::read_varint(buffer) {
        Some(n) => n,
        None => {
            return None;
        },
    };
    if n < 0 {
        return None;
    }
    let len = n as usize;
    let p = buffer.position;
    if p > buffer.data.len() || buffer.data.len() - p < len {
        return None;
    }
    let mut bytes: Vec<u8> = Vec::with_capacity(len);
    let mut i: usize = 0;
    while i < len
        invariant
            buffer.data@ == s,
            p + len <= buffer.data.len(),
            i <= len,
            bytes@ == s.subrange(p as int, p + i),
        decreases len - i,
    {
        bytes.push(buffer.data[p + i]);
        i = i + 1;
        assert(bytes@ =~= s.subrange(p as int, p + i));
    }
    buffer.position = p + len;
    string_from_utf8(bytes)
}

/// Appends the wire form of a string.
pub fn write_str(buffer: &mut Vec<u8>, s: &str)
    ensures
        final(buffer)@ == old(buffer)@ + spec_str(s@),
{
    let bytes = s.as_bytes();
    let ghost start = buffer@;
    (bytes.len() as i32).write_varint(buffer);
    let ghost mid = buffer@;
    let mut i: usize = 0;
    while i < bytes.len()
        invariant
            bytes@ == encode_utf8(s@),
            mid == start + spec_varint(bytes@.len() as i32),
            i <= bytes@.len(),
            buffer@ == mid + bytes@.subrange(0, i as int),
        decreases bytes@.len() - i,
    {
        buffer.push(bytes[i]);
        i = i + 1;
        assert(buffer@ =~= mid + bytes@.subrange(0, i as int));
    }
    assert(bytes@.subrange(0, bytes@.len() as int) =~= bytes@);
    assert(buffer@ =~= start + spec_str(s@));
}

impl Buffer for String {
    open spec fn spec_parse(s: Seq<u8>, pos: int) -> Option<(Seq<char>, int)> {
        parse_str(s, pos)
    }

    open spec fn spec_serialize(v: Seq<char>) -> Seq<u8> {
        spec_str(v)
    }

    open spec fn spec_wf(v: Seq<char>) -> bool {
        str_fits(v)
    }

    open spec fn spec_stop(s: Seq<u8>, pos: int) -> int {
        str_stop(s, pos)
    }

    proof fn lemma_roundtrip(s: Seq<u8>, pos: int, v: Seq<char>) {
        lemma_str_roundtrip(s, pos, v);
    }

    fn read_buf(buffer: &mut Cursor) -> (res: Option<String>) {
        read_str(buffer)
    }

    fn write_buf(&self, buffer: &mut Vec<u8>) {
        write_str(buffer, self.as_str());
    }
}

/// Whether two strings are the same, compared byte by byte.
pub fn str_equal(a: &str, b: &str) -> (res: bool)
    ensures
        res == (a@ == b@),
{
    let x = a.as_bytes();
    let y = b.as_bytes();
    proof {
        vstd::utf8::encode_utf8_decode_utf8(a@);
        vstd::utf8::encode_utf8_decode_utf8(b@);
    }
    if x.len() != y.len() {
        return false;
    }
    let mut i: usize = 0;
    while i < x.len()
        invariant
            x@ == encode_utf8(a@),
            y@ == encode_utf8(b@),
            x@.len() == y@.len(),
            i <= x@.len(),
            x@.subrange(0, i as int) == y@.subrange(0, i as int),
        decreases x@.len() - i,
    {
        if x[i] != y[i] {
            return false;
        }
        i = i + 1;
        assert(x@.subrange(0, i as int) =~= x@.subrange(0, i - 1).push(x@[i - 1]));
        assert(y@.subrange(0, i as int) =~= y@.subrange(0, i - 1).push(y@[i - 1]));
    }
    assert(x@ =~= x@.subrange(0, x@.len() as int));
    assert(y@ =~= y@.subrange(0, y@.len() as int));
    true
}

} // verus!

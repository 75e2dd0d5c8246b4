use vstd::prelude::*;

use crate::codec::cursor::{holds_at, lemma_holds_at_index, parse_byte, read_byte, Cursor};

verus! {

/// Reading and writing of a value in its wire form.
///
/// `spec_parse` says what reading at a position yields (the value, by its deep view, and
/// the position after it); `spec_serialize` says which bytes writing appends.
pub trait Buffer: Sized + DeepView {
    spec fn spec_parse(s: Seq<u8>, pos: int) -> Option<(<Self as DeepView>::V, int)>;

    spec fn spec_serialize(v: <Self as DeepView>::V) -> Seq<u8>;

    /// The values that read back as written.
    spec fn spec_wf(v: <Self as DeepView>::V) -> bool;

    /// Where the cursor stands after a read at `pos` that fails: past what was taken before
    /// the failure.
    spec fn spec_stop(s: Seq<u8>, pos: int) -> int;

    /// Reading the bytes that writing `v` appends gives `v` back, wherever they stand and
    /// whatever follows them.
    proof fn lemma_roundtrip(s: Seq<u8>, pos: int, v: <Self as DeepView>::V)
        requires
            Self::spec_wf(v),
            holds_at(s, pos, Self::spec_serialize(v)),
        ensures
            Self::spec_parse(s, pos) == Some((v, pos + Self::spec_serialize(v).len())),
    ;

    /// Reads a value at the cursor and moves past it.
    fn read_buf(buffer: &mut Cursor) -> (res: Option<Self>)
        ensures
            final(buffer).data@ == old(buffer).data@,
            match res {
                Some(v) => {
                    &&& Self::spec_parse(old(buffer).data@, old(buffer).position as int) == Some(
                        (v.deep_view(), final(buffer).position as int),
                    )
                    &&& final(buffer).position <= final(buffer).data@.len()
                },
                None => {
                    &&& Self::spec_parse(old(buffer).data@, old(buffer).position as int) is None
                    &&& final(buffer).position as int == Self::spec_stop(
                        old(buffer).data@,
                        old(buffer).position as int,
                    )
                    &&& old(buffer).position <= old(buffer).data@.len() ==> final(buffer).position
                        <= final(buffer).data@.len()
                },
            },
    ;

    /// Appends the wire form of the value.
    fn write_buf(&self, buffer: &mut Vec<u8>)
        ensures
            final(buffer)@ == old(buffer)@ + Self::spec_serialize(self.deep_view()),
    ;
}

impl Buffer for u8 {
    open spec fn spec_parse(s: Seq<u8>, pos: int) -> Option<(u8, int)> {
        parse_byte(s, pos)
    }

    open spec fn spec_serialize(v: u8) -> Seq<u8> {
        seq![v]
    }

    open spec fn spec_wf(v: u8) -> bool {
        true
    }

    open spec fn spec_stop(s: Seq<u8>, pos: int) -> int {
        pos
    }

    proof fn lemma_roundtrip(s: Seq<u8>, pos: int, v: u8) {
        lemma_holds_at_index(s, pos, seq![v], 0);
    }

    fn read_buf(buffer: &mut Cursor) -> (res: Option<u8>) {
        read_byte(buffer)
    }

    fn write_buf(&self, buffer: &mut Vec<u8>) {
        buffer.push(*self);
    }
}

impl Buffer for i8 {
    open spec fn spec_parse(s: Seq<u8>, pos: int) -> Option<(i8, int)> {
        match parse_byte(s, pos) {
            Some((b, p)) => Some((b as i8, p)),
            None => None,
        }
    }

    open spec fn spec_serialize(v: i8) -> Seq<u8> {
        seq![v as u8]
    }

    open spec fn spec_wf(v: i8) -> bool {
        true
    }

    open spec fn spec_stop(s: Seq<u8>, pos: int) -> int {
        pos
    }

    proof fn lemma_roundtrip(s: Seq<u8>, pos: int, v: i8) {
        lemma_holds_at_index(s, pos, seq![v as u8], 0);
        assert((v as u8) as i8 == v) by (bit_vector);
    }

    fn read_buf(buffer: &mut Cursor) -> (res: Option<i8>) {
        match read_byte(buffer) {
            Some(b) => Some(b as i8),
            None => None,
        }
    }

    fn write_buf(&self, buffer: &mut Vec<u8>) {
        buffer.push(*self as u8);
    }
}

impl Buffer for bool {
    /// A byte 0 or 1; any other byte is refused.
    open spec fn spec_parse(s: Seq<u8>, pos: int) -> Option<(bool, int)> {
        match parse_byte(s, pos) {
            Some((b, p)) => if b > 1 {
                None
            } else {
                Some((b != 0, p))
            },
            None => None,
        }
    }

    open spec fn spec_serialize(v: bool) -> Seq<u8> {
        if v {
            seq![1u8]
        } else {
            seq![0u8]
        }
    }

    open spec fn spec_wf(v: bool) -> bool {
        true
    }

    open spec fn spec_stop(s: Seq<u8>, pos: int) -> int {
        if parse_byte(s, pos) is Some {
            pos + 1
        } else {
            pos
        }
    }

    proof fn lemma_roundtrip(s: Seq<u8>, pos: int, v: bool) {
        lemma_holds_at_index(s, pos, Self::spec_serialize(v), 0);
    }

    fn read_buf(buffer: &mut Cursor) -> (res: Option<bool>) {
        let byte = match read_byte(buffer) {
            Some(b) => b,
            None => {
                return None;
            },
        };
        if byte > 1 {
            return None;
        }
        Some(byte != 0)
    }

    fn write_buf(&self, buffer: &mut Vec<u8>) {
        let byte: u8 = if *self {
            1
        } else {
            0
        };
        buffer.push(byte);
    }
}

/// The two bytes of a big-endian 16-bit value.
pub open spec fn be16(v: u16) -> Seq<u8> {
    seq![(v >> 8) as u8, v as u8]
}

/// The four bytes of a big-endian 32-bit value.
pub open spec fn be32(v: u32) -> Seq<u8> {
    seq![(v >> 24) as u8, (v >> 16) as u8, (v >> 8) as u8, v as u8]
}

/// The eight bytes of a big-endian 64-bit value.
pub open spec fn be64(v: u64) -> Seq<u8> {
    seq![
        (v >> 56) as u8,
        (v >> 48) as u8,
        (v >> 40) as u8,
        (v >> 32) as u8,
        (v >> 24) as u8,
        (v >> 16) as u8,
        (v >> 8) as u8,
        v as u8,
    ]
}

/// A big-endian 16-bit value read at `pos`.
pub open spec fn parse_be16(s: Seq<u8>, pos: int) -> Option<(u16, int)> {
    if 0 <= pos && pos + 2 <= s.len() {
        Some((((s[pos] as u16) << 8u16) | (s[pos + 1] as u16), pos + 2))
    } else {
        None
    }
}

/// A big-endian 32-bit value read at `pos`.
pub open spec fn parse_be32(s: Seq<u8>, pos: int) -> Option<(u32, int)> {
    if 0 <= pos && pos + 4 <= s.len() {
        Some(
            (
                ((s[pos] as u32) << 24u32) | ((s[pos + 1] as u32) << 16u32) | ((s[pos + 2] as u32)
                    << 8u32) | (s[pos + 3] as u32),
                pos + 4,
            ),
        )
    } else {
        None
    }
}

/// A big-endian 64-bit value read at `pos`.
pub open spec fn parse_be64(s: Seq<u8>, pos: int) -> Option<(u64, int)> {
    if 0 <= pos && pos + 8 <= s.len() {
        Some(
            (
                ((s[pos] as u64) << 56u64) | ((s[pos + 1] as u64) << 48u64) | ((s[pos + 2] as u64)
                    << 40u64) | ((s[pos + 3] as u64) << 32u64) | ((s[pos + 4] as u64) << 24u64)
                    | ((s[pos + 5] as u64) << 16u64) | ((s[pos + 6] as u64) << 8u64) | (s[pos
                    + 7] as u64),
                pos + 8,
            ),
        )
    } else {
        None
    }
}

pub proof fn lemma_be16_roundtrip(s: Seq<u8>, pos: int, v: u16)
    requires
        holds_at(s, pos, be16(v)),
    ensures
        parse_be16(s, pos) == Some((v, pos + 2)),
{
    lemma_holds_at_index(s, pos, be16(v), 0);
    lemma_holds_at_index(s, pos, be16(v), 1);
    assert(((((v >> 8) as u8) as u16) << 8u16) | ((v as u8) as u16) == v) by (bit_vector);
}

pub proof fn lemma_be32_roundtrip(s: Seq<u8>, pos: int, v: u32)
    requires
        holds_at(s, pos, be32(v)),
    ensures
        parse_be32(s, pos) == Some((v, pos + 4)),
{
    let t = be32(v);
    assert forall|i: int| 0 <= i < 4 implies s[pos + i] == #[trigger] t[i] by {
        lemma_holds_at_index(s, pos, t, i);
    }
    assert(((((v >> 24) as u8) as u32) << 24u32) | ((((v >> 16) as u8) as u32) << 16u32) | ((((v
        >> 8) as u8) as u32) << 8u32) | ((v as u8) as u32) == v) by (bit_vector);
}

pub proof fn lemma_be64_roundtrip(s: Seq<u8>, pos: int, v: u64)
    requires
        holds_at(s, pos, be64(v)),
    ensures
        parse_be64(s, pos) == Some((v, pos + 8)),
{
    let t = be64(v);
    assert forall|i: int| 0 <= i < 8 implies s[pos + i] == #[trigger] t[i] by {
        lemma_holds_at_index(s, pos, t, i);
    }
    assert(((((v >> 56) as u8) as u64) << 56u64) | ((((v >> 48) as u8) as u64) << 48u64) | ((((v
        >> 40) as u8) as u64) << 40u64) | ((((v >> 32) as u8) as u64) << 32u64) | ((((v >> 24)
        as u8) as u64) << 24u64) | ((((v >> 16) as u8) as u64) << 16u64) | ((((v >> 8) as u8)
        as u64) << 8u64) | ((v as u8) as u64) == v) by (bit_vector);
}

/// Reads a big-endian 16-bit value.
pub fn read_be16(buffer: &mut Cursor) -> (res: Option<u16>)
    ensures
        final(buffer).data@ == old(buffer).data@,
        match res {
            Some(v) => parse_be16(old(buffer).data@, old(buffer).position as int) == Some(
                (v, final(buffer).position as int),
            ) && final(buffer).position <= final(buffer).data@.len(),
            None => parse_be16(old(buffer).data@, old(buffer).position as int) is None
                && final(buffer).position == old(buffer).position,
        },
{
    let p = buffer.position;
    if p > buffer.data.len() || buffer.data.len() - p < 2 {
        return None;
    }
    let d = buffer.data;
    let v = ((d[p] as u16) << 8u16) | (d[p + 1] as u16);
    buffer.position = p + 2;
    Some(v)
}

/// Reads a big-endian 32-bit value.
pub fn read_be32(buffer: &mut Cursor) -> (res: Option<u32>)
    ensures
        final(buffer).data@ == old(buffer).data@,
        match res {
            Some(v) => parse_be32(old(buffer).data@, old(buffer).position as int) == Some(
                (v, final(buffer).position as int),
            ) && final(buffer).position <= final(buffer).data@.len(),
            None => parse_be32(old(buffer).data@, old(buffer).position as int) is None
                && final(buffer).position == old(buffer).position,
        },
{
    let p = buffer.position;
    if p > buffer.data.len() || buffer.data.len() - p < 4 {
        return None;
    }
    let d = buffer.data;
    let v = ((d[p] as u32) << 24u32) | ((d[p + 1] as u32) << 16u32) | ((d[p + 2] as u32) << 8u32)
        | (d[p + 3] as u32);
    buffer.position = p + 4;
    Some(v)
}

/// Reads a big-endian 64-bit value.
pub fn read_be64(buffer: &mut Cursor) -> (res: Option<u64>)
    ensures
        final(buffer).data@ == old(buffer).data@,
        match res {
            Some(v) => parse_be64(old(buffer).data@, old(buffer).position as int) == Some(
                (v, final(buffer).position as int),
            ) && final(buffer).position <= final(buffer).data@.len(),
            None => parse_be64(old(buffer).data@, old(buffer).position as int) is None
                && final(buffer).position == old(buffer).position,
        },
{
    let p = buffer.position;
    if p > buffer.data.len() || buffer.data.len() - p < 8 {
        return None;
    }
    let d = buffer.data;
    let v = ((d[p] as u64) << 56u64) | ((d[p + 1] as u64) << 48u64) | ((d[p + 2] as u64) << 40u64)
        | ((d[p + 3] as u64) << 32u64) | ((d[p + 4] as u64) << 24u64) | ((d[p + 5] as u64)
        << 16u64) | ((d[p + 6] as u64) << 8u64) | (d[p + 7] as u64);
    buffer.position = p + 8;
    Some(v)
}

/// Appends a big-endian 16-bit value.
pub fn write_be16(v: u16, buffer: &mut Vec<u8>)
    ensures
        final(buffer)@ == old(buffer)@ + be16(v),
{
    buffer.push((v >> 8) as u8);
    buffer.push(v as u8);
}

/// Appends a big-endian 32-bit value.
pub fn write_be32(v: u32, buffer: &mut Vec<u8>)
    ensures
        final(buffer)@ == old(buffer)@ + be32(v),
{
    buffer.push((v >> 24) as u8);
    buffer.push((v >> 16) as u8);
    buffer.push((v >> 8) as u8);
    buffer.push(v as u8);
}

/// Appends a big-endian 64-bit value.
pub fn write_be64(v: u64, buffer: &mut Vec<u8>)
    ensures
        final(buffer)@ == old(buffer)@ + be64(v),
{
    buffer.push((v >> 56) as u8);
    buffer.push((v >> 48) as u8);
    buffer.push((v >> 40) as u8);
    buffer.push((v >> 32) as u8);
    buffer.push((v >> 24) as u8);
    buffer.push((v >> 16) as u8);
    buffer.push((v >> 8) as u8);
    buffer.push(v as u8);
}

impl Buffer for u16 {
    open spec fn spec_parse(s: Seq<u8>, pos: int) -> Option<(u16, int)> {
        match parse_be16(s, pos) {
            Some((v, p)) => Some((v as u16, p)),
            None => None,
        }
    }

    open spec fn spec_serialize(v: u16) -> Seq<u8> {
        be16(v as u16)
    }

    open spec fn spec_wf(v: u16) -> bool {
        true
    }

    open spec fn spec_stop(s: Seq<u8>, pos: int) -> int {
        pos
    }

    proof fn lemma_roundtrip(s: Seq<u8>, pos: int, v: u16) {
        lemma_be16_roundtrip(s, pos, v as u16);
        assert((v as u16) as u16 == v) by (bit_vector);
    }

    fn read_buf(buffer: &mut Cursor) -> (res: Option<u16>) {
        match read_be16(buffer) {
            Some(v) => Some(v as u16),
            None => None,
        }
    }

    fn write_buf(&self, buffer: &mut Vec<u8>) {
        write_be16(*self as u16, buffer);
    }
}

impl Buffer for i16 {
    open spec fn spec_parse(s: Seq<u8>, pos: int) -> Option<(i16, int)> {
        match parse_be16(s, pos) {
            Some((v, p)) => Some((v as i16, p)),
            None => None,
        }
    }

    open spec fn spec_serialize(v: i16) -> Seq<u8> {
        be16(v as u16)
    }

    open spec fn spec_wf(v: i16) -> bool {
        true
    }

    open spec fn spec_stop(s: Seq<u8>, pos: int) -> int {
        pos
    }

    proof fn lemma_roundtrip(s: Seq<u8>, pos: int, v: i16) {
        lemma_be16_roundtrip(s, pos, v as u16);
        assert((v as u16) as i16 == v) by (bit_vector);
    }

    fn read_buf(buffer: &mut Cursor) -> (res: Option<i16>) {
        match read_be16(buffer) {
            Some(v) => Some(v as i16),
            None => None,
        }
    }

    fn write_buf(&self, buffer: &mut Vec<u8>) {
        write_be16(*self as u16, buffer);
    }
}

impl Buffer for u32 {
    open spec fn spec_parse(s: Seq<u8>, pos: int) -> Option<(u32, int)> {
        match parse_be32(s, pos) {
            Some((v, p)) => Some((v as u32, p)),
            None => None,
        }
    }

    open spec fn spec_serialize(v: u32) -> Seq<u8> {
        be32(v as u32)
    }

    open spec fn spec_wf(v: u32) -> bool {
        true
    }

    open spec fn spec_stop(s: Seq<u8>, pos: int) -> int {
        pos
    }

    proof fn lemma_roundtrip(s: Seq<u8>, pos: int, v: u32) {
        lemma_be32_roundtrip(s, pos, v as u32);
        assert((v as u32) as u32 == v) by (bit_vector);
    }

    fn read_buf(buffer: &mut Cursor) -> (res: Option<u32>) {
        match read_be32(buffer) {
            Some(v) => Some(v as u32),
            None => None,
        }
    }

    fn write_buf(&self, buffer: &mut Vec<u8>) {
        write_be32(*self as u32, buffer);
    }
}

impl Buffer for i32 {
    open spec fn spec_parse(s: Seq<u8>, pos: int) -> Option<(i32, int)> {
        match parse_be32(s, pos) {
            Some((v, p)) => Some((v as i32, p)),
            None => None,
        }
    }

    open spec fn spec_serialize(v: i32) -> Seq<u8> {
        be32(v as u32)
    }

    open spec fn spec_wf(v: i32) -> bool {
        true
    }

    open spec fn spec_stop(s: Seq<u8>, pos: int) -> int {
        pos
    }

    proof fn lemma_roundtrip(s: Seq<u8>, pos: int, v: i32) {
        lemma_be32_roundtrip(s, pos, v as u32);
        assert((v as u32) as i32 == v) by (bit_vector);
    }

    fn read_buf(buffer: &mut Cursor) -> (res: Option<i32>) {
        match read_be32(buffer) {
            Some(v) => Some(v as i32),
            None => None,
        }
    }

    fn write_buf(&self, buffer: &mut Vec<u8>) {
        write_be32(*self as u32, buffer);
    }
}

impl Buffer for u64 {
    open spec fn spec_parse(s: Seq<u8>, pos: int) -> Option<(u64, int)> {
        match parse_be64(s, pos) {
            Some((v, p)) => Some((v as u64, p)),
            None => None,
        }
    }

    open spec fn spec_serialize(v: u64) -> Seq<u8> {
        be64(v as u64)
    }

    open spec fn spec_wf(v: u64) -> bool {
        true
    }

    open spec fn spec_stop(s: Seq<u8>, pos: int) -> int {
        pos
    }

    proof fn lemma_roundtrip(s: Seq<u8>, pos: int, v: u64) {
        lemma_be64_roundtrip(s, pos, v as u64);
        assert((v as u64) as u64 == v) by (bit_vector);
    }

    fn read_buf(buffer: &mut Cursor) -> (res: Option<u64>) {
        match read_be64(buffer) {
            Some(v) => Some(v as u64),
            None => None,
        }
    }

    fn write_buf(&self, buffer: &mut Vec<u8>) {
        write_be64(*self as u64, buffer);
    }
}

impl Buffer for i64 {
    open spec fn spec_parse(s: Seq<u8>, pos: int) -> Option<(i64, int)> {
        match parse_be64(s, pos) {
            Some((v, p)) => Some((v as i64, p)),
            None => None,
        }
    }

    open spec fn spec_serialize(v: i64) -> Seq<u8> {
        be64(v as u64)
    }

    open spec fn spec_wf(v: i64) -> bool {
        true
    }

    open spec fn spec_stop(s: Seq<u8>, pos: int) -> int {
        pos
    }

    proof fn lemma_roundtrip(s: Seq<u8>, pos: int, v: i64) {
        lemma_be64_roundtrip(s, pos, v as u64);
        assert((v as u64) as i64 == v) by (bit_vector);
    }

    fn read_buf(buffer: &mut Cursor) -> (res: Option<i64>) {
        match read_be64(buffer) {
            Some(v) => Some(v as i64),
            None => None,
        }
    }

    fn write_buf(&self, buffer: &mut Vec<u8>) {
        write_be64(*self as u64, buffer);
    }
}

} // verus!

use vstd::prelude::*;

use crate::codec::cursor::{holds_at, lemma_holds_at_index, lemma_holds_at_split, parse_byte, read_byte, Cursor};

verus! {

/// Low seven bits of each VarInt byte carry the value.
pub const SEGMENT_BITS: u8 = 0x7f;

/// The high bit of a VarInt byte says that another byte follows.
pub const CONTINUE_BIT: u8 = 0x80;

/// The bytes that encode `v` (an `i32` taken as its 32 bits), least significant group first.
pub open spec fn varint_bytes(v: u32) -> Seq<u8>
    decreases v,
{
    if v < 128 {
        seq![v as u8]
    } else {
        proof {
            assert(v >= 128 ==> v >> 7 < v) by (bit_vector);
        }
        seq![((v & 0x7f) | 0x80) as u8] + varint_bytes(v >> 7)
    }
}

/// The VarInt encoding of `v`.
pub open spec fn spec_varint(v: i32) -> Seq<u8> {
    varint_bytes(v as u32)
}

/// Reads VarInt bytes from `s` starting at `pos`, where `k` groups were already read into `acc`.
/// At most five bytes are read; a fifth byte with the continue bit set is an error.
pub open spec fn varint_from(s: Seq<u8>, pos: int, k: nat, acc: u32) -> Option<(u32, int)>
    decreases 5 - k,
{
    if k >= 5 || pos < 0 || pos + k >= s.len() {
        None
    } else {
        let b = s[pos + k];
        let acc2 = acc | (((b & 0x7f) as u32) << ((7 * k) as u32));
        if b & 0x80 == 0 {
            Some((acc2, pos + k + 1))
        } else if k + 1 >= 5 {
            None
        } else {
            varint_from(s, pos, k + 1, acc2)
        }
    }
}

/// Where a VarInt read that started at `pos` and already took `k` bytes stops when it fails:
/// at the first missing byte, or after a fifth byte with the continue bit set.
pub open spec fn varint_stop_from(s: Seq<u8>, pos: int, k: nat) -> int
    decreases 5 - k,
{
    if k >= 5 || pos + k >= s.len() {
        pos + k
    } else if s[pos + k] & 0x80 == 0 {
        pos + k + 1
    } else if k + 1 >= 5 {
        pos + k + 1
    } else {
        varint_stop_from(s, pos, k + 1)
    }
}

/// Where a failed VarInt read at `pos` leaves the cursor.
pub open spec fn varint_stop(s: Seq<u8>, pos: int) -> int {
    varint_stop_from(s, pos, 0)
}

/// Where the cursor stands after a VarInt read at `pos`, whether it succeeds or fails.
pub open spec fn varint_end(s: Seq<u8>, pos: int) -> int {
    match parse_varint(s, pos) {
        Some((_, p)) => p,
        None => varint_stop(s, pos),
    }
}

/// What reading a VarInt from `s` at `pos` yields: the value and the position after it.
pub open spec fn parse_varint(s: Seq<u8>, pos: int) -> Option<(i32, int)> {
    match varint_from(s, pos, 0, 0) {
        Some((v, p)) => Some((v as i32, p)),
        None => None,
    }
}

/// Reading back the `VarInt` encoding of `v` wherever it stands gives `v`.
pub proof fn lemma_varint_i32_roundtrip(s: Seq<u8>, pos: int, v: i32)
    requires
        holds_at(s, pos, spec_varint(v)),
    ensures
        parse_varint(s, pos) == Some((v, pos + spec_varint(v).len())),
{
    lemma_varint_roundtrip(s, pos, v as u32);
    assert((v as u32) as i32 == v) by (bit_vector);
}

/// Every `u32` takes one to five VarInt bytes; the bytes, group by group.
pub proof fn lemma_varint_bytes_shape(v: u32)
    ensures
        1 <= varint_bytes(v).len() <= 5,
        v < 0x80 ==> varint_bytes(v) == seq![v as u8],
        0x80 <= v < 0x4000 ==> varint_bytes(v) == seq![((v & 0x7f) | 0x80) as u8, (v >> 7) as u8],
        0x4000 <= v < 0x20_0000 ==> varint_bytes(v) == seq![
            ((v & 0x7f) | 0x80) as u8,
            (((v >> 7) & 0x7f) | 0x80) as u8,
            (v >> 14) as u8,
        ],
        0x20_0000 <= v < 0x1000_0000 ==> varint_bytes(v) == seq![
            ((v & 0x7f) | 0x80) as u8,
            (((v >> 7) & 0x7f) | 0x80) as u8,
            (((v >> 14) & 0x7f) | 0x80) as u8,
            (v >> 21) as u8,
        ],
        0x1000_0000 <= v ==> varint_bytes(v) == seq![
            ((v & 0x7f) | 0x80) as u8,
            (((v >> 7) & 0x7f) | 0x80) as u8,
            (((v >> 14) & 0x7f) | 0x80) as u8,
            (((v >> 21) & 0x7f) | 0x80) as u8,
            (v >> 28) as u8,
        ],
{
    reveal_with_fuel(varint_bytes, 5);
    assert(v >= 0x80 ==> ((v >> 7) >= 0x80 <==> v >= 0x4000)) by (bit_vector);
    assert(v >= 0x80 ==> ((v >> 7) >> 7 == v >> 14) && ((v >> 7) >= 0x80 ==> ((v >> 14) >= 0x80 <==> v >= 0x20_0000))) by (bit_vector);
    assert(v >= 0x4000 ==> ((v >> 14) >> 7 == v >> 21) && ((v >> 14) >= 0x80 ==> ((v >> 21) >= 0x80 <==> v >= 0x1000_0000))) by (bit_vector);
    assert(v >= 0x20_0000 ==> ((v >> 21) >> 7 == v >> 28) && (v >> 28) < 0x80) by (bit_vector);
}

/// Reading back the VarInt bytes of `v` wherever they stand gives `v` and the position after them.
pub proof fn lemma_varint_roundtrip(s: Seq<u8>, pos: int, v: u32)
    requires
        holds_at(s, pos, varint_bytes(v)),
    ensures
        varint_from(s, pos, 0, 0) == Some((v, pos + varint_bytes(v).len())),
{
    lemma_varint_bytes_shape(v);
    reveal_with_fuel(varint_from, 5);
    let t = varint_bytes(v);
    assert forall|i: int| 0 <= i < t.len() implies s[pos + i] == #[trigger] t[i] by {
        lemma_holds_at_index(s, pos, t, i);
    }
    if v < 0x80 {
        let b0 = t[0];
        assert(b0 == v as u8);
        assert(v < 0x80 ==> (v as u8) & 0x80 == 0 && (0u32 | ((((v as u8) & 0x7f) as u32) << 0u32)) == v) by (bit_vector);
    } else if v < 0x4000 {
        let b0 = t[0];
        let b1 = t[1];
        assert(0x80 <= v < 0x4000 ==> {
            let c0 = ((v & 0x7f) | 0x80) as u8;
            let c1 = (v >> 7) as u8;
            let a0 = 0u32 | (((c0 & 0x7f) as u32) << 0u32);
            &&& c0 & 0x80 != 0
            &&& c1 & 0x80 == 0
            &&& (a0 | (((c1 & 0x7f) as u32) << 7u32)) == v
        }) by (bit_vector);
    } else if v < 0x20_0000 {
        let b0 = t[0];
        let b1 = t[1];
        let b2 = t[2];
        assert(0x4000 <= v < 0x20_0000 ==> {
            let c0 = ((v & 0x7f) | 0x80) as u8;
            let c1 = (((v >> 7) & 0x7f) | 0x80) as u8;
            let c2 = (v >> 14) as u8;
            let a0 = 0u32 | (((c0 & 0x7f) as u32) << 0u32);
            let a1 = a0 | (((c1 & 0x7f) as u32) << 7u32);
            &&& c0 & 0x80 != 0
            &&& c1 & 0x80 != 0
            &&& c2 & 0x80 == 0
            &&& (a1 | (((c2 & 0x7f) as u32) << 14u32)) == v
        }) by (bit_vector);
    } else if v < 0x1000_0000 {
        let b0 = t[0];
        let b1 = t[1];
        let b2 = t[2];
        let b3 = t[3];
        assert(0x20_0000 <= v < 0x1000_0000 ==> {
            let c0 = ((v & 0x7f) | 0x80) as u8;
            let c1 = (((v >> 7) & 0x7f) | 0x80) as u8;
            let c2 = (((v >> 14) & 0x7f) | 0x80) as u8;
            let c3 = (v >> 21) as u8;
            let a0 = 0u32 | (((c0 & 0x7f) as u32) << 0u32);
            let a1 = a0 | (((c1 & 0x7f) as u32) << 7u32);
            let a2 = a1 | (((c2 & 0x7f) as u32) << 14u32);
            &&& c0 & 0x80 != 0
            &&& c1 & 0x80 != 0
            &&& c2 & 0x80 != 0
            &&& c3 & 0x80 == 0
            &&& (a2 | (((c3 & 0x7f) as u32) << 21u32)) == v
        }) by (bit_vector);
    } else {
        let b0 = t[0];
        let b1 = t[1];
        let b2 = t[2];
        let b3 = t[3];
        let b4 = t[4];
        assert(0x1000_0000 <= v ==> {
            let c0 = ((v & 0x7f) | 0x80) as u8;
            let c1 = (((v >> 7) & 0x7f) | 0x80) as u8;
            let c2 = (((v >> 14) & 0x7f) | 0x80) as u8;
            let c3 = (((v >> 21) & 0x7f) | 0x80) as u8;
            let c4 = (v >> 28) as u8;
            let a0 = 0u32 | (((c0 & 0x7f) as u32) << 0u32);
            let a1 = a0 | (((c1 & 0x7f) as u32) << 7u32);
            let a2 = a1 | (((c2 & 0x7f) as u32) << 14u32);
            let a3 = a2 | (((c3 & 0x7f) as u32) << 21u32);
            &&& c0 & 0x80 != 0
            &&& c1 & 0x80 != 0
            &&& c2 & 0x80 != 0
            &&& c3 & 0x80 != 0
            &&& c4 & 0x80 == 0
            &&& (a3 | (((c4 & 0x7f) as u32) << 28u32)) == v
        }) by (bit_vector);
    }
}

/// The VarInt bytes of `w`, cut after `m` bytes and standing at the end of the input, do not
/// read: every byte but the last carries the continue bit.
proof fn lemma_varint_from_cut(s: Seq<u8>, pos: int, k: nat, acc: u32, w: u32, m: int)
    requires
        pos >= 0,
        0 <= m < varint_bytes(w).len(),
        s.len() == pos + k + m,
        holds_at(s, pos + k, varint_bytes(w).take(m)),
    ensures
        varint_from(s, pos, k, acc) is None,
    decreases m,
{
    if k < 5 && m > 0 {
        let t = varint_bytes(w);
        assert(w >= 128) by {
            if w < 128 {
                assert(t.len() == 1);
            }
        }
        let c = ((w & 0x7f) | 0x80) as u8;
        let rest = varint_bytes(w >> 7);
        assert(t == seq![c] + rest);
        assert(t.take(m) =~= seq![c] + rest.take(m - 1));
        lemma_holds_at_split(s, pos + k, seq![c], rest.take(m - 1));
        lemma_holds_at_index(s, pos + k, seq![c], 0);
        assert(((((w & 0x7f) | 0x80) as u8) & 0x80) != 0) by (bit_vector);
        let b = s[pos + k];
        let acc2 = acc | (((b & 0x7f) as u32) << ((7 * k) as u32));
        if k + 1 < 5 {
            lemma_varint_from_cut(s, pos, k + 1, acc2, w >> 7, m - 1);
        }
    }
}

/// A `VarInt` cut short by the end of the input does not read.
pub proof fn lemma_varint_cut(s: Seq<u8>, pos: int, v: i32)
    requires
        0 <= pos <= s.len() < pos + spec_varint(v).len(),
        holds_at(s, pos, spec_varint(v).take(s.len() - pos)),
    ensures
        parse_varint(s, pos) is None,
{
    lemma_varint_from_cut(s, pos, 0, 0, v as u32, s.len() - pos);
}

/// Reading and writing of the `VarInt` wire type.
pub trait VarInt: Sized {
    /// Reads a `VarInt` at the cursor and moves past it.
    fn read_varint(buffer: &mut Cursor) -> (res: Option<i32>)
        ensures
            final(buffer).data@ == old(buffer).data@,
            match res {
                Some(v) => parse_varint(old(buffer).data@, old(buffer).position as int) == Some(
                    (v, final(buffer).position as int),
                ) && final(buffer).position <= final(buffer).data@.len(),
                None => {
                    &&& parse_varint(old(buffer).data@, old(buffer).position as int) is None
                    &&& final(buffer).position as int == varint_stop(
                        old(buffer).data@,
                        old(buffer).position as int,
                    )
                    &&& old(buffer).position <= old(buffer).data@.len() ==> final(buffer).position
                        <= final(buffer).data@.len()
                },
            },
    ;

    /// Appends the `VarInt` encoding of the value.
    fn write_varint(&self, buffer: &mut Vec<u8>)
        ensures
            final(buffer)@ == old(buffer)@ + spec_varint(self.varint_value()),
    ;

    /// The `i32` that is encoded.
    spec fn varint_value(&self) -> i32;
}

impl VarInt for i32 {
    open spec fn varint_value(&self) -> i32 {
        *self
    }

    fn read_varint(buffer: &mut Cursor) -> (res: Option<i32>) {
        let ghost s = buffer.data@;
        let ghost p0 = buffer.position as int;
        let mut value: u32 = 0;
        let mut position: u32 = 0;
        let mut k: usize = 0;
        loop
            invariant
                buffer.data@ == s,
                s == old(buffer).data@,
                p0 == old(buffer).position as int,
                k < 5,
                position == 7 * k,
                buffer.position as int == p0 + k,
                p0 >= 0,
                varint_from(s, p0, 0, 0) == varint_from(s, p0, k as nat, value),
                varint_stop(s, p0) == varint_stop_from(s, p0, k as nat),
                p0 <= s.len() ==> p0 + k <= s.len(),
            decreases 5 - k,
        {
            let byte = match read_byte(buffer) {
                Some(b) => b,
                None => {
                    assert(varint_from(s, p0, k as nat, value) is None);
                    return None;
                },
            };
            let ghost v0 = value;
            value = value | (((byte & SEGMENT_BITS) as u32) << position);
            assert(byte == s[p0 + k]);
            assert(value == v0 | (((byte & 0x7f) as u32) << ((7 * k) as u32)));
            if (byte & CONTINUE_BIT) == 0 {
                assert(varint_from(s, p0, k as nat, v0) == Some((value, p0 + k + 1)));
                return Some(value as i32);
            }
            position = position + 7;
            k = k + 1;
            if position >= 32 {
                return None;
            }
        }
    }

    fn write_varint(&self, buffer: &mut Vec<u8>) {
        let ghost start = buffer@;
        let mut value: u32 = *self as u32;
        if value == 0 {
            buffer.push(0u8);
            proof {
                reveal_with_fuel(varint_bytes, 1);
            }
            return ;
        }
        while value != 0
            invariant
                value != 0 ==> buffer@ + varint_bytes(value) == start + varint_bytes(*self as u32),
                value == 0 ==> buffer@ == start + varint_bytes(*self as u32),
            decreases value,
        {
            let ghost before = buffer@;
            let ghost v0 = value;
            let mut byte: u8 = (value & (SEGMENT_BITS as u32)) as u8;
            value = value >> 7;
            if value != 0 {
                byte = byte | CONTINUE_BIT;
            }
            buffer.push(byte);
            proof {
                assert(v0 >> 7 < v0 || v0 == 0) by (bit_vector);
                assert(v0 != 0 ==> (v0 >> 7 != 0 <==> v0 >= 128)) by (bit_vector);
                assert(v0 < 128 ==> (v0 & 0x7f) as u8 == v0 as u8) by (bit_vector);
                assert((v0 & 0x7f) as u8 | 0x80 == ((v0 & 0x7f) | 0x80) as u8) by (bit_vector);
                if value == 0 {
                    assert(varint_bytes(v0) == seq![byte]);
                    assert(buffer@ =~= before + varint_bytes(v0));
                } else {
                    assert(varint_bytes(v0) == seq![byte] + varint_bytes(value));
                    assert(buffer@ + varint_bytes(value) =~= before + varint_bytes(v0));
                }
            }
        }
    }
}

} // verus!

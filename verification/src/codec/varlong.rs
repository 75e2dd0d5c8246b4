use vstd::prelude::*;

use crate::codec::cursor::{holds_at, lemma_holds_at_index, lemma_holds_at_split, read_byte, Cursor};
use crate::codec::varint::{CONTINUE_BIT, SEGMENT_BITS};

verus! {

/// The bytes that encode `v` (an `i64` taken as its 64 bits), least significant group first.
pub open spec fn varlong_bytes(v: u64) -> Seq<u8>
    decreases v,
{
    if v < 128 {
        seq![v as u8]
    } else {
        proof {
            assert(v >= 128 ==> v >> 7 < v) by (bit_vector);
        }
        seq![((v & 0x7f) | 0x80) as u8] + varlong_bytes(v >> 7)
    }
}

/// The VarLong encoding of `v`.
pub open spec fn spec_varlong(v: i64) -> Seq<u8> {
    varlong_bytes(v as u64)
}

/// Reads VarLong bytes from `s` starting at `pos`, where `k` groups were already read into
/// `acc`. At most ten bytes are read; a tenth byte with the continue bit set is an error.
pub open spec fn varlong_from(s: Seq<u8>, pos: int, k: nat, acc: u64) -> Option<(u64, int)>
    decreases 10 - k,
{
    if k >= 10 || pos < 0 || pos + k >= s.len() {
        None
    } else {
        let b = s[pos + k];
        let acc2 = acc | (((b & 0x7f) as u64) << ((7 * k) as u64));
        if b & 0x80 == 0 {
            Some((acc2, pos + k + 1))
        } else if k + 1 >= 10 {
            None
        } else {
            varlong_from(s, pos, k + 1, acc2)
        }
    }
}

/// What reading a VarLong from `s` at `pos` yields: the value and the position after it.
pub open spec fn parse_varlong(s: Seq<u8>, pos: int) -> Option<(i64, int)> {
    match varlong_from(s, pos, 0, 0) {
        Some((v, p)) => Some((v as i64, p)),
        None => None,
    }
}

/// The groups of `v` below bit `n`.
pub open spec fn low_bits(v: u64, n: u64) -> u64 {
    v & (((1u64 << n) - 1) as u64)
}

/// One byte of the encoding: the group of `v` at bit `n`, and how the bits read so far grow.
proof fn lemma_varlong_byte(v: u64, n: u64)
    requires
        n <= 63,
    ensures
        ({
            let w = v >> n;
            w < 128 ==> {
                let b = w as u8;
                &&& b & 0x80 == 0
                &&& (low_bits(v, n) | (((b & 0x7f) as u64) << n)) == v
            }
        }),
        ({
            let w = v >> n;
            w >= 128 ==> {
                let b = ((w & 0x7f) | 0x80) as u8;
                &&& n <= 56
                &&& b & 0x80 != 0
                &&& (low_bits(v, n) | (((b & 0x7f) as u64) << n)) == low_bits(v, (n + 7) as u64)
                &&& w >> 7 == v >> ((n + 7) as u64)
            }
        }),
{
    assert(n <= 63 ==> ((v >> n) < 128 ==> ((v >> n) as u8) & 0x80 == 0 && ((v & (((1u64 << n) - 1) as u64)) | (((((v >> n) as u8) & 0x7f) as u64) << n)) == v)) by (bit_vector);
    assert(n <= 63 ==> ((v >> n) >= 128 ==> n <= 56)) by (bit_vector);
    assert(n <= 56 ==> ((v >> n) >= 128 ==> {
        let b = (((v >> n) & 0x7f) | 0x80) as u8;
        &&& b & 0x80 != 0
        &&& ((v & (((1u64 << n) - 1) as u64)) | (((b & 0x7f) as u64) << n)) == (v & (((1u64 << ((n + 7) as u64)) - 1) as u64))
        &&& (v >> n) >> 7 == v >> ((n + 7) as u64)
    })) by (bit_vector);
}

/// Reading the rest of the encoding of `v`, from its `k`th group on, completes `v`.
proof fn lemma_varlong_from_rest(s: Seq<u8>, pos: int, k: nat, v: u64)
    requires
        k < 10,
        pos >= 0,
        holds_at(s, pos + k, varlong_bytes(v >> ((7 * k) as u64))),
    ensures
        varlong_from(s, pos, k, low_bits(v, (7 * k) as u64)) == Some(
            (v, pos + k + varlong_bytes(v >> ((7 * k) as u64)).len()),
        ),
    decreases 10 - k,
{
    let n = (7 * k) as u64;
    let w = v >> n;
    lemma_varlong_byte(v, n);
    let t = varlong_bytes(w);
    if w < 128 {
        assert(t == seq![w as u8]);
        lemma_holds_at_index(s, pos + k, t, 0);
    } else {
        let c = ((w & 0x7f) | 0x80) as u8;
        let rest = varlong_bytes(w >> 7);
        assert(t == seq![c] + rest);
        lemma_holds_at_split(s, pos + k, seq![c], rest);
        lemma_holds_at_index(s, pos + k, seq![c], 0);
        assert((7 * (k + 1)) as u64 == (n + 7) as u64);
        lemma_varlong_from_rest(s, pos, k + 1, v);
    }
}

/// Reading back the VarLong bytes of `v` wherever they stand gives `v` and the position after them.
pub proof fn lemma_varlong_roundtrip(s: Seq<u8>, pos: int, v: u64)
    requires
        holds_at(s, pos, varlong_bytes(v)),
    ensures
        varlong_from(s, pos, 0, 0) == Some((v, pos + varlong_bytes(v).len())),
{
    assert(v >> 0u64 == v && (v & (((1u64 << 0u64) - 1) as u64)) == 0) by (bit_vector);
    lemma_varlong_from_rest(s, pos, 0, v);
}

/// Reading back the `VarLong` encoding of `v` wherever it stands gives `v`.
pub proof fn lemma_varlong_i64_roundtrip(s: Seq<u8>, pos: int, v: i64)
    requires
        holds_at(s, pos, spec_varlong(v)),
    ensures
        parse_varlong(s, pos) == Some((v, pos + spec_varlong(v).len())),
{
    lemma_varlong_roundtrip(s, pos, v as u64);
    assert((v as u64) as i64 == v) by (bit_vector);
}

/// Reading and writing of the `VarLong` wire type.
pub trait VarLong: Sized {
    /// Reads a `VarLong` at the cursor and moves past it.
    fn read_varlong(buffer: &mut Cursor) -> (res: Option<i64>)
        ensures
            final(buffer).data@ == old(buffer).data@,
            match res {
                Some(v) => parse_varlong(old(buffer).data@, old(buffer).position as int) == Some(
                    (v, final(buffer).position as int),
                ) && final(buffer).position <= final(buffer).data@.len(),
                None => parse_varlong(old(buffer).data@, old(buffer).position as int) is None,
            },
    ;

    /// Appends the `VarLong` encoding of the value.
    fn write_varlong(&self, buffer: &mut Vec<u8>)
        ensures
            final(buffer)@ == old(buffer)@ + spec_varlong(self.varlong_value()),
    ;

    /// The `i64` that is encoded.
    spec fn varlong_value(&self) -> i64;
}

impl VarLong for i64 {
    open spec fn varlong_value(&self) -> i64 {
        *self
    }

    fn read_varlong(buffer: &mut Cursor) -> (res: Option<i64>) {
        let ghost s = buffer.data@;
        let ghost p0 = buffer.position as int;
        let mut value: u64 = 0;
        let mut position: u32 = 0;
        let mut k: usize = 0;
        loop
            invariant
                buffer.data@ == s,
                s == old(buffer).data@,
                p0 == old(buffer).position as int,
                k < 10,
                position == 7 * k,
                buffer.position as int == p0 + k,
                p0 >= 0,
                varlong_from(s, p0, 0, 0) == varlong_from(s, p0, k as nat, value),
            decreases 10 - k,
        {
            let byte = match read_byte(buffer) {
                Some(b) => b,
                None => {
                    assert(varlong_from(s, p0, k as nat, value) is None);
                    return None;
                },
            };
            let ghost v0 = value;
            value = value | (((byte & SEGMENT_BITS) as u64) << position);
            assert(byte == s[p0 + k]);
            assert(value == v0 | (((byte & 0x7f) as u64) << ((7 * k) as u64)));
            if (byte & CONTINUE_BIT) == 0 {
                assert(varlong_from(s, p0, k as nat, v0) == Some((value, p0 + k + 1)));
                return Some(value as i64);
            }
            position = position + 7;
            k = k + 1;
            if position >= 64 {
                return None;
            }
        }
    }

    fn write_varlong(&self, buffer: &mut Vec<u8>) {
        let ghost start = buffer@;
        let mut value: u64 = *self as u64;
        if value == 0 {
            buffer.push(0u8);
            proof {
                reveal_with_fuel(varlong_bytes, 1);
            }
            return ;
        }
        while value != 0
            invariant
                value != 0 ==> buffer@ + varlong_bytes(value) == start + varlong_bytes(*self as u64),
                value == 0 ==> buffer@ == start + varlong_bytes(*self as u64),
            decreases value,
        {
            let ghost before = buffer@;
            let ghost v0 = value;
            let mut byte: u8 = (value & (SEGMENT_BITS as u64)) as u8;
            value = value >> 7;
            if value != 0 {
                byte = byte | CONTINUE_BIT;
            }
            buffer.push(byte);
            proof {
                assert(v0 >> 7 < v0 || v0 == 0) by (bit_vector);
                assert(v0 != 0 ==> (v0 >> 7 != 0 <==> v0 >= 128)) by (bit_vector);
                assert(v0 < 128 ==> (v0 & 0x7f) as u8 == v0 as u8) by (bit_vector);
                assert((v0 & 0x7f) as u8 | 0x80 == ((v0 & 0x7f) | 0x80) as u8) by (bit_vector);
                if value == 0 {
                    assert(varlong_bytes(v0) == seq![byte]);
                    assert(buffer@ =~= before + varlong_bytes(v0));
                } else {
                    assert(varlong_bytes(v0) == seq![byte] + varlong_bytes(value));
                    assert(buffer@ + varlong_bytes(value) =~= before + varlong_bytes(v0));
                }
            }
        }
    }
}

} // verus!

use vstd::prelude::*;

use crate::codec::buffer::{be32, lemma_be32_roundtrip, parse_be32, read_be32, write_be32, Buffer};
use crate::codec::cursor::{holds_at, lemma_holds_at_split, Cursor};

verus! {

/// A 128-bit universally unique identifier, held by its bits.
#[derive(Clone, Copy, Debug, PartialEq, Eq, Structural)]
pub struct Uuid {
    pub bits: u128,
}

impl DeepView for Uuid {
    type V = u128;

    open spec fn deep_view(&self) -> u128 {
        self.bits
    }
}

/// The identifier made of four 32-bit words, most significant first.
pub open spec fn uuid_from_words(a: u32, b: u32, c: u32, d: u32) -> u128 {
    let most = ((a as u64) << 32u64) | ((b as u64) & 0xffffffffu64);
    let least = ((c as u64) << 32u64) | ((d as u64) & 0xffffffffu64);
    ((most as u128) << 64u128) | (least as u128)
}

/// The four 32-bit words of an identifier, most significant first, as they are written.
pub open spec fn uuid_bytes(v: u128) -> Seq<u8> {
    let most = (v >> 64u128) as u64;
    let least = (v & 0xffffffffffffffffu128) as u64;
    be32((most >> 32u64) as u32) + be32(most as u32) + be32((least >> 32u64) as u32) + be32(
        least as u32,
    )
}

impl Uuid {
    /// The identifier whose bits are all zero.
    pub fn nil() -> (res: Uuid)
        ensures
            res.bits == 0,
    {
        Uuid { bits: 0 }
    }

    /// The identifier with the given bits.
    pub fn from_u128(bits: u128) -> (res: Uuid)
        ensures
            res.bits == bits,
    {
        Uuid { bits }
    }

    /// The bits of the identifier.
    pub fn as_u128(&self) -> (res: u128)
        ensures
            res == self.bits,
    {
        self.bits
    }
}

impl Buffer for Uuid {
    /// Four big-endian 32-bit words, most significant first.
    open spec fn spec_parse(s: Seq<u8>, pos: int) -> Option<(u128, int)> {
        match parse_be32(s, pos) {
            Some((a, p1)) => match parse_be32(s, p1) {
                Some((b, p2)) => match parse_be32(s, p2) {
                    Some((c, p3)) => match parse_be32(s, p3) {
                        Some((d, p4)) => Some((uuid_from_words(a, b, c, d), p4)),
                        None => None,
                    },
                    None => None,
                },
                None => None,
            },
            None => None,
        }
    }

    open spec fn spec_serialize(v: u128) -> Seq<u8> {
        uuid_bytes(v)
    }

    open spec fn spec_wf(v: u128) -> bool {
        true
    }

    /// The start of the first word that is missing.
    open spec fn spec_stop(s: Seq<u8>, pos: int) -> int {
        match parse_be32(s, pos) {
            Some((_, p1)) => match parse_be32(s, p1) {
                Some((_, p2)) => match parse_be32(s, p2) {
                    Some((_, p3)) => p3,
                    None => p2,
                },
                None => p1,
            },
            None => pos,
        }
    }

    proof fn lemma_roundtrip(s: Seq<u8>, pos: int, v: u128) {
        let most = (v >> 64u128) as u64;
        let least = (v & 0xffffffffffffffffu128) as u64;
        let a = (most >> 32u64) as u32;
        let b = most as u32;
        let c = (least >> 32u64) as u32;
        let d = least as u32;
        lemma_holds_at_split(s, pos, be32(a) + be32(b) + be32(c), be32(d));
        lemma_holds_at_split(s, pos, be32(a) + be32(b), be32(c));
        lemma_holds_at_split(s, pos, be32(a), be32(b));
        lemma_be32_roundtrip(s, pos, a);
        lemma_be32_roundtrip(s, pos + 4, b);
        lemma_be32_roundtrip(s, pos + 8, c);
        lemma_be32_roundtrip(s, pos + 12, d);
        assert(uuid_from_words(
            (((v >> 64u128) as u64) >> 32u64) as u32,
            ((v >> 64u128) as u64) as u32,
            (((v & 0xffffffffffffffffu128) as u64) >> 32u64) as u32,
            ((v & 0xffffffffffffffffu128) as u64) as u32,
        ) == v) by (bit_vector);
    }

    fn read_buf(buffer: &mut Cursor) -> (res: Option<Uuid>) {
        let a = match read_be32(buffer) {
            Some(x) => x,
            None => {
                return None;
            },
        };
        let b = match read_be32(buffer) {
            Some(x) => x,
            None => {
                return None;
            },
        };
        let c = match read_be32(buffer) {
            Some(x) => x,
            None => {
                return None;
            },
        };
        let d = match read_be32(buffer) {
            Some(x) => x,
            None => {
                return None;
            },
        };
        let most = ((a as u64) << 32u64) | ((b as u64) & 0xffffffffu64);
        let least = ((c as u64) << 32u64) | ((d as u64) & 0xffffffffu64);
        Some(Uuid::from_u128(((most as u128) << 64u128) | (least as u128)))
    }

    fn write_buf(&self, buffer: &mut Vec<u8>) {
        let most = (self.as_u128() >> 64u128) as u64;
        let least = (self.as_u128() & 0xffffffffffffffffu128) as u64;
        write_be32((most >> 32u64) as u32, buffer);
        write_be32(most as u32, buffer);
        write_be32((least >> 32u64) as u32, buffer);
        write_be32(least as u32, buffer);
        assert(buffer@ =~= old(buffer)@ + uuid_bytes(self.bits));
    }
}

} // verus!

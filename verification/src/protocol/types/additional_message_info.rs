use vstd::prelude::*;

use crate::codec::buffer::Buffer;
use crate::codec::cursor::{holds_at, lemma_holds_at_split, parse_byte, read_byte, Cursor};
use crate::codec::varint::{lemma_varint_i32_roundtrip, parse_varint, spec_varint, varint_stop, VarInt};

verus! {

/// What a chat message says of the messages that the client has seen.
#[derive(Debug, Clone, PartialEq)]
pub struct AdditionalMessageInfo {
    pub message_count: i32,
    pub acknowledged: [u8; 3],
    pub checksum: u8,
}

/// The content of an [`AdditionalMessageInfo`] as it goes over the wire.
pub struct AdditionalMessageInfoView {
    pub message_count: i32,
    pub acknowledged: Seq<u8>,
    pub checksum: u8,
}

impl AdditionalMessageInfo {
    /// No message counted, nothing acknowledged.
    pub fn default() -> (res: AdditionalMessageInfo)
        ensures
            res.message_count == 0,
            res.acknowledged@ == seq![0u8, 0u8, 0u8],
            res.checksum == 0,
    {
        let res = AdditionalMessageInfo { message_count: 0, acknowledged: [0u8; 3], checksum: 0 };
        assert(res.acknowledged@ =~= seq![0u8, 0u8, 0u8]);
        res
    }
}

impl DeepView for AdditionalMessageInfo {
    type V = AdditionalMessageInfoView;

    open spec fn deep_view(&self) -> AdditionalMessageInfoView {
        AdditionalMessageInfoView {
            message_count: self.message_count,
            acknowledged: self.acknowledged@,
            checksum: self.checksum,
        }
    }
}

impl Buffer for AdditionalMessageInfo {
    /// A `VarInt` count, three acknowledgement bytes and a checksum byte.
    open spec fn spec_parse(s: Seq<u8>, pos: int) -> Option<(AdditionalMessageInfoView, int)> {
        match parse_varint(s, pos) {
            Some((message_count, p)) => if 0 <= p && p + 4 <= s.len() {
                Some(
                    (
                        AdditionalMessageInfoView {
                            message_count,
                            acknowledged: s.subrange(p, p + 3),
                            checksum: s[p + 3],
                        },
                        p + 4,
                    ),
                )
            } else {
                None
            },
            None => None,
        }
    }

    open spec fn spec_serialize(v: AdditionalMessageInfoView) -> Seq<u8> {
        spec_varint(v.message_count) + v.acknowledged + seq![v.checksum]
    }

    open spec fn spec_wf(v: AdditionalMessageInfoView) -> bool {
        v.acknowledged.len() == 3
    }

    open spec fn spec_stop(s: Seq<u8>, pos: int) -> int {
        match parse_varint(s, pos) {
            Some((_, p)) => if p <= s.len() {
                s.len() as int
            } else {
                p
            },
            None => varint_stop(s, pos),
        }
    }

    proof fn lemma_roundtrip(s: Seq<u8>, pos: int, v: AdditionalMessageInfoView) {
        lemma_holds_at_split(s, pos, spec_varint(v.message_count) + v.acknowledged, seq![v.checksum]);
        lemma_holds_at_split(s, pos, spec_varint(v.message_count), v.acknowledged);
        lemma_varint_i32_roundtrip(s, pos, v.message_count);
        let p = pos + spec_varint(v.message_count).len();
        assert(s.subrange(p + 3, p + 4)[0] == s[p + 3]);
    }

    fn read_buf(buffer: &mut Cursor) -> (res: Option<AdditionalMessageInfo>) {
        let ghost s = buffer.data@;
        let message_count = match i32::read_varint(buffer) {
            Some(v) => v,
            None => {
                return None;
            },
        };
        let ghost p = buffer.position as int;
        let a0 = match read_byte(buffer) {
            Some(b) => b,
            None => {
                return None;
            },
        };
        let a1 = match read_byte(buffer) {
            Some(b) => b,
            None => {
                return None;
            },
        };
        let a2 = match read_byte(buffer) {
            Some(b) => b,
            None => {
                return None;
            },
        };
        let checksum = match read_byte(buffer) {
            Some(b) => b,
            None => {
                return None;
            },
        };
        let acknowledged = [a0, a1, a2];
        let res = AdditionalMessageInfo { message_count, acknowledged, checksum };
        assert(res.acknowledged@ =~= s.subrange(p, p + 3));
        Some(res)
    }

    fn write_buf(&self, buffer: &mut Vec<u8>) {
        self.message_count.write_varint(buffer);
        buffer.push(self.acknowledged[0]);
        buffer.push(self.acknowledged[1]);
        buffer.push(self.acknowledged[2]);
        buffer.push(self.checksum);
        assert(buffer@ =~= old(buffer)@ + Self::spec_serialize(self.deep_view()));
    }
}

} // verus!

use vstd::prelude::*;

use crate::codec::buffer::Buffer;
use crate::codec::cursor::{lemma_holds_at_split, Cursor};
use crate::codec::varint::{lemma_varint_i32_roundtrip, parse_varint, spec_varint, varint_stop, VarInt};

verus! {

/// A message that the client has seen, with its signature.
#[derive(Clone, Debug, PartialEq)]
pub struct LastSeenMessage {
    pub index: i32,
    pub signature: Option<Vec<u8>>,
}

/// The content of a [`LastSeenMessage`] as it goes over the wire.
pub struct LastSeenMessageView {
    pub index: i32,
    pub signature: Option<Seq<u8>>,
}

impl DeepView for LastSeenMessage {
    type V = LastSeenMessageView;

    open spec fn deep_view(&self) -> LastSeenMessageView {
        LastSeenMessageView {
            index: self.index,
            signature: self.signature.deep_view(),
        }
    }
}

impl Buffer for LastSeenMessage {
    open spec fn spec_parse(s: Seq<u8>, pos: int) -> Option<(LastSeenMessageView, int)> {
        match parse_varint(s, pos) {
            Some((index, p0)) => match <Option<Vec<u8>> as Buffer>::spec_parse(s, p0) {
                Some((signature, p1)) => Some((LastSeenMessageView { index, signature }, p1)),
                None => None,
            },
            None => None,
        }
    }

    open spec fn spec_serialize(v: LastSeenMessageView) -> Seq<u8> {
        spec_varint(v.index) + <Option<Vec<u8>> as Buffer>::spec_serialize(v.signature)
    }

    open spec fn spec_wf(v: LastSeenMessageView) -> bool {
        <Option<Vec<u8>> as Buffer>::spec_wf(v.signature)
    }

    open spec fn spec_stop(s: Seq<u8>, pos: int) -> int {
        match parse_varint(s, pos) {
            Some((_, p0)) => match <Option<Vec<u8>> as Buffer>::spec_parse(s, p0) {
                Some((_, p1)) => p1,
                None => <Option<Vec<u8>> as Buffer>::spec_stop(s, p0),
            },
            None => varint_stop(s, pos),
        }
    }

    proof fn lemma_roundtrip(s: Seq<u8>, pos: int, v: LastSeenMessageView) {
        lemma_holds_at_split(s, pos, spec_varint(v.index), <Option<Vec<u8>> as Buffer>::spec_serialize(v.signature));
        lemma_varint_i32_roundtrip(s, pos, v.index);
        <Option<Vec<u8>> as Buffer>::lemma_roundtrip(s, pos + spec_varint(v.index).len(), v.signature);
    }

    fn read_buf(buffer: &mut Cursor) -> (res: Option<LastSeenMessage>) {
        let index = match i32::read_varint(buffer) {
            Some(x) => x,
            None => {
                return None;
            },
        };
        let signature = match <Option<Vec<u8>> as Buffer>::read_buf(buffer) {
            Some(x) => x,
            None => {
                return None;
            },
        };
        Some(LastSeenMessage { index, signature })
    }

    fn write_buf(&self, buffer: &mut Vec<u8>) {
        self.index.write_varint(buffer);
        self.signature.write_buf(buffer);
        assert(buffer@ =~= old(buffer)@ + Self::spec_serialize(self.deep_view()));
    }
}

} // verus!

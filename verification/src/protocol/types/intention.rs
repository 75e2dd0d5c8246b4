use vstd::prelude::*;

use crate::codec::buffer::Buffer;
use crate::codec::cursor::Cursor;
use crate::codec::varint::{lemma_varint_i32_roundtrip, parse_varint, spec_varint, VarInt, varint_end};

verus! {

/// What the client means to do after the handshake.
#[derive(Clone, Copy, Debug, Eq, Hash, PartialEq, Structural)]
pub enum ClientIntention {
    Status,
    Login,
}

impl ClientIntention {
    /// The intention with the given identifier: 2 is login, anything else status.
    pub open spec fn spec_from(value: i32) -> ClientIntention {
        if value == 2 {
            ClientIntention::Login
        } else {
            ClientIntention::Status
        }
    }

    pub open spec fn spec_id(self) -> i32 {
        match self {
            ClientIntention::Status => 1,
            ClientIntention::Login => 2,
        }
    }

    /// The intention with the given identifier: 1 status, 2 login, anything else status.
    pub fn from(value: i32) -> (res: ClientIntention)
        ensures
            res == Self::spec_from(value),
    {
        match value {
            1 => ClientIntention::Status,
            2 => ClientIntention::Login,
            _ => ClientIntention::Status,
        }
    }
}

impl DeepView for ClientIntention {
    type V = ClientIntention;

    open spec fn deep_view(&self) -> ClientIntention {
        *self
    }
}

impl Buffer for ClientIntention {
    /// A `VarInt` identifier; every value is taken.
    open spec fn spec_parse(s: Seq<u8>, pos: int) -> Option<(ClientIntention, int)> {
        match parse_varint(s, pos) {
            Some((id, p)) => Some((ClientIntention::spec_from(id), p)),
            None => None,
        }
    }

    open spec fn spec_serialize(v: ClientIntention) -> Seq<u8> {
        spec_varint(v.spec_id())
    }

    open spec fn spec_wf(v: ClientIntention) -> bool {
        true
    }

    open spec fn spec_stop(s: Seq<u8>, pos: int) -> int {
        varint_end(s, pos)
    }

    proof fn lemma_roundtrip(s: Seq<u8>, pos: int, v: ClientIntention) {
        lemma_varint_i32_roundtrip(s, pos, v.spec_id());
    }

    fn read_buf(buffer: &mut Cursor) -> (res: Option<ClientIntention>) {
        match i32::read_varint(buffer) {
            Some(id) => Some(ClientIntention::from(id)),
            None => None,
        }
    }

    fn write_buf(&self, buffer: &mut Vec<u8>) {
        let id: i32 = match self {
            ClientIntention::Status => 1,
            ClientIntention::Login => 2,
        };
        id.write_varint(buffer)
    }
}

} // verus!

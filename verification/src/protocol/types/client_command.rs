use vstd::prelude::*;

use crate::codec::buffer::Buffer;
use crate::codec::cursor::Cursor;
use crate::codec::varint::{lemma_varint_i32_roundtrip, parse_varint, spec_varint, VarInt, varint_end};

verus! {

/// A command of the client to the server.
#[derive(Debug, Clone, Copy, PartialEq, Eq, Structural, PartialOrd)]
pub enum ClientCommand {
    PerformRespawn,
    RequestStats,
}

impl ClientCommand {
    pub open spec fn spec_id(self) -> i32 {
        match self {
            ClientCommand::PerformRespawn => 0,
            ClientCommand::RequestStats => 1,
        }
    }
}

impl DeepView for ClientCommand {
    type V = ClientCommand;

    open spec fn deep_view(&self) -> ClientCommand {
        *self
    }
}

impl Buffer for ClientCommand {
    /// A `VarInt` identifier: 0 respawn, 1 statistics; any other value is refused.
    open spec fn spec_parse(s: Seq<u8>, pos: int) -> Option<(ClientCommand, int)> {
        match parse_varint(s, pos) {
            Some((0i32, p)) => Some((ClientCommand::PerformRespawn, p)),
            Some((1i32, p)) => Some((ClientCommand::RequestStats, p)),
            _ => None,
        }
    }

    open spec fn spec_serialize(v: ClientCommand) -> Seq<u8> {
        spec_varint(v.spec_id())
    }

    open spec fn spec_wf(v: ClientCommand) -> bool {
        true
    }

    open spec fn spec_stop(s: Seq<u8>, pos: int) -> int {
        varint_end(s, pos)
    }

    proof fn lemma_roundtrip(s: Seq<u8>, pos: int, v: ClientCommand) {
        lemma_varint_i32_roundtrip(s, pos, v.spec_id());
    }

    fn read_buf(buffer: &mut Cursor) -> (res: Option<ClientCommand>) {
        let id = match i32::read_varint(buffer) {
            Some(id) => id,
            None => {
                return None;
            },
        };
        match id {
            0 => Some(ClientCommand::PerformRespawn),
            1 => Some(ClientCommand::RequestStats),
            _ => None,
        }
    }

    fn write_buf(&self, buffer: &mut Vec<u8>) {
        let id: i32 = match self {
            ClientCommand::PerformRespawn => 0,
            ClientCommand::RequestStats => 1,
        };
        id.write_varint(buffer);
    }
}

} // verus!

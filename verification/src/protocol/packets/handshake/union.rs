use vstd::prelude::*;

use crate::codec::cursor::Cursor;
use crate::protocol::packet::Packet;
use crate::protocol::packets::handshake::packets::{ServersideGreet, ServersideGreetView};

verus! {

/// The packets that the server sends during the handshake: there are none. No value of this
/// type can be made outside the library, and reading never yields one.
#[derive(Clone, Debug, PartialEq)]
pub struct ClientsideHandshakePacket {
    unreachable: bool,
}

impl DeepView for ClientsideHandshakePacket {
    type V = ();

    open spec fn deep_view(&self) -> () {
        ()
    }
}

impl Packet for ClientsideHandshakePacket {
    open spec fn spec_id(v: ()) -> u32 {
        0
    }

    /// No body reads as a handshake packet of the server.
    open spec fn spec_parse_body(id: u32, s: Seq<u8>, pos: int) -> Option<((), int)> {
        None
    }

    open spec fn spec_serialize_body(v: ()) -> Seq<u8> {
        Seq::empty()
    }

    open spec fn spec_wf(v: ()) -> bool {
        false
    }

    proof fn lemma_body_roundtrip(s: Seq<u8>, pos: int, v: ()) {
    }

    fn id(&self) -> (res: u32) {
        0
    }

    fn read(id: u32, buffer: &mut Cursor) -> (res: Option<ClientsideHandshakePacket>) {
        None
    }

    fn write(&self, buffer: &mut Vec<u8>) {
        assert(buffer@ =~= old(buffer)@ + Seq::<u8>::empty());
    }
}

/// The packets that the client sends during the handshake.
#[derive(Clone, Debug, PartialEq)]
pub enum ServersideHandshakePacket {
    Greet(ServersideGreet),
}

/// The content of a [`ServersideHandshakePacket`] as it goes over the wire.
pub enum ServersideHandshakePacketView {
    Greet(ServersideGreetView),
}

impl DeepView for ServersideHandshakePacket {
    type V = ServersideHandshakePacketView;

    open spec fn deep_view(&self) -> ServersideHandshakePacketView {
        match self {
            ServersideHandshakePacket::Greet(p) => ServersideHandshakePacketView::Greet(p.deep_view()),
        }
    }
}

impl Packet for ServersideHandshakePacket {
    open spec fn spec_id(v: ServersideHandshakePacketView) -> u32 {
        match v {
            ServersideHandshakePacketView::Greet(_) => 0x00,
        }
    }

    open spec fn spec_parse_body(id: u32, s: Seq<u8>, pos: int) -> Option<(ServersideHandshakePacketView, int)> {
        if id == 0x00 {
            match ServersideGreet::spec_parse(s, pos) {
                Some((p, q)) => Some((ServersideHandshakePacketView::Greet(p), q)),
                None => None,
            }
        } else {
            None
        }
    }

    open spec fn spec_serialize_body(v: ServersideHandshakePacketView) -> Seq<u8> {
        match v {
            ServersideHandshakePacketView::Greet(p) => ServersideGreet::spec_serialize(p),
        }
    }

    open spec fn spec_wf(v: ServersideHandshakePacketView) -> bool {
        match v {
            ServersideHandshakePacketView::Greet(p) => ServersideGreet::spec_wf(p),
        }
    }

    proof fn lemma_body_roundtrip(s: Seq<u8>, pos: int, v: ServersideHandshakePacketView) {
        match v {
            ServersideHandshakePacketView::Greet(p) => ServersideGreet::lemma_roundtrip(s, pos, p),
        }
    }

    fn id(&self) -> (res: u32) {
        match self {
            ServersideHandshakePacket::Greet(_) => 0x00,
        }
    }

    fn read(id: u32, buffer: &mut Cursor) -> (res: Option<ServersideHandshakePacket>) {
        match id {
            0x00 => match ServersideGreet::read(buffer) {
                Some(p) => Some(ServersideHandshakePacket::Greet(p)),
                None => None,
            },
            _ => None,
        }
    }

    fn write(&self, buffer: &mut Vec<u8>) {
        match self {
            ServersideHandshakePacket::Greet(p) => p.write(buffer),
        }
    }
}

} // verus!

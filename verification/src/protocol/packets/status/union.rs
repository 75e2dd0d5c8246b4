use vstd::prelude::*;

use crate::codec::cursor::Cursor;
use crate::protocol::packet::Packet;
use crate::protocol::packets::status::packets::{ClientsidePongResponse, ClientsidePongResponseView, ClientsideStatusResponse, ClientsideStatusResponseView, ServersidePingRequest, ServersidePingRequestView, ServersideStatusRequest, ServersideStatusRequestView};

verus! {

/// The packets that the server sends in the status state.
#[derive(Clone, Debug, PartialEq)]
pub enum ClientsideStatusPacket {
    StatusResponse(ClientsideStatusResponse),
    PongResponse(ClientsidePongResponse),
}

/// The content of a [`ClientsideStatusPacket`] as it goes over the wire.
pub enum ClientsideStatusPacketView {
    StatusResponse(ClientsideStatusResponseView),
    PongResponse(ClientsidePongResponseView),
}

impl DeepView for ClientsideStatusPacket {
    type V = ClientsideStatusPacketView;

    open spec fn deep_view(&self) -> ClientsideStatusPacketView {
        match self {
            ClientsideStatusPacket::StatusResponse(p) => ClientsideStatusPacketView::StatusResponse(p.deep_view()),
            ClientsideStatusPacket::PongResponse(p) => ClientsideStatusPacketView::PongResponse(p.deep_view()),
        }
    }
}

impl Packet for ClientsideStatusPacket {
    open spec fn spec_id(v: ClientsideStatusPacketView) -> u32 {
        match v {
            ClientsideStatusPacketView::StatusResponse(_) => 0x00,
            ClientsideStatusPacketView::PongResponse(_) => 0x01,
        }
    }

    open spec fn spec_parse_body(id: u32, s: Seq<u8>, pos: int) -> Option<(ClientsideStatusPacketView, int)> {
        if id == 0x00 {
            match ClientsideStatusResponse::spec_parse(s, pos) {
                Some((p, q)) => Some((ClientsideStatusPacketView::StatusResponse(p), q)),
                None => None,
            }
        } else if id == 0x01 {
            match ClientsidePongResponse::spec_parse(s, pos) {
                Some((p, q)) => Some((ClientsideStatusPacketView::PongResponse(p), q)),
                None => None,
            }
        } else {
            None
        }
    }

    open spec fn spec_serialize_body(v: ClientsideStatusPacketView) -> Seq<u8> {
        match v {
            ClientsideStatusPacketView::StatusResponse(p) => ClientsideStatusResponse::spec_serialize(p),
            ClientsideStatusPacketView::PongResponse(p) => ClientsidePongResponse::spec_serialize(p),
        }
    }

    open spec fn spec_wf(v: ClientsideStatusPacketView) -> bool {
        match v {
            ClientsideStatusPacketView::StatusResponse(p) => ClientsideStatusResponse::spec_wf(p),
            ClientsideStatusPacketView::PongResponse(p) => ClientsidePongResponse::spec_wf(p),
        }
    }

    proof fn lemma_body_roundtrip(s: Seq<u8>, pos: int, v: ClientsideStatusPacketView) {
        match v {
            ClientsideStatusPacketView::StatusResponse(p) => ClientsideStatusResponse::lemma_roundtrip(s, pos, p),
            ClientsideStatusPacketView::PongResponse(p) => ClientsidePongResponse::lemma_roundtrip(s, pos, p),
        }
    }

    fn id(&self) -> (res: u32) {
        match self {
            ClientsideStatusPacket::StatusResponse(_) => 0x00,
            ClientsideStatusPacket::PongResponse(_) => 0x01,
        }
    }

    fn read(id: u32, buffer: &mut Cursor) -> (res: Option<ClientsideStatusPacket>) {
        match id {
            0x00 => match ClientsideStatusResponse::read(buffer) {
                Some(p) => Some(ClientsideStatusPacket::StatusResponse(p)),
                None => None,
            },
            0x01 => match ClientsidePongResponse::read(buffer) {
                Some(p) => Some(ClientsideStatusPacket::PongResponse(p)),
                None => None,
            },
            _ => None,
        }
    }

    fn write(&self, buffer: &mut Vec<u8>) {
        match self {
            ClientsideStatusPacket::StatusResponse(p) => p.write(buffer),
            ClientsideStatusPacket::PongResponse(p) => p.write(buffer),
        }
    }
}

/// The packets that the client sends in the status state.
#[derive(Clone, Debug, PartialEq)]
pub enum ServersideStatusPacket {
    StatusRequest(ServersideStatusRequest),
    PingRequest(ServersidePingRequest),
}

/// The content of a [`ServersideStatusPacket`] as it goes over the wire.
pub enum ServersideStatusPacketView {
    StatusRequest(ServersideStatusRequestView),
    PingRequest(ServersidePingRequestView),
}

impl DeepView for ServersideStatusPacket {
    type V = ServersideStatusPacketView;

    open spec fn deep_view(&self) -> ServersideStatusPacketView {
        match self {
            ServersideStatusPacket::StatusRequest(p) => ServersideStatusPacketView::StatusRequest(p.deep_view()),
            ServersideStatusPacket::PingRequest(p) => ServersideStatusPacketView::PingRequest(p.deep_view()),
        }
    }
}

impl Packet for ServersideStatusPacket {
    open spec fn spec_id(v: ServersideStatusPacketView) -> u32 {
        match v {
            ServersideStatusPacketView::StatusRequest(_) => 0x00,
            ServersideStatusPacketView::PingRequest(_) => 0x01,
        }
    }

    open spec fn spec_parse_body(id: u32, s: Seq<u8>, pos: int) -> Option<(ServersideStatusPacketView, int)> {
        if id == 0x00 {
            match ServersideStatusRequest::spec_parse(s, pos) {
                Some((p, q)) => Some((ServersideStatusPacketView::StatusRequest(p), q)),
                None => None,
            }
        } else if id == 0x01 {
            match ServersidePingRequest::spec_parse(s, pos) {
                Some((p, q)) => Some((ServersideStatusPacketView::PingRequest(p), q)),
                None => None,
            }
        } else {
            None
        }
    }

    open spec fn spec_serialize_body(v: ServersideStatusPacketView) -> Seq<u8> {
        match v {
            ServersideStatusPacketView::StatusRequest(p) => ServersideStatusRequest::spec_serialize(p),
            ServersideStatusPacketView::PingRequest(p) => ServersidePingRequest::spec_serialize(p),
        }
    }

    open spec fn spec_wf(v: ServersideStatusPacketView) -> bool {
        match v {
            ServersideStatusPacketView::StatusRequest(p) => ServersideStatusRequest::spec_wf(p),
            ServersideStatusPacketView::PingRequest(p) => ServersidePingRequest::spec_wf(p),
        }
    }

    proof fn lemma_body_roundtrip(s: Seq<u8>, pos: int, v: ServersideStatusPacketView) {
        match v {
            ServersideStatusPacketView::StatusRequest(p) => ServersideStatusRequest::lemma_roundtrip(s, pos, p),
            ServersideStatusPacketView::PingRequest(p) => ServersidePingRequest::lemma_roundtrip(s, pos, p),
        }
    }

    fn id(&self) -> (res: u32) {
        match self {
            ServersideStatusPacket::StatusRequest(_) => 0x00,
            ServersideStatusPacket::PingRequest(_) => 0x01,
        }
    }

    fn read(id: u32, buffer: &mut Cursor) -> (res: Option<ServersideStatusPacket>) {
        match id {
            0x00 => match ServersideStatusRequest::read(buffer) {
                Some(p) => Some(ServersideStatusPacket::StatusRequest(p)),
                None => None,
            },
            0x01 => match ServersidePingRequest::read(buffer) {
                Some(p) => Some(ServersideStatusPacket::PingRequest(p)),
                None => None,
            },
            _ => None,
        }
    }

    fn write(&self, buffer: &mut Vec<u8>) {
        match self {
            ServersideStatusPacket::StatusRequest(p) => p.write(buffer),
            ServersideStatusPacket::PingRequest(p) => p.write(buffer),
        }
    }
}

} // verus!

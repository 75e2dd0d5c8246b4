use vstd::prelude::*;

use crate::codec::cursor::Cursor;
use crate::protocol::packet::Packet;
use crate::protocol::packets::login::packets::{ClientsideCookieRequest, ClientsideCookieRequestView, ClientsideEncryptionRequest, ClientsideEncryptionRequestView, ClientsideLoginDisconnect, ClientsideLoginDisconnectView, ClientsideLoginSuccess, ClientsideLoginSuccessView, ClientsidePluginRequest, ClientsidePluginRequestView, ClientsideSetCompression, ClientsideSetCompressionView, ServersideCookieResponse, ServersideCookieResponseView, ServersideEncryptionResponse, ServersideEncryptionResponseView, ServersideLoginAcknowledged, ServersideLoginAcknowledgedView, ServersideLoginStart, ServersideLoginStartView, ServersidePluginResponse, ServersidePluginResponseView};

verus! {

/// The packets that the server sends during the login.
#[derive(Clone, Debug, PartialEq)]
pub enum ClientsideLoginPacket {
    Disconnect(ClientsideLoginDisconnect),
    EncryptionRequest(ClientsideEncryptionRequest),
    LoginSuccess(ClientsideLoginSuccess),
    Compression(ClientsideSetCompression),
    PluginRequest(ClientsidePluginRequest),
    CookieRequest(ClientsideCookieRequest),
}

/// The content of a [`ClientsideLoginPacket`] as it goes over the wire.
pub enum ClientsideLoginPacketView {
    Disconnect(ClientsideLoginDisconnectView),
    EncryptionRequest(ClientsideEncryptionRequestView),
    LoginSuccess(ClientsideLoginSuccessView),
    Compression(ClientsideSetCompressionView),
    PluginRequest(ClientsidePluginRequestView),
    CookieRequest(ClientsideCookieRequestView),
}

impl DeepView for ClientsideLoginPacket {
    type V = ClientsideLoginPacketView;

    open spec fn deep_view(&self) -> ClientsideLoginPacketView {
        match self {
            ClientsideLoginPacket::Disconnect(p) => ClientsideLoginPacketView::Disconnect(p.deep_view()),
            ClientsideLoginPacket::EncryptionRequest(p) => ClientsideLoginPacketView::EncryptionRequest(p.deep_view()),
            ClientsideLoginPacket::LoginSuccess(p) => ClientsideLoginPacketView::LoginSuccess(p.deep_view()),
            ClientsideLoginPacket::Compression(p) => ClientsideLoginPacketView::Compression(p.deep_view()),
            ClientsideLoginPacket::PluginRequest(p) => ClientsideLoginPacketView::PluginRequest(p.deep_view()),
            ClientsideLoginPacket::CookieRequest(p) => ClientsideLoginPacketView::CookieRequest(p.deep_view()),
        }
    }
}

impl Packet for ClientsideLoginPacket {
    open spec fn spec_id(v: ClientsideLoginPacketView) -> u32 {
        match v {
            ClientsideLoginPacketView::Disconnect(_) => 0x00,
            ClientsideLoginPacketView::EncryptionRequest(_) => 0x01,
            ClientsideLoginPacketView::LoginSuccess(_) => 0x02,
            ClientsideLoginPacketView::Compression(_) => 0x03,
            ClientsideLoginPacketView::PluginRequest(_) => 0x04,
            ClientsideLoginPacketView::CookieRequest(_) => 0x05,
        }
    }

    open spec fn spec_parse_body(id: u32, s: Seq<u8>, pos: int) -> Option<(ClientsideLoginPacketView, int)> {
        if id == 0x00 {
            match ClientsideLoginDisconnect::spec_parse(s, pos) {
                Some((p, q)) => Some((ClientsideLoginPacketView::Disconnect(p), q)),
                None => None,
            }
        } else if id == 0x01 {
            match ClientsideEncryptionRequest::spec_parse(s, pos) {
                Some((p, q)) => Some((ClientsideLoginPacketView::EncryptionRequest(p), q)),
                None => None,
            }
        } else if id == 0x02 {
            match ClientsideLoginSuccess::spec_parse(s, pos) {
                Some((p, q)) => Some((ClientsideLoginPacketView::LoginSuccess(p), q)),
                None => None,
            }
        } else if id == 0x03 {
            match ClientsideSetCompression::spec_parse(s, pos) {
                Some((p, q)) => Some((ClientsideLoginPacketView::Compression(p), q)),
                None => None,
            }
        } else if id == 0x04 {
            match ClientsidePluginRequest::spec_parse(s, pos) {
                Some((p, q)) => Some((ClientsideLoginPacketView::PluginRequest(p), q)),
                None => None,
            }
        } else if id == 0x05 {
            match ClientsideCookieRequest::spec_parse(s, pos) {
                Some((p, q)) => Some((ClientsideLoginPacketView::CookieRequest(p), q)),
                None => None,
            }
        } else {
            None
        }
    }

    open spec fn spec_serialize_body(v: ClientsideLoginPacketView) -> Seq<u8> {
        match v {
            ClientsideLoginPacketView::Disconnect(p) => ClientsideLoginDisconnect::spec_serialize(p),
            ClientsideLoginPacketView::EncryptionRequest(p) => ClientsideEncryptionRequest::spec_serialize(p),
            ClientsideLoginPacketView::LoginSuccess(p) => ClientsideLoginSuccess::spec_serialize(p),
            ClientsideLoginPacketView::Compression(p) => ClientsideSetCompression::spec_serialize(p),
            ClientsideLoginPacketView::PluginRequest(p) => ClientsidePluginRequest::spec_serialize(p),
            ClientsideLoginPacketView::CookieRequest(p) => ClientsideCookieRequest::spec_serialize(p),
        }
    }

    open spec fn spec_wf(v: ClientsideLoginPacketView) -> bool {
        match v {
            ClientsideLoginPacketView::Disconnect(p) => ClientsideLoginDisconnect::spec_wf(p),
            ClientsideLoginPacketView::EncryptionRequest(p) => ClientsideEncryptionRequest::spec_wf(p),
            ClientsideLoginPacketView::LoginSuccess(p) => ClientsideLoginSuccess::spec_wf(p),
            ClientsideLoginPacketView::Compression(p) => ClientsideSetCompression::spec_wf(p),
            ClientsideLoginPacketView::PluginRequest(p) => ClientsidePluginRequest::spec_wf(p),
            ClientsideLoginPacketView::CookieRequest(p) => ClientsideCookieRequest::spec_wf(p),
        }
    }

    proof fn lemma_body_roundtrip(s: Seq<u8>, pos: int, v: ClientsideLoginPacketView) {
        match v {
            ClientsideLoginPacketView::Disconnect(p) => ClientsideLoginDisconnect::lemma_roundtrip(s, pos, p),
            ClientsideLoginPacketView::EncryptionRequest(p) => ClientsideEncryptionRequest::lemma_roundtrip(s, pos, p),
            ClientsideLoginPacketView::LoginSuccess(p) => ClientsideLoginSuccess::lemma_roundtrip(s, pos, p),
            ClientsideLoginPacketView::Compression(p) => ClientsideSetCompression::lemma_roundtrip(s, pos, p),
            ClientsideLoginPacketView::PluginRequest(p) => ClientsidePluginRequest::lemma_roundtrip(s, pos, p),
            ClientsideLoginPacketView::CookieRequest(p) => ClientsideCookieRequest::lemma_roundtrip(s, pos, p),
        }
    }

    fn id(&self) -> (res: u32) {
        match self {
            ClientsideLoginPacket::Disconnect(_) => 0x00,
            ClientsideLoginPacket::EncryptionRequest(_) => 0x01,
            ClientsideLoginPacket::LoginSuccess(_) => 0x02,
            ClientsideLoginPacket::Compression(_) => 0x03,
            ClientsideLoginPacket::PluginRequest(_) => 0x04,
            ClientsideLoginPacket::CookieRequest(_) => 0x05,
        }
    }

    fn read(id: u32, buffer: &mut Cursor) -> (res: Option<ClientsideLoginPacket>) {
        match id {
            0x00 => match ClientsideLoginDisconnect::read(buffer) {
                Some(p) => Some(ClientsideLoginPacket::Disconnect(p)),
                None => None,
            },
            0x01 => match ClientsideEncryptionRequest::read(buffer) {
                Some(p) => Some(ClientsideLoginPacket::EncryptionRequest(p)),
                None => None,
            },
            0x02 => match ClientsideLoginSuccess::read(buffer) {
                Some(p) => Some(ClientsideLoginPacket::LoginSuccess(p)),
                None => None,
            },
            0x03 => match ClientsideSetCompression::read(buffer) {
                Some(p) => Some(ClientsideLoginPacket::Compression(p)),
                None => None,
            },
            0x04 => match ClientsidePluginRequest::read(buffer) {
                Some(p) => Some(ClientsideLoginPacket::PluginRequest(p)),
                None => None,
            },
            0x05 => match ClientsideCookieRequest::read(buffer) {
                Some(p) => Some(ClientsideLoginPacket::CookieRequest(p)),
                None => None,
            },
            _ => None,
        }
    }

    fn write(&self, buffer: &mut Vec<u8>) {
        match self {
            ClientsideLoginPacket::Disconnect(p) => p.write(buffer),
            ClientsideLoginPacket::EncryptionRequest(p) => p.write(buffer),
            ClientsideLoginPacket::LoginSuccess(p) => p.write(buffer),
            ClientsideLoginPacket::Compression(p) => p.write(buffer),
            ClientsideLoginPacket::PluginRequest(p) => p.write(buffer),
            ClientsideLoginPacket::CookieRequest(p) => p.write(buffer),
        }
    }
}

/// The packets that the client sends during the login.
#[derive(Clone, Debug, PartialEq)]
pub enum ServersideLoginPacket {
    LoginStart(ServersideLoginStart),
    EncryptionResponse(ServersideEncryptionResponse),
    PluginResponse(ServersidePluginResponse),
    LoginAcknowledged(ServersideLoginAcknowledged),
    CookieResponse(ServersideCookieResponse),
}

/// The content of a [`ServersideLoginPacket`] as it goes over the wire.
pub enum ServersideLoginPacketView {
    LoginStart(ServersideLoginStartView),
    EncryptionResponse(ServersideEncryptionResponseView),
    PluginResponse(ServersidePluginResponseView),
    LoginAcknowledged(ServersideLoginAcknowledgedView),
    CookieResponse(ServersideCookieResponseView),
}

impl DeepView for ServersideLoginPacket {
    type V = ServersideLoginPacketView;

    open spec fn deep_view(&self) -> ServersideLoginPacketView {
        match self {
            ServersideLoginPacket::LoginStart(p) => ServersideLoginPacketView::LoginStart(p.deep_view()),
            ServersideLoginPacket::EncryptionResponse(p) => ServersideLoginPacketView::EncryptionResponse(p.deep_view()),
            ServersideLoginPacket::PluginResponse(p) => ServersideLoginPacketView::PluginResponse(p.deep_view()),
            ServersideLoginPacket::LoginAcknowledged(p) => ServersideLoginPacketView::LoginAcknowledged(p.deep_view()),
            ServersideLoginPacket::CookieResponse(p) => ServersideLoginPacketView::CookieResponse(p.deep_view()),
        }
    }
}

impl Packet for ServersideLoginPacket {
    open spec fn spec_id(v: ServersideLoginPacketView) -> u32 {
        match v {
            ServersideLoginPacketView::LoginStart(_) => 0x00,
            ServersideLoginPacketView::EncryptionResponse(_) => 0x01,
            ServersideLoginPacketView::PluginResponse(_) => 0x02,
            ServersideLoginPacketView::LoginAcknowledged(_) => 0x03,
            ServersideLoginPacketView::CookieResponse(_) => 0x04,
        }
    }

    open spec fn spec_parse_body(id: u32, s: Seq<u8>, pos: int) -> Option<(ServersideLoginPacketView, int)> {
        if id == 0x00 {
            match ServersideLoginStart::spec_parse(s, pos) {
                Some((p, q)) => Some((ServersideLoginPacketView::LoginStart(p), q)),
                None => None,
            }
        } else if id == 0x01 {
            match ServersideEncryptionResponse::spec_parse(s, pos) {
                Some((p, q)) => Some((ServersideLoginPacketView::EncryptionResponse(p), q)),
                None => None,
            }
        } else if id == 0x02 {
            match ServersidePluginResponse::spec_parse(s, pos) {
                Some((p, q)) => Some((ServersideLoginPacketView::PluginResponse(p), q)),
                None => None,
            }
        } else if id == 0x03 {
            match ServersideLoginAcknowledged::spec_parse(s, pos) {
                Some((p, q)) => Some((ServersideLoginPacketView::LoginAcknowledged(p), q)),
                None => None,
            }
        } else if id == 0x04 {
            match ServersideCookieResponse::spec_parse(s, pos) {
                Some((p, q)) => Some((ServersideLoginPacketView::CookieResponse(p), q)),
                None => None,
            }
        } else {
            None
        }
    }

    open spec fn spec_serialize_body(v: ServersideLoginPacketView) -> Seq<u8> {
        match v {
            ServersideLoginPacketView::LoginStart(p) => ServersideLoginStart::spec_serialize(p),
            ServersideLoginPacketView::EncryptionResponse(p) => ServersideEncryptionResponse::spec_serialize(p),
            ServersideLoginPacketView::PluginResponse(p) => ServersidePluginResponse::spec_serialize(p),
            ServersideLoginPacketView::LoginAcknowledged(p) => ServersideLoginAcknowledged::spec_serialize(p),
            ServersideLoginPacketView::CookieResponse(p) => ServersideCookieResponse::spec_serialize(p),
        }
    }

    open spec fn spec_wf(v: ServersideLoginPacketView) -> bool {
        match v {
            ServersideLoginPacketView::LoginStart(p) => ServersideLoginStart::spec_wf(p),
            ServersideLoginPacketView::EncryptionResponse(p) => ServersideEncryptionResponse::spec_wf(p),
            ServersideLoginPacketView::PluginResponse(p) => ServersidePluginResponse::spec_wf(p),
            ServersideLoginPacketView::LoginAcknowledged(p) => ServersideLoginAcknowledged::spec_wf(p),
            ServersideLoginPacketView::CookieResponse(p) => ServersideCookieResponse::spec_wf(p),
        }
    }

    proof fn lemma_body_roundtrip(s: Seq<u8>, pos: int, v: ServersideLoginPacketView) {
        match v {
            ServersideLoginPacketView::LoginStart(p) => ServersideLoginStart::lemma_roundtrip(s, pos, p),
            ServersideLoginPacketView::EncryptionResponse(p) => ServersideEncryptionResponse::lemma_roundtrip(s, pos, p),
            ServersideLoginPacketView::PluginResponse(p) => ServersidePluginResponse::lemma_roundtrip(s, pos, p),
            ServersideLoginPacketView::LoginAcknowledged(p) => ServersideLoginAcknowledged::lemma_roundtrip(s, pos, p),
            ServersideLoginPacketView::CookieResponse(p) => ServersideCookieResponse::lemma_roundtrip(s, pos, p),
        }
    }

    fn id(&self) -> (res: u32) {
        match self {
            ServersideLoginPacket::LoginStart(_) => 0x00,
            ServersideLoginPacket::EncryptionResponse(_) => 0x01,
            ServersideLoginPacket::PluginResponse(_) => 0x02,
            ServersideLoginPacket::LoginAcknowledged(_) => 0x03,
            ServersideLoginPacket::CookieResponse(_) => 0x04,
        }
    }

    fn read(id: u32, buffer: &mut Cursor) -> (res: Option<ServersideLoginPacket>) {
        match id {
            0x00 => match ServersideLoginStart::read(buffer) {
                Some(p) => Some(ServersideLoginPacket::LoginStart(p)),
                None => None,
            },
            0x01 => match ServersideEncryptionResponse::read(buffer) {
                Some(p) => Some(ServersideLoginPacket::EncryptionResponse(p)),
                None => None,
            },
            0x02 => match ServersidePluginResponse::read(buffer) {
                Some(p) => Some(ServersideLoginPacket::PluginResponse(p)),
                None => None,
            },
            0x03 => match ServersideLoginAcknowledged::read(buffer) {
                Some(p) => Some(ServersideLoginPacket::LoginAcknowledged(p)),
                None => None,
            },
            0x04 => match ServersideCookieResponse::read(buffer) {
                Some(p) => Some(ServersideLoginPacket::CookieResponse(p)),
                None => None,
            },
            _ => None,
        }
    }

    fn write(&self, buffer: &mut Vec<u8>) {
        match self {
            ServersideLoginPacket::LoginStart(p) => p.write(buffer),
            ServersideLoginPacket::EncryptionResponse(p) => p.write(buffer),
            ServersideLoginPacket::PluginResponse(p) => p.write(buffer),
            ServersideLoginPacket::LoginAcknowledged(p) => p.write(buffer),
            ServersideLoginPacket::CookieResponse(p) => p.write(buffer),
        }
    }
}

} // verus!

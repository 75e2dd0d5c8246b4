use vstd::prelude::*;

use crate::codec::cursor::Cursor;
use crate::protocol::packet::Packet;
use crate::protocol::packets::configuration::packets::{ClientsideAddResourcePack, ClientsideAddResourcePackView, ClientsideCookieRequest, ClientsideCookieRequestView, ClientsideCustomReportDetails, ClientsideCustomReportDetailsView, ClientsideDisconnect, ClientsideDisconnectView, ClientsideFeatureFlags, ClientsideFeatureFlagsView, ClientsideFinishConfiguration, ClientsideFinishConfigurationView, ClientsideKnownPacks, ClientsideKnownPacksView, ClientsidePing, ClientsidePingView, ClientsidePluginMessage, ClientsidePluginMessageView, ClientsideRegistryData, ClientsideRegistryDataView, ClientsideRemoveResourcePack, ClientsideRemoveResourcePackView, ClientsideResetChat, ClientsideResetChatView, ClientsideServerLinks, ClientsideServerLinksView, ClientsideStoreCookie, ClientsideStoreCookieView, ClientsideTransfer, ClientsideTransferView, ClientsideUpdateTags, ClientsideUpdateTagsView, MultisideKeepAlive, MultisideKeepAliveView, ServersideAcknowledgeFinishConfiguration, ServersideAcknowledgeFinishConfigurationView, ServersideClientInformation, ServersideClientInformationView, ServersideCookieResponse, ServersideCookieResponseView, ServersideKnownPacks, ServersideKnownPacksView, ServersidePluginMessage, ServersidePluginMessageView, ServersidePong, ServersidePongView, ServersideResourcePackResponse, ServersideResourcePackResponseView};

verus! {

/// The packets that the server sends while the connection is configured.
#[derive(Clone, Debug, PartialEq)]
pub enum ClientsideConfigurationPacket {
    CookieRequest(ClientsideCookieRequest),
    PluginMessage(ClientsidePluginMessage),
    Disconnect(ClientsideDisconnect),
    FinishConfiguration(ClientsideFinishConfiguration),
    KeepAlive(MultisideKeepAlive),
    Ping(ClientsidePing),
    ResetChat(ClientsideResetChat),
    RegistryData(ClientsideRegistryData),
    RemoveResourcePack(ClientsideRemoveResourcePack),
    AddResourcePack(ClientsideAddResourcePack),
    StoreCookie(ClientsideStoreCookie),
    Transfer(ClientsideTransfer),
    FeatureFlags(ClientsideFeatureFlags),
    UpdateTags(ClientsideUpdateTags),
    KnownPacks(ClientsideKnownPacks),
    CustomReportDetails(ClientsideCustomReportDetails),
    ServerLinks(ClientsideServerLinks),
}

/// The content of a [`ClientsideConfigurationPacket`] as it goes over the wire.
pub enum ClientsideConfigurationPacketView {
    CookieRequest(ClientsideCookieRequestView),
    PluginMessage(ClientsidePluginMessageView),
    Disconnect(ClientsideDisconnectView),
    FinishConfiguration(ClientsideFinishConfigurationView),
    KeepAlive(MultisideKeepAliveView),
    Ping(ClientsidePingView),
    ResetChat(ClientsideResetChatView),
    RegistryData(ClientsideRegistryDataView),
    RemoveResourcePack(ClientsideRemoveResourcePackView),
    AddResourcePack(ClientsideAddResourcePackView),
    StoreCookie(ClientsideStoreCookieView),
    Transfer(ClientsideTransferView),
    FeatureFlags(ClientsideFeatureFlagsView),
    UpdateTags(ClientsideUpdateTagsView),
    KnownPacks(ClientsideKnownPacksView),
    CustomReportDetails(ClientsideCustomReportDetailsView),
    ServerLinks(ClientsideServerLinksView),
}

impl DeepView for ClientsideConfigurationPacket {
    type V = ClientsideConfigurationPacketView;

    open spec fn deep_view(&self) -> ClientsideConfigurationPacketView {
        match self {
            ClientsideConfigurationPacket::CookieRequest(p) => ClientsideConfigurationPacketView::CookieRequest(p.deep_view()),
            ClientsideConfigurationPacket::PluginMessage(p) => ClientsideConfigurationPacketView::PluginMessage(p.deep_view()),
            ClientsideConfigurationPacket::Disconnect(p) => ClientsideConfigurationPacketView::Disconnect(p.deep_view()),
            ClientsideConfigurationPacket::FinishConfiguration(p) => ClientsideConfigurationPacketView::FinishConfiguration(p.deep_view()),
            ClientsideConfigurationPacket::KeepAlive(p) => ClientsideConfigurationPacketView::KeepAlive(p.deep_view()),
            ClientsideConfigurationPacket::Ping(p) => ClientsideConfigurationPacketView::Ping(p.deep_view()),
            ClientsideConfigurationPacket::ResetChat(p) => ClientsideConfigurationPacketView::ResetChat(p.deep_view()),
            ClientsideConfigurationPacket::RegistryData(p) => ClientsideConfigurationPacketView::RegistryData(p.deep_view()),
            ClientsideConfigurationPacket::RemoveResourcePack(p) => ClientsideConfigurationPacketView::RemoveResourcePack(p.deep_view()),
            ClientsideConfigurationPacket::AddResourcePack(p) => ClientsideConfigurationPacketView::AddResourcePack(p.deep_view()),
            ClientsideConfigurationPacket::StoreCookie(p) => ClientsideConfigurationPacketView::StoreCookie(p.deep_view()),
            ClientsideConfigurationPacket::Transfer(p) => ClientsideConfigurationPacketView::Transfer(p.deep_view()),
            ClientsideConfigurationPacket::FeatureFlags(p) => ClientsideConfigurationPacketView::FeatureFlags(p.deep_view()),
            ClientsideConfigurationPacket::UpdateTags(p) => ClientsideConfigurationPacketView::UpdateTags(p.deep_view()),
            ClientsideConfigurationPacket::KnownPacks(p) => ClientsideConfigurationPacketView::KnownPacks(p.deep_view()),
            ClientsideConfigurationPacket::CustomReportDetails(p) => ClientsideConfigurationPacketView::CustomReportDetails(p.deep_view()),
            ClientsideConfigurationPacket::ServerLinks(p) => ClientsideConfigurationPacketView::ServerLinks(p.deep_view()),
        }
    }
}

impl Packet for ClientsideConfigurationPacket {
    open spec fn spec_id(v: ClientsideConfigurationPacketView) -> u32 {
        match v {
            ClientsideConfigurationPacketView::CookieRequest(_) => 0x00,
            ClientsideConfigurationPacketView::PluginMessage(_) => 0x01,
            ClientsideConfigurationPacketView::Disconnect(_) => 0x02,
            ClientsideConfigurationPacketView::FinishConfiguration(_) => 0x03,
            ClientsideConfigurationPacketView::KeepAlive(_) => 0x04,
            ClientsideConfigurationPacketView::Ping(_) => 0x05,
            ClientsideConfigurationPacketView::ResetChat(_) => 0x06,
            ClientsideConfigurationPacketView::RegistryData(_) => 0x07,
            ClientsideConfigurationPacketView::RemoveResourcePack(_) => 0x08,
            ClientsideConfigurationPacketView::AddResourcePack(_) => 0x09,
            ClientsideConfigurationPacketView::StoreCookie(_) => 0x0A,
            ClientsideConfigurationPacketView::Transfer(_) => 0x0B,
            ClientsideConfigurationPacketView::FeatureFlags(_) => 0x0C,
            ClientsideConfigurationPacketView::UpdateTags(_) => 0x0D,
            ClientsideConfigurationPacketView::KnownPacks(_) => 0x0E,
            ClientsideConfigurationPacketView::CustomReportDetails(_) => 0x0F,
            ClientsideConfigurationPacketView::ServerLinks(_) => 0x10,
        }
    }

    open spec fn spec_parse_body(id: u32, s: Seq<u8>, pos: int) -> Option<(ClientsideConfigurationPacketView, int)> {
        if id == 0x00 {
            match ClientsideCookieRequest::spec_parse(s, pos) {
                Some((p, q)) => Some((ClientsideConfigurationPacketView::CookieRequest(p), q)),
                None => None,
            }
        } else if id == 0x01 {
            match ClientsidePluginMessage::spec_parse(s, pos) {
                Some((p, q)) => Some((ClientsideConfigurationPacketView::PluginMessage(p), q)),
                None => None,
            }
        } else if id == 0x02 {
            match ClientsideDisconnect::spec_parse(s, pos) {
                Some((p, q)) => Some((ClientsideConfigurationPacketView::Disconnect(p), q)),
                None => None,
            }
        } else if id == 0x03 {
            match ClientsideFinishConfiguration::spec_parse(s, pos) {
                Some((p, q)) => Some((ClientsideConfigurationPacketView::FinishConfiguration(p), q)),
                None => None,
            }
        } else if id == 0x04 {
            match MultisideKeepAlive::spec_parse(s, pos) {
                Some((p, q)) => Some((ClientsideConfigurationPacketView::KeepAlive(p), q)),
                None => None,
            }
        } else if id == 0x05 {
            match ClientsidePing::spec_parse(s, pos) {
                Some((p, q)) => Some((ClientsideConfigurationPacketView::Ping(p), q)),
                None => None,
            }
        } else if id == 0x06 {
            match ClientsideResetChat::spec_parse(s, pos) {
                Some((p, q)) => Some((ClientsideConfigurationPacketView::ResetChat(p), q)),
                None => None,
            }
        } else if id == 0x07 {
            match ClientsideRegistryData::spec_parse(s, pos) {
                Some((p, q)) => Some((ClientsideConfigurationPacketView::RegistryData(p), q)),
                None => None,
            }
        } else if id == 0x08 {
            match ClientsideRemoveResourcePack::spec_parse(s, pos) {
                Some((p, q)) => Some((ClientsideConfigurationPacketView::RemoveResourcePack(p), q)),
                None => None,
            }
        } else if id == 0x09 {
            match ClientsideAddResourcePack::spec_parse(s, pos) {
                Some((p, q)) => Some((ClientsideConfigurationPacketView::AddResourcePack(p), q)),
                None => None,
            }
        } else if id == 0x0A {
            match ClientsideStoreCookie::spec_parse(s, pos) {
                Some((p, q)) => Some((ClientsideConfigurationPacketView::StoreCookie(p), q)),
                None => None,
            }
        } else if id == 0x0B {
            match ClientsideTransfer::spec_parse(s, pos) {
                Some((p, q)) => Some((ClientsideConfigurationPacketView::Transfer(p), q)),
                None => None,
            }
        } else if id == 0x0C {
            match ClientsideFeatureFlags::spec_parse(s, pos) {
                Some((p, q)) => Some((ClientsideConfigurationPacketView::FeatureFlags(p), q)),
                None => None,
            }
        } else if id == 0x0D {
            match ClientsideUpdateTags::spec_parse(s, pos) {
                Some((p, q)) => Some((ClientsideConfigurationPacketView::UpdateTags(p), q)),
                None => None,
            }
        } else if id == 0x0E {
            match ClientsideKnownPacks::spec_parse(s, pos) {
                Some((p, q)) => Some((ClientsideConfigurationPacketView::KnownPacks(p), q)),
                None => None,
            }
        } else if id == 0x0F {
            match ClientsideCustomReportDetails::spec_parse(s, pos) {
                Some((p, q)) => Some((ClientsideConfigurationPacketView::CustomReportDetails(p), q)),
                None => None,
            }
        } else if id == 0x10 {
            match ClientsideServerLinks::spec_parse(s, pos) {
                Some((p, q)) => Some((ClientsideConfigurationPacketView::ServerLinks(p), q)),
                None => None,
            }
        } else {
            None
        }
    }

    open spec fn spec_serialize_body(v: ClientsideConfigurationPacketView) -> Seq<u8> {
        match v {
            ClientsideConfigurationPacketView::CookieRequest(p) => ClientsideCookieRequest::spec_serialize(p),
            ClientsideConfigurationPacketView::PluginMessage(p) => ClientsidePluginMessage::spec_serialize(p),
            ClientsideConfigurationPacketView::Disconnect(p) => ClientsideDisconnect::spec_serialize(p),
            ClientsideConfigurationPacketView::FinishConfiguration(p) => ClientsideFinishConfiguration::spec_serialize(p),
            ClientsideConfigurationPacketView::KeepAlive(p) => MultisideKeepAlive::spec_serialize(p),
            ClientsideConfigurationPacketView::Ping(p) => ClientsidePing::spec_serialize(p),
            ClientsideConfigurationPacketView::ResetChat(p) => ClientsideResetChat::spec_serialize(p),
            ClientsideConfigurationPacketView::RegistryData(p) => ClientsideRegistryData::spec_serialize(p),
            ClientsideConfigurationPacketView::RemoveResourcePack(p) => ClientsideRemoveResourcePack::spec_serialize(p),
            ClientsideConfigurationPacketView::AddResourcePack(p) => ClientsideAddResourcePack::spec_serialize(p),
            ClientsideConfigurationPacketView::StoreCookie(p) => ClientsideStoreCookie::spec_serialize(p),
            ClientsideConfigurationPacketView::Transfer(p) => ClientsideTransfer::spec_serialize(p),
            ClientsideConfigurationPacketView::FeatureFlags(p) => ClientsideFeatureFlags::spec_serialize(p),
            ClientsideConfigurationPacketView::UpdateTags(p) => ClientsideUpdateTags::spec_serialize(p),
            ClientsideConfigurationPacketView::KnownPacks(p) => ClientsideKnownPacks::spec_serialize(p),
            ClientsideConfigurationPacketView::CustomReportDetails(p) => ClientsideCustomReportDetails::spec_serialize(p),
            ClientsideConfigurationPacketView::ServerLinks(p) => ClientsideServerLinks::spec_serialize(p),
        }
    }

    open spec fn spec_wf(v: ClientsideConfigurationPacketView) -> bool {
        match v {
            ClientsideConfigurationPacketView::CookieRequest(p) => ClientsideCookieRequest::spec_wf(p),
            ClientsideConfigurationPacketView::PluginMessage(p) => ClientsidePluginMessage::spec_wf(p),
            ClientsideConfigurationPacketView::Disconnect(p) => ClientsideDisconnect::spec_wf(p),
            ClientsideConfigurationPacketView::FinishConfiguration(p) => ClientsideFinishConfiguration::spec_wf(p),
            ClientsideConfigurationPacketView::KeepAlive(p) => MultisideKeepAlive::spec_wf(p),
            ClientsideConfigurationPacketView::Ping(p) => ClientsidePing::spec_wf(p),
            ClientsideConfigurationPacketView::ResetChat(p) => ClientsideResetChat::spec_wf(p),
            ClientsideConfigurationPacketView::RegistryData(p) => ClientsideRegistryData::spec_wf(p),
            ClientsideConfigurationPacketView::RemoveResourcePack(p) => ClientsideRemoveResourcePack::spec_wf(p),
            ClientsideConfigurationPacketView::AddResourcePack(p) => ClientsideAddResourcePack::spec_wf(p),
            ClientsideConfigurationPacketView::StoreCookie(p) => ClientsideStoreCookie::spec_wf(p),
            ClientsideConfigurationPacketView::Transfer(p) => ClientsideTransfer::spec_wf(p),
            ClientsideConfigurationPacketView::FeatureFlags(p) => ClientsideFeatureFlags::spec_wf(p),
            ClientsideConfigurationPacketView::UpdateTags(p) => ClientsideUpdateTags::spec_wf(p),
            ClientsideConfigurationPacketView::KnownPacks(p) => ClientsideKnownPacks::spec_wf(p),
            ClientsideConfigurationPacketView::CustomReportDetails(p) => ClientsideCustomReportDetails::spec_wf(p),
            ClientsideConfigurationPacketView::ServerLinks(p) => ClientsideServerLinks::spec_wf(p),
        }
    }

    proof fn lemma_body_roundtrip(s: Seq<u8>, pos: int, v: ClientsideConfigurationPacketView) {
        match v {
            ClientsideConfigurationPacketView::CookieRequest(p) => ClientsideCookieRequest::lemma_roundtrip(s, pos, p),
            ClientsideConfigurationPacketView::PluginMessage(p) => ClientsidePluginMessage::lemma_roundtrip(s, pos, p),
            ClientsideConfigurationPacketView::Disconnect(p) => ClientsideDisconnect::lemma_roundtrip(s, pos, p),
            ClientsideConfigurationPacketView::FinishConfiguration(p) => ClientsideFinishConfiguration::lemma_roundtrip(s, pos, p),
            ClientsideConfigurationPacketView::KeepAlive(p) => MultisideKeepAlive::lemma_roundtrip(s, pos, p),
            ClientsideConfigurationPacketView::Ping(p) => ClientsidePing::lemma_roundtrip(s, pos, p),
            ClientsideConfigurationPacketView::ResetChat(p) => ClientsideResetChat::lemma_roundtrip(s, pos, p),
            ClientsideConfigurationPacketView::RegistryData(p) => ClientsideRegistryData::lemma_roundtrip(s, pos, p),
            ClientsideConfigurationPacketView::RemoveResourcePack(p) => ClientsideRemoveResourcePack::lemma_roundtrip(s, pos, p),
            ClientsideConfigurationPacketView::AddResourcePack(p) => ClientsideAddResourcePack::lemma_roundtrip(s, pos, p),
            ClientsideConfigurationPacketView::StoreCookie(p) => ClientsideStoreCookie::lemma_roundtrip(s, pos, p),
            ClientsideConfigurationPacketView::Transfer(p) => ClientsideTransfer::lemma_roundtrip(s, pos, p),
            ClientsideConfigurationPacketView::FeatureFlags(p) => ClientsideFeatureFlags::lemma_roundtrip(s, pos, p),
            ClientsideConfigurationPacketView::UpdateTags(p) => ClientsideUpdateTags::lemma_roundtrip(s, pos, p),
            ClientsideConfigurationPacketView::KnownPacks(p) => ClientsideKnownPacks::lemma_roundtrip(s, pos, p),
            ClientsideConfigurationPacketView::CustomReportDetails(p) => ClientsideCustomReportDetails::lemma_roundtrip(s, pos, p),
            ClientsideConfigurationPacketView::ServerLinks(p) => ClientsideServerLinks::lemma_roundtrip(s, pos, p),
        }
    }

    fn id(&self) -> (res: u32) {
        match self {
            ClientsideConfigurationPacket::CookieRequest(_) => 0x00,
            ClientsideConfigurationPacket::PluginMessage(_) => 0x01,
            ClientsideConfigurationPacket::Disconnect(_) => 0x02,
            ClientsideConfigurationPacket::FinishConfiguration(_) => 0x03,
            ClientsideConfigurationPacket::KeepAlive(_) => 0x04,
            ClientsideConfigurationPacket::Ping(_) => 0x05,
            ClientsideConfigurationPacket::ResetChat(_) => 0x06,
            ClientsideConfigurationPacket::RegistryData(_) => 0x07,
            ClientsideConfigurationPacket::RemoveResourcePack(_) => 0x08,
            ClientsideConfigurationPacket::AddResourcePack(_) => 0x09,
            ClientsideConfigurationPacket::StoreCookie(_) => 0x0A,
            ClientsideConfigurationPacket::Transfer(_) => 0x0B,
            ClientsideConfigurationPacket::FeatureFlags(_) => 0x0C,
            ClientsideConfigurationPacket::UpdateTags(_) => 0x0D,
            ClientsideConfigurationPacket::KnownPacks(_) => 0x0E,
            ClientsideConfigurationPacket::CustomReportDetails(_) => 0x0F,
            ClientsideConfigurationPacket::ServerLinks(_) => 0x10,
        }
    }

    fn read(id: u32, buffer: &mut Cursor) -> (res: Option<ClientsideConfigurationPacket>) {
        match id {
            0x00 => match ClientsideCookieRequest::read(buffer) {
                Some(p) => Some(ClientsideConfigurationPacket::CookieRequest(p)),
                None => None,
            },
            0x01 => match ClientsidePluginMessage::read(buffer) {
                Some(p) => Some(ClientsideConfigurationPacket::PluginMessage(p)),
                None => None,
            },
            0x02 => match ClientsideDisconnect::read(buffer) {
                Some(p) => Some(ClientsideConfigurationPacket::Disconnect(p)),
                None => None,
            },
            0x03 => match ClientsideFinishConfiguration::read(buffer) {
                Some(p) => Some(ClientsideConfigurationPacket::FinishConfiguration(p)),
                None => None,
            },
            0x04 => match MultisideKeepAlive::read(buffer) {
                Some(p) => Some(ClientsideConfigurationPacket::KeepAlive(p)),
                None => None,
            },
            0x05 => match ClientsidePing::read(buffer) {
                Some(p) => Some(ClientsideConfigurationPacket::Ping(p)),
                None => None,
            },
            0x06 => match ClientsideResetChat::read(buffer) {
                Some(p) => Some(ClientsideConfigurationPacket::ResetChat(p)),
                None => None,
            },
            0x07 => match ClientsideRegistryData::read(buffer) {
                Some(p) => Some(ClientsideConfigurationPacket::RegistryData(p)),
                None => None,
            },
            0x08 => match ClientsideRemoveResourcePack::read(buffer) {
                Some(p) => Some(ClientsideConfigurationPacket::RemoveResourcePack(p)),
                None => None,
            },
            0x09 => match ClientsideAddResourcePack::read(buffer) {
                Some(p) => Some(ClientsideConfigurationPacket::AddResourcePack(p)),
                None => None,
            },
            0x0A => match ClientsideStoreCookie::read(buffer) {
                Some(p) => Some(ClientsideConfigurationPacket::StoreCookie(p)),
                None => None,
            },
            0x0B => match ClientsideTransfer::read(buffer) {
                Some(p) => Some(ClientsideConfigurationPacket::Transfer(p)),
                None => None,
            },
            0x0C => match ClientsideFeatureFlags::read(buffer) {
                Some(p) => Some(ClientsideConfigurationPacket::FeatureFlags(p)),
                None => None,
            },
            0x0D => match ClientsideUpdateTags::read(buffer) {
                Some(p) => Some(ClientsideConfigurationPacket::UpdateTags(p)),
                None => None,
            },
            0x0E => match ClientsideKnownPacks::read(buffer) {
                Some(p) => Some(ClientsideConfigurationPacket::KnownPacks(p)),
                None => None,
            },
            0x0F => match ClientsideCustomReportDetails::read(buffer) {
                Some(p) => Some(ClientsideConfigurationPacket::CustomReportDetails(p)),
                None => None,
            },
            0x10 => match ClientsideServerLinks::read(buffer) {
                Some(p) => Some(ClientsideConfigurationPacket::ServerLinks(p)),
                None => None,
            },
            _ => None,
        }
    }

    fn write(&self, buffer: &mut Vec<u8>) {
        match self {
            ClientsideConfigurationPacket::CookieRequest(p) => p.write(buffer),
            ClientsideConfigurationPacket::PluginMessage(p) => p.write(buffer),
            ClientsideConfigurationPacket::Disconnect(p) => p.write(buffer),
            ClientsideConfigurationPacket::FinishConfiguration(p) => p.write(buffer),
            ClientsideConfigurationPacket::KeepAlive(p) => p.write(buffer),
            ClientsideConfigurationPacket::Ping(p) => p.write(buffer),
            ClientsideConfigurationPacket::ResetChat(p) => p.write(buffer),
            ClientsideConfigurationPacket::RegistryData(p) => p.write(buffer),
            ClientsideConfigurationPacket::RemoveResourcePack(p) => p.write(buffer),
            ClientsideConfigurationPacket::AddResourcePack(p) => p.write(buffer),
            ClientsideConfigurationPacket::StoreCookie(p) => p.write(buffer),
            ClientsideConfigurationPacket::Transfer(p) => p.write(buffer),
            ClientsideConfigurationPacket::FeatureFlags(p) => p.write(buffer),
            ClientsideConfigurationPacket::UpdateTags(p) => p.write(buffer),
            ClientsideConfigurationPacket::KnownPacks(p) => p.write(buffer),
            ClientsideConfigurationPacket::CustomReportDetails(p) => p.write(buffer),
            ClientsideConfigurationPacket::ServerLinks(p) => p.write(buffer),
        }
    }
}

/// The packets that the client sends while the connection is configured.
#[derive(Clone, Debug, PartialEq)]
pub enum ServersideConfigurationPacket {
    ClientInformation(ServersideClientInformation),
    CookieResponse(ServersideCookieResponse),
    PluginMessage(ServersidePluginMessage),
    AcknowledgeFinishConfiguration(ServersideAcknowledgeFinishConfiguration),
    KeepAlive(MultisideKeepAlive),
    Pong(ServersidePong),
    ResourcePackResponse(ServersideResourcePackResponse),
    KnownPacks(ServersideKnownPacks),
}

/// The content of a [`ServersideConfigurationPacket`] as it goes over the wire.
pub enum ServersideConfigurationPacketView {
    ClientInformation(ServersideClientInformationView),
    CookieResponse(ServersideCookieResponseView),
    PluginMessage(ServersidePluginMessageView),
    AcknowledgeFinishConfiguration(ServersideAcknowledgeFinishConfigurationView),
    KeepAlive(MultisideKeepAliveView),
    Pong(ServersidePongView),
    ResourcePackResponse(ServersideResourcePackResponseView),
    KnownPacks(ServersideKnownPacksView),
}

impl DeepView for ServersideConfigurationPacket {
    type V = ServersideConfigurationPacketView;

    open spec fn deep_view(&self) -> ServersideConfigurationPacketView {
        match self {
            ServersideConfigurationPacket::ClientInformation(p) => ServersideConfigurationPacketView::ClientInformation(p.deep_view()),
            ServersideConfigurationPacket::CookieResponse(p) => ServersideConfigurationPacketView::CookieResponse(p.deep_view()),
            ServersideConfigurationPacket::PluginMessage(p) => ServersideConfigurationPacketView::PluginMessage(p.deep_view()),
            ServersideConfigurationPacket::AcknowledgeFinishConfiguration(p) => ServersideConfigurationPacketView::AcknowledgeFinishConfiguration(p.deep_view()),
            ServersideConfigurationPacket::KeepAlive(p) => ServersideConfigurationPacketView::KeepAlive(p.deep_view()),
            ServersideConfigurationPacket::Pong(p) => ServersideConfigurationPacketView::Pong(p.deep_view()),
            ServersideConfigurationPacket::ResourcePackResponse(p) => ServersideConfigurationPacketView::ResourcePackResponse(p.deep_view()),
            ServersideConfigurationPacket::KnownPacks(p) => ServersideConfigurationPacketView::KnownPacks(p.deep_view()),
        }
    }
}

impl Packet for ServersideConfigurationPacket {
    open spec fn spec_id(v: ServersideConfigurationPacketView) -> u32 {
        match v {
            ServersideConfigurationPacketView::ClientInformation(_) => 0x00,
            ServersideConfigurationPacketView::CookieResponse(_) => 0x01,
            ServersideConfigurationPacketView::PluginMessage(_) => 0x02,
            ServersideConfigurationPacketView::AcknowledgeFinishConfiguration(_) => 0x03,
            ServersideConfigurationPacketView::KeepAlive(_) => 0x04,
            ServersideConfigurationPacketView::Pong(_) => 0x05,
            ServersideConfigurationPacketView::ResourcePackResponse(_) => 0x06,
            ServersideConfigurationPacketView::KnownPacks(_) => 0x07,
        }
    }

    open spec fn spec_parse_body(id: u32, s: Seq<u8>, pos: int) -> Option<(ServersideConfigurationPacketView, int)> {
        if id == 0x00 {
            match ServersideClientInformation::spec_parse(s, pos) {
                Some((p, q)) => Some((ServersideConfigurationPacketView::ClientInformation(p), q)),
                None => None,
            }
        } else if id == 0x01 {
            match ServersideCookieResponse::spec_parse(s, pos) {
                Some((p, q)) => Some((ServersideConfigurationPacketView::CookieResponse(p), q)),
                None => None,
            }
        } else if id == 0x02 {
            match ServersidePluginMessage::spec_parse(s, pos) {
                Some((p, q)) => Some((ServersideConfigurationPacketView::PluginMessage(p), q)),
                None => None,
            }
        } else if id == 0x03 {
            match ServersideAcknowledgeFinishConfiguration::spec_parse(s, pos) {
                Some((p, q)) => Some((ServersideConfigurationPacketView::AcknowledgeFinishConfiguration(p), q)),
                None => None,
            }
        } else if id == 0x04 {
            match MultisideKeepAlive::spec_parse(s, pos) {
                Some((p, q)) => Some((ServersideConfigurationPacketView::KeepAlive(p), q)),
                None => None,
            }
        } else if id == 0x05 {
            match ServersidePong::spec_parse(s, pos) {
                Some((p, q)) => Some((ServersideConfigurationPacketView::Pong(p), q)),
                None => None,
            }
        } else if id == 0x06 {
            match ServersideResourcePackResponse::spec_parse(s, pos) {
                Some((p, q)) => Some((ServersideConfigurationPacketView::ResourcePackResponse(p), q)),
                None => None,
            }
        } else if id == 0x07 {
            match ServersideKnownPacks::spec_parse(s, pos) {
                Some((p, q)) => Some((ServersideConfigurationPacketView::KnownPacks(p), q)),
                None => None,
            }
        } else {
            None
        }
    }

    open spec fn spec_serialize_body(v: ServersideConfigurationPacketView) -> Seq<u8> {
        match v {
            ServersideConfigurationPacketView::ClientInformation(p) => ServersideClientInformation::spec_serialize(p),
            ServersideConfigurationPacketView::CookieResponse(p) => ServersideCookieResponse::spec_serialize(p),
            ServersideConfigurationPacketView::PluginMessage(p) => ServersidePluginMessage::spec_serialize(p),
            ServersideConfigurationPacketView::AcknowledgeFinishConfiguration(p) => ServersideAcknowledgeFinishConfiguration::spec_serialize(p),
            ServersideConfigurationPacketView::KeepAlive(p) => MultisideKeepAlive::spec_serialize(p),
            ServersideConfigurationPacketView::Pong(p) => ServersidePong::spec_serialize(p),
            ServersideConfigurationPacketView::ResourcePackResponse(p) => ServersideResourcePackResponse::spec_serialize(p),
            ServersideConfigurationPacketView::KnownPacks(p) => ServersideKnownPacks::spec_serialize(p),
        }
    }

    open spec fn spec_wf(v: ServersideConfigurationPacketView) -> bool {
        match v {
            ServersideConfigurationPacketView::ClientInformation(p) => ServersideClientInformation::spec_wf(p),
            ServersideConfigurationPacketView::CookieResponse(p) => ServersideCookieResponse::spec_wf(p),
            ServersideConfigurationPacketView::PluginMessage(p) => ServersidePluginMessage::spec_wf(p),
            ServersideConfigurationPacketView::AcknowledgeFinishConfiguration(p) => ServersideAcknowledgeFinishConfiguration::spec_wf(p),
            ServersideConfigurationPacketView::KeepAlive(p) => MultisideKeepAlive::spec_wf(p),
            ServersideConfigurationPacketView::Pong(p) => ServersidePong::spec_wf(p),
            ServersideConfigurationPacketView::ResourcePackResponse(p) => ServersideResourcePackResponse::spec_wf(p),
            ServersideConfigurationPacketView::KnownPacks(p) => ServersideKnownPacks::spec_wf(p),
        }
    }

    proof fn lemma_body_roundtrip(s: Seq<u8>, pos: int, v: ServersideConfigurationPacketView) {
        match v {
            ServersideConfigurationPacketView::ClientInformation(p) => ServersideClientInformation::lemma_roundtrip(s, pos, p),
            ServersideConfigurationPacketView::CookieResponse(p) => ServersideCookieResponse::lemma_roundtrip(s, pos, p),
            ServersideConfigurationPacketView::PluginMessage(p) => ServersidePluginMessage::lemma_roundtrip(s, pos, p),
            ServersideConfigurationPacketView::AcknowledgeFinishConfiguration(p) => ServersideAcknowledgeFinishConfiguration::lemma_roundtrip(s, pos, p),
            ServersideConfigurationPacketView::KeepAlive(p) => MultisideKeepAlive::lemma_roundtrip(s, pos, p),
            ServersideConfigurationPacketView::Pong(p) => ServersidePong::lemma_roundtrip(s, pos, p),
            ServersideConfigurationPacketView::ResourcePackResponse(p) => ServersideResourcePackResponse::lemma_roundtrip(s, pos, p),
            ServersideConfigurationPacketView::KnownPacks(p) => ServersideKnownPacks::lemma_roundtrip(s, pos, p),
        }
    }

    fn id(&self) -> (res: u32) {
        match self {
            ServersideConfigurationPacket::ClientInformation(_) => 0x00,
            ServersideConfigurationPacket::CookieResponse(_) => 0x01,
            ServersideConfigurationPacket::PluginMessage(_) => 0x02,
            ServersideConfigurationPacket::AcknowledgeFinishConfiguration(_) => 0x03,
            ServersideConfigurationPacket::KeepAlive(_) => 0x04,
            ServersideConfigurationPacket::Pong(_) => 0x05,
            ServersideConfigurationPacket::ResourcePackResponse(_) => 0x06,
            ServersideConfigurationPacket::KnownPacks(_) => 0x07,
        }
    }

    fn read(id: u32, buffer: &mut Cursor) -> (res: Option<ServersideConfigurationPacket>) {
        match id {
            0x00 => match ServersideClientInformation::read(buffer) {
                Some(p) => Some(ServersideConfigurationPacket::ClientInformation(p)),
                None => None,
            },
            0x01 => match ServersideCookieResponse::read(buffer) {
                Some(p) => Some(ServersideConfigurationPacket::CookieResponse(p)),
                None => None,
            },
            0x02 => match ServersidePluginMessage::read(buffer) {
                Some(p) => Some(ServersideConfigurationPacket::PluginMessage(p)),
                None => None,
            },
            0x03 => match ServersideAcknowledgeFinishConfiguration::read(buffer) {
                Some(p) => Some(ServersideConfigurationPacket::AcknowledgeFinishConfiguration(p)),
                None => None,
            },
            0x04 => match MultisideKeepAlive::read(buffer) {
                Some(p) => Some(ServersideConfigurationPacket::KeepAlive(p)),
                None => None,
            },
            0x05 => match ServersidePong::read(buffer) {
                Some(p) => Some(ServersideConfigurationPacket::Pong(p)),
                None => None,
            },
            0x06 => match ServersideResourcePackResponse::read(buffer) {
                Some(p) => Some(ServersideConfigurationPacket::ResourcePackResponse(p)),
                None => None,
            },
            0x07 => match ServersideKnownPacks::read(buffer) {
                Some(p) => Some(ServersideConfigurationPacket::KnownPacks(p)),
                None => None,
            },
            _ => None,
        }
    }

    fn write(&self, buffer: &mut Vec<u8>) {
        match self {
            ServersideConfigurationPacket::ClientInformation(p) => p.write(buffer),
            ServersideConfigurationPacket::CookieResponse(p) => p.write(buffer),
            ServersideConfigurationPacket::PluginMessage(p) => p.write(buffer),
            ServersideConfigurationPacket::AcknowledgeFinishConfiguration(p) => p.write(buffer),
            ServersideConfigurationPacket::KeepAlive(p) => p.write(buffer),
            ServersideConfigurationPacket::Pong(p) => p.write(buffer),
            ServersideConfigurationPacket::ResourcePackResponse(p) => p.write(buffer),
            ServersideConfigurationPacket::KnownPacks(p) => p.write(buffer),
        }
    }
}

} // verus!

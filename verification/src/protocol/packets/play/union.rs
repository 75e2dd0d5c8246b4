use vstd::prelude::*;

use crate::codec::cursor::Cursor;
use crate::protocol::packet::Packet;
use crate::protocol::packets::play::packets::{ClientsideAddResourcePack, ClientsideAddResourcePackView, ClientsideChunkCacheCenter, ClientsideChunkCacheCenterView, ClientsideChunkCacheRadius, ClientsideChunkCacheRadiusView, ClientsideClearChat, ClientsideClearChatView, ClientsideDisconnect, ClientsideDisconnectView, ClientsideLogin, ClientsideLoginView, ClientsideOpenContainer, ClientsideOpenContainerView, ClientsidePing, ClientsidePingResponse, ClientsidePingResponseView, ClientsidePingView, ClientsidePlayerChat, ClientsidePlayerChatView, ClientsidePlayerCombatKill, ClientsidePlayerCombatKillView, ClientsidePlayerPosition, ClientsidePlayerPositionView, ClientsideRemoveEntities, ClientsideRemoveEntitiesView, ClientsideRemoveEntityEffect, ClientsideRemoveEntityEffectView, ClientsideRemoveResourcePack, ClientsideRemoveResourcePackView, ClientsideRotateHead, ClientsideRotateHeadView, ClientsideSectionBlocksUpdate, ClientsideSectionBlocksUpdateView, ClientsideSetCamera, ClientsideSetCameraView, ClientsideSetEntityLink, ClientsideSetEntityLinkView, ClientsideSetPassengers, ClientsideSetPassengersView, ClientsideSystemChat, ClientsideSystemChatView, ClientsideTransfer, ClientsideTransferView, ClientsideUnloadChunk, ClientsideUnloadChunkView, ClientsideUpdateEntityPos, ClientsideUpdateEntityPosRot, ClientsideUpdateEntityPosRotView, ClientsideUpdateEntityPosView, ClientsideUpdateEntityRot, ClientsideUpdateEntityRotView, MultisideKeepAlive, MultisideKeepAliveView, ServersideAcceptTeleportation, ServersideAcceptTeleportationView, ServersideChatCommand, ServersideChatCommandView, ServersideChatMessage, ServersideChatMessageView, ServersideClientCommand, ServersideClientCommandView, ServersidePingRequest, ServersidePingRequestView, ServersidePong, ServersidePongView, ServersideResourcePackResponse, ServersideResourcePackResponseView, ServersideSetHeldItem, ServersideSetHeldItemView};

verus! {

/// The packets that the server sends while the player is in the world. The player position holds its floating-point fields as bit patterns; the other packets whose fields hold floating-point numbers, or protocol types that this library does not define, are not among them: their identifiers read as no packet.
#[derive(Clone, Debug, PartialEq)]
pub enum ClientsidePlayPacket {
    KeepAlive(MultisideKeepAlive),
    Ping(ClientsidePing),
    PingResponse(ClientsidePingResponse),
    UpdateEntityPos(ClientsideUpdateEntityPos),
    UpdateEntityRot(ClientsideUpdateEntityRot),
    UpdateEntityPosRot(ClientsideUpdateEntityPosRot),
    PlayerCombatKill(ClientsidePlayerCombatKill),
    SetPassengers(ClientsideSetPassengers),
    RemoveEntities(ClientsideRemoveEntities),
    Disconnect(ClientsideDisconnect),
    PlayerChat(ClientsidePlayerChat),
    SystemChat(ClientsideSystemChat),
    Transfer(ClientsideTransfer),
    SetEntityLink(ClientsideSetEntityLink),
    ChunkCacheRadius(ClientsideChunkCacheRadius),
    ChunkCacheCenter(ClientsideChunkCacheCenter),
    SetCamera(ClientsideSetCamera),
    RotateHead(ClientsideRotateHead),
    AddResourcePack(ClientsideAddResourcePack),
    RemoveResourcePack(ClientsideRemoveResourcePack),
    RemoveEntityEffect(ClientsideRemoveEntityEffect),
    OpenContainer(ClientsideOpenContainer),
    Login(ClientsideLogin),
    UnloadChunk(ClientsideUnloadChunk),
    ClearChat(ClientsideClearChat),
    SectionBlocksUpdate(ClientsideSectionBlocksUpdate),
    PlayerPosition(ClientsidePlayerPosition),
}

/// The content of a [`ClientsidePlayPacket`] as it goes over the wire.
pub enum ClientsidePlayPacketView {
    KeepAlive(MultisideKeepAliveView),
    Ping(ClientsidePingView),
    PingResponse(ClientsidePingResponseView),
    UpdateEntityPos(ClientsideUpdateEntityPosView),
    UpdateEntityRot(ClientsideUpdateEntityRotView),
    UpdateEntityPosRot(ClientsideUpdateEntityPosRotView),
    PlayerCombatKill(ClientsidePlayerCombatKillView),
    SetPassengers(ClientsideSetPassengersView),
    RemoveEntities(ClientsideRemoveEntitiesView),
    Disconnect(ClientsideDisconnectView),
    PlayerChat(ClientsidePlayerChatView),
    SystemChat(ClientsideSystemChatView),
    Transfer(ClientsideTransferView),
    SetEntityLink(ClientsideSetEntityLinkView),
    ChunkCacheRadius(ClientsideChunkCacheRadiusView),
    ChunkCacheCenter(ClientsideChunkCacheCenterView),
    SetCamera(ClientsideSetCameraView),
    RotateHead(ClientsideRotateHeadView),
    AddResourcePack(ClientsideAddResourcePackView),
    RemoveResourcePack(ClientsideRemoveResourcePackView),
    RemoveEntityEffect(ClientsideRemoveEntityEffectView),
    OpenContainer(ClientsideOpenContainerView),
    Login(ClientsideLoginView),
    UnloadChunk(ClientsideUnloadChunkView),
    ClearChat(ClientsideClearChatView),
    SectionBlocksUpdate(ClientsideSectionBlocksUpdateView),
    PlayerPosition(ClientsidePlayerPositionView),
}

impl DeepView for ClientsidePlayPacket {
    type V = ClientsidePlayPacketView;

    open spec fn deep_view(&self) -> ClientsidePlayPacketView {
        match self {
            ClientsidePlayPacket::KeepAlive(p) => ClientsidePlayPacketView::KeepAlive(p.deep_view()),
            ClientsidePlayPacket::Ping(p) => ClientsidePlayPacketView::Ping(p.deep_view()),
            ClientsidePlayPacket::PingResponse(p) => ClientsidePlayPacketView::PingResponse(p.deep_view()),
            ClientsidePlayPacket::UpdateEntityPos(p) => ClientsidePlayPacketView::UpdateEntityPos(p.deep_view()),
            ClientsidePlayPacket::UpdateEntityRot(p) => ClientsidePlayPacketView::UpdateEntityRot(p.deep_view()),
            ClientsidePlayPacket::UpdateEntityPosRot(p) => ClientsidePlayPacketView::UpdateEntityPosRot(p.deep_view()),
            ClientsidePlayPacket::PlayerCombatKill(p) => ClientsidePlayPacketView::PlayerCombatKill(p.deep_view()),
            ClientsidePlayPacket::SetPassengers(p) => ClientsidePlayPacketView::SetPassengers(p.deep_view()),
            ClientsidePlayPacket::RemoveEntities(p) => ClientsidePlayPacketView::RemoveEntities(p.deep_view()),
            ClientsidePlayPacket::Disconnect(p) => ClientsidePlayPacketView::Disconnect(p.deep_view()),
            ClientsidePlayPacket::PlayerChat(p) => ClientsidePlayPacketView::PlayerChat(p.deep_view()),
            ClientsidePlayPacket::SystemChat(p) => ClientsidePlayPacketView::SystemChat(p.deep_view()),
            ClientsidePlayPacket::Transfer(p) => ClientsidePlayPacketView::Transfer(p.deep_view()),
            ClientsidePlayPacket::SetEntityLink(p) => ClientsidePlayPacketView::SetEntityLink(p.deep_view()),
            ClientsidePlayPacket::ChunkCacheRadius(p) => ClientsidePlayPacketView::ChunkCacheRadius(p.deep_view()),
            ClientsidePlayPacket::ChunkCacheCenter(p) => ClientsidePlayPacketView::ChunkCacheCenter(p.deep_view()),
            ClientsidePlayPacket::SetCamera(p) => ClientsidePlayPacketView::SetCamera(p.deep_view()),
            ClientsidePlayPacket::RotateHead(p) => ClientsidePlayPacketView::RotateHead(p.deep_view()),
            ClientsidePlayPacket::AddResourcePack(p) => ClientsidePlayPacketView::AddResourcePack(p.deep_view()),
            ClientsidePlayPacket::RemoveResourcePack(p) => ClientsidePlayPacketView::RemoveResourcePack(p.deep_view()),
            ClientsidePlayPacket::RemoveEntityEffect(p) => ClientsidePlayPacketView::RemoveEntityEffect(p.deep_view()),
            ClientsidePlayPacket::OpenContainer(p) => ClientsidePlayPacketView::OpenContainer(p.deep_view()),
            ClientsidePlayPacket::Login(p) => ClientsidePlayPacketView::Login(p.deep_view()),
            ClientsidePlayPacket::UnloadChunk(p) => ClientsidePlayPacketView::UnloadChunk(p.deep_view()),
            ClientsidePlayPacket::ClearChat(p) => ClientsidePlayPacketView::ClearChat(p.deep_view()),
            ClientsidePlayPacket::SectionBlocksUpdate(p) => ClientsidePlayPacketView::SectionBlocksUpdate(p.deep_view()),
            ClientsidePlayPacket::PlayerPosition(p) => ClientsidePlayPacketView::PlayerPosition(p.deep_view()),
        }
    }
}

impl Packet for ClientsidePlayPacket {
    open spec fn spec_id(v: ClientsidePlayPacketView) -> u32 {
        match v {
            ClientsidePlayPacketView::KeepAlive(_) => 0x2B,
            ClientsidePlayPacketView::Ping(_) => 0x3B,
            ClientsidePlayPacketView::PingResponse(_) => 0x3C,
            ClientsidePlayPacketView::UpdateEntityPos(_) => 0x33,
            ClientsidePlayPacketView::UpdateEntityRot(_) => 0x36,
            ClientsidePlayPacketView::UpdateEntityPosRot(_) => 0x34,
            ClientsidePlayPacketView::PlayerCombatKill(_) => 0x42,
            ClientsidePlayPacketView::SetPassengers(_) => 0x69,
            ClientsidePlayPacketView::RemoveEntities(_) => 0x4B,
            ClientsidePlayPacketView::Disconnect(_) => 0x20,
            ClientsidePlayPacketView::PlayerChat(_) => 0x3F,
            ClientsidePlayPacketView::SystemChat(_) => 0x77,
            ClientsidePlayPacketView::Transfer(_) => 0x7F,
            ClientsidePlayPacketView::SetEntityLink(_) => 0x62,
            ClientsidePlayPacketView::ChunkCacheRadius(_) => 0x5D,
            ClientsidePlayPacketView::ChunkCacheCenter(_) => 0x5C,
            ClientsidePlayPacketView::SetCamera(_) => 0x5B,
            ClientsidePlayPacketView::RotateHead(_) => 0x51,
            ClientsidePlayPacketView::AddResourcePack(_) => 0x4F,
            ClientsidePlayPacketView::RemoveResourcePack(_) => 0x4E,
            ClientsidePlayPacketView::RemoveEntityEffect(_) => 0x4C,
            ClientsidePlayPacketView::OpenContainer(_) => 0x39,
            ClientsidePlayPacketView::Login(_) => 0x30,
            ClientsidePlayPacketView::UnloadChunk(_) => 0x25,
            ClientsidePlayPacketView::ClearChat(_) => 0x1F,
            ClientsidePlayPacketView::SectionBlocksUpdate(_) => 0x52,
            ClientsidePlayPacketView::PlayerPosition(_) => 0x46,
        }
    }

    open spec fn spec_parse_body(id: u32, s: Seq<u8>, pos: int) -> Option<(ClientsidePlayPacketView, int)> {
        if id == 0x2B {
            match MultisideKeepAlive::spec_parse(s, pos) {
                Some((p, q)) => Some((ClientsidePlayPacketView::KeepAlive(p), q)),
                None => None,
            }
        } else if id == 0x3B {
            match ClientsidePing::spec_parse(s, pos) {
                Some((p, q)) => Some((ClientsidePlayPacketView::Ping(p), q)),
                None => None,
            }
        } else if id == 0x3C {
            match ClientsidePingResponse::spec_parse(s, pos) {
                Some((p, q)) => Some((ClientsidePlayPacketView::PingResponse(p), q)),
                None => None,
            }
        } else if id == 0x33 {
            match ClientsideUpdateEntityPos::spec_parse(s, pos) {
                Some((p, q)) => Some((ClientsidePlayPacketView::UpdateEntityPos(p), q)),
                None => None,
            }
        } else if id == 0x36 {
            match ClientsideUpdateEntityRot::spec_parse(s, pos) {
                Some((p, q)) => Some((ClientsidePlayPacketView::UpdateEntityRot(p), q)),
                None => None,
            }
        } else if id == 0x34 {
            match ClientsideUpdateEntityPosRot::spec_parse(s, pos) {
                Some((p, q)) => Some((ClientsidePlayPacketView::UpdateEntityPosRot(p), q)),
                None => None,
            }
        } else if id == 0x42 {
            match ClientsidePlayerCombatKill::spec_parse(s, pos) {
                Some((p, q)) => Some((ClientsidePlayPacketView::PlayerCombatKill(p), q)),
                None => None,
            }
        } else if id == 0x69 {
            match ClientsideSetPassengers::spec_parse(s, pos) {
                Some((p, q)) => Some((ClientsidePlayPacketView::SetPassengers(p), q)),
                None => None,
            }
        } else if id == 0x4B {
            match ClientsideRemoveEntities::spec_parse(s, pos) {
                Some((p, q)) => Some((ClientsidePlayPacketView::RemoveEntities(p), q)),
                None => None,
            }
        } else if id == 0x20 {
            match ClientsideDisconnect::spec_parse(s, pos) {
                Some((p, q)) => Some((ClientsidePlayPacketView::Disconnect(p), q)),
                None => None,
            }
        } else if id == 0x3F {
            match ClientsidePlayerChat::spec_parse(s, pos) {
                Some((p, q)) => Some((ClientsidePlayPacketView::PlayerChat(p), q)),
                None => None,
            }
        } else if id == 0x77 {
            match ClientsideSystemChat::spec_parse(s, pos) {
                Some((p, q)) => Some((ClientsidePlayPacketView::SystemChat(p), q)),
                None => None,
            }
        } else if id == 0x7F {
            match ClientsideTransfer::spec_parse(s, pos) {
                Some((p, q)) => Some((ClientsidePlayPacketView::Transfer(p), q)),
                None => None,
            }
        } else if id == 0x62 {
            match ClientsideSetEntityLink::spec_parse(s, pos) {
                Some((p, q)) => Some((ClientsidePlayPacketView::SetEntityLink(p), q)),
                None => None,
            }
        } else if id == 0x5D {
            match ClientsideChunkCacheRadius::spec_parse(s, pos) {
                Some((p, q)) => Some((ClientsidePlayPacketView::ChunkCacheRadius(p), q)),
                None => None,
            }
        } else if id == 0x5C {
            match ClientsideChunkCacheCenter::spec_parse(s, pos) {
                Some((p, q)) => Some((ClientsidePlayPacketView::ChunkCacheCenter(p), q)),
                None => None,
            }
        } else if id == 0x5B {
            match ClientsideSetCamera::spec_parse(s, pos) {
                Some((p, q)) => Some((ClientsidePlayPacketView::SetCamera(p), q)),
                None => None,
            }
        } else if id == 0x51 {
            match ClientsideRotateHead::spec_parse(s, pos) {
                Some((p, q)) => Some((ClientsidePlayPacketView::RotateHead(p), q)),
                None => None,
            }
        } else if id == 0x4F {
            match ClientsideAddResourcePack::spec_parse(s, pos) {
                Some((p, q)) => Some((ClientsidePlayPacketView::AddResourcePack(p), q)),
                None => None,
            }
        } else if id == 0x4E {
            match ClientsideRemoveResourcePack::spec_parse(s, pos) {
                Some((p, q)) => Some((ClientsidePlayPacketView::RemoveResourcePack(p), q)),
                None => None,
            }
        } else if id == 0x4C {
            match ClientsideRemoveEntityEffect::spec_parse(s, pos) {
                Some((p, q)) => Some((ClientsidePlayPacketView::RemoveEntityEffect(p), q)),
                None => None,
            }
        } else if id == 0x39 {
            match ClientsideOpenContainer::spec_parse(s, pos) {
                Some((p, q)) => Some((ClientsidePlayPacketView::OpenContainer(p), q)),
                None => None,
            }
        } else if id == 0x30 {
            match ClientsideLogin::spec_parse(s, pos) {
                Some((p, q)) => Some((ClientsidePlayPacketView::Login(p), q)),
                None => None,
            }
        } else if id == 0x25 {
            match ClientsideUnloadChunk::spec_parse(s, pos) {
                Some((p, q)) => Some((ClientsidePlayPacketView::UnloadChunk(p), q)),
                None => None,
            }
        } else if id == 0x1F {
            match ClientsideClearChat::spec_parse(s, pos) {
                Some((p, q)) => Some((ClientsidePlayPacketView::ClearChat(p), q)),
                None => None,
            }
        } else if id == 0x52 {
            match ClientsideSectionBlocksUpdate::spec_parse(s, pos) {
                Some((p, q)) => Some((ClientsidePlayPacketView::SectionBlocksUpdate(p), q)),
                None => None,
            }
        } else if id == 0x46 {
            match ClientsidePlayerPosition::spec_parse(s, pos) {
                Some((p, q)) => Some((ClientsidePlayPacketView::PlayerPosition(p), q)),
                None => None,
            }
        } else {
            None
        }
    }

    open spec fn spec_serialize_body(v: ClientsidePlayPacketView) -> Seq<u8> {
        match v {
            ClientsidePlayPacketView::KeepAlive(p) => MultisideKeepAlive::spec_serialize(p),
            ClientsidePlayPacketView::Ping(p) => ClientsidePing::spec_serialize(p),
            ClientsidePlayPacketView::PingResponse(p) => ClientsidePingResponse::spec_serialize(p),
            ClientsidePlayPacketView::UpdateEntityPos(p) => ClientsideUpdateEntityPos::spec_serialize(p),
            ClientsidePlayPacketView::UpdateEntityRot(p) => ClientsideUpdateEntityRot::spec_serialize(p),
            ClientsidePlayPacketView::UpdateEntityPosRot(p) => ClientsideUpdateEntityPosRot::spec_serialize(p),
            ClientsidePlayPacketView::PlayerCombatKill(p) => ClientsidePlayerCombatKill::spec_serialize(p),
            ClientsidePlayPacketView::SetPassengers(p) => ClientsideSetPassengers::spec_serialize(p),
            ClientsidePlayPacketView::RemoveEntities(p) => ClientsideRemoveEntities::spec_serialize(p),
            ClientsidePlayPacketView::Disconnect(p) => ClientsideDisconnect::spec_serialize(p),
            ClientsidePlayPacketView::PlayerChat(p) => ClientsidePlayerChat::spec_serialize(p),
            ClientsidePlayPacketView::SystemChat(p) => ClientsideSystemChat::spec_serialize(p),
            ClientsidePlayPacketView::Transfer(p) => ClientsideTransfer::spec_serialize(p),
            ClientsidePlayPacketView::SetEntityLink(p) => ClientsideSetEntityLink::spec_serialize(p),
            ClientsidePlayPacketView::ChunkCacheRadius(p) => ClientsideChunkCacheRadius::spec_serialize(p),
            ClientsidePlayPacketView::ChunkCacheCenter(p) => ClientsideChunkCacheCenter::spec_serialize(p),
            ClientsidePlayPacketView::SetCamera(p) => ClientsideSetCamera::spec_serialize(p),
            ClientsidePlayPacketView::RotateHead(p) => ClientsideRotateHead::spec_serialize(p),
            ClientsidePlayPacketView::AddResourcePack(p) => ClientsideAddResourcePack::spec_serialize(p),
            ClientsidePlayPacketView::RemoveResourcePack(p) => ClientsideRemoveResourcePack::spec_serialize(p),
            ClientsidePlayPacketView::RemoveEntityEffect(p) => ClientsideRemoveEntityEffect::spec_serialize(p),
            ClientsidePlayPacketView::OpenContainer(p) => ClientsideOpenContainer::spec_serialize(p),
            ClientsidePlayPacketView::Login(p) => ClientsideLogin::spec_serialize(p),
            ClientsidePlayPacketView::UnloadChunk(p) => ClientsideUnloadChunk::spec_serialize(p),
            ClientsidePlayPacketView::ClearChat(p) => ClientsideClearChat::spec_serialize(p),
            ClientsidePlayPacketView::SectionBlocksUpdate(p) => ClientsideSectionBlocksUpdate::spec_serialize(p),
            ClientsidePlayPacketView::PlayerPosition(p) => ClientsidePlayerPosition::spec_serialize(p),
        }
    }

    open spec fn spec_wf(v: ClientsidePlayPacketView) -> bool {
        match v {
            ClientsidePlayPacketView::KeepAlive(p) => MultisideKeepAlive::spec_wf(p),
            ClientsidePlayPacketView::Ping(p) => ClientsidePing::spec_wf(p),
            ClientsidePlayPacketView::PingResponse(p) => ClientsidePingResponse::spec_wf(p),
            ClientsidePlayPacketView::UpdateEntityPos(p) => ClientsideUpdateEntityPos::spec_wf(p),
            ClientsidePlayPacketView::UpdateEntityRot(p) => ClientsideUpdateEntityRot::spec_wf(p),
            ClientsidePlayPacketView::UpdateEntityPosRot(p) => ClientsideUpdateEntityPosRot::spec_wf(p),
            ClientsidePlayPacketView::PlayerCombatKill(p) => ClientsidePlayerCombatKill::spec_wf(p),
            ClientsidePlayPacketView::SetPassengers(p) => ClientsideSetPassengers::spec_wf(p),
            ClientsidePlayPacketView::RemoveEntities(p) => ClientsideRemoveEntities::spec_wf(p),
            ClientsidePlayPacketView::Disconnect(p) => ClientsideDisconnect::spec_wf(p),
            ClientsidePlayPacketView::PlayerChat(p) => ClientsidePlayerChat::spec_wf(p),
            ClientsidePlayPacketView::SystemChat(p) => ClientsideSystemChat::spec_wf(p),
            ClientsidePlayPacketView::Transfer(p) => ClientsideTransfer::spec_wf(p),
            ClientsidePlayPacketView::SetEntityLink(p) => ClientsideSetEntityLink::spec_wf(p),
            ClientsidePlayPacketView::ChunkCacheRadius(p) => ClientsideChunkCacheRadius::spec_wf(p),
            ClientsidePlayPacketView::ChunkCacheCenter(p) => ClientsideChunkCacheCenter::spec_wf(p),
            ClientsidePlayPacketView::SetCamera(p) => ClientsideSetCamera::spec_wf(p),
            ClientsidePlayPacketView::RotateHead(p) => ClientsideRotateHead::spec_wf(p),
            ClientsidePlayPacketView::AddResourcePack(p) => ClientsideAddResourcePack::spec_wf(p),
            ClientsidePlayPacketView::RemoveResourcePack(p) => ClientsideRemoveResourcePack::spec_wf(p),
            ClientsidePlayPacketView::RemoveEntityEffect(p) => ClientsideRemoveEntityEffect::spec_wf(p),
            ClientsidePlayPacketView::OpenContainer(p) => ClientsideOpenContainer::spec_wf(p),
            ClientsidePlayPacketView::Login(p) => ClientsideLogin::spec_wf(p),
            ClientsidePlayPacketView::UnloadChunk(p) => ClientsideUnloadChunk::spec_wf(p),
            ClientsidePlayPacketView::ClearChat(p) => ClientsideClearChat::spec_wf(p),
            ClientsidePlayPacketView::SectionBlocksUpdate(p) => ClientsideSectionBlocksUpdate::spec_wf(p),
            ClientsidePlayPacketView::PlayerPosition(p) => ClientsidePlayerPosition::spec_wf(p),
        }
    }

    proof fn lemma_body_roundtrip(s: Seq<u8>, pos: int, v: ClientsidePlayPacketView) {
        match v {
            ClientsidePlayPacketView::KeepAlive(p) => MultisideKeepAlive::lemma_roundtrip(s, pos, p),
            ClientsidePlayPacketView::Ping(p) => ClientsidePing::lemma_roundtrip(s, pos, p),
            ClientsidePlayPacketView::PingResponse(p) => ClientsidePingResponse::lemma_roundtrip(s, pos, p),
            ClientsidePlayPacketView::UpdateEntityPos(p) => ClientsideUpdateEntityPos::lemma_roundtrip(s, pos, p),
            ClientsidePlayPacketView::UpdateEntityRot(p) => ClientsideUpdateEntityRot::lemma_roundtrip(s, pos, p),
            ClientsidePlayPacketView::UpdateEntityPosRot(p) => ClientsideUpdateEntityPosRot::lemma_roundtrip(s, pos, p),
            ClientsidePlayPacketView::PlayerCombatKill(p) => ClientsidePlayerCombatKill::lemma_roundtrip(s, pos, p),
            ClientsidePlayPacketView::SetPassengers(p) => ClientsideSetPassengers::lemma_roundtrip(s, pos, p),
            ClientsidePlayPacketView::RemoveEntities(p) => ClientsideRemoveEntities::lemma_roundtrip(s, pos, p),
            ClientsidePlayPacketView::Disconnect(p) => ClientsideDisconnect::lemma_roundtrip(s, pos, p),
            ClientsidePlayPacketView::PlayerChat(p) => ClientsidePlayerChat::lemma_roundtrip(s, pos, p),
            ClientsidePlayPacketView::SystemChat(p) => ClientsideSystemChat::lemma_roundtrip(s, pos, p),
            ClientsidePlayPacketView::Transfer(p) => ClientsideTransfer::lemma_roundtrip(s, pos, p),
            ClientsidePlayPacketView::SetEntityLink(p) => ClientsideSetEntityLink::lemma_roundtrip(s, pos, p),
            ClientsidePlayPacketView::ChunkCacheRadius(p) => ClientsideChunkCacheRadius::lemma_roundtrip(s, pos, p),
            ClientsidePlayPacketView::ChunkCacheCenter(p) => ClientsideChunkCacheCenter::lemma_roundtrip(s, pos, p),
            ClientsidePlayPacketView::SetCamera(p) => ClientsideSetCamera::lemma_roundtrip(s, pos, p),
            ClientsidePlayPacketView::RotateHead(p) => ClientsideRotateHead::lemma_roundtrip(s, pos, p),
            ClientsidePlayPacketView::AddResourcePack(p) => ClientsideAddResourcePack::lemma_roundtrip(s, pos, p),
            ClientsidePlayPacketView::RemoveResourcePack(p) => ClientsideRemoveResourcePack::lemma_roundtrip(s, pos, p),
            ClientsidePlayPacketView::RemoveEntityEffect(p) => ClientsideRemoveEntityEffect::lemma_roundtrip(s, pos, p),
            ClientsidePlayPacketView::OpenContainer(p) => ClientsideOpenContainer::lemma_roundtrip(s, pos, p),
            ClientsidePlayPacketView::Login(p) => ClientsideLogin::lemma_roundtrip(s, pos, p),
            ClientsidePlayPacketView::UnloadChunk(p) => ClientsideUnloadChunk::lemma_roundtrip(s, pos, p),
            ClientsidePlayPacketView::ClearChat(p) => ClientsideClearChat::lemma_roundtrip(s, pos, p),
            ClientsidePlayPacketView::SectionBlocksUpdate(p) => ClientsideSectionBlocksUpdate::lemma_roundtrip(s, pos, p),
            ClientsidePlayPacketView::PlayerPosition(p) => ClientsidePlayerPosition::lemma_roundtrip(s, pos, p),
        }
    }

    fn id(&self) -> (res: u32) {
        match self {
            ClientsidePlayPacket::KeepAlive(_) => 0x2B,
            ClientsidePlayPacket::Ping(_) => 0x3B,
            ClientsidePlayPacket::PingResponse(_) => 0x3C,
            ClientsidePlayPacket::UpdateEntityPos(_) => 0x33,
            ClientsidePlayPacket::UpdateEntityRot(_) => 0x36,
            ClientsidePlayPacket::UpdateEntityPosRot(_) => 0x34,
            ClientsidePlayPacket::PlayerCombatKill(_) => 0x42,
            ClientsidePlayPacket::SetPassengers(_) => 0x69,
            ClientsidePlayPacket::RemoveEntities(_) => 0x4B,
            ClientsidePlayPacket::Disconnect(_) => 0x20,
            ClientsidePlayPacket::PlayerChat(_) => 0x3F,
            ClientsidePlayPacket::SystemChat(_) => 0x77,
            ClientsidePlayPacket::Transfer(_) => 0x7F,
            ClientsidePlayPacket::SetEntityLink(_) => 0x62,
            ClientsidePlayPacket::ChunkCacheRadius(_) => 0x5D,
            ClientsidePlayPacket::ChunkCacheCenter(_) => 0x5C,
            ClientsidePlayPacket::SetCamera(_) => 0x5B,
            ClientsidePlayPacket::RotateHead(_) => 0x51,
            ClientsidePlayPacket::AddResourcePack(_) => 0x4F,
            ClientsidePlayPacket::RemoveResourcePack(_) => 0x4E,
            ClientsidePlayPacket::RemoveEntityEffect(_) => 0x4C,
            ClientsidePlayPacket::OpenContainer(_) => 0x39,
            ClientsidePlayPacket::Login(_) => 0x30,
            ClientsidePlayPacket::UnloadChunk(_) => 0x25,
            ClientsidePlayPacket::ClearChat(_) => 0x1F,
            ClientsidePlayPacket::SectionBlocksUpdate(_) => 0x52,
            ClientsidePlayPacket::PlayerPosition(_) => 0x46,
        }
    }

    fn read(id: u32, buffer: &mut Cursor) -> (res: Option<ClientsidePlayPacket>) {
        match id {
            0x2B => match MultisideKeepAlive::read(buffer) {
                Some(p) => Some(ClientsidePlayPacket::KeepAlive(p)),
                None => None,
            },
            0x3B => match ClientsidePing::read(buffer) {
                Some(p) => Some(ClientsidePlayPacket::Ping(p)),
                None => None,
            },
            0x3C => match ClientsidePingResponse::read(buffer) {
                Some(p) => Some(ClientsidePlayPacket::PingResponse(p)),
                None => None,
            },
            0x33 => match ClientsideUpdateEntityPos::read(buffer) {
                Some(p) => Some(ClientsidePlayPacket::UpdateEntityPos(p)),
                None => None,
            },
            0x36 => match ClientsideUpdateEntityRot::read(buffer) {
                Some(p) => Some(ClientsidePlayPacket::UpdateEntityRot(p)),
                None => None,
            },
            0x34 => match ClientsideUpdateEntityPosRot::read(buffer) {
                Some(p) => Some(ClientsidePlayPacket::UpdateEntityPosRot(p)),
                None => None,
            },
            0x42 => match ClientsidePlayerCombatKill::read(buffer) {
                Some(p) => Some(ClientsidePlayPacket::PlayerCombatKill(p)),
                None => None,
            },
            0x69 => match ClientsideSetPassengers::read(buffer) {
                Some(p) => Some(ClientsidePlayPacket::SetPassengers(p)),
                None => None,
            },
            0x4B => match ClientsideRemoveEntities::read(buffer) {
                Some(p) => Some(ClientsidePlayPacket::RemoveEntities(p)),
                None => None,
            },
            0x20 => match ClientsideDisconnect::read(buffer) {
                Some(p) => Some(ClientsidePlayPacket::Disconnect(p)),
                None => None,
            },
            0x3F => match ClientsidePlayerChat::read(buffer) {
                Some(p) => Some(ClientsidePlayPacket::PlayerChat(p)),
                None => None,
            },
            0x77 => match ClientsideSystemChat::read(buffer) {
                Some(p) => Some(ClientsidePlayPacket::SystemChat(p)),
                None => None,
            },
            0x7F => match ClientsideTransfer::read(buffer) {
                Some(p) => Some(ClientsidePlayPacket::Transfer(p)),
                None => None,
            },
            0x62 => match ClientsideSetEntityLink::read(buffer) {
                Some(p) => Some(ClientsidePlayPacket::SetEntityLink(p)),
                None => None,
            },
            0x5D => match ClientsideChunkCacheRadius::read(buffer) {
                Some(p) => Some(ClientsidePlayPacket::ChunkCacheRadius(p)),
                None => None,
            },
            0x5C => match ClientsideChunkCacheCenter::read(buffer) {
                Some(p) => Some(ClientsidePlayPacket::ChunkCacheCenter(p)),
                None => None,
            },
            0x5B => match ClientsideSetCamera::read(buffer) {
                Some(p) => Some(ClientsidePlayPacket::SetCamera(p)),
                None => None,
            },
            0x51 => match ClientsideRotateHead::read(buffer) {
                Some(p) => Some(ClientsidePlayPacket::RotateHead(p)),
                None => None,
            },
            0x4F => match ClientsideAddResourcePack::read(buffer) {
                Some(p) => Some(ClientsidePlayPacket::AddResourcePack(p)),
                None => None,
            },
            0x4E => match ClientsideRemoveResourcePack::read(buffer) {
                Some(p) => Some(ClientsidePlayPacket::RemoveResourcePack(p)),
                None => None,
            },
            0x4C => match ClientsideRemoveEntityEffect::read(buffer) {
                Some(p) => Some(ClientsidePlayPacket::RemoveEntityEffect(p)),
                None => None,
            },
            0x39 => match ClientsideOpenContainer::read(buffer) {
                Some(p) => Some(ClientsidePlayPacket::OpenContainer(p)),
                None => None,
            },
            0x30 => match ClientsideLogin::read(buffer) {
                Some(p) => Some(ClientsidePlayPacket::Login(p)),
                None => None,
            },
            0x25 => match ClientsideUnloadChunk::read(buffer) {
                Some(p) => Some(ClientsidePlayPacket::UnloadChunk(p)),
                None => None,
            },
            0x1F => match ClientsideClearChat::read(buffer) {
                Some(p) => Some(ClientsidePlayPacket::ClearChat(p)),
                None => None,
            },
            0x52 => match ClientsideSectionBlocksUpdate::read(buffer) {
                Some(p) => Some(ClientsidePlayPacket::SectionBlocksUpdate(p)),
                None => None,
            },
            0x46 => match ClientsidePlayerPosition::read(buffer) {
                Some(p) => Some(ClientsidePlayPacket::PlayerPosition(p)),
                None => None,
            },
            _ => None,
        }
    }

    fn write(&self, buffer: &mut Vec<u8>) {
        match self {
            ClientsidePlayPacket::KeepAlive(p) => p.write(buffer),
            ClientsidePlayPacket::Ping(p) => p.write(buffer),
            ClientsidePlayPacket::PingResponse(p) => p.write(buffer),
            ClientsidePlayPacket::UpdateEntityPos(p) => p.write(buffer),
            ClientsidePlayPacket::UpdateEntityRot(p) => p.write(buffer),
            ClientsidePlayPacket::UpdateEntityPosRot(p) => p.write(buffer),
            ClientsidePlayPacket::PlayerCombatKill(p) => p.write(buffer),
            ClientsidePlayPacket::SetPassengers(p) => p.write(buffer),
            ClientsidePlayPacket::RemoveEntities(p) => p.write(buffer),
            ClientsidePlayPacket::Disconnect(p) => p.write(buffer),
            ClientsidePlayPacket::PlayerChat(p) => p.write(buffer),
            ClientsidePlayPacket::SystemChat(p) => p.write(buffer),
            ClientsidePlayPacket::Transfer(p) => p.write(buffer),
            ClientsidePlayPacket::SetEntityLink(p) => p.write(buffer),
            ClientsidePlayPacket::ChunkCacheRadius(p) => p.write(buffer),
            ClientsidePlayPacket::ChunkCacheCenter(p) => p.write(buffer),
            ClientsidePlayPacket::SetCamera(p) => p.write(buffer),
            ClientsidePlayPacket::RotateHead(p) => p.write(buffer),
            ClientsidePlayPacket::AddResourcePack(p) => p.write(buffer),
            ClientsidePlayPacket::RemoveResourcePack(p) => p.write(buffer),
            ClientsidePlayPacket::RemoveEntityEffect(p) => p.write(buffer),
            ClientsidePlayPacket::OpenContainer(p) => p.write(buffer),
            ClientsidePlayPacket::Login(p) => p.write(buffer),
            ClientsidePlayPacket::UnloadChunk(p) => p.write(buffer),
            ClientsidePlayPacket::ClearChat(p) => p.write(buffer),
            ClientsidePlayPacket::SectionBlocksUpdate(p) => p.write(buffer),
            ClientsidePlayPacket::PlayerPosition(p) => p.write(buffer),
        }
    }
}

/// The packets that the client sends while the player is in the world. Packets whose fields hold floating-point numbers, or protocol types that this library does not define, are not among them.
#[derive(Clone, Debug, PartialEq)]
pub enum ServersidePlayPacket {
    KeepAlive(MultisideKeepAlive),
    Pong(ServersidePong),
    PingRequest(ServersidePingRequest),
    AcceptTeleportation(ServersideAcceptTeleportation),
    ClientCommand(ServersideClientCommand),
    ChatCommand(ServersideChatCommand),
    ChatMessage(ServersideChatMessage),
    SetHeldItem(ServersideSetHeldItem),
    ResourcePackResponse(ServersideResourcePackResponse),
}

/// The content of a [`ServersidePlayPacket`] as it goes over the wire.
pub enum ServersidePlayPacketView {
    KeepAlive(MultisideKeepAliveView),
    Pong(ServersidePongView),
    PingRequest(ServersidePingRequestView),
    AcceptTeleportation(ServersideAcceptTeleportationView),
    ClientCommand(ServersideClientCommandView),
    ChatCommand(ServersideChatCommandView),
    ChatMessage(ServersideChatMessageView),
    SetHeldItem(ServersideSetHeldItemView),
    ResourcePackResponse(ServersideResourcePackResponseView),
}

impl DeepView for ServersidePlayPacket {
    type V = ServersidePlayPacketView;

    open spec fn deep_view(&self) -> ServersidePlayPacketView {
        match self {
            ServersidePlayPacket::KeepAlive(p) => ServersidePlayPacketView::KeepAlive(p.deep_view()),
            ServersidePlayPacket::Pong(p) => ServersidePlayPacketView::Pong(p.deep_view()),
            ServersidePlayPacket::PingRequest(p) => ServersidePlayPacketView::PingRequest(p.deep_view()),
            ServersidePlayPacket::AcceptTeleportation(p) => ServersidePlayPacketView::AcceptTeleportation(p.deep_view()),
            ServersidePlayPacket::ClientCommand(p) => ServersidePlayPacketView::ClientCommand(p.deep_view()),
            ServersidePlayPacket::ChatCommand(p) => ServersidePlayPacketView::ChatCommand(p.deep_view()),
            ServersidePlayPacket::ChatMessage(p) => ServersidePlayPacketView::ChatMessage(p.deep_view()),
            ServersidePlayPacket::SetHeldItem(p) => ServersidePlayPacketView::SetHeldItem(p.deep_view()),
            ServersidePlayPacket::ResourcePackResponse(p) => ServersidePlayPacketView::ResourcePackResponse(p.deep_view()),
        }
    }
}

impl Packet for ServersidePlayPacket {
    open spec fn spec_id(v: ServersidePlayPacketView) -> u32 {
        match v {
            ServersidePlayPacketView::KeepAlive(_) => 0x1B,
            ServersidePlayPacketView::Pong(_) => 0x2C,
            ServersidePlayPacketView::PingRequest(_) => 0x25,
            ServersidePlayPacketView::AcceptTeleportation(_) => 0x00,
            ServersidePlayPacketView::ClientCommand(_) => 0x0B,
            ServersidePlayPacketView::ChatCommand(_) => 0x06,
            ServersidePlayPacketView::ChatMessage(_) => 0x08,
            ServersidePlayPacketView::SetHeldItem(_) => 0x34,
            ServersidePlayPacketView::ResourcePackResponse(_) => 0x30,
        }
    }

    open spec fn spec_parse_body(id: u32, s: Seq<u8>, pos: int) -> Option<(ServersidePlayPacketView, int)> {
        if id == 0x1B {
            match MultisideKeepAlive::spec_parse(s, pos) {
                Some((p, q)) => Some((ServersidePlayPacketView::KeepAlive(p), q)),
                None => None,
            }
        } else if id == 0x2C {
            match ServersidePong::spec_parse(s, pos) {
                Some((p, q)) => Some((ServersidePlayPacketView::Pong(p), q)),
                None => None,
            }
        } else if id == 0x25 {
            match ServersidePingRequest::spec_parse(s, pos) {
                Some((p, q)) => Some((ServersidePlayPacketView::PingRequest(p), q)),
                None => None,
            }
        } else if id == 0x00 {
            match ServersideAcceptTeleportation::spec_parse(s, pos) {
                Some((p, q)) => Some((ServersidePlayPacketView::AcceptTeleportation(p), q)),
                None => None,
            }
        } else if id == 0x0B {
            match ServersideClientCommand::spec_parse(s, pos) {
                Some((p, q)) => Some((ServersidePlayPacketView::ClientCommand(p), q)),
                None => None,
            }
        } else if id == 0x06 {
            match ServersideChatCommand::spec_parse(s, pos) {
                Some((p, q)) => Some((ServersidePlayPacketView::ChatCommand(p), q)),
                None => None,
            }
        } else if id == 0x08 {
            match ServersideChatMessage::spec_parse(s, pos) {
                Some((p, q)) => Some((ServersidePlayPacketView::ChatMessage(p), q)),
                None => None,
            }
        } else if id == 0x34 {
            match ServersideSetHeldItem::spec_parse(s, pos) {
                Some((p, q)) => Some((ServersidePlayPacketView::SetHeldItem(p), q)),
                None => None,
            }
        } else if id == 0x30 {
            match ServersideResourcePackResponse::spec_parse(s, pos) {
                Some((p, q)) => Some((ServersidePlayPacketView::ResourcePackResponse(p), q)),
                None => None,
            }
        } else {
            None
        }
    }

    open spec fn spec_serialize_body(v: ServersidePlayPacketView) -> Seq<u8> {
        match v {
            ServersidePlayPacketView::KeepAlive(p) => MultisideKeepAlive::spec_serialize(p),
            ServersidePlayPacketView::Pong(p) => ServersidePong::spec_serialize(p),
            ServersidePlayPacketView::PingRequest(p) => ServersidePingRequest::spec_serialize(p),
            ServersidePlayPacketView::AcceptTeleportation(p) => ServersideAcceptTeleportation::spec_serialize(p),
            ServersidePlayPacketView::ClientCommand(p) => ServersideClientCommand::spec_serialize(p),
            ServersidePlayPacketView::ChatCommand(p) => ServersideChatCommand::spec_serialize(p),
            ServersidePlayPacketView::ChatMessage(p) => ServersideChatMessage::spec_serialize(p),
            ServersidePlayPacketView::SetHeldItem(p) => ServersideSetHeldItem::spec_serialize(p),
            ServersidePlayPacketView::ResourcePackResponse(p) => ServersideResourcePackResponse::spec_serialize(p),
        }
    }

    open spec fn spec_wf(v: ServersidePlayPacketView) -> bool {
        match v {
            ServersidePlayPacketView::KeepAlive(p) => MultisideKeepAlive::spec_wf(p),
            ServersidePlayPacketView::Pong(p) => ServersidePong::spec_wf(p),
            ServersidePlayPacketView::PingRequest(p) => ServersidePingRequest::spec_wf(p),
            ServersidePlayPacketView::AcceptTeleportation(p) => ServersideAcceptTeleportation::spec_wf(p),
            ServersidePlayPacketView::ClientCommand(p) => ServersideClientCommand::spec_wf(p),
            ServersidePlayPacketView::ChatCommand(p) => ServersideChatCommand::spec_wf(p),
            ServersidePlayPacketView::ChatMessage(p) => ServersideChatMessage::spec_wf(p),
            ServersidePlayPacketView::SetHeldItem(p) => ServersideSetHeldItem::spec_wf(p),
            ServersidePlayPacketView::ResourcePackResponse(p) => ServersideResourcePackResponse::spec_wf(p),
        }
    }

    proof fn lemma_body_roundtrip(s: Seq<u8>, pos: int, v: ServersidePlayPacketView) {
        match v {
            ServersidePlayPacketView::KeepAlive(p) => MultisideKeepAlive::lemma_roundtrip(s, pos, p),
            ServersidePlayPacketView::Pong(p) => ServersidePong::lemma_roundtrip(s, pos, p),
            ServersidePlayPacketView::PingRequest(p) => ServersidePingRequest::lemma_roundtrip(s, pos, p),
            ServersidePlayPacketView::AcceptTeleportation(p) => ServersideAcceptTeleportation::lemma_roundtrip(s, pos, p),
            ServersidePlayPacketView::ClientCommand(p) => ServersideClientCommand::lemma_roundtrip(s, pos, p),
            ServersidePlayPacketView::ChatCommand(p) => ServersideChatCommand::lemma_roundtrip(s, pos, p),
            ServersidePlayPacketView::ChatMessage(p) => ServersideChatMessage::lemma_roundtrip(s, pos, p),
            ServersidePlayPacketView::SetHeldItem(p) => ServersideSetHeldItem::lemma_roundtrip(s, pos, p),
            ServersidePlayPacketView::ResourcePackResponse(p) => ServersideResourcePackResponse::lemma_roundtrip(s, pos, p),
        }
    }

    fn id(&self) -> (res: u32) {
        match self {
            ServersidePlayPacket::KeepAlive(_) => 0x1B,
            ServersidePlayPacket::Pong(_) => 0x2C,
            ServersidePlayPacket::PingRequest(_) => 0x25,
            ServersidePlayPacket::AcceptTeleportation(_) => 0x00,
            ServersidePlayPacket::ClientCommand(_) => 0x0B,
            ServersidePlayPacket::ChatCommand(_) => 0x06,
            ServersidePlayPacket::ChatMessage(_) => 0x08,
            ServersidePlayPacket::SetHeldItem(_) => 0x34,
            ServersidePlayPacket::ResourcePackResponse(_) => 0x30,
        }
    }

    fn read(id: u32, buffer: &mut Cursor) -> (res: Option<ServersidePlayPacket>) {
        match id {
            0x1B => match MultisideKeepAlive::read(buffer) {
                Some(p) => Some(ServersidePlayPacket::KeepAlive(p)),
                None => None,
            },
            0x2C => match ServersidePong::read(buffer) {
                Some(p) => Some(ServersidePlayPacket::Pong(p)),
                None => None,
            },
            0x25 => match ServersidePingRequest::read(buffer) {
                Some(p) => Some(ServersidePlayPacket::PingRequest(p)),
                None => None,
            },
            0x00 => match ServersideAcceptTeleportation::read(buffer) {
                Some(p) => Some(ServersidePlayPacket::AcceptTeleportation(p)),
                None => None,
            },
            0x0B => match ServersideClientCommand::read(buffer) {
                Some(p) => Some(ServersidePlayPacket::ClientCommand(p)),
                None => None,
            },
            0x06 => match ServersideChatCommand::read(buffer) {
                Some(p) => Some(ServersidePlayPacket::ChatCommand(p)),
                None => None,
            },
            0x08 => match ServersideChatMessage::read(buffer) {
                Some(p) => Some(ServersidePlayPacket::ChatMessage(p)),
                None => None,
            },
            0x34 => match ServersideSetHeldItem::read(buffer) {
                Some(p) => Some(ServersidePlayPacket::SetHeldItem(p)),
                None => None,
            },
            0x30 => match ServersideResourcePackResponse::read(buffer) {
                Some(p) => Some(ServersidePlayPacket::ResourcePackResponse(p)),
                None => None,
            },
            _ => None,
        }
    }

    fn write(&self, buffer: &mut Vec<u8>) {
        match self {
            ServersidePlayPacket::KeepAlive(p) => p.write(buffer),
            ServersidePlayPacket::Pong(p) => p.write(buffer),
            ServersidePlayPacket::PingRequest(p) => p.write(buffer),
            ServersidePlayPacket::AcceptTeleportation(p) => p.write(buffer),
            ServersidePlayPacket::ClientCommand(p) => p.write(buffer),
            ServersidePlayPacket::ChatCommand(p) => p.write(buffer),
            ServersidePlayPacket::ChatMessage(p) => p.write(buffer),
            ServersidePlayPacket::SetHeldItem(p) => p.write(buffer),
            ServersidePlayPacket::ResourcePackResponse(p) => p.write(buffer),
        }
    }
}

} // verus!

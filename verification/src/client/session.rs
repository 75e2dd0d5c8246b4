use vstd::prelude::*;

use crate::bot::plugins::BotPlugins;
use crate::client::structs::ClientInfo;
use crate::codec::uuid::Uuid;
use crate::protocol::packets::configuration::{
    ClientsideConfigurationPacket, ClientsideConfigurationPacketView, MultisideKeepAlive,
    ResourcePackState, ServersideAcknowledgeFinishConfiguration, ServersideConfigurationPacket,
    ServersideConfigurationPacketView, ServersideKnownPacks, ServersidePong,
    ServersideResourcePackResponse,
};
use crate::protocol::packets::handshake::{ClientIntention, ServersideGreet, ServersideHandshakePacket};
use crate::protocol::packets::login::{
    ClientsideEncryptionRequest, ClientsideLoginPacket, ClientsideLoginPacketView,
    ServersideLoginAcknowledged, ServersideLoginPacket, ServersideLoginPacketView,
    ServersideLoginStart,
};
use crate::protocol::packets::play;
use crate::protocol::packets::play::{
    ClientsidePlayPacket, ClientsidePlayPacketView, ServersideClientCommand, ServersidePlayPacket,
    ServersidePlayPacketView,
};
use crate::protocol::types::ClientCommand;
use crate::protocol::types::ResourcePackState as PlayResourcePackState;

verus! {

/// The first two packets of a login: the handshake with the login intention, and the start of
/// the login.
pub fn login_start(
    protocol_version: i32,
    server_host: String,
    server_port: u16,
    username: String,
    uuid: Uuid,
) -> (res: (ServersideHandshakePacket, ServersideLoginPacket))
    ensures
        res.0 matches ServersideHandshakePacket::Greet(g) && g.protocol_version == protocol_version
            && g.server_host@ == server_host@ && g.server_port == server_port && g.intention
            == ClientIntention::Login,
        res.1 matches ServersideLoginPacket::LoginStart(s) && s.username@ == username@ && s.uuid
            == uuid,
{
    (
        ServersideHandshakePacket::Greet(
            ServersideGreet {
                protocol_version,
                server_host,
                server_port,
                intention: ClientIntention::Login,
            },
        ),
        ServersideLoginPacket::LoginStart(ServersideLoginStart { username, uuid }),
    )
}

/// What the client does with a packet of the login.
pub enum LoginStep {
    /// Turn on compression with the threshold.
    SetCompression(i32),
    /// The server asks for encryption.
    Encrypt(ClientsideEncryptionRequest),
    /// The login succeeded: keep the identifier, send the reply, go on to the configuration.
    Success { uuid: Uuid, reply: ServersideLoginPacket },
    /// The server ended the connection.
    Disconnected,
    /// Nothing to do.
    Ignore,
}

/// Decides what to do with a packet that the server sent during the login.
pub fn login_step(packet: ClientsideLoginPacket) -> (res: LoginStep)
    ensures
        match packet {
            ClientsideLoginPacket::Compression(p) => res == LoginStep::SetCompression(
                p.compression_threshold,
            ),
            ClientsideLoginPacket::EncryptionRequest(r) => res == LoginStep::Encrypt(r),
            ClientsideLoginPacket::LoginSuccess(p) => res matches LoginStep::Success { uuid, reply }
                && uuid == p.uuid && reply.deep_view() == ServersideLoginPacketView::LoginAcknowledged(
                ServersideLoginAcknowledged {}.deep_view(),
            ),
            ClientsideLoginPacket::Disconnect(_) => res == LoginStep::Disconnected,
            _ => res == LoginStep::Ignore,
        },
{
    match packet {
        ClientsideLoginPacket::Compression(p) => LoginStep::SetCompression(p.compression_threshold),
        ClientsideLoginPacket::EncryptionRequest(request) => LoginStep::Encrypt(request),
        ClientsideLoginPacket::LoginSuccess(p) => LoginStep::Success {
            uuid: p.uuid,
            reply: ServersideLoginPacket::LoginAcknowledged(ServersideLoginAcknowledged),
        },
        ClientsideLoginPacket::Disconnect(_) => LoginStep::Disconnected,
        _ => LoginStep::Ignore,
    }
}

/// The first packet of the configuration: the settings of the client.
pub fn configuration_start(info: &ClientInfo) -> (res: ServersideConfigurationPacket)
    ensures
        res matches ServersideConfigurationPacket::ClientInformation(p) && p.locale@ == info.locale@
            && p.view_distance == info.view_distance && p.chat_mode == info.chat_mode.spec_id()
            && p.chat_colors == info.chat_colors && p.displayed_skin_parts
            == info.displayed_skin_parts && p.main_hand == info.main_hand
            && p.enable_text_filtering == info.enable_text_filtering && p.allow_server_listings
            == info.allow_server_listings && p.particle_status == info.particle_status.spec_id(),
{
    ServersideConfigurationPacket::ClientInformation(info.to_serverside_packet())
}

/// What the client does with a packet of the configuration.
pub enum ConfigurationStep {
    /// Send the reply and go on.
    Reply(ServersideConfigurationPacket),
    /// Send the reply and go on to play.
    Finish(ServersideConfigurationPacket),
    /// The server ended the connection.
    Disconnected,
    /// Nothing to do.
    Ignore,
}

/// Decides what to do with a packet that the server sent during the configuration: keep-alives
/// and pings are answered, known packs are echoed, offered resource packs are accepted.
pub fn configuration_step(packet: ClientsideConfigurationPacket) -> (res: ConfigurationStep)
    ensures
        match packet.deep_view() {
            ClientsideConfigurationPacketView::KeepAlive(k) => res matches ConfigurationStep::Reply(r)
                && r.deep_view() == ServersideConfigurationPacketView::KeepAlive(k),
            ClientsideConfigurationPacketView::Ping(p) => res matches ConfigurationStep::Reply(r)
                && r.deep_view() == ServersideConfigurationPacketView::Pong(
                ServersidePong { id: p.id }.deep_view(),
            ),
            ClientsideConfigurationPacketView::KnownPacks(k) => res matches ConfigurationStep::Reply(r)
                && r.deep_view() matches ServersideConfigurationPacketView::KnownPacks(s)
                && s.known_packs == k.known_packs,
            ClientsideConfigurationPacketView::FinishConfiguration(_) => res matches ConfigurationStep::Finish(
                r,
            ) && r.deep_view() == ServersideConfigurationPacketView::AcknowledgeFinishConfiguration(
                ServersideAcknowledgeFinishConfiguration {}.deep_view(),
            ),
            ClientsideConfigurationPacketView::AddResourcePack(a) => res matches ConfigurationStep::Reply(
                r,
            ) && r.deep_view() matches ServersideConfigurationPacketView::ResourcePackResponse(s)
                && s.uuid == a.uuid && s.state == ResourcePackState::Accepted,
            ClientsideConfigurationPacketView::Disconnect(_) => res is Disconnected,
            _ => res is Ignore,
        },
{
    match packet {
        ClientsideConfigurationPacket::KeepAlive(p) => ConfigurationStep::Reply(
            ServersideConfigurationPacket::KeepAlive(MultisideKeepAlive { id: p.id }),
        ),
        ClientsideConfigurationPacket::Ping(p) => ConfigurationStep::Reply(
            ServersideConfigurationPacket::Pong(ServersidePong { id: p.id }),
        ),
        ClientsideConfigurationPacket::KnownPacks(p) => ConfigurationStep::Reply(
            ServersideConfigurationPacket::KnownPacks(ServersideKnownPacks { known_packs: p.known_packs }),
        ),
        ClientsideConfigurationPacket::FinishConfiguration(_) => ConfigurationStep::Finish(
            ServersideConfigurationPacket::AcknowledgeFinishConfiguration(
                ServersideAcknowledgeFinishConfiguration,
            ),
        ),
        ClientsideConfigurationPacket::AddResourcePack(p) => ConfigurationStep::Reply(
            ServersideConfigurationPacket::ResourcePackResponse(
                ServersideResourcePackResponse { uuid: p.uuid, state: ResourcePackState::Accepted },
            ),
        ),
        ClientsideConfigurationPacket::Disconnect(_) => ConfigurationStep::Disconnected,
        _ => ConfigurationStep::Ignore,
    }
}

/// The packet that asks the server to respawn the player.
pub fn respawn_request() -> (res: ServersidePlayPacket)
    ensures
        res matches ServersidePlayPacket::ClientCommand(c) && c.command
            == ClientCommand::PerformRespawn,
{
    ServersidePlayPacket::ClientCommand(ServersideClientCommand { command: ClientCommand::PerformRespawn })
}

/// What a bot does with a packet of the server while in the world.
pub enum PlayStep {
    /// Send the reply.
    Reply(ServersidePlayPacket),
    /// The player joined the world with this entity identifier; when the delay is given, ask
    /// for a respawn after it.
    Joined { entity_id: i32, respawn_after: Option<u64> },
    /// The player died: ask for a respawn after the delay.
    Respawn { delay: u64 },
    /// The server ended the connection.
    Disconnected,
    /// Nothing that the bot decides: the packet may still update what it knows of the world.
    Other,
}

/// Decides what a bot does with a packet of the server while in the world: keep-alives and
/// pings are answered, offered resource packs are accepted, teleportations are confirmed, and
/// with automatic respawn on a respawn is asked for after death and after a join that shows
/// the respawn screen.
pub fn play_step(packet: &ClientsidePlayPacket, plugins: &BotPlugins) -> (res: PlayStep)
    ensures
        match packet.deep_view() {
            ClientsidePlayPacketView::KeepAlive(k) => res matches PlayStep::Reply(r) && r.deep_view()
                == ServersidePlayPacketView::KeepAlive(k),
            ClientsidePlayPacketView::Ping(p) => res matches PlayStep::Reply(r) && r.deep_view()
                == ServersidePlayPacketView::Pong(play::ServersidePong { id: p.id }.deep_view()),
            ClientsidePlayPacketView::Login(l) => res == PlayStep::Joined {
                entity_id: l.entity_id,
                respawn_after: if plugins.auto_respawn.enabled && l.enable_respawn_screen {
                    Some(plugins.auto_respawn.respawn_delay)
                } else {
                    None
                },
            },
            ClientsidePlayPacketView::PlayerCombatKill(_) => if plugins.auto_respawn.enabled {
                res == PlayStep::Respawn { delay: plugins.auto_respawn.respawn_delay }
            } else {
                res is Other
            },
            ClientsidePlayPacketView::AddResourcePack(a) => res matches PlayStep::Reply(r) && r.deep_view()
                == ServersidePlayPacketView::ResourcePackResponse(
                play::ServersideResourcePackResponseView {
                    uuid: a.uuid,
                    state: PlayResourcePackState::Accepted,
                },
            ),
            ClientsidePlayPacketView::PlayerPosition(p) => res matches PlayStep::Reply(r) && r.deep_view()
                == ServersidePlayPacketView::AcceptTeleportation(
                play::ServersideAcceptTeleportation { teleport_id: p.teleport_id }.deep_view(),
            ),
            ClientsidePlayPacketView::Disconnect(_) => res is Disconnected,
            _ => res is Other,
        },
{
    match packet {
        ClientsidePlayPacket::KeepAlive(p) => PlayStep::Reply(
            ServersidePlayPacket::KeepAlive(play::MultisideKeepAlive { id: p.id }),
        ),
        ClientsidePlayPacket::Ping(p) => PlayStep::Reply(
            ServersidePlayPacket::Pong(play::ServersidePong { id: p.id }),
        ),
        ClientsidePlayPacket::Login(p) => {
            let respawn_after = if plugins.auto_respawn.enabled && p.enable_respawn_screen {
                Some(plugins.auto_respawn.respawn_delay)
            } else {
                None
            };
            PlayStep::Joined { entity_id: p.entity_id, respawn_after }
        },
        ClientsidePlayPacket::PlayerCombatKill(_) => {
            if plugins.auto_respawn.enabled {
                PlayStep::Respawn { delay: plugins.auto_respawn.respawn_delay }
            } else {
                PlayStep::Other
            }
        },
        ClientsidePlayPacket::AddResourcePack(p) => PlayStep::Reply(
            ServersidePlayPacket::ResourcePackResponse(
                play::ServersideResourcePackResponse {
                    uuid: p.uuid,
                    state: PlayResourcePackState::Accepted,
                },
            ),
        ),
        ClientsidePlayPacket::PlayerPosition(p) => PlayStep::Reply(
            ServersidePlayPacket::AcceptTeleportation(
                play::ServersideAcceptTeleportation { teleport_id: p.teleport_id },
            ),
        ),
        ClientsidePlayPacket::Disconnect(_) => PlayStep::Disconnected,
        _ => PlayStep::Other,
    }
}

} // verus!

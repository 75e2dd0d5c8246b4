use nurtex::bot::names::username_is_unique;
use nurtex::bot::plugins::{reconnect_step, AutoReconnectPlugin, AutoRespawnPlugin, BotPlugins, ReconnectStep};
use nurtex::client::session::{
    configuration_start, configuration_step, login_start, login_step, play_step, respawn_request,
    ConfigurationStep, LoginStep, PlayStep,
};
use nurtex::client::structs::{ChatMode, ClientHand, ClientInfo, DisplayedSkinParts, ParticleStatus};
use nurtex::client::version::get_protocol_from_version;
use nurtex::codec::uuid::Uuid;
use nurtex::protocol::packets::configuration as cfg;
use nurtex::protocol::packets::handshake::{ClientIntention, ServersideHandshakePacket};
use nurtex::protocol::packets::login;
use nurtex::protocol::packets::play;
use nurtex::protocol::types::ClientCommand;

#[test]
fn skin_parts_default_shows_everything() {
    let d = DisplayedSkinParts::default();
    assert!(d.cape && d.jacket && d.left_sleeve && d.right_sleeve && d.hat);
    assert!(d.left_pants_leg && d.right_pants_leg);
    assert_eq!(d.to_mask(), 0x7f);
}

#[test]
fn skin_parts_mask_bits() {
    let p = DisplayedSkinParts {
        cape: true,
        jacket: false,
        left_sleeve: true,
        right_sleeve: false,
        left_pants_leg: false,
        right_pants_leg: true,
        hat: false,
    };
    assert_eq!(p.to_mask(), 0x01 | 0x04 | 0x20);
    assert_eq!(DisplayedSkinParts::from_mask(0x25), p);
}

#[test]
fn skin_parts_mask_round_trips() {
    for mask in 0u8..=255 {
        let parts = DisplayedSkinParts::from_mask(mask);
        assert_eq!(parts.to_mask(), mask & 0x7f);
        assert_eq!(DisplayedSkinParts::from_mask(parts.to_mask()), parts);
    }
}

#[test]
fn enum_identifiers() {
    assert_eq!(ChatMode::Enabled.id(), 0);
    assert_eq!(ChatMode::CommandsOnly.id(), 1);
    assert_eq!(ChatMode::Hidden.id(), 2);
    assert_eq!(ClientHand::Left.id(), 0);
    assert_eq!(ClientHand::Right.id(), 1);
    assert_eq!(ParticleStatus::All.id(), 0);
    assert_eq!(ParticleStatus::Decreased.id(), 1);
    assert_eq!(ParticleStatus::Minimal.id(), 2);
}

#[test]
fn client_info_default() {
    let info = ClientInfo::default();
    assert_eq!(info.locale, "en_US");
    assert_eq!(info.view_distance, 8);
    assert_eq!(info.chat_mode, ChatMode::Enabled);
    assert!(info.chat_colors);
    assert_eq!(info.displayed_skin_parts, DisplayedSkinParts::default());
    assert_eq!(info.main_hand, ClientHand::Right);
    assert!(!info.enable_text_filtering);
    assert!(info.allow_server_listings);
    assert_eq!(info.particle_status, ParticleStatus::Minimal);
}

#[test]
fn client_info_packet() {
    let mut info = ClientInfo::default();
    info.chat_mode = ChatMode::Hidden;
    info.particle_status = ParticleStatus::All;
    let p = info.to_serverside_packet();
    assert_eq!(p.locale, "en_US");
    assert_eq!(p.view_distance, 8);
    assert_eq!(p.chat_mode, 2);
    assert_eq!(p.particle_status, 0);
    assert_eq!(p.main_hand, ClientHand::Right);
    match configuration_start(&info) {
        cfg::ServersideConfigurationPacket::ClientInformation(q) => assert_eq!(q, p),
        other => panic!("unexpected {:?}", other),
    }
}

#[test]
fn protocol_versions() {
    assert_eq!(get_protocol_from_version("1.21.11"), 774);
    assert_eq!(get_protocol_from_version("1.21.10"), 773);
    assert_eq!(get_protocol_from_version("1.21.9"), 772);
    assert_eq!(get_protocol_from_version("1.21.8"), 771);
    assert_eq!(get_protocol_from_version("1.8.9"), 774);
    assert_eq!(get_protocol_from_version(""), 774);
}

#[test]
fn login_opens_with_handshake() {
    let (h, l) = login_start(774, String::from("localhost"), 25565, String::from("Bot"), Uuid::nil());
    match h {
        ServersideHandshakePacket::Greet(g) => {
            assert_eq!(g.protocol_version, 774);
            assert_eq!(g.server_host, "localhost");
            assert_eq!(g.server_port, 25565);
            assert_eq!(g.intention, ClientIntention::Login);
        }
    }
    assert_eq!(
        l,
        login::ServersideLoginPacket::LoginStart(login::ServersideLoginStart { username: String::from("Bot"), uuid: Uuid::nil() })
    );
}

#[test]
fn login_steps() {
    let s = login_step(login::ClientsideLoginPacket::Compression(login::ClientsideSetCompression { compression_threshold: 256 }));
    assert!(matches!(s, LoginStep::SetCompression(256)));
    let s = login_step(login::ClientsideLoginPacket::LoginSuccess(login::ClientsideLoginSuccess {
        uuid: Uuid::from_u128(42),
        username: String::from("Bot"),
        properties: Vec::new(),
    }));
    match s {
        LoginStep::Success { uuid, reply } => {
            assert_eq!(uuid, Uuid::from_u128(42));
            assert_eq!(reply, login::ServersideLoginPacket::LoginAcknowledged(login::ServersideLoginAcknowledged));
        }
        _ => panic!("not a success"),
    }
    let s = login_step(login::ClientsideLoginPacket::Disconnect(login::ClientsideLoginDisconnect { reason: String::from("x") }));
    assert!(matches!(s, LoginStep::Disconnected));
    let s = login_step(login::ClientsideLoginPacket::CookieRequest(login::ClientsideCookieRequest { key: String::from("k") }));
    assert!(matches!(s, LoginStep::Ignore));
    let request = login::ClientsideEncryptionRequest {
        server_id: String::new(),
        public_key: vec![1, 2],
        verify_token: vec![3],
        should_authenticate: true,
    };
    match login_step(login::ClientsideLoginPacket::EncryptionRequest(request.clone())) {
        LoginStep::Encrypt(r) => assert_eq!(r, request),
        _ => panic!("not an encryption request"),
    }
}

#[test]
fn configuration_steps() {
    match configuration_step(cfg::ClientsideConfigurationPacket::KeepAlive(cfg::MultisideKeepAlive { id: 99 })) {
        ConfigurationStep::Reply(r) => assert_eq!(r, cfg::ServersideConfigurationPacket::KeepAlive(cfg::MultisideKeepAlive { id: 99 })),
        _ => panic!("no reply"),
    }
    match configuration_step(cfg::ClientsideConfigurationPacket::Ping(cfg::ClientsidePing { id: 7 })) {
        ConfigurationStep::Reply(r) => assert_eq!(r, cfg::ServersideConfigurationPacket::Pong(cfg::ServersidePong { id: 7 })),
        _ => panic!("no reply"),
    }
    let packs = vec![cfg::KnownPack { namespace: String::from("minecraft"), id: String::from("core"), version: String::from("1.21") }];
    match configuration_step(cfg::ClientsideConfigurationPacket::KnownPacks(cfg::ClientsideKnownPacks { known_packs: packs.clone() })) {
        ConfigurationStep::Reply(r) => assert_eq!(r, cfg::ServersideConfigurationPacket::KnownPacks(cfg::ServersideKnownPacks { known_packs: packs })),
        _ => panic!("no reply"),
    }
    match configuration_step(cfg::ClientsideConfigurationPacket::FinishConfiguration(cfg::ClientsideFinishConfiguration)) {
        ConfigurationStep::Finish(r) => assert_eq!(
            r,
            cfg::ServersideConfigurationPacket::AcknowledgeFinishConfiguration(cfg::ServersideAcknowledgeFinishConfiguration)
        ),
        _ => panic!("no finish"),
    }
    let add = cfg::ClientsideAddResourcePack {
        uuid: Uuid::from_u128(3),
        url: String::from("http://x"),
        hash: String::new(),
        forced: false,
        prompt_message: None,
    };
    match configuration_step(cfg::ClientsideConfigurationPacket::AddResourcePack(add)) {
        ConfigurationStep::Reply(r) => assert_eq!(
            r,
            cfg::ServersideConfigurationPacket::ResourcePackResponse(cfg::ServersideResourcePackResponse {
                uuid: Uuid::from_u128(3),
                state: cfg::ResourcePackState::Accepted
            })
        ),
        _ => panic!("no reply"),
    }
    let d = configuration_step(cfg::ClientsideConfigurationPacket::Disconnect(cfg::ClientsideDisconnect { reason: vec![1, 2] }));
    assert!(matches!(d, ConfigurationStep::Disconnected));
    let i = configuration_step(cfg::ClientsideConfigurationPacket::ResetChat(cfg::ClientsideResetChat));
    assert!(matches!(i, ConfigurationStep::Ignore));
}

fn join(respawn_screen: bool) -> play::ClientsidePlayPacket {
    play::ClientsidePlayPacket::Login(play::ClientsideLogin {
        entity_id: 17,
        is_hardcore: false,
        dimension_names: vec![String::from("minecraft:overworld")],
        max_players: 20,
        view_distance: 10,
        simulation_distance: 10,
        reduced_debug_info: false,
        enable_respawn_screen: respawn_screen,
        dimension_type: 0,
        dimension_name: String::from("minecraft:overworld"),
        hashed_seed: 0,
    })
}

#[test]
fn play_steps() {
    let plugins = BotPlugins {
        auto_respawn: AutoRespawnPlugin { enabled: true, respawn_delay: 500 },
        auto_reconnect: AutoReconnectPlugin::default(),
    };
    match play_step(&play::ClientsidePlayPacket::KeepAlive(play::MultisideKeepAlive { id: 5 }), &plugins) {
        PlayStep::Reply(r) => assert_eq!(r, play::ServersidePlayPacket::KeepAlive(play::MultisideKeepAlive { id: 5 })),
        _ => panic!("no reply"),
    }
    match play_step(&play::ClientsidePlayPacket::Ping(play::ClientsidePing { id: 6 }), &plugins) {
        PlayStep::Reply(r) => assert_eq!(r, play::ServersidePlayPacket::Pong(play::ServersidePong { id: 6 })),
        _ => panic!("no reply"),
    }
    assert!(matches!(play_step(&join(true), &plugins), PlayStep::Joined { entity_id: 17, respawn_after: Some(500) }));
    assert!(matches!(play_step(&join(false), &plugins), PlayStep::Joined { entity_id: 17, respawn_after: None }));
    let kill = play::ClientsidePlayPacket::PlayerCombatKill(play::ClientsidePlayerCombatKill { player_id: 17 });
    assert!(matches!(play_step(&kill, &plugins), PlayStep::Respawn { delay: 500 }));
    let off = BotPlugins {
        auto_respawn: AutoRespawnPlugin { enabled: false, respawn_delay: 500 },
        auto_reconnect: AutoReconnectPlugin::default(),
    };
    assert!(matches!(play_step(&kill, &off), PlayStep::Other));
    assert!(matches!(play_step(&join(true), &off), PlayStep::Joined { entity_id: 17, respawn_after: None }));
    let bye = play::ClientsidePlayPacket::Disconnect(play::ClientsideDisconnect);
    assert!(matches!(play_step(&bye, &plugins), PlayStep::Disconnected));
}

#[test]
fn respawn_packet() {
    assert_eq!(
        respawn_request(),
        play::ServersidePlayPacket::ClientCommand(play::ServersideClientCommand { command: ClientCommand::PerformRespawn })
    );
}

#[test]
fn plugin_defaults() {
    let p = BotPlugins::default();
    assert!(p.auto_respawn.enabled);
    assert_eq!(p.auto_respawn.respawn_delay, 0);
    assert_eq!(AutoRespawnPlugin::default(), p.auto_respawn);
    assert!(!p.auto_reconnect.enabled);
    assert_eq!(AutoReconnectPlugin::default(), p.auto_reconnect);
}

#[test]
fn reconnect_decisions() {
    let on = AutoReconnectPlugin { enabled: true, reconnect_delay: 1000, max_attempts: 3 };
    assert_eq!(reconnect_step(true, &on, 0), ReconnectStep::Retry { delay: 1000, attempt: 1 });
    assert_eq!(reconnect_step(true, &on, 2), ReconnectStep::Retry { delay: 1000, attempt: 3 });
    assert_eq!(reconnect_step(true, &on, 3), ReconnectStep::GiveUp);
    assert_eq!(reconnect_step(false, &on, 0), ReconnectStep::GiveUp);
    let off = AutoReconnectPlugin { enabled: false, ..on };
    assert_eq!(reconnect_step(true, &off, 0), ReconnectStep::GiveUp);
    let unlimited = AutoReconnectPlugin { max_attempts: -1, ..on };
    assert_eq!(reconnect_step(true, &unlimited, 1000), ReconnectStep::Retry { delay: 1000, attempt: 1001 });
}

#[test]
fn reconnects_exactly_max_attempts_times() {
    let on = AutoReconnectPlugin { enabled: true, reconnect_delay: 5, max_attempts: 4 };
    let mut attempts = 0;
    let mut retries = 0;
    while let ReconnectStep::Retry { attempt, .. } = reconnect_step(true, &on, attempts) {
        attempts = attempt;
        retries += 1;
    }
    assert_eq!(retries, 4);
}

#[test]
fn unique_usernames() {
    let names = vec![String::from("a"), String::from("bot_1")];
    assert!(!username_is_unique(&names, "bot_1"));
    assert!(username_is_unique(&names, "bot_2"));
    assert!(username_is_unique(&Vec::new(), "a"));
}

#[test]
fn play_replies_to_resource_packs_and_teleports() {
    let plugins = BotPlugins::default();
    let offer = play::ClientsidePlayPacket::AddResourcePack(play::ClientsideAddResourcePack {
        uuid: Uuid::from_u128(9),
        url: String::from("http://pack"),
        hash: String::new(),
        forced: true,
    });
    match play_step(&offer, &plugins) {
        PlayStep::Reply(r) => assert_eq!(
            r,
            play::ServersidePlayPacket::ResourcePackResponse(play::ServersideResourcePackResponse {
                uuid: Uuid::from_u128(9),
                state: nurtex::protocol::types::ResourcePackState::Accepted,
            })
        ),
        _ => panic!("no reply"),
    }
    let teleport = play::ClientsidePlayPacket::PlayerPosition(play::ClientsidePlayerPosition {
        teleport_id: 42,
        position: play::Vector3Bits { x: 1.5f64.to_bits(), y: 64.0f64.to_bits(), z: (-3.0f64).to_bits() },
        velocity: play::Vector3Bits { x: 0, y: 0, z: 0 },
        rotation: play::RotationBits { yaw: 90.0f32.to_bits(), pitch: 0 },
        teleport_flags: play::TeleportFlags { bits: 0 },
    });
    match play_step(&teleport, &plugins) {
        PlayStep::Reply(r) => assert_eq!(
            r,
            play::ServersidePlayPacket::AcceptTeleportation(play::ServersideAcceptTeleportation { teleport_id: 42 })
        ),
        _ => panic!("no reply"),
    }
}

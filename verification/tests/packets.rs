use nurtex::client::structs::{ClientHand, DisplayedSkinParts};
use nurtex::codec::cursor::Cursor;
use nurtex::codec::uuid::Uuid;
use nurtex::protocol::packet::Packet;
use nurtex::protocol::packets::configuration as cfg;
use nurtex::protocol::packets::handshake::{ClientIntention, ClientsideHandshakePacket, ServersideGreet, ServersideHandshakePacket};
use nurtex::protocol::packets::login;
use nurtex::protocol::packets::play;
use nurtex::protocol::packets::status;
use nurtex::protocol::types::{AdditionalMessageInfo, ClientCommand, LastSeenMessage, ResourcePackState};
use nurtex::codec::buffer::Buffer;

fn body<P: Packet>(p: &P) -> Vec<u8> {
    let mut buf = Vec::new();
    p.write(&mut buf);
    buf
}

fn back<P: Packet>(p: &P) -> Option<P> {
    let bytes = body(p);
    let mut c = Cursor::new(&bytes);
    P::read(p.id(), &mut c)
}

#[test]
fn greet_layout() {
    let greet = ServersideGreet {
        protocol_version: 774,
        server_host: String::from("localhost"),
        server_port: 25565,
        intention: ClientIntention::Login,
    };
    let p = ServersideHandshakePacket::Greet(greet.clone());
    assert_eq!(p.id(), 0);
    let mut expected = vec![0x86, 0x06, 9];
    expected.extend_from_slice(b"localhost");
    expected.extend_from_slice(&[0x63, 0xdd, 2]);
    assert_eq!(body(&p), expected);
    assert_eq!(back(&p), Some(p));
}

#[test]
fn intentions() {
    assert_eq!(ClientIntention::from(1), ClientIntention::Status);
    assert_eq!(ClientIntention::from(2), ClientIntention::Login);
    assert_eq!(ClientIntention::from(3), ClientIntention::Status);
    assert_eq!(ClientIntention::read_buf(&mut Cursor::new(&[7u8])), Some(ClientIntention::Status));
}

#[test]
fn handshake_server_sends_nothing() {
    let data = [0u8, 1, 2];
    assert_eq!(ClientsideHandshakePacket::read(0, &mut Cursor::new(&data)), None);
}

#[test]
fn configuration_clientside_roundtrips() {
    let packets = vec![
        cfg::ClientsideConfigurationPacket::CookieRequest(cfg::ClientsideCookieRequest { key: String::from("minecraft:cookie") }),
        cfg::ClientsideConfigurationPacket::PluginMessage(cfg::ClientsidePluginMessage { channel: String::from("minecraft:brand"), data: vec![7, b'v', b'a'] }),
        cfg::ClientsideConfigurationPacket::Disconnect(cfg::ClientsideDisconnect { reason: vec![1, 2, 3] }),
        cfg::ClientsideConfigurationPacket::FinishConfiguration(cfg::ClientsideFinishConfiguration),
        cfg::ClientsideConfigurationPacket::KeepAlive(cfg::MultisideKeepAlive { id: -42 }),
        cfg::ClientsideConfigurationPacket::Ping(cfg::ClientsidePing { id: 17 }),
        cfg::ClientsideConfigurationPacket::ResetChat(cfg::ClientsideResetChat),
        cfg::ClientsideConfigurationPacket::RegistryData(cfg::ClientsideRegistryData { registry_id: String::from("minecraft:dimension_type"), raw_data: vec![0, 1] }),
        cfg::ClientsideConfigurationPacket::RemoveResourcePack(cfg::ClientsideRemoveResourcePack { uuid: None }),
        cfg::ClientsideConfigurationPacket::RemoveResourcePack(cfg::ClientsideRemoveResourcePack { uuid: Some(Uuid::from_u128(5)) }),
        cfg::ClientsideConfigurationPacket::AddResourcePack(cfg::ClientsideAddResourcePack {
            uuid: Uuid::from_u128(u128::MAX),
            url: String::from("https://example.org/pack.zip"),
            hash: String::from("abc"),
            forced: true,
            prompt_message: Some(String::from("please")),
        }),
        cfg::ClientsideConfigurationPacket::StoreCookie(cfg::ClientsideStoreCookie { key: String::from("k"), payload: vec![1, 2, 3] }),
        cfg::ClientsideConfigurationPacket::Transfer(cfg::ClientsideTransfer { server_host: String::from("example.org"), server_port: 25565 }),
        cfg::ClientsideConfigurationPacket::FeatureFlags(cfg::ClientsideFeatureFlags { features: vec![String::from("minecraft:vanilla")] }),
        cfg::ClientsideConfigurationPacket::UpdateTags(cfg::ClientsideUpdateTags {
            tags: vec![cfg::TagGroup {
                tag_type: String::from("minecraft:block"),
                tags: vec![cfg::Tag { name: String::from("minecraft:logs"), entries: vec![1, 2, 300] }, cfg::Tag { name: String::from("x"), entries: vec![] }],
            }],
        }),
        cfg::ClientsideConfigurationPacket::KnownPacks(cfg::ClientsideKnownPacks {
            known_packs: vec![cfg::KnownPack { namespace: String::from("minecraft"), id: String::from("core"), version: String::from("1.21.11") }],
        }),
        cfg::ClientsideConfigurationPacket::CustomReportDetails(cfg::ClientsideCustomReportDetails {
            details: vec![cfg::ReportDetail { title: String::from("t"), description: String::from("d") }],
        }),
        cfg::ClientsideConfigurationPacket::ServerLinks(cfg::ClientsideServerLinks {
            links: vec![
                cfg::ServerLink { label: cfg::ServerLinkLabel::BuiltIn(3), url: String::from("https://a") },
                cfg::ServerLink { label: cfg::ServerLinkLabel::Custom(String::from("Site")), url: String::from("https://b") },
            ],
        }),
    ];
    for (i, p) in packets.iter().enumerate() {
        assert_eq!(back(p).as_ref(), Some(p), "packet {}", i);
    }
}

#[test]
fn configuration_ids() {
    assert_eq!(cfg::ClientsideConfigurationPacket::KeepAlive(cfg::MultisideKeepAlive { id: 0 }).id(), 0x04);
    assert_eq!(cfg::ClientsideConfigurationPacket::ServerLinks(cfg::ClientsideServerLinks { links: vec![] }).id(), 0x10);
    assert_eq!(cfg::ServersideConfigurationPacket::KnownPacks(cfg::ServersideKnownPacks { known_packs: vec![] }).id(), 0x07);
    let data = [0u8; 4];
    assert_eq!(cfg::ClientsideConfigurationPacket::read(0x11, &mut Cursor::new(&data)), None);
}

#[test]
fn configuration_serverside_roundtrips() {
    let info = cfg::ServersideClientInformation {
        locale: String::from("en_US"),
        view_distance: 10,
        chat_mode: 0,
        chat_colors: true,
        displayed_skin_parts: DisplayedSkinParts::default(),
        main_hand: ClientHand::Right,
        enable_text_filtering: false,
        allow_server_listings: true,
        particle_status: 2,
    };
    let mut expected = vec![5];
    expected.extend_from_slice(b"en_US");
    expected.extend_from_slice(&[10, 0, 1, 0x7f, 1, 0, 1, 2]);
    assert_eq!(body(&cfg::ServersideConfigurationPacket::ClientInformation(info.clone())), expected);
    let packets = vec![
        cfg::ServersideConfigurationPacket::ClientInformation(info),
        cfg::ServersideConfigurationPacket::CookieResponse(cfg::ServersideCookieResponse { key: String::from("k"), payload: Some(vec![4, 5]) }),
        cfg::ServersideConfigurationPacket::CookieResponse(cfg::ServersideCookieResponse { key: String::from("k"), payload: None }),
        cfg::ServersideConfigurationPacket::PluginMessage(cfg::ServersidePluginMessage { channel: String::from("c"), data: vec![] }),
        cfg::ServersideConfigurationPacket::AcknowledgeFinishConfiguration(cfg::ServersideAcknowledgeFinishConfiguration),
        cfg::ServersideConfigurationPacket::KeepAlive(cfg::MultisideKeepAlive { id: i64::MAX }),
        cfg::ServersideConfigurationPacket::Pong(cfg::ServersidePong { id: -5 }),
        cfg::ServersideConfigurationPacket::ResourcePackResponse(cfg::ServersideResourcePackResponse { uuid: Uuid::from_u128(9), state: cfg::ResourcePackState::Accepted }),
        cfg::ServersideConfigurationPacket::KnownPacks(cfg::ServersideKnownPacks { known_packs: vec![] }),
    ];
    for (i, p) in packets.iter().enumerate() {
        assert_eq!(back(p).as_ref(), Some(p), "packet {}", i);
    }
}

#[test]
fn rest_fields_take_everything() {
    let data = [5u8, b'h', b'e', b'l', b'l', b'o', 1, 2, 3];
    let p = cfg::ClientsidePluginMessage::read(&mut Cursor::new(&data)).unwrap();
    assert_eq!(p.channel, "hello");
    assert_eq!(p.data, vec![1, 2, 3]);
    let p = cfg::ClientsideDisconnect::read(&mut Cursor::new(&data)).unwrap();
    assert_eq!(p.reason, data.to_vec());
}

#[test]
fn resource_pack_states() {
    assert_eq!(cfg::ResourcePackState::from(0), cfg::ResourcePackState::SuccessfullyLoaded);
    assert_eq!(cfg::ResourcePackState::from(3), cfg::ResourcePackState::Accepted);
    assert_eq!(cfg::ResourcePackState::from(7), cfg::ResourcePackState::Discarded);
    assert_eq!(cfg::ResourcePackState::from(99), cfg::ResourcePackState::Declined);
    assert_eq!(cfg::ResourcePackState::from(-1), cfg::ResourcePackState::Declined);
    assert_eq!(cfg::ResourcePackState::Accepted.id(), 3);
    assert_eq!(ResourcePackState::read_buf(&mut Cursor::new(&[6u8])), Some(ResourcePackState::FailedToReload));
    assert_eq!(ResourcePackState::read_buf(&mut Cursor::new(&[8u8])), None);
    let mut buf = Vec::new();
    ResourcePackState::Discarded.write_buf(&mut buf);
    assert_eq!(buf, vec![7]);
}

#[test]
fn client_commands() {
    assert_eq!(ClientCommand::read_buf(&mut Cursor::new(&[0u8])), Some(ClientCommand::PerformRespawn));
    assert_eq!(ClientCommand::read_buf(&mut Cursor::new(&[1u8])), Some(ClientCommand::RequestStats));
    assert_eq!(ClientCommand::read_buf(&mut Cursor::new(&[2u8])), None);
    let mut buf = Vec::new();
    ClientCommand::RequestStats.write_buf(&mut buf);
    assert_eq!(buf, vec![1]);
}

#[test]
fn last_seen_messages() {
    let m = LastSeenMessage { index: 3, signature: Some(vec![1, 2]) };
    let mut buf = Vec::new();
    m.write_buf(&mut buf);
    assert_eq!(buf, vec![3, 1, 2, 1, 2]);
    assert_eq!(LastSeenMessage::read_buf(&mut Cursor::new(&buf)), Some(m));
    // Without a signature the message is written, but its clear flag is refused on reading.
    let m = LastSeenMessage { index: 3, signature: None };
    let mut buf = Vec::new();
    m.write_buf(&mut buf);
    assert_eq!(buf, vec![3, 0]);
    assert_eq!(LastSeenMessage::read_buf(&mut Cursor::new(&buf)), None);
}

#[test]
fn additional_message_info() {
    let info = AdditionalMessageInfo::default();
    assert_eq!(info.message_count, 0);
    let info = AdditionalMessageInfo { message_count: 300, acknowledged: [1, 2, 3], checksum: 9 };
    let mut buf = Vec::new();
    info.write_buf(&mut buf);
    assert_eq!(buf, vec![0xac, 0x02, 1, 2, 3, 9]);
    assert_eq!(AdditionalMessageInfo::read_buf(&mut Cursor::new(&buf)), Some(info));
    assert_eq!(AdditionalMessageInfo::read_buf(&mut Cursor::new(&buf[..5])), None);
}

#[test]
fn login_roundtrips() {
    let clientside = vec![
        login::ClientsideLoginPacket::Disconnect(login::ClientsideLoginDisconnect { reason: String::from("bye") }),
        login::ClientsideLoginPacket::EncryptionRequest(login::ClientsideEncryptionRequest {
            server_id: String::new(),
            public_key: vec![1, 2, 3],
            verify_token: vec![4],
            should_authenticate: true,
        }),
        login::ClientsideLoginPacket::LoginSuccess(login::ClientsideLoginSuccess {
            uuid: Uuid::from_u128(77),
            username: String::from("nurtex_bot"),
            properties: vec![
                login::Property { name: String::from("textures"), value: String::from("v"), signature: None },
                login::Property { name: String::from("n"), value: String::from("w"), signature: Some(String::from("s")) },
            ],
        }),
        login::ClientsideLoginPacket::Compression(login::ClientsideSetCompression { compression_threshold: 256 }),
        login::ClientsideLoginPacket::PluginRequest(login::ClientsidePluginRequest { message_id: 1, channel: String::from("c"), data: vec![9, 9] }),
        login::ClientsideLoginPacket::CookieRequest(login::ClientsideCookieRequest { key: String::from("k") }),
    ];
    for (i, p) in clientside.iter().enumerate() {
        assert_eq!(back(p).as_ref(), Some(p), "packet {}", i);
    }
    let serverside = vec![
        login::ServersideLoginPacket::LoginStart(login::ServersideLoginStart { username: String::from("TestBot"), uuid: Uuid::nil() }),
        login::ServersideLoginPacket::EncryptionResponse(login::ServersideEncryptionResponse { shared_secret: vec![1; 16], verify_token: vec![2, 3] }),
        login::ServersideLoginPacket::PluginResponse(login::ServersidePluginResponse { message_id: 4, data: Some(vec![5, 6]) }),
        login::ServersideLoginPacket::PluginResponse(login::ServersidePluginResponse { message_id: 4, data: None }),
        login::ServersideLoginPacket::LoginAcknowledged(login::ServersideLoginAcknowledged),
        login::ServersideLoginPacket::CookieResponse(login::ServersideCookieResponse { key: String::from("k"), payload: None }),
    ];
    for (i, p) in serverside.iter().enumerate() {
        assert_eq!(back(p).as_ref(), Some(p), "packet {}", i);
    }
    let start = login::ServersideLoginPacket::LoginStart(login::ServersideLoginStart { username: String::from("ab"), uuid: Uuid::from_u128(1) });
    let mut expected = vec![2, b'a', b'b'];
    expected.extend_from_slice(&[0; 15]);
    expected.push(1);
    assert_eq!(body(&start), expected);
}

#[test]
fn status_roundtrips() {
    let packets = vec![
        status::ClientsideStatusPacket::StatusResponse(status::ClientsideStatusResponse { response: String::from("{}") }),
        status::ClientsideStatusPacket::PongResponse(status::ClientsidePongResponse { timestamp: 123 }),
    ];
    for p in packets.iter() {
        assert_eq!(back(p).as_ref(), Some(p));
    }
    let p = status::ServersideStatusPacket::PingRequest(status::ServersidePingRequest { timestamp: 1 });
    assert_eq!(p.id(), 1);
    assert_eq!(back(&p), Some(p));
}

#[test]
fn play_roundtrips() {
    let clientside = vec![
        play::ClientsidePlayPacket::KeepAlive(play::MultisideKeepAlive { id: 5 }),
        play::ClientsidePlayPacket::Login(play::ClientsideLogin {
            entity_id: 42,
            is_hardcore: false,
            dimension_names: vec![String::from("minecraft:overworld")],
            max_players: 20,
            view_distance: 10,
            simulation_distance: 8,
            reduced_debug_info: false,
            enable_respawn_screen: true,
            dimension_type: 0,
            dimension_name: String::from("minecraft:overworld"),
            hashed_seed: -7,
        }),
        play::ClientsidePlayPacket::RemoveEntities(play::ClientsideRemoveEntities { entities: vec![1, 2, 3] }),
        play::ClientsidePlayPacket::UpdateEntityPosRot(play::ClientsideUpdateEntityPosRot {
            entity_id: 1,
            delta_x: -3,
            delta_y: 4,
            delta_z: 5,
            yaw_angle: -1,
            pitch_angle: 2,
            on_ground: true,
        }),
        play::ClientsidePlayPacket::PlayerChat(play::ClientsidePlayerChat {
            global_index: 1,
            sender_uuid: Uuid::from_u128(3),
            index: 0,
            message_signature: None,
            message: String::from("hi"),
            timestamp: 10,
            salt: 11,
            message_id: 0,
            signature: Some(vec![1]),
        }),
        play::ClientsidePlayPacket::Disconnect(play::ClientsideDisconnect),
        play::ClientsidePlayPacket::ClearChat(play::ClientsideClearChat { message_id: 2, signature: None }),
    ];
    for (i, p) in clientside.iter().enumerate() {
        assert_eq!(back(p).as_ref(), Some(p), "packet {}", i);
    }
    let serverside = vec![
        play::ServersidePlayPacket::ClientCommand(play::ServersideClientCommand { command: ClientCommand::PerformRespawn }),
        play::ServersidePlayPacket::ChatMessage(play::ServersideChatMessage {
            message: String::from("hello"),
            timestamp: 1,
            salt: 2,
            signature: None,
            additional_info: AdditionalMessageInfo::default(),
        }),
        play::ServersidePlayPacket::SetHeldItem(play::ServersideSetHeldItem { slot: 3 }),
    ];
    for (i, p) in serverside.iter().enumerate() {
        assert_eq!(back(p).as_ref(), Some(p), "packet {}", i);
    }
    assert_eq!(play::ServersidePlayPacket::KeepAlive(play::MultisideKeepAlive { id: 0 }).id(), 0x1B);
    assert_eq!(play::ClientsidePlayPacket::KeepAlive(play::MultisideKeepAlive { id: 0 }).id(), 0x2B);
}

#[test]
fn varlong_play_packets() {
    let t = play::ServersidePlayPacket::AcceptTeleportation(play::ServersideAcceptTeleportation { teleport_id: 300 });
    assert_eq!(t.id(), 0x00);
    assert_eq!(body(&t), vec![0xac, 0x02]);
    assert_eq!(back(&t), Some(t.clone()));
    let u = play::ClientsidePlayPacket::SectionBlocksUpdate(play::ClientsideSectionBlocksUpdate {
        chunk_section_position: 1,
        head_yaw: vec![5, -1],
    });
    assert_eq!(u.id(), 0x52);
    let mut expected = vec![0, 0, 0, 0, 0, 0, 0, 1, 2, 5];
    expected.extend_from_slice(&[0xff; 9]);
    expected.push(0x01);
    assert_eq!(body(&u), expected);
    assert_eq!(back(&u), Some(u.clone()));
}

#[test]
fn truncated_packets_do_not_read() {
    let cookie = login::ClientsideCookieRequest { key: String::from("minecraft:key") };
    let mut bytes = Vec::new();
    cookie.write(&mut bytes);
    for k in 0..bytes.len() {
        assert_eq!(login::ClientsideCookieRequest::read(&mut Cursor::new(&bytes[..k])), None);
    }
    assert_eq!(login::ClientsideCookieRequest::read(&mut Cursor::new(&bytes)), Some(cookie));
    let request = login::ClientsideEncryptionRequest {
        server_id: String::from("id"),
        public_key: vec![1, 2, 3],
        verify_token: vec![4, 5],
        should_authenticate: true,
    };
    let mut bytes = Vec::new();
    request.write(&mut bytes);
    for k in 0..bytes.len() {
        assert_eq!(login::ClientsideEncryptionRequest::read(&mut Cursor::new(&bytes[..k])), None);
    }
    let mut longer = bytes.clone();
    longer.extend_from_slice(&[9, 9]);
    let mut c = Cursor::new(&longer);
    assert_eq!(login::ClientsideEncryptionRequest::read(&mut c), Some(request));
    assert_eq!(c.position, bytes.len());
}

#[test]
fn server_link_flag_above_one_is_refused() {
    let links = cfg::ClientsideServerLinks {
        links: vec![
            cfg::ServerLink { label: cfg::ServerLinkLabel::BuiltIn(3), url: String::from("https://a") },
            cfg::ServerLink { label: cfg::ServerLinkLabel::Custom(String::from("Site")), url: String::from("https://b") },
        ],
    };
    let mut bytes = Vec::new();
    links.write(&mut bytes);
    // count, then the first link: flag 1, id 3, url of 9 bytes; the second flag follows.
    let second = 1 + 1 + 1 + 1 + 9;
    assert_eq!(bytes[1], 1);
    assert_eq!(bytes[second], 0);
    for (offset, flag) in [(1usize, 2u8), (second, 7u8)] {
        let mut bad = bytes.clone();
        bad[offset] = flag;
        assert_eq!(cfg::ClientsideServerLinks::read(&mut Cursor::new(&bad)), None);
    }
}

#[test]
fn player_position_and_play_resource_pack_response() {
    let p = play::ClientsidePlayPacket::PlayerPosition(play::ClientsidePlayerPosition {
        teleport_id: 300,
        position: play::Vector3Bits { x: 1.5f64.to_bits(), y: 2.0f64.to_bits(), z: 3.0f64.to_bits() },
        velocity: play::Vector3Bits { x: 0, y: 0, z: 0 },
        rotation: play::RotationBits { yaw: 45.0f32.to_bits(), pitch: 10.0f32.to_bits() },
        teleport_flags: play::TeleportFlags { bits: 5 },
    });
    assert_eq!(p.id(), 0x46);
    let bytes = body(&p);
    assert_eq!(bytes.len(), 2 + 24 + 24 + 8 + 4);
    assert_eq!(&bytes[..2], &[0xac, 0x02]);
    assert_eq!(&bytes[2..10], &1.5f64.to_be_bytes());
    assert_eq!(&bytes[50..54], &45.0f32.to_be_bytes());
    assert_eq!(&bytes[58..], &[0, 0, 0, 5]);
    assert_eq!(back(&p), Some(p.clone()));
    let r = play::ServersidePlayPacket::ResourcePackResponse(play::ServersideResourcePackResponse {
        uuid: Uuid::from_u128(1),
        state: ResourcePackState::Accepted,
    });
    assert_eq!(r.id(), 0x30);
    let bytes = body(&r);
    assert_eq!(bytes.len(), 17);
    assert_eq!(bytes[16], 3);
    assert_eq!(back(&r), Some(r.clone()));
}

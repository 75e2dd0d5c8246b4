use nurtex::codec::cursor::Cursor;
use nurtex::codec::uuid::Uuid;
use nurtex::protocol::connection::{ClientsidePacket, ConnectionState, PacketCodec, ServersidePacket};
use nurtex::protocol::packets::login;
use nurtex::protocol::reader::{
    compression_decoder, deserialize_packet, parse_frame, read_raw_packet_from_buffer, PacketBuffer,
    MAX_PACKET_SIZE,
};
use nurtex::protocol::writer::{compression_encoder, encode_to_network_packet, frame_prepender, serialize_packet};

fn buffer_of(bytes: &[u8]) -> PacketBuffer {
    let mut b = PacketBuffer::new();
    b.extend_from_slice(bytes);
    b
}

#[test]
fn frame_has_length_prefix() {
    assert_eq!(frame_prepender(vec![1, 2, 3]), Some(vec![3, 1, 2, 3]));
    assert_eq!(frame_prepender(Vec::new()), Some(vec![0]));
    let big = vec![7u8; 300];
    let framed = frame_prepender(big.clone()).unwrap();
    assert_eq!(&framed[..2], &[0xac, 0x02]);
    assert_eq!(&framed[2..], &big[..]);
}

#[test]
fn frames_come_out_in_order() {
    let mut b = buffer_of(&[3, 1, 2, 3, 2, 9, 8]);
    assert_eq!(b.remaining(), 7);
    assert_eq!(parse_frame(&mut b), Some(vec![1, 2, 3]));
    assert_eq!(b.remaining(), 3);
    assert_eq!(parse_frame(&mut b), Some(vec![9, 8]));
    assert_eq!(b.remaining(), 0);
    assert_eq!(parse_frame(&mut b), None);
}

#[test]
fn partial_frame_waits_for_more() {
    let mut b = buffer_of(&[5, 1, 2]);
    assert_eq!(parse_frame(&mut b), None);
    assert_eq!(b.remaining(), 3);
    b.extend_from_slice(&[3, 4, 5]);
    assert_eq!(parse_frame(&mut b), Some(vec![1, 2, 3, 4, 5]));
    assert_eq!(b.remaining(), 0);
}

#[test]
fn negative_frame_length_is_no_frame() {
    let mut b = buffer_of(&[0xff, 0xff, 0xff, 0xff, 0x0f, 1]);
    assert_eq!(parse_frame(&mut b), None);
    assert_eq!(b.remaining(), 6);
}

#[test]
fn small_data_is_not_compressed() {
    assert_eq!(compression_encoder(&[1, 2, 3], 256), Some(vec![0, 1, 2, 3]));
    let mut c = Cursor::new(&[0u8, 1, 2, 3]);
    assert_eq!(compression_decoder(&mut c, 256), Some(vec![1, 2, 3]));
    assert_eq!(c.position, 4);
}

#[test]
fn large_data_is_compressed_and_comes_back() {
    let data: Vec<u8> = (0..600u32).map(|i| (i % 7) as u8).collect();
    let encoded = compression_encoder(&data, 256).unwrap();
    assert_eq!(&encoded[..2], &[0xd8, 0x04]);
    assert!(encoded.len() < data.len());
    let mut c = Cursor::new(&encoded);
    assert_eq!(compression_decoder(&mut c, 256), Some(data));
    assert_eq!(c.position, encoded.len());
}

#[test]
fn size_under_threshold_is_refused() {
    let data = vec![1u8; 10];
    let encoded = compression_encoder(&data, 5).unwrap();
    assert_eq!(encoded[0], 10);
    let mut c = Cursor::new(&encoded);
    assert_eq!(compression_decoder(&mut c, 256), None);
}

#[test]
fn size_over_maximum_is_refused() {
    assert_eq!(MAX_PACKET_SIZE, 8388608);
    let mut bytes = vec![0x81, 0x80, 0x80, 0x04];
    bytes.extend_from_slice(&[0x78, 0x9c]);
    let mut c = Cursor::new(&bytes);
    assert_eq!(compression_decoder(&mut c, 0), None);
}

#[test]
fn broken_zlib_is_refused() {
    let bytes = [20u8, 1, 2, 3, 4];
    let mut c = Cursor::new(&bytes);
    assert_eq!(compression_decoder(&mut c, 0), None);
}

#[test]
fn empty_data_at_threshold_zero_does_not_come_back() {
    let encoded = compression_encoder(&[], 0).unwrap();
    assert_eq!(encoded[0], 0);
    assert!(encoded.len() > 1);
    let mut c = Cursor::new(&encoded);
    let decoded = compression_decoder(&mut c, 0).unwrap();
    assert_ne!(decoded, Vec::<u8>::new());
}

#[test]
fn network_packets() {
    assert_eq!(encode_to_network_packet(&[1, 2, 3], None), Some(vec![3, 1, 2, 3]));
    assert_eq!(encode_to_network_packet(&[1, 2, 3], Some(256)), Some(vec![4, 0, 1, 2, 3]));
    let data: Vec<u8> = (0..1000u32).map(|i| (i % 13) as u8).collect();
    for threshold in [None, Some(0), Some(256), Some(5000)] {
        let net = encode_to_network_packet(&data, threshold).unwrap();
        let mut b = buffer_of(&net);
        assert_eq!(read_raw_packet_from_buffer(&mut b, threshold), Some(data.clone()));
        assert_eq!(b.remaining(), 0);
    }
}

#[test]
fn packets_serialize_and_read_back() {
    let p = login::ServersideLoginPacket::LoginStart(login::ServersideLoginStart {
        username: String::from("Bot"),
        uuid: Uuid::from_u128(5),
    });
    let bytes = serialize_packet(&p).unwrap();
    assert_eq!(&bytes[..5], &[0, 3, b'B', b'o', b't']);
    assert_eq!(bytes.len(), 5 + 16);
    let mut c = Cursor::new(&bytes);
    assert_eq!(deserialize_packet::<login::ServersideLoginPacket>(&mut c), Some(p));
    assert_eq!(c.position, bytes.len());
}

#[test]
fn codec_threshold_and_state() {
    let mut codec = PacketCodec::new();
    assert_eq!(codec.get_state(), ConnectionState::Handshake);
    assert_eq!(codec.get_compression_threshold(), None);
    codec.set_compression_threshold(256);
    assert_eq!(codec.get_compression_threshold(), Some(256));
    codec.set_compression_threshold(-1);
    assert_eq!(codec.get_compression_threshold(), None);
    codec.set_compression_threshold(0);
    assert_eq!(codec.get_compression_threshold(), Some(0));
    codec.set_state(ConnectionState::Play);
    assert_eq!(codec.get_state(), ConnectionState::Play);
}

#[test]
fn codec_reads_packets_of_its_state() {
    let mut codec = PacketCodec::new();
    codec.set_state(ConnectionState::Login);
    codec.receive(&[3, 3, 0x80, 0x02]);
    codec.receive(&[2, 0, 0]);
    assert_eq!(codec.buffered(), 7);
    match codec.read_packet() {
        Some(ClientsidePacket::Login(login::ClientsideLoginPacket::Compression(c))) => {
            assert_eq!(c.compression_threshold, 256)
        }
        other => panic!("unexpected {:?}", other),
    }
    assert_eq!(codec.buffered(), 3);
    match codec.read_packet() {
        Some(ClientsidePacket::Login(login::ClientsideLoginPacket::Disconnect(d))) => {
            assert_eq!(d.reason, "")
        }
        other => panic!("unexpected {:?}", other),
    }
    assert_eq!(codec.buffered(), 0);
    assert!(codec.read_packet().is_none());
}

#[test]
fn codec_writes_framed_packets() {
    let mut codec = PacketCodec::new();
    let p = ServersidePacket::login(login::ServersideLoginPacket::LoginAcknowledged(
        login::ServersideLoginAcknowledged,
    ));
    assert_eq!(codec.write_packet(&p), Some(vec![1, 3]));
    codec.set_compression_threshold(256);
    assert_eq!(codec.write_packet(&p), Some(vec![2, 0, 3]));
}

#[test]
fn what_the_server_sends_is_read_back() {
    let sent = login::ClientsideLoginPacket::LoginSuccess(login::ClientsideLoginSuccess {
        uuid: Uuid::from_u128(77),
        username: "x".repeat(400),
        properties: vec![login::Property { name: String::from("a"), value: String::from("b"), signature: None }],
    });
    for threshold in [None, Some(0), Some(256), Some(100000)] {
        let raw = serialize_packet(&sent).unwrap();
        let net = encode_to_network_packet(&raw, threshold).unwrap();
        let mut codec = PacketCodec::new();
        codec.set_state(ConnectionState::Login);
        match threshold {
            Some(t) => codec.set_compression_threshold(t as i32),
            None => codec.set_compression_threshold(-1),
        }
        let (first, second) = net.split_at(net.len() / 2);
        codec.receive(first);
        assert!(codec.read_packet().is_none());
        codec.receive(second);
        match codec.read_packet() {
            Some(ClientsidePacket::Login(p)) => assert_eq!(p, sent),
            other => panic!("unexpected {:?}", other),
        }
        assert_eq!(codec.buffered(), 0);
    }
}

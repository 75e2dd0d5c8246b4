use vstd::prelude::*;

use crate::codec::cursor::Cursor;
use crate::protocol::compression::opt_bytes;
use crate::protocol::packet::Packet;
use crate::protocol::packets::configuration::{
    ClientsideConfigurationPacket, ClientsideConfigurationPacketView, ServersideConfigurationPacket,
    ServersideConfigurationPacketView,
};
use crate::protocol::packets::handshake::{
    ClientsideHandshakePacket, ServersideHandshakePacket, ServersideHandshakePacketView,
};
use crate::protocol::packets::login::{
    ClientsideLoginPacket, ClientsideLoginPacketView, ServersideLoginPacket, ServersideLoginPacketView,
};
use crate::protocol::packets::play::{
    ClientsidePlayPacket, ClientsidePlayPacketView, ServersidePlayPacket, ServersidePlayPacketView,
};
use crate::protocol::packets::status::{
    ClientsideStatusPacket, ClientsideStatusPacketView, ServersideStatusPacket,
    ServersideStatusPacketView,
};
use crate::protocol::reader::{
    read_raw_packet_from_buffer, spec_deserialize, spec_frame, spec_raw_packet, PacketBuffer,
};
use crate::protocol::writer::{
    decompresses_back, encode_to_network_packet, lemma_packet_roundtrip, serialize_packet,
    spec_network_packet, spec_network_read, spec_serialize_packet,
};

verus! {

/// The state of a connection, which decides the family of the packets.
#[derive(Debug, Clone, Copy, PartialEq, Eq, Structural)]
pub enum ConnectionState {
    Handshake,
    Status,
    Login,
    Configuration,
    Play,
}

/// A packet that the server sends, in the family of its state.
#[derive(Debug, Clone)]
pub enum ClientsidePacket {
    Handshake(ClientsideHandshakePacket),
    Status(ClientsideStatusPacket),
    Login(ClientsideLoginPacket),
    Configuration(ClientsideConfigurationPacket),
    Play(ClientsidePlayPacket),
}

/// The content of a [`ClientsidePacket`].
pub enum ClientsidePacketView {
    Handshake(()),
    Status(ClientsideStatusPacketView),
    Login(ClientsideLoginPacketView),
    Configuration(ClientsideConfigurationPacketView),
    Play(ClientsidePlayPacketView),
}

impl DeepView for ClientsidePacket {
    type V = ClientsidePacketView;

    open spec fn deep_view(&self) -> ClientsidePacketView {
        match self {
            ClientsidePacket::Handshake(p) => ClientsidePacketView::Handshake(p.deep_view()),
            ClientsidePacket::Status(p) => ClientsidePacketView::Status(p.deep_view()),
            ClientsidePacket::Login(p) => ClientsidePacketView::Login(p.deep_view()),
            ClientsidePacket::Configuration(p) => ClientsidePacketView::Configuration(p.deep_view()),
            ClientsidePacket::Play(p) => ClientsidePacketView::Play(p.deep_view()),
        }
    }
}

/// A packet that the client sends, in the family of its state.
#[derive(Debug, Clone)]
pub enum ServersidePacket {
    Handshake(ServersideHandshakePacket),
    Status(ServersideStatusPacket),
    Login(ServersideLoginPacket),
    Configuration(ServersideConfigurationPacket),
    Play(ServersidePlayPacket),
}

/// The content of a [`ServersidePacket`].
pub enum ServersidePacketView {
    Handshake(ServersideHandshakePacketView),
    Status(ServersideStatusPacketView),
    Login(ServersideLoginPacketView),
    Configuration(ServersideConfigurationPacketView),
    Play(ServersidePlayPacketView),
}

impl DeepView for ServersidePacket {
    type V = ServersidePacketView;

    open spec fn deep_view(&self) -> ServersidePacketView {
        match self {
            ServersidePacket::Handshake(p) => ServersidePacketView::Handshake(p.deep_view()),
            ServersidePacket::Status(p) => ServersidePacketView::Status(p.deep_view()),
            ServersidePacket::Login(p) => ServersidePacketView::Login(p.deep_view()),
            ServersidePacket::Configuration(p) => ServersidePacketView::Configuration(p.deep_view()),
            ServersidePacket::Play(p) => ServersidePacketView::Play(p.deep_view()),
        }
    }
}

impl ServersidePacket {
    /// A handshake packet.
    pub fn handshake(packet: ServersideHandshakePacket) -> (res: ServersidePacket)
        ensures
            res == ServersidePacket::Handshake(packet),
    {
        ServersidePacket::Handshake(packet)
    }

    /// A status packet.
    pub fn status(packet: ServersideStatusPacket) -> (res: ServersidePacket)
        ensures
            res == ServersidePacket::Status(packet),
    {
        ServersidePacket::Status(packet)
    }

    /// A login packet.
    pub fn login(packet: ServersideLoginPacket) -> (res: ServersidePacket)
        ensures
            res == ServersidePacket::Login(packet),
    {
        ServersidePacket::Login(packet)
    }

    /// A configuration packet.
    pub fn configuration(packet: ServersideConfigurationPacket) -> (res: ServersidePacket)
        ensures
            res == ServersidePacket::Configuration(packet),
    {
        ServersidePacket::Configuration(packet)
    }

    /// A play packet.
    pub fn play(packet: ServersidePlayPacket) -> (res: ServersidePacket)
        ensures
            res == ServersidePacket::Play(packet),
    {
        ServersidePacket::Play(packet)
    }
}

/// Reads a packet of the server from the bytes of a packet, in the family of the state.
pub open spec fn spec_decode_clientside(state: ConnectionState, raw: Seq<u8>) -> Option<
    ClientsidePacketView,
> {
    match state {
        ConnectionState::Handshake => match spec_deserialize::<ClientsideHandshakePacket>(raw, 0) {
            Some((p, _)) => Some(ClientsidePacketView::Handshake(p)),
            None => None,
        },
        ConnectionState::Status => match spec_deserialize::<ClientsideStatusPacket>(raw, 0) {
            Some((p, _)) => Some(ClientsidePacketView::Status(p)),
            None => None,
        },
        ConnectionState::Login => match spec_deserialize::<ClientsideLoginPacket>(raw, 0) {
            Some((p, _)) => Some(ClientsidePacketView::Login(p)),
            None => None,
        },
        ConnectionState::Configuration => match spec_deserialize::<ClientsideConfigurationPacket>(
            raw,
            0,
        ) {
            Some((p, _)) => Some(ClientsidePacketView::Configuration(p)),
            None => None,
        },
        ConnectionState::Play => match spec_deserialize::<ClientsidePlayPacket>(raw, 0) {
            Some((p, _)) => Some(ClientsidePacketView::Play(p)),
            None => None,
        },
    }
}

/// Reads a packet of the client from the bytes of a packet, in the family of the state.
pub open spec fn spec_decode_serverside(state: ConnectionState, raw: Seq<u8>) -> Option<
    ServersidePacketView,
> {
    match state {
        ConnectionState::Handshake => match spec_deserialize::<ServersideHandshakePacket>(raw, 0) {
            Some((p, _)) => Some(ServersidePacketView::Handshake(p)),
            None => None,
        },
        ConnectionState::Status => match spec_deserialize::<ServersideStatusPacket>(raw, 0) {
            Some((p, _)) => Some(ServersidePacketView::Status(p)),
            None => None,
        },
        ConnectionState::Login => match spec_deserialize::<ServersideLoginPacket>(raw, 0) {
            Some((p, _)) => Some(ServersidePacketView::Login(p)),
            None => None,
        },
        ConnectionState::Configuration => match spec_deserialize::<ServersideConfigurationPacket>(
            raw,
            0,
        ) {
            Some((p, _)) => Some(ServersidePacketView::Configuration(p)),
            None => None,
        },
        ConnectionState::Play => match spec_deserialize::<ServersidePlayPacket>(raw, 0) {
            Some((p, _)) => Some(ServersidePacketView::Play(p)),
            None => None,
        },
    }
}

/// The bytes of a packet of the client: identifier and body.
pub open spec fn spec_serialize_serverside(v: ServersidePacketView) -> Option<Seq<u8>> {
    match v {
        ServersidePacketView::Handshake(p) => spec_serialize_packet::<ServersideHandshakePacket>(p),
        ServersidePacketView::Status(p) => spec_serialize_packet::<ServersideStatusPacket>(p),
        ServersidePacketView::Login(p) => spec_serialize_packet::<ServersideLoginPacket>(p),
        ServersidePacketView::Configuration(p) => spec_serialize_packet::<
            ServersideConfigurationPacket,
        >(p),
        ServersidePacketView::Play(p) => spec_serialize_packet::<ServersidePlayPacket>(p),
    }
}

/// The state of a packet of the client: the state whose family it belongs to.
pub open spec fn serverside_state(v: ServersidePacketView) -> ConnectionState {
    match v {
        ServersidePacketView::Handshake(_) => ConnectionState::Handshake,
        ServersidePacketView::Status(_) => ConnectionState::Status,
        ServersidePacketView::Login(_) => ConnectionState::Login,
        ServersidePacketView::Configuration(_) => ConnectionState::Configuration,
        ServersidePacketView::Play(_) => ConnectionState::Play,
    }
}

/// Packets of the client that read back as written.
pub open spec fn serverside_wf(v: ServersidePacketView) -> bool {
    match v {
        ServersidePacketView::Handshake(p) => ServersideHandshakePacket::spec_wf(p),
        ServersidePacketView::Status(p) => ServersideStatusPacket::spec_wf(p),
        ServersidePacketView::Login(p) => ServersideLoginPacket::spec_wf(p),
        ServersidePacketView::Configuration(p) => ServersideConfigurationPacket::spec_wf(p),
        ServersidePacketView::Play(p) => ServersidePlayPacket::spec_wf(p),
    }
}

/// A written packet of the client reads back as it was, in the state of its family.
pub proof fn lemma_serverside_roundtrip(v: ServersidePacketView)
    requires
        serverside_wf(v),
        spec_serialize_serverside(v) is Some,
    ensures
        spec_decode_serverside(serverside_state(v), spec_serialize_serverside(v).unwrap()) == Some(v),
{
    match v {
        ServersidePacketView::Handshake(p) => lemma_packet_roundtrip::<ServersideHandshakePacket>(p),
        ServersidePacketView::Status(p) => lemma_packet_roundtrip::<ServersideStatusPacket>(p),
        ServersidePacketView::Login(p) => lemma_packet_roundtrip::<ServersideLoginPacket>(p),
        ServersidePacketView::Configuration(p) => lemma_packet_roundtrip::<
            ServersideConfigurationPacket,
        >(p),
        ServersidePacketView::Play(p) => lemma_packet_roundtrip::<ServersidePlayPacket>(p),
    }
}

/// The bytes of a packet of the server: identifier and body.
pub open spec fn spec_serialize_clientside(v: ClientsidePacketView) -> Option<Seq<u8>> {
    match v {
        ClientsidePacketView::Handshake(p) => spec_serialize_packet::<ClientsideHandshakePacket>(p),
        ClientsidePacketView::Status(p) => spec_serialize_packet::<ClientsideStatusPacket>(p),
        ClientsidePacketView::Login(p) => spec_serialize_packet::<ClientsideLoginPacket>(p),
        ClientsidePacketView::Configuration(p) => spec_serialize_packet::<
            ClientsideConfigurationPacket,
        >(p),
        ClientsidePacketView::Play(p) => spec_serialize_packet::<ClientsidePlayPacket>(p),
    }
}

/// The state of a packet of the server: the state whose family it belongs to.
pub open spec fn clientside_state(v: ClientsidePacketView) -> ConnectionState {
    match v {
        ClientsidePacketView::Handshake(_) => ConnectionState::Handshake,
        ClientsidePacketView::Status(_) => ConnectionState::Status,
        ClientsidePacketView::Login(_) => ConnectionState::Login,
        ClientsidePacketView::Configuration(_) => ConnectionState::Configuration,
        ClientsidePacketView::Play(_) => ConnectionState::Play,
    }
}

/// Packets of the server that read back as written.
pub open spec fn clientside_wf(v: ClientsidePacketView) -> bool {
    match v {
        ClientsidePacketView::Handshake(p) => ClientsideHandshakePacket::spec_wf(p),
        ClientsidePacketView::Status(p) => ClientsideStatusPacket::spec_wf(p),
        ClientsidePacketView::Login(p) => ClientsideLoginPacket::spec_wf(p),
        ClientsidePacketView::Configuration(p) => ClientsideConfigurationPacket::spec_wf(p),
        ClientsidePacketView::Play(p) => ClientsidePlayPacket::spec_wf(p),
    }
}

/// What the server sends is what the codec reads: the bytes of a packet of the server decode,
/// in the state of its family, to the packet.
pub proof fn lemma_clientside_roundtrip(v: ClientsidePacketView)
    requires
        clientside_wf(v),
        spec_serialize_clientside(v) is Some,
    ensures
        spec_decode_clientside(clientside_state(v), spec_serialize_clientside(v).unwrap()) == Some(v),
{
    match v {
        ClientsidePacketView::Handshake(p) => lemma_packet_roundtrip::<ClientsideHandshakePacket>(p),
        ClientsidePacketView::Status(p) => lemma_packet_roundtrip::<ClientsideStatusPacket>(p),
        ClientsidePacketView::Login(p) => lemma_packet_roundtrip::<ClientsideLoginPacket>(p),
        ClientsidePacketView::Configuration(p) => lemma_packet_roundtrip::<
            ClientsideConfigurationPacket,
        >(p),
        ClientsidePacketView::Play(p) => lemma_packet_roundtrip::<ClientsidePlayPacket>(p),
    }
}

/// The compression threshold that the server announces: a negative value turns compression
/// off.
pub open spec fn spec_compression_threshold(threshold: i32) -> Option<u32> {
    if threshold >= 0 {
        Some(threshold as u32)
    } else {
        None
    }
}

/// What a connection decides without the network: its state, its compression threshold and
/// the bytes received but not yet read as packets.
pub struct PacketCodec {
    state: ConnectionState,
    compression_threshold: Option<u32>,
    buffer: PacketBuffer,
}

impl PacketCodec {
    pub closed spec fn spec_state(&self) -> ConnectionState {
        self.state
    }

    pub closed spec fn spec_threshold(&self) -> Option<u32> {
        self.compression_threshold
    }

    pub closed spec fn received(&self) -> PacketBuffer {
        self.buffer
    }

    pub open spec fn wf(&self) -> bool {
        self.received().wf()
    }

    /// A new connection: handshake, no compression, nothing received.
    pub fn new() -> (res: PacketCodec)
        ensures
            res.wf(),
            res.spec_state() == ConnectionState::Handshake,
            res.spec_threshold() is None,
            res.received().bytes() == Seq::<u8>::empty(),
    {
        PacketCodec {
            state: ConnectionState::Handshake,
            compression_threshold: None,
            buffer: PacketBuffer::new(),
        }
    }

    /// The state of the connection.
    pub fn get_state(&self) -> (res: ConnectionState)
        ensures
            res == self.spec_state(),
    {
        self.state
    }

    /// Moves the connection to another state.
    pub fn set_state(&mut self, state: ConnectionState)
        ensures
            final(self).spec_state() == state,
            final(self).spec_threshold() == old(self).spec_threshold(),
            final(self).received() == old(self).received(),
    {
        self.state = state;
    }

    /// The compression threshold, when compression is on.
    pub fn get_compression_threshold(&self) -> (res: Option<u32>)
        ensures
            res == self.spec_threshold(),
    {
        self.compression_threshold
    }

    /// Sets the compression threshold that the server announced: a negative value turns
    /// compression off.
    pub fn set_compression_threshold(&mut self, threshold: i32)
        ensures
            final(self).spec_threshold() == spec_compression_threshold(threshold),
            final(self).spec_state() == old(self).spec_state(),
            final(self).received() == old(self).received(),
    {
        let new_threshold = if threshold >= 0 {
            Some(threshold as u32)
        } else {
            None
        };
        self.compression_threshold = new_threshold;
    }

    /// The number of bytes received and not yet taken as frames.
    pub fn buffered(&self) -> (res: usize)
        requires
            self.wf(),
        ensures
            res == self.received().bytes().len() - self.received().pos(),
    {
        self.buffer.remaining()
    }

    /// Takes bytes that arrived from the network.
    pub fn receive(&mut self, bytes: &[u8])
        requires
            old(self).wf(),
        ensures
            final(self).wf(),
            final(self).received().bytes() == old(self).received().bytes() + bytes@,
            final(self).received().pos() == old(self).received().pos(),
            final(self).spec_state() == old(self).spec_state(),
            final(self).spec_threshold() == old(self).spec_threshold(),
    {
        self.buffer.extend_from_slice(bytes);
    }

    /// Reads the next packet of the server from the bytes received, in the family of the
    /// state. The frame is taken even when its packet cannot be read.
    pub fn read_packet(&mut self) -> (res: Option<ClientsidePacket>)
        requires
            old(self).wf(),
        ensures
            final(self).wf(),
            final(self).spec_state() == old(self).spec_state(),
            final(self).spec_threshold() == old(self).spec_threshold(),
            match spec_frame(old(self).received().bytes(), old(self).received().pos()) {
                Some((frame, next)) => {
                    &&& match spec_raw_packet(frame, old(self).spec_threshold()) {
                        Some(raw) => match res {
                            Some(p) => spec_decode_clientside(old(self).spec_state(), raw) == Some(
                                p.deep_view(),
                            ),
                            None => spec_decode_clientside(old(self).spec_state(), raw) is None,
                        },
                        None => res is None,
                    }
                    &&& if next == old(self).received().bytes().len() {
                        final(self).received().bytes() == Seq::<u8>::empty()
                            && final(self).received().pos() == 0
                    } else {
                        final(self).received().bytes() == old(self).received().bytes()
                            && final(self).received().pos() == next
                    }
                },
                None => {
                    &&& res is None
                    &&& final(self).received().bytes() == old(self).received().bytes()
                    &&& final(self).received().pos() == old(self).received().pos()
                },
            },
    {
        let raw = match read_raw_packet_from_buffer(&mut self.buffer, self.compression_threshold) {
            Some(r) => r,
            None => {
                return None;
            },
        };
        let mut cursor = Cursor::new(raw.as_slice());
        match self.state {
            ConnectionState::Handshake => match crate::protocol::reader::deserialize_packet::<
                ClientsideHandshakePacket,
            >(&mut cursor) {
                Some(p) => Some(ClientsidePacket::Handshake(p)),
                None => None,
            },
            ConnectionState::Status => match crate::protocol::reader::deserialize_packet::<
                ClientsideStatusPacket,
            >(&mut cursor) {
                Some(p) => Some(ClientsidePacket::Status(p)),
                None => None,
            },
            ConnectionState::Login => match crate::protocol::reader::deserialize_packet::<
                ClientsideLoginPacket,
            >(&mut cursor) {
                Some(p) => Some(ClientsidePacket::Login(p)),
                None => None,
            },
            ConnectionState::Configuration => match crate::protocol::reader::deserialize_packet::<
                ClientsideConfigurationPacket,
            >(&mut cursor) {
                Some(p) => Some(ClientsidePacket::Configuration(p)),
                None => None,
            },
            ConnectionState::Play => match crate::protocol::reader::deserialize_packet::<
                ClientsidePlayPacket,
            >(&mut cursor) {
                Some(p) => Some(ClientsidePacket::Play(p)),
                None => None,
            },
        }
    }

    /// The bytes to send for a packet of the client: identifier and body, compressed when
    /// compression is on, in a frame. `None` when the packet is too large or compression fails.
    pub fn write_packet(&self, packet: &ServersidePacket) -> (res: Option<Vec<u8>>)
        ensures
            opt_bytes(res) == match spec_serialize_serverside(packet.deep_view()) {
                Some(raw) => spec_network_packet(raw, self.spec_threshold()),
                None => None,
            },
            res matches Some(net) ==> net@.len() <= i32::MAX ==> serverside_wf(packet.deep_view())
                ==> (match self.spec_threshold() {
                Some(t) => decompresses_back(spec_serialize_serverside(packet.deep_view()).unwrap(), t),
                None => true,
            }) ==> match spec_network_read(net@, self.spec_threshold()) {
                Some(raw) => spec_decode_serverside(serverside_state(packet.deep_view()), raw) == Some(
                    packet.deep_view(),
                ),
                None => false,
            },
    {
        let serialized = match packet {
            ServersidePacket::Handshake(p) => serialize_packet(p),
            ServersidePacket::Status(p) => serialize_packet(p),
            ServersidePacket::Login(p) => serialize_packet(p),
            ServersidePacket::Configuration(p) => serialize_packet(p),
            ServersidePacket::Play(p) => serialize_packet(p),
        };
        let raw = match serialized {
            Some(r) => r,
            None => {
                return None;
            },
        };
        proof {
            if serverside_wf(packet.deep_view()) {
                lemma_serverside_roundtrip(packet.deep_view());
            }
        }
        encode_to_network_packet(raw.as_slice(), self.compression_threshold)
    }
}

} // verus!

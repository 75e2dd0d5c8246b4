use vstd::prelude::*;

use crate::codec::buffer::{be32, be64, parse_be32, parse_be64, Buffer};
use crate::codec::containers::{flagged_wf, lemma_flagged_roundtrip, lemma_varint_list_roundtrip, lemma_varlong_list_roundtrip, parse_flagged, parse_varint_list, parse_varlong_list, read_flagged, read_varint_list, read_varlong_list, serialize_flagged, serialize_varint_list, serialize_varlong_list, varint_list_wf, varlong_list_wf, write_flagged, write_varint_list, write_varlong_list};
use crate::codec::cursor::{holds_at, lemma_holds_at_split, Cursor};
use crate::codec::string::spec_str;
use crate::codec::varint::{lemma_varint_i32_roundtrip, parse_varint, spec_varint, VarInt};
use crate::codec::varlong::{lemma_varlong_i64_roundtrip, parse_varlong, spec_varlong, VarLong};
use crate::codec::uuid::{uuid_bytes, Uuid};
use crate::protocol::types::{AdditionalMessageInfo, AdditionalMessageInfoView, ClientCommand, ResourcePackState};

verus! {

/// A point or velocity of the world: the bit patterns of its three IEEE 754 double-precision coordinates, each written big-endian.
#[derive(Clone, Copy, Debug, PartialEq)]
pub struct Vector3Bits {
    pub x: u64,
    pub y: u64,
    pub z: u64,
}

/// The content of a [`Vector3Bits`] as it goes over the wire.
pub struct Vector3BitsView {
    pub x: u64,
    pub y: u64,
    pub z: u64,
}

impl DeepView for Vector3Bits {
    type V = Vector3BitsView;

    open spec fn deep_view(&self) -> Vector3BitsView {
        Vector3BitsView {
            x: self.x.deep_view(),
            y: self.y.deep_view(),
            z: self.z.deep_view(),
        }
    }
}

impl Buffer for Vector3Bits {
    open spec fn spec_parse(s: Seq<u8>, pos: int) -> Option<(Vector3BitsView, int)> {
        match <u64 as Buffer>::spec_parse(s, pos) {
            Some((x, p0)) => match <u64 as Buffer>::spec_parse(s, p0) {
                Some((y, p1)) => match <u64 as Buffer>::spec_parse(s, p1) {
                    Some((z, p2)) => Some((Vector3BitsView { x, y, z }, p2)),
                    None => None,
                },
                None => None,
            },
            None => None,
        }
    }

    open spec fn spec_serialize(v: Vector3BitsView) -> Seq<u8> {
        <u64 as Buffer>::spec_serialize(v.x) + <u64 as Buffer>::spec_serialize(v.y) + <u64 as Buffer>::spec_serialize(v.z)
    }

    open spec fn spec_wf(v: Vector3BitsView) -> bool {
        <u64 as Buffer>::spec_wf(v.x) && <u64 as Buffer>::spec_wf(v.y) && <u64 as Buffer>::spec_wf(v.z)
    }

    open spec fn spec_stop(s: Seq<u8>, pos: int) -> int {
        match <u64 as Buffer>::spec_parse(s, pos) {
            Some((_, p0)) => match <u64 as Buffer>::spec_parse(s, p0) {
                Some((_, p1)) => match <u64 as Buffer>::spec_parse(s, p1) {
                    Some((_, p2)) => p2,
                    None => <u64 as Buffer>::spec_stop(s, p1),
                },
                None => <u64 as Buffer>::spec_stop(s, p0),
            },
            None => <u64 as Buffer>::spec_stop(s, pos),
        }
    }

    proof fn lemma_roundtrip(s: Seq<u8>, pos: int, v: Vector3BitsView) {
        lemma_holds_at_split(s, pos, <u64 as Buffer>::spec_serialize(v.x) + <u64 as Buffer>::spec_serialize(v.y), <u64 as Buffer>::spec_serialize(v.z));
        lemma_holds_at_split(s, pos, <u64 as Buffer>::spec_serialize(v.x), <u64 as Buffer>::spec_serialize(v.y));
        <u64 as Buffer>::lemma_roundtrip(s, pos, v.x);
        <u64 as Buffer>::lemma_roundtrip(s, pos + <u64 as Buffer>::spec_serialize(v.x).len(), v.y);
        <u64 as Buffer>::lemma_roundtrip(s, pos + <u64 as Buffer>::spec_serialize(v.x).len() + <u64 as Buffer>::spec_serialize(v.y).len(), v.z);
    }

    fn read_buf(buffer: &mut Cursor) -> (res: Option<Vector3Bits>) {
        let x = match <u64 as Buffer>::read_buf(buffer) {
            Some(x) => x,
            None => {
                return None;
            },
        };
        let y = match <u64 as Buffer>::read_buf(buffer) {
            Some(x) => x,
            None => {
                return None;
            },
        };
        let z = match <u64 as Buffer>::read_buf(buffer) {
            Some(x) => x,
            None => {
                return None;
            },
        };
        Some(Vector3Bits { x, y, z })
    }

    fn write_buf(&self, buffer: &mut Vec<u8>) {
        self.x.write_buf(buffer);
        self.y.write_buf(buffer);
        assert(buffer@ =~= old(buffer)@ + (<u64 as Buffer>::spec_serialize(self.deep_view().x) + <u64 as Buffer>::spec_serialize(self.deep_view().y)));
        self.z.write_buf(buffer);
        assert(buffer@ =~= old(buffer)@ + Self::spec_serialize(self.deep_view()));
    }
}

/// Where an entity looks: the bit patterns of its IEEE 754 single-precision yaw and pitch, each written big-endian.
#[derive(Clone, Copy, Debug, PartialEq)]
pub struct RotationBits {
    pub yaw: u32,
    pub pitch: u32,
}

/// The content of a [`RotationBits`] as it goes over the wire.
pub struct RotationBitsView {
    pub yaw: u32,
    pub pitch: u32,
}

impl DeepView for RotationBits {
    type V = RotationBitsView;

    open spec fn deep_view(&self) -> RotationBitsView {
        RotationBitsView {
            yaw: self.yaw.deep_view(),
            pitch: self.pitch.deep_view(),
        }
    }
}

impl Buffer for RotationBits {
    open spec fn spec_parse(s: Seq<u8>, pos: int) -> Option<(RotationBitsView, int)> {
        match <u32 as Buffer>::spec_parse(s, pos) {
            Some((yaw, p0)) => match <u32 as Buffer>::spec_parse(s, p0) {
                Some((pitch, p1)) => Some((RotationBitsView { yaw, pitch }, p1)),
                None => None,
            },
            None => None,
        }
    }

    open spec fn spec_serialize(v: RotationBitsView) -> Seq<u8> {
        <u32 as Buffer>::spec_serialize(v.yaw) + <u32 as Buffer>::spec_serialize(v.pitch)
    }

    open spec fn spec_wf(v: RotationBitsView) -> bool {
        <u32 as Buffer>::spec_wf(v.yaw) && <u32 as Buffer>::spec_wf(v.pitch)
    }

    open spec fn spec_stop(s: Seq<u8>, pos: int) -> int {
        match <u32 as Buffer>::spec_parse(s, pos) {
            Some((_, p0)) => match <u32 as Buffer>::spec_parse(s, p0) {
                Some((_, p1)) => p1,
                None => <u32 as Buffer>::spec_stop(s, p0),
            },
            None => <u32 as Buffer>::spec_stop(s, pos),
        }
    }

    proof fn lemma_roundtrip(s: Seq<u8>, pos: int, v: RotationBitsView) {
        lemma_holds_at_split(s, pos, <u32 as Buffer>::spec_serialize(v.yaw), <u32 as Buffer>::spec_serialize(v.pitch));
        <u32 as Buffer>::lemma_roundtrip(s, pos, v.yaw);
        <u32 as Buffer>::lemma_roundtrip(s, pos + <u32 as Buffer>::spec_serialize(v.yaw).len(), v.pitch);
    }

    fn read_buf(buffer: &mut Cursor) -> (res: Option<RotationBits>) {
        let yaw = match <u32 as Buffer>::read_buf(buffer) {
            Some(x) => x,
            None => {
                return None;
            },
        };
        let pitch = match <u32 as Buffer>::read_buf(buffer) {
            Some(x) => x,
            None => {
                return None;
            },
        };
        Some(RotationBits { yaw, pitch })
    }

    fn write_buf(&self, buffer: &mut Vec<u8>) {
        self.yaw.write_buf(buffer);
        self.pitch.write_buf(buffer);
        assert(buffer@ =~= old(buffer)@ + Self::spec_serialize(self.deep_view()));
    }
}

/// Which fields of a teleportation are relative, as a big-endian bit set.
#[derive(Clone, Copy, Debug, PartialEq)]
pub struct TeleportFlags {
    pub bits: u32,
}

/// The content of a [`TeleportFlags`] as it goes over the wire.
pub struct TeleportFlagsView {
    pub bits: u32,
}

impl DeepView for TeleportFlags {
    type V = TeleportFlagsView;

    open spec fn deep_view(&self) -> TeleportFlagsView {
        TeleportFlagsView {
            bits: self.bits.deep_view(),
        }
    }
}

impl Buffer for TeleportFlags {
    open spec fn spec_parse(s: Seq<u8>, pos: int) -> Option<(TeleportFlagsView, int)> {
        match <u32 as Buffer>::spec_parse(s, pos) {
            Some((bits, p0)) => Some((TeleportFlagsView { bits }, p0)),
            None => None,
        }
    }

    open spec fn spec_serialize(v: TeleportFlagsView) -> Seq<u8> {
        <u32 as Buffer>::spec_serialize(v.bits)
    }

    open spec fn spec_wf(v: TeleportFlagsView) -> bool {
        <u32 as Buffer>::spec_wf(v.bits)
    }

    open spec fn spec_stop(s: Seq<u8>, pos: int) -> int {
        match <u32 as Buffer>::spec_parse(s, pos) {
            Some((_, p0)) => p0,
            None => <u32 as Buffer>::spec_stop(s, pos),
        }
    }

    proof fn lemma_roundtrip(s: Seq<u8>, pos: int, v: TeleportFlagsView) {
        <u32 as Buffer>::lemma_roundtrip(s, pos, v.bits);
    }

    fn read_buf(buffer: &mut Cursor) -> (res: Option<TeleportFlags>) {
        let bits = match <u32 as Buffer>::read_buf(buffer) {
            Some(x) => x,
            None => {
                return None;
            },
        };
        Some(TeleportFlags { bits })
    }

    fn write_buf(&self, buffer: &mut Vec<u8>) {
        self.bits.write_buf(buffer);
    }
}

/// A keep-alive exchange, the same packet in both directions.
#[derive(Clone, Debug, PartialEq)]
pub struct MultisideKeepAlive {
    pub id: i64,
}

/// The content of a [`MultisideKeepAlive`] as it goes over the wire.
pub struct MultisideKeepAliveView {
    pub id: i64,
}

impl DeepView for MultisideKeepAlive {
    type V = MultisideKeepAliveView;

    open spec fn deep_view(&self) -> MultisideKeepAliveView {
        MultisideKeepAliveView {
            id: self.id.deep_view(),
        }
    }
}

impl MultisideKeepAlive {
    /// What reading a [`MultisideKeepAlive`] at `pos` yields, and the position after it.
    pub open spec fn spec_parse(s: Seq<u8>, pos: int) -> Option<(MultisideKeepAliveView, int)> {
        match <i64 as Buffer>::spec_parse(s, pos) {
            Some((id, p0)) => Some((MultisideKeepAliveView { id }, p0)),
            None => None,
        }
    }

    /// The bytes that writing a [`MultisideKeepAlive`] appends.
    pub open spec fn spec_serialize(v: MultisideKeepAliveView) -> Seq<u8> {
        <i64 as Buffer>::spec_serialize(v.id)
    }

    /// The contents that read back as written: every length fits its `VarInt` prefix.
    pub open spec fn spec_wf(v: MultisideKeepAliveView) -> bool {
        <i64 as Buffer>::spec_wf(v.id)
    }

    /// Reading back what writing a [`MultisideKeepAlive`] appended gives the same contents, whatever follows.
    pub proof fn lemma_roundtrip(s: Seq<u8>, pos: int, v: MultisideKeepAliveView)
        requires
            Self::spec_wf(v),
            holds_at(s, pos, Self::spec_serialize(v)),
        ensures
            Self::spec_parse(s, pos) == Some((v, pos + Self::spec_serialize(v).len())),
    {
        <i64 as Buffer>::lemma_roundtrip(s, pos, v.id);
    }

    /// Reads a [`MultisideKeepAlive`] at the cursor and moves past it.
    pub fn read(buffer: &mut Cursor) -> (res: Option<Self>)
        ensures
            final(buffer).data@ == old(buffer).data@,
            match res {
                Some(v) => Self::spec_parse(old(buffer).data@, old(buffer).position as int) == Some(
                    (v.deep_view(), final(buffer).position as int),
                ),
                None => Self::spec_parse(old(buffer).data@, old(buffer).position as int) is None,
            },
    {
        let id = match <i64 as Buffer>::read_buf(buffer) {
            Some(x) => x,
            None => {
                return None;
            },
        };
        Some(MultisideKeepAlive { id })
    }

    /// Appends the wire form of the [`MultisideKeepAlive`].
    pub fn write(&self, buffer: &mut Vec<u8>)
        ensures
            final(buffer)@ == old(buffer)@ + Self::spec_serialize(self.deep_view()),
    {
        self.id.write_buf(buffer);
    }
}

impl MultisideKeepAlive {
    /// The body of a keep-alive is its id and nothing else, as eight big-endian bytes; reading
    /// takes the id from the eight bytes at the position, moves past them, and refuses fewer.
    pub proof fn lemma_wire_form(v: MultisideKeepAliveView, s: Seq<u8>, pos: int)
        ensures
            Self::spec_serialize(v) == be64(v.id as u64),
            Self::spec_serialize(v).len() == 8,
            (Self::spec_parse(s, pos) is Some) <==> (0 <= pos && pos + 8 <= s.len()),
            Self::spec_parse(s, pos) is Some ==> {
                &&& Self::spec_parse(s, pos).unwrap().1 == pos + 8
                &&& parse_be64(s, pos) is Some
                &&& Self::spec_parse(s, pos).unwrap().0.id == parse_be64(s, pos).unwrap().0 as i64
            },
    {
    }
}

/// A ping of the server, to be answered with a pong.
#[derive(Clone, Debug, PartialEq)]
pub struct ClientsidePing {
    pub id: i32,
}

/// The content of a [`ClientsidePing`] as it goes over the wire.
pub struct ClientsidePingView {
    pub id: i32,
}

impl DeepView for ClientsidePing {
    type V = ClientsidePingView;

    open spec fn deep_view(&self) -> ClientsidePingView {
        ClientsidePingView {
            id: self.id.deep_view(),
        }
    }
}

impl ClientsidePing {
    /// What reading a [`ClientsidePing`] at `pos` yields, and the position after it.
    pub open spec fn spec_parse(s: Seq<u8>, pos: int) -> Option<(ClientsidePingView, int)> {
        match <i32 as Buffer>::spec_parse(s, pos) {
            Some((id, p0)) => Some((ClientsidePingView { id }, p0)),
            None => None,
        }
    }

    /// The bytes that writing a [`ClientsidePing`] appends.
    pub open spec fn spec_serialize(v: ClientsidePingView) -> Seq<u8> {
        <i32 as Buffer>::spec_serialize(v.id)
    }

    /// The contents that read back as written: every length fits its `VarInt` prefix.
    pub open spec fn spec_wf(v: ClientsidePingView) -> bool {
        <i32 as Buffer>::spec_wf(v.id)
    }

    /// Reading back what writing a [`ClientsidePing`] appended gives the same contents, whatever follows.
    pub proof fn lemma_roundtrip(s: Seq<u8>, pos: int, v: ClientsidePingView)
        requires
            Self::spec_wf(v),
            holds_at(s, pos, Self::spec_serialize(v)),
        ensures
            Self::spec_parse(s, pos) == Some((v, pos + Self::spec_serialize(v).len())),
    {
        <i32 as Buffer>::lemma_roundtrip(s, pos, v.id);
    }

    /// Reads a [`ClientsidePing`] at the cursor and moves past it.
    pub fn read(buffer: &mut Cursor) -> (res: Option<Self>)
        ensures
            final(buffer).data@ == old(buffer).data@,
            match res {
                Some(v) => Self::spec_parse(old(buffer).data@, old(buffer).position as int) == Some(
                    (v.deep_view(), final(buffer).position as int),
                ),
                None => Self::spec_parse(old(buffer).data@, old(buffer).position as int) is None,
            },
    {
        let id = match <i32 as Buffer>::read_buf(buffer) {
            Some(x) => x,
            None => {
                return None;
            },
        };
        Some(ClientsidePing { id })
    }

    /// Appends the wire form of the [`ClientsidePing`].
    pub fn write(&self, buffer: &mut Vec<u8>)
        ensures
            final(buffer)@ == old(buffer)@ + Self::spec_serialize(self.deep_view()),
    {
        self.id.write_buf(buffer);
    }
}

/// The answer to a ping request.
#[derive(Clone, Debug, PartialEq)]
pub struct ClientsidePingResponse {
    pub timestamp: i64,
}

/// The content of a [`ClientsidePingResponse`] as it goes over the wire.
pub struct ClientsidePingResponseView {
    pub timestamp: i64,
}

impl DeepView for ClientsidePingResponse {
    type V = ClientsidePingResponseView;

    open spec fn deep_view(&self) -> ClientsidePingResponseView {
        ClientsidePingResponseView {
            timestamp: self.timestamp.deep_view(),
        }
    }
}

impl ClientsidePingResponse {
    /// What reading a [`ClientsidePingResponse`] at `pos` yields, and the position after it.
    pub open spec fn spec_parse(s: Seq<u8>, pos: int) -> Option<(ClientsidePingResponseView, int)> {
        match <i64 as Buffer>::spec_parse(s, pos) {
            Some((timestamp, p0)) => Some((ClientsidePingResponseView { timestamp }, p0)),
            None => None,
        }
    }

    /// The bytes that writing a [`ClientsidePingResponse`] appends.
    pub open spec fn spec_serialize(v: ClientsidePingResponseView) -> Seq<u8> {
        <i64 as Buffer>::spec_serialize(v.timestamp)
    }

    /// The contents that read back as written: every length fits its `VarInt` prefix.
    pub open spec fn spec_wf(v: ClientsidePingResponseView) -> bool {
        <i64 as Buffer>::spec_wf(v.timestamp)
    }

    /// Reading back what writing a [`ClientsidePingResponse`] appended gives the same contents, whatever follows.
    pub proof fn lemma_roundtrip(s: Seq<u8>, pos: int, v: ClientsidePingResponseView)
        requires
            Self::spec_wf(v),
            holds_at(s, pos, Self::spec_serialize(v)),
        ensures
            Self::spec_parse(s, pos) == Some((v, pos + Self::spec_serialize(v).len())),
    {
        <i64 as Buffer>::lemma_roundtrip(s, pos, v.timestamp);
    }

    /// Reads a [`ClientsidePingResponse`] at the cursor and moves past it.
    pub fn read(buffer: &mut Cursor) -> (res: Option<Self>)
        ensures
            final(buffer).data@ == old(buffer).data@,
            match res {
                Some(v) => Self::spec_parse(old(buffer).data@, old(buffer).position as int) == Some(
                    (v.deep_view(), final(buffer).position as int),
                ),
                None => Self::spec_parse(old(buffer).data@, old(buffer).position as int) is None,
            },
    {
        let timestamp = match <i64 as Buffer>::read_buf(buffer) {
            Some(x) => x,
            None => {
                return None;
            },
        };
        Some(ClientsidePingResponse { timestamp })
    }

    /// Appends the wire form of the [`ClientsidePingResponse`].
    pub fn write(&self, buffer: &mut Vec<u8>)
        ensures
            final(buffer)@ == old(buffer)@ + Self::spec_serialize(self.deep_view()),
    {
        self.timestamp.write_buf(buffer);
    }
}

/// An entity moves by a small distance.
#[derive(Clone, Debug, PartialEq)]
pub struct ClientsideUpdateEntityPos {
    pub entity_id: i32,
    pub delta_x: i16,
    pub delta_y: i16,
    pub delta_z: i16,
    pub on_ground: bool,
}

/// The content of a [`ClientsideUpdateEntityPos`] as it goes over the wire.
pub struct ClientsideUpdateEntityPosView {
    pub entity_id: i32,
    pub delta_x: i16,
    pub delta_y: i16,
    pub delta_z: i16,
    pub on_ground: bool,
}

impl DeepView for ClientsideUpdateEntityPos {
    type V = ClientsideUpdateEntityPosView;

    open spec fn deep_view(&self) -> ClientsideUpdateEntityPosView {
        ClientsideUpdateEntityPosView {
            entity_id: self.entity_id,
            delta_x: self.delta_x.deep_view(),
            delta_y: self.delta_y.deep_view(),
            delta_z: self.delta_z.deep_view(),
            on_ground: self.on_ground.deep_view(),
        }
    }
}

impl ClientsideUpdateEntityPos {
    /// What reading a [`ClientsideUpdateEntityPos`] at `pos` yields, and the position after it.
    pub open spec fn spec_parse(s: Seq<u8>, pos: int) -> Option<(ClientsideUpdateEntityPosView, int)> {
        match parse_varint(s, pos) {
            Some((entity_id, p0)) => match <i16 as Buffer>::spec_parse(s, p0) {
                Some((delta_x, p1)) => match <i16 as Buffer>::spec_parse(s, p1) {
                    Some((delta_y, p2)) => match <i16 as Buffer>::spec_parse(s, p2) {
                        Some((delta_z, p3)) => match <bool as Buffer>::spec_parse(s, p3) {
                            Some((on_ground, p4)) => Some((ClientsideUpdateEntityPosView { entity_id, delta_x, delta_y, delta_z, on_ground }, p4)),
                            None => None,
                        },
                        None => None,
                    },
                    None => None,
                },
                None => None,
            },
            None => None,
        }
    }

    /// The bytes that writing a [`ClientsideUpdateEntityPos`] appends.
    pub open spec fn spec_serialize(v: ClientsideUpdateEntityPosView) -> Seq<u8> {
        spec_varint(v.entity_id) + <i16 as Buffer>::spec_serialize(v.delta_x) + <i16 as Buffer>::spec_serialize(v.delta_y) + <i16 as Buffer>::spec_serialize(v.delta_z) + <bool as Buffer>::spec_serialize(v.on_ground)
    }

    /// The contents that read back as written: every length fits its `VarInt` prefix.
    pub open spec fn spec_wf(v: ClientsideUpdateEntityPosView) -> bool {
        <i16 as Buffer>::spec_wf(v.delta_x) && <i16 as Buffer>::spec_wf(v.delta_y) && <i16 as Buffer>::spec_wf(v.delta_z) && <bool as Buffer>::spec_wf(v.on_ground)
    }

    /// Reading back what writing a [`ClientsideUpdateEntityPos`] appended gives the same contents, whatever follows.
    pub proof fn lemma_roundtrip(s: Seq<u8>, pos: int, v: ClientsideUpdateEntityPosView)
        requires
            Self::spec_wf(v),
            holds_at(s, pos, Self::spec_serialize(v)),
        ensures
            Self::spec_parse(s, pos) == Some((v, pos + Self::spec_serialize(v).len())),
    {
        lemma_holds_at_split(s, pos, spec_varint(v.entity_id) + <i16 as Buffer>::spec_serialize(v.delta_x) + <i16 as Buffer>::spec_serialize(v.delta_y) + <i16 as Buffer>::spec_serialize(v.delta_z), <bool as Buffer>::spec_serialize(v.on_ground));
        lemma_holds_at_split(s, pos, spec_varint(v.entity_id) + <i16 as Buffer>::spec_serialize(v.delta_x) + <i16 as Buffer>::spec_serialize(v.delta_y), <i16 as Buffer>::spec_serialize(v.delta_z));
        lemma_holds_at_split(s, pos, spec_varint(v.entity_id) + <i16 as Buffer>::spec_serialize(v.delta_x), <i16 as Buffer>::spec_serialize(v.delta_y));
        lemma_holds_at_split(s, pos, spec_varint(v.entity_id), <i16 as Buffer>::spec_serialize(v.delta_x));
        lemma_varint_i32_roundtrip(s, pos, v.entity_id);
        <i16 as Buffer>::lemma_roundtrip(s, pos + spec_varint(v.entity_id).len(), v.delta_x);
        <i16 as Buffer>::lemma_roundtrip(s, pos + spec_varint(v.entity_id).len() + <i16 as Buffer>::spec_serialize(v.delta_x).len(), v.delta_y);
        <i16 as Buffer>::lemma_roundtrip(s, pos + spec_varint(v.entity_id).len() + <i16 as Buffer>::spec_serialize(v.delta_x).len() + <i16 as Buffer>::spec_serialize(v.delta_y).len(), v.delta_z);
        <bool as Buffer>::lemma_roundtrip(s, pos + spec_varint(v.entity_id).len() + <i16 as Buffer>::spec_serialize(v.delta_x).len() + <i16 as Buffer>::spec_serialize(v.delta_y).len() + <i16 as Buffer>::spec_serialize(v.delta_z).len(), v.on_ground);
    }

    /// Reads a [`ClientsideUpdateEntityPos`] at the cursor and moves past it.
    pub fn read(buffer: &mut Cursor) -> (res: Option<Self>)
        ensures
            final(buffer).data@ == old(buffer).data@,
            match res {
                Some(v) => Self::spec_parse(old(buffer).data@, old(buffer).position as int) == Some(
                    (v.deep_view(), final(buffer).position as int),
                ),
                None => Self::spec_parse(old(buffer).data@, old(buffer).position as int) is None,
            },
    {
        let entity_id = match i32::read_varint(buffer) {
            Some(x) => x,
            None => {
                return None;
            },
        };
        let delta_x = match <i16 as Buffer>::read_buf(buffer) {
            Some(x) => x,
            None => {
                return None;
            },
        };
        let delta_y = match <i16 as Buffer>::read_buf(buffer) {
            Some(x) => x,
            None => {
                return None;
            },
        };
        let delta_z = match <i16 as Buffer>::read_buf(buffer) {
            Some(x) => x,
            None => {
                return None;
            },
        };
        let on_ground = match <bool as Buffer>::read_buf(buffer) {
            Some(x) => x,
            None => {
                return None;
            },
        };
        Some(ClientsideUpdateEntityPos { entity_id, delta_x, delta_y, delta_z, on_ground })
    }

    /// Appends the wire form of the [`ClientsideUpdateEntityPos`].
    pub fn write(&self, buffer: &mut Vec<u8>)
        ensures
            final(buffer)@ == old(buffer)@ + Self::spec_serialize(self.deep_view()),
    {
        self.entity_id.write_varint(buffer);
        self.delta_x.write_buf(buffer);
        assert(buffer@ =~= old(buffer)@ + (spec_varint(self.deep_view().entity_id) + <i16 as Buffer>::spec_serialize(self.deep_view().delta_x)));
        self.delta_y.write_buf(buffer);
        assert(buffer@ =~= old(buffer)@ + (spec_varint(self.deep_view().entity_id) + <i16 as Buffer>::spec_serialize(self.deep_view().delta_x) + <i16 as Buffer>::spec_serialize(self.deep_view().delta_y)));
        self.delta_z.write_buf(buffer);
        assert(buffer@ =~= old(buffer)@ + (spec_varint(self.deep_view().entity_id) + <i16 as Buffer>::spec_serialize(self.deep_view().delta_x) + <i16 as Buffer>::spec_serialize(self.deep_view().delta_y) + <i16 as Buffer>::spec_serialize(self.deep_view().delta_z)));
        self.on_ground.write_buf(buffer);
        assert(buffer@ =~= old(buffer)@ + Self::spec_serialize(self.deep_view()));
    }
}

/// An entity turns.
#[derive(Clone, Debug, PartialEq)]
pub struct ClientsideUpdateEntityRot {
    pub entity_id: i32,
    pub yaw_angle: i8,
    pub pitch_angle: i8,
    pub on_ground: bool,
}

/// The content of a [`ClientsideUpdateEntityRot`] as it goes over the wire.
pub struct ClientsideUpdateEntityRotView {
    pub entity_id: i32,
    pub yaw_angle: i8,
    pub pitch_angle: i8,
    pub on_ground: bool,
}

impl DeepView for ClientsideUpdateEntityRot {
    type V = ClientsideUpdateEntityRotView;

    open spec fn deep_view(&self) -> ClientsideUpdateEntityRotView {
        ClientsideUpdateEntityRotView {
            entity_id: self.entity_id,
            yaw_angle: self.yaw_angle.deep_view(),
            pitch_angle: self.pitch_angle.deep_view(),
            on_ground: self.on_ground.deep_view(),
        }
    }
}

impl ClientsideUpdateEntityRot {
    /// What reading a [`ClientsideUpdateEntityRot`] at `pos` yields, and the position after it.
    pub open spec fn spec_parse(s: Seq<u8>, pos: int) -> Option<(ClientsideUpdateEntityRotView, int)> {
        match parse_varint(s, pos) {
            Some((entity_id, p0)) => match <i8 as Buffer>::spec_parse(s, p0) {
                Some((yaw_angle, p1)) => match <i8 as Buffer>::spec_parse(s, p1) {
                    Some((pitch_angle, p2)) => match <bool as Buffer>::spec_parse(s, p2) {
                        Some((on_ground, p3)) => Some((ClientsideUpdateEntityRotView { entity_id, yaw_angle, pitch_angle, on_ground }, p3)),
                        None => None,
                    },
                    None => None,
                },
                None => None,
            },
            None => None,
        }
    }

    /// The bytes that writing a [`ClientsideUpdateEntityRot`] appends.
    pub open spec fn spec_serialize(v: ClientsideUpdateEntityRotView) -> Seq<u8> {
        spec_varint(v.entity_id) + <i8 as Buffer>::spec_serialize(v.yaw_angle) + <i8 as Buffer>::spec_serialize(v.pitch_angle) + <bool as Buffer>::spec_serialize(v.on_ground)
    }

    /// The contents that read back as written: every length fits its `VarInt` prefix.
    pub open spec fn spec_wf(v: ClientsideUpdateEntityRotView) -> bool {
        <i8 as Buffer>::spec_wf(v.yaw_angle) && <i8 as Buffer>::spec_wf(v.pitch_angle) && <bool as Buffer>::spec_wf(v.on_ground)
    }

    /// Reading back what writing a [`ClientsideUpdateEntityRot`] appended gives the same contents, whatever follows.
    pub proof fn lemma_roundtrip(s: Seq<u8>, pos: int, v: ClientsideUpdateEntityRotView)
        requires
            Self::spec_wf(v),
            holds_at(s, pos, Self::spec_serialize(v)),
        ensures
            Self::spec_parse(s, pos) == Some((v, pos + Self::spec_serialize(v).len())),
    {
        lemma_holds_at_split(s, pos, spec_varint(v.entity_id) + <i8 as Buffer>::spec_serialize(v.yaw_angle) + <i8 as Buffer>::spec_serialize(v.pitch_angle), <bool as Buffer>::spec_serialize(v.on_ground));
        lemma_holds_at_split(s, pos, spec_varint(v.entity_id) + <i8 as Buffer>::spec_serialize(v.yaw_angle), <i8 as Buffer>::spec_serialize(v.pitch_angle));
        lemma_holds_at_split(s, pos, spec_varint(v.entity_id), <i8 as Buffer>::spec_serialize(v.yaw_angle));
        lemma_varint_i32_roundtrip(s, pos, v.entity_id);
        <i8 as Buffer>::lemma_roundtrip(s, pos + spec_varint(v.entity_id).len(), v.yaw_angle);
        <i8 as Buffer>::lemma_roundtrip(s, pos + spec_varint(v.entity_id).len() + <i8 as Buffer>::spec_serialize(v.yaw_angle).len(), v.pitch_angle);
        <bool as Buffer>::lemma_roundtrip(s, pos + spec_varint(v.entity_id).len() + <i8 as Buffer>::spec_serialize(v.yaw_angle).len() + <i8 as Buffer>::spec_serialize(v.pitch_angle).len(), v.on_ground);
    }

    /// Reads a [`ClientsideUpdateEntityRot`] at the cursor and moves past it.
    pub fn read(buffer: &mut Cursor) -> (res: Option<Self>)
        ensures
            final(buffer).data@ == old(buffer).data@,
            match res {
                Some(v) => Self::spec_parse(old(buffer).data@, old(buffer).position as int) == Some(
                    (v.deep_view(), final(buffer).position as int),
                ),
                None => Self::spec_parse(old(buffer).data@, old(buffer).position as int) is None,
            },
    {
        let entity_id = match i32::read_varint(buffer) {
            Some(x) => x,
            None => {
                return None;
            },
        };
        let yaw_angle = match <i8 as Buffer>::read_buf(buffer) {
            Some(x) => x,
            None => {
                return None;
            },
        };
        let pitch_angle = match <i8 as Buffer>::read_buf(buffer) {
            Some(x) => x,
            None => {
                return None;
            },
        };
        let on_ground = match <bool as Buffer>::read_buf(buffer) {
            Some(x) => x,
            None => {
                return None;
            },
        };
        Some(ClientsideUpdateEntityRot { entity_id, yaw_angle, pitch_angle, on_ground })
    }

    /// Appends the wire form of the [`ClientsideUpdateEntityRot`].
    pub fn write(&self, buffer: &mut Vec<u8>)
        ensures
            final(buffer)@ == old(buffer)@ + Self::spec_serialize(self.deep_view()),
    {
        self.entity_id.write_varint(buffer);
        self.yaw_angle.write_buf(buffer);
        assert(buffer@ =~= old(buffer)@ + (spec_varint(self.deep_view().entity_id) + <i8 as Buffer>::spec_serialize(self.deep_view().yaw_angle)));
        self.pitch_angle.write_buf(buffer);
        assert(buffer@ =~= old(buffer)@ + (spec_varint(self.deep_view().entity_id) + <i8 as Buffer>::spec_serialize(self.deep_view().yaw_angle) + <i8 as Buffer>::spec_serialize(self.deep_view().pitch_angle)));
        self.on_ground.write_buf(buffer);
        assert(buffer@ =~= old(buffer)@ + Self::spec_serialize(self.deep_view()));
    }
}

/// An entity moves by a small distance and turns.
#[derive(Clone, Debug, PartialEq)]
pub struct ClientsideUpdateEntityPosRot {
    pub entity_id: i32,
    pub delta_x: i16,
    pub delta_y: i16,
    pub delta_z: i16,
    pub yaw_angle: i8,
    pub pitch_angle: i8,
    pub on_ground: bool,
}

/// The content of a [`ClientsideUpdateEntityPosRot`] as it goes over the wire.
pub struct ClientsideUpdateEntityPosRotView {
    pub entity_id: i32,
    pub delta_x: i16,
    pub delta_y: i16,
    pub delta_z: i16,
    pub yaw_angle: i8,
    pub pitch_angle: i8,
    pub on_ground: bool,
}

impl DeepView for ClientsideUpdateEntityPosRot {
    type V = ClientsideUpdateEntityPosRotView;

    open spec fn deep_view(&self) -> ClientsideUpdateEntityPosRotView {
        ClientsideUpdateEntityPosRotView {
            entity_id: self.entity_id,
            delta_x: self.delta_x.deep_view(),
            delta_y: self.delta_y.deep_view(),
            delta_z: self.delta_z.deep_view(),
            yaw_angle: self.yaw_angle.deep_view(),
            pitch_angle: self.pitch_angle.deep_view(),
            on_ground: self.on_ground.deep_view(),
        }
    }
}

impl ClientsideUpdateEntityPosRot {
    /// What reading a [`ClientsideUpdateEntityPosRot`] at `pos` yields, and the position after it.
    pub open spec fn spec_parse(s: Seq<u8>, pos: int) -> Option<(ClientsideUpdateEntityPosRotView, int)> {
        match parse_varint(s, pos) {
            Some((entity_id, p0)) => match <i16 as Buffer>::spec_parse(s, p0) {
                Some((delta_x, p1)) => match <i16 as Buffer>::spec_parse(s, p1) {
                    Some((delta_y, p2)) => match <i16 as Buffer>::spec_parse(s, p2) {
                        Some((delta_z, p3)) => match <i8 as Buffer>::spec_parse(s, p3) {
                            Some((yaw_angle, p4)) => match <i8 as Buffer>::spec_parse(s, p4) {
                                Some((pitch_angle, p5)) => match <bool as Buffer>::spec_parse(s, p5) {
                                    Some((on_ground, p6)) => Some((ClientsideUpdateEntityPosRotView { entity_id, delta_x, delta_y, delta_z, yaw_angle, pitch_angle, on_ground }, p6)),
                                    None => None,
                                },
                                None => None,
                            },
                            None => None,
                        },
                        None => None,
                    },
                    None => None,
                },
                None => None,
            },
            None => None,
        }
    }

    /// The bytes that writing a [`ClientsideUpdateEntityPosRot`] appends.
    pub open spec fn spec_serialize(v: ClientsideUpdateEntityPosRotView) -> Seq<u8> {
        spec_varint(v.entity_id) + <i16 as Buffer>::spec_serialize(v.delta_x) + <i16 as Buffer>::spec_serialize(v.delta_y) + <i16 as Buffer>::spec_serialize(v.delta_z) + <i8 as Buffer>::spec_serialize(v.yaw_angle) + <i8 as Buffer>::spec_serialize(v.pitch_angle) + <bool as Buffer>::spec_serialize(v.on_ground)
    }

    /// The contents that read back as written: every length fits its `VarInt` prefix.
    pub open spec fn spec_wf(v: ClientsideUpdateEntityPosRotView) -> bool {
        <i16 as Buffer>::spec_wf(v.delta_x) && <i16 as Buffer>::spec_wf(v.delta_y) && <i16 as Buffer>::spec_wf(v.delta_z) && <i8 as Buffer>::spec_wf(v.yaw_angle) && <i8 as Buffer>::spec_wf(v.pitch_angle) && <bool as Buffer>::spec_wf(v.on_ground)
    }

    /// Reading back what writing a [`ClientsideUpdateEntityPosRot`] appended gives the same contents, whatever follows.
    pub proof fn lemma_roundtrip(s: Seq<u8>, pos: int, v: ClientsideUpdateEntityPosRotView)
        requires
            Self::spec_wf(v),
            holds_at(s, pos, Self::spec_serialize(v)),
        ensures
            Self::spec_parse(s, pos) == Some((v, pos + Self::spec_serialize(v).len())),
    {
        lemma_holds_at_split(s, pos, spec_varint(v.entity_id) + <i16 as Buffer>::spec_serialize(v.delta_x) + <i16 as Buffer>::spec_serialize(v.delta_y) + <i16 as Buffer>::spec_serialize(v.delta_z) + <i8 as Buffer>::spec_serialize(v.yaw_angle) + <i8 as Buffer>::spec_serialize(v.pitch_angle), <bool as Buffer>::spec_serialize(v.on_ground));
        lemma_holds_at_split(s, pos, spec_varint(v.entity_id) + <i16 as Buffer>::spec_serialize(v.delta_x) + <i16 as Buffer>::spec_serialize(v.delta_y) + <i16 as Buffer>::spec_serialize(v.delta_z) + <i8 as Buffer>::spec_serialize(v.yaw_angle), <i8 as Buffer>::spec_serialize(v.pitch_angle));
        lemma_holds_at_split(s, pos, spec_varint(v.entity_id) + <i16 as Buffer>::spec_serialize(v.delta_x) + <i16 as Buffer>::spec_serialize(v.delta_y) + <i16 as Buffer>::spec_serialize(v.delta_z), <i8 as Buffer>::spec_serialize(v.yaw_angle));
        lemma_holds_at_split(s, pos, spec_varint(v.entity_id) + <i16 as Buffer>::spec_serialize(v.delta_x) + <i16 as Buffer>::spec_serialize(v.delta_y), <i16 as Buffer>::spec_serialize(v.delta_z));
        lemma_holds_at_split(s, pos, spec_varint(v.entity_id) + <i16 as Buffer>::spec_serialize(v.delta_x), <i16 as Buffer>::spec_serialize(v.delta_y));
        lemma_holds_at_split(s, pos, spec_varint(v.entity_id), <i16 as Buffer>::spec_serialize(v.delta_x));
        lemma_varint_i32_roundtrip(s, pos, v.entity_id);
        <i16 as Buffer>::lemma_roundtrip(s, pos + spec_varint(v.entity_id).len(), v.delta_x);
        <i16 as Buffer>::lemma_roundtrip(s, pos + spec_varint(v.entity_id).len() + <i16 as Buffer>::spec_serialize(v.delta_x).len(), v.delta_y);
        <i16 as Buffer>::lemma_roundtrip(s, pos + spec_varint(v.entity_id).len() + <i16 as Buffer>::spec_serialize(v.delta_x).len() + <i16 as Buffer>::spec_serialize(v.delta_y).len(), v.delta_z);
        <i8 as Buffer>::lemma_roundtrip(s, pos + spec_varint(v.entity_id).len() + <i16 as Buffer>::spec_serialize(v.delta_x).len() + <i16 as Buffer>::spec_serialize(v.delta_y).len() + <i16 as Buffer>::spec_serialize(v.delta_z).len(), v.yaw_angle);
        <i8 as Buffer>::lemma_roundtrip(s, pos + spec_varint(v.entity_id).len() + <i16 as Buffer>::spec_serialize(v.delta_x).len() + <i16 as Buffer>::spec_serialize(v.delta_y).len() + <i16 as Buffer>::spec_serialize(v.delta_z).len() + <i8 as Buffer>::spec_serialize(v.yaw_angle).len(), v.pitch_angle);
        <bool as Buffer>::lemma_roundtrip(s, pos + spec_varint(v.entity_id).len() + <i16 as Buffer>::spec_serialize(v.delta_x).len() + <i16 as Buffer>::spec_serialize(v.delta_y).len() + <i16 as Buffer>::spec_serialize(v.delta_z).len() + <i8 as Buffer>::spec_serialize(v.yaw_angle).len() + <i8 as Buffer>::spec_serialize(v.pitch_angle).len(), v.on_ground);
    }

    /// Reads a [`ClientsideUpdateEntityPosRot`] at the cursor and moves past it.
    pub fn read(buffer: &mut Cursor) -> (res: Option<Self>)
        ensures
            final(buffer).data@ == old(buffer).data@,
            match res {
                Some(v) => Self::spec_parse(old(buffer).data@, old(buffer).position as int) == Some(
                    (v.deep_view(), final(buffer).position as int),
                ),
                None => Self::spec_parse(old(buffer).data@, old(buffer).position as int) is None,
            },
    {
        let entity_id = match i32::read_varint(buffer) {
            Some(x) => x,
            None => {
                return None;
            },
        };
        let delta_x = match <i16 as Buffer>::read_buf(buffer) {
            Some(x) => x,
            None => {
                return None;
            },
        };
        let delta_y = match <i16 as Buffer>::read_buf(buffer) {
            Some(x) => x,
            None => {
                return None;
            },
        };
        let delta_z = match <i16 as Buffer>::read_buf(buffer) {
            Some(x) => x,
            None => {
                return None;
            },
        };
        let yaw_angle = match <i8 as Buffer>::read_buf(buffer) {
            Some(x) => x,
            None => {
                return None;
            },
        };
        let pitch_angle = match <i8 as Buffer>::read_buf(buffer) {
            Some(x) => x,
            None => {
                return None;
            },
        };
        let on_ground = match <bool as Buffer>::read_buf(buffer) {
            Some(x) => x,
            None => {
                return None;
            },
        };
        Some(ClientsideUpdateEntityPosRot { entity_id, delta_x, delta_y, delta_z, yaw_angle, pitch_angle, on_ground })
    }

    /// Appends the wire form of the [`ClientsideUpdateEntityPosRot`].
    pub fn write(&self, buffer: &mut Vec<u8>)
        ensures
            final(buffer)@ == old(buffer)@ + Self::spec_serialize(self.deep_view()),
    {
        self.entity_id.write_varint(buffer);
        self.delta_x.write_buf(buffer);
        assert(buffer@ =~= old(buffer)@ + (spec_varint(self.deep_view().entity_id) + <i16 as Buffer>::spec_serialize(self.deep_view().delta_x)));
        self.delta_y.write_buf(buffer);
        assert(buffer@ =~= old(buffer)@ + (spec_varint(self.deep_view().entity_id) + <i16 as Buffer>::spec_serialize(self.deep_view().delta_x) + <i16 as Buffer>::spec_serialize(self.deep_view().delta_y)));
        self.delta_z.write_buf(buffer);
        assert(buffer@ =~= old(buffer)@ + (spec_varint(self.deep_view().entity_id) + <i16 as Buffer>::spec_serialize(self.deep_view().delta_x) + <i16 as Buffer>::spec_serialize(self.deep_view().delta_y) + <i16 as Buffer>::spec_serialize(self.deep_view().delta_z)));
        self.yaw_angle.write_buf(buffer);
        assert(buffer@ =~= old(buffer)@ + (spec_varint(self.deep_view().entity_id) + <i16 as Buffer>::spec_serialize(self.deep_view().delta_x) + <i16 as Buffer>::spec_serialize(self.deep_view().delta_y) + <i16 as Buffer>::spec_serialize(self.deep_view().delta_z) + <i8 as Buffer>::spec_serialize(self.deep_view().yaw_angle)));
        self.pitch_angle.write_buf(buffer);
        assert(buffer@ =~= old(buffer)@ + (spec_varint(self.deep_view().entity_id) + <i16 as Buffer>::spec_serialize(self.deep_view().delta_x) + <i16 as Buffer>::spec_serialize(self.deep_view().delta_y) + <i16 as Buffer>::spec_serialize(self.deep_view().delta_z) + <i8 as Buffer>::spec_serialize(self.deep_view().yaw_angle) + <i8 as Buffer>::spec_serialize(self.deep_view().pitch_angle)));
        self.on_ground.write_buf(buffer);
        assert(buffer@ =~= old(buffer)@ + Self::spec_serialize(self.deep_view()));
    }
}

/// The player was killed.
#[derive(Clone, Debug, PartialEq)]
pub struct ClientsidePlayerCombatKill {
    pub player_id: i32,
}

/// The content of a [`ClientsidePlayerCombatKill`] as it goes over the wire.
pub struct ClientsidePlayerCombatKillView {
    pub player_id: i32,
}

impl DeepView for ClientsidePlayerCombatKill {
    type V = ClientsidePlayerCombatKillView;

    open spec fn deep_view(&self) -> ClientsidePlayerCombatKillView {
        ClientsidePlayerCombatKillView {
            player_id: self.player_id,
        }
    }
}

impl ClientsidePlayerCombatKill {
    /// What reading a [`ClientsidePlayerCombatKill`] at `pos` yields, and the position after it.
    pub open spec fn spec_parse(s: Seq<u8>, pos: int) -> Option<(ClientsidePlayerCombatKillView, int)> {
        match parse_varint(s, pos) {
            Some((player_id, p0)) => Some((ClientsidePlayerCombatKillView { player_id }, p0)),
            None => None,
        }
    }

    /// The bytes that writing a [`ClientsidePlayerCombatKill`] appends.
    pub open spec fn spec_serialize(v: ClientsidePlayerCombatKillView) -> Seq<u8> {
        spec_varint(v.player_id)
    }

    /// The contents that read back as written: every length fits its `VarInt` prefix.
    pub open spec fn spec_wf(v: ClientsidePlayerCombatKillView) -> bool {
        true
    }

    /// Reading back what writing a [`ClientsidePlayerCombatKill`] appended gives the same contents, whatever follows.
    pub proof fn lemma_roundtrip(s: Seq<u8>, pos: int, v: ClientsidePlayerCombatKillView)
        requires
            Self::spec_wf(v),
            holds_at(s, pos, Self::spec_serialize(v)),
        ensures
            Self::spec_parse(s, pos) == Some((v, pos + Self::spec_serialize(v).len())),
    {
        lemma_varint_i32_roundtrip(s, pos, v.player_id);
    }

    /// Reads a [`ClientsidePlayerCombatKill`] at the cursor and moves past it.
    pub fn read(buffer: &mut Cursor) -> (res: Option<Self>)
        ensures
            final(buffer).data@ == old(buffer).data@,
            match res {
                Some(v) => Self::spec_parse(old(buffer).data@, old(buffer).position as int) == Some(
                    (v.deep_view(), final(buffer).position as int),
                ),
                None => Self::spec_parse(old(buffer).data@, old(buffer).position as int) is None,
            },
    {
        let player_id = match i32::read_varint(buffer) {
            Some(x) => x,
            None => {
                return None;
            },
        };
        Some(ClientsidePlayerCombatKill { player_id })
    }

    /// Appends the wire form of the [`ClientsidePlayerCombatKill`].
    pub fn write(&self, buffer: &mut Vec<u8>)
        ensures
            final(buffer)@ == old(buffer)@ + Self::spec_serialize(self.deep_view()),
    {
        self.player_id.write_varint(buffer);
    }
}

/// The passengers of an entity.
#[derive(Clone, Debug, PartialEq)]
pub struct ClientsideSetPassengers {
    pub entity_id: i32,
    pub passengers: Vec<i32>,
}

/// The content of a [`ClientsideSetPassengers`] as it goes over the wire.
pub struct ClientsideSetPassengersView {
    pub entity_id: i32,
    pub passengers: Seq<i32>,
}

impl DeepView for ClientsideSetPassengers {
    type V = ClientsideSetPassengersView;

    open spec fn deep_view(&self) -> ClientsideSetPassengersView {
        ClientsideSetPassengersView {
            entity_id: self.entity_id,
            passengers: self.passengers@,
        }
    }
}

impl ClientsideSetPassengers {
    /// What reading a [`ClientsideSetPassengers`] at `pos` yields, and the position after it.
    pub open spec fn spec_parse(s: Seq<u8>, pos: int) -> Option<(ClientsideSetPassengersView, int)> {
        match parse_varint(s, pos) {
            Some((entity_id, p0)) => match parse_varint_list(s, p0) {
                Some((passengers, p1)) => Some((ClientsideSetPassengersView { entity_id, passengers }, p1)),
                None => None,
            },
            None => None,
        }
    }

    /// The bytes that writing a [`ClientsideSetPassengers`] appends.
    pub open spec fn spec_serialize(v: ClientsideSetPassengersView) -> Seq<u8> {
        spec_varint(v.entity_id) + serialize_varint_list(v.passengers)
    }

    /// The contents that read back as written: every length fits its `VarInt` prefix.
    pub open spec fn spec_wf(v: ClientsideSetPassengersView) -> bool {
        varint_list_wf(v.passengers)
    }

    /// Reading back what writing a [`ClientsideSetPassengers`] appended gives the same contents, whatever follows.
    pub proof fn lemma_roundtrip(s: Seq<u8>, pos: int, v: ClientsideSetPassengersView)
        requires
            Self::spec_wf(v),
            holds_at(s, pos, Self::spec_serialize(v)),
        ensures
            Self::spec_parse(s, pos) == Some((v, pos + Self::spec_serialize(v).len())),
    {
        lemma_holds_at_split(s, pos, spec_varint(v.entity_id), serialize_varint_list(v.passengers));
        lemma_varint_i32_roundtrip(s, pos, v.entity_id);
        lemma_varint_list_roundtrip(s, pos + spec_varint(v.entity_id).len(), v.passengers);
    }

    /// Reads a [`ClientsideSetPassengers`] at the cursor and moves past it.
    pub fn read(buffer: &mut Cursor) -> (res: Option<Self>)
        ensures
            final(buffer).data@ == old(buffer).data@,
            match res {
                Some(v) => Self::spec_parse(old(buffer).data@, old(buffer).position as int) == Some(
                    (v.deep_view(), final(buffer).position as int),
                ),
                None => Self::spec_parse(old(buffer).data@, old(buffer).position as int) is None,
            },
    {
        let entity_id = match i32::read_varint(buffer) {
            Some(x) => x,
            None => {
                return None;
            },
        };
        let passengers = match read_varint_list(buffer) {
            Some(x) => x,
            None => {
                return None;
            },
        };
        Some(ClientsideSetPassengers { entity_id, passengers })
    }

    /// Appends the wire form of the [`ClientsideSetPassengers`].
    pub fn write(&self, buffer: &mut Vec<u8>)
        ensures
            final(buffer)@ == old(buffer)@ + Self::spec_serialize(self.deep_view()),
    {
        self.entity_id.write_varint(buffer);
        write_varint_list(&self.passengers, buffer);
        assert(buffer@ =~= old(buffer)@ + Self::spec_serialize(self.deep_view()));
    }
}

/// Entities that are gone.
#[derive(Clone, Debug, PartialEq)]
pub struct ClientsideRemoveEntities {
    pub entities: Vec<i32>,
}

/// The content of a [`ClientsideRemoveEntities`] as it goes over the wire.
pub struct ClientsideRemoveEntitiesView {
    pub entities: Seq<i32>,
}

impl DeepView for ClientsideRemoveEntities {
    type V = ClientsideRemoveEntitiesView;

    open spec fn deep_view(&self) -> ClientsideRemoveEntitiesView {
        ClientsideRemoveEntitiesView {
            entities: self.entities@,
        }
    }
}

impl ClientsideRemoveEntities {
    /// What reading a [`ClientsideRemoveEntities`] at `pos` yields, and the position after it.
    pub open spec fn spec_parse(s: Seq<u8>, pos: int) -> Option<(ClientsideRemoveEntitiesView, int)> {
        match parse_varint_list(s, pos) {
            Some((entities, p0)) => Some((ClientsideRemoveEntitiesView { entities }, p0)),
            None => None,
        }
    }

    /// The bytes that writing a [`ClientsideRemoveEntities`] appends.
    pub open spec fn spec_serialize(v: ClientsideRemoveEntitiesView) -> Seq<u8> {
        serialize_varint_list(v.entities)
    }

    /// The contents that read back as written: every length fits its `VarInt` prefix.
    pub open spec fn spec_wf(v: ClientsideRemoveEntitiesView) -> bool {
        varint_list_wf(v.entities)
    }

    /// Reading back what writing a [`ClientsideRemoveEntities`] appended gives the same contents, whatever follows.
    pub proof fn lemma_roundtrip(s: Seq<u8>, pos: int, v: ClientsideRemoveEntitiesView)
        requires
            Self::spec_wf(v),
            holds_at(s, pos, Self::spec_serialize(v)),
        ensures
            Self::spec_parse(s, pos) == Some((v, pos + Self::spec_serialize(v).len())),
    {
        lemma_varint_list_roundtrip(s, pos, v.entities);
    }

    /// Reads a [`ClientsideRemoveEntities`] at the cursor and moves past it.
    pub fn read(buffer: &mut Cursor) -> (res: Option<Self>)
        ensures
            final(buffer).data@ == old(buffer).data@,
            match res {
                Some(v) => Self::spec_parse(old(buffer).data@, old(buffer).position as int) == Some(
                    (v.deep_view(), final(buffer).position as int),
                ),
                None => Self::spec_parse(old(buffer).data@, old(buffer).position as int) is None,
            },
    {
        let entities = match read_varint_list(buffer) {
            Some(x) => x,
            None => {
                return None;
            },
        };
        Some(ClientsideRemoveEntities { entities })
    }

    /// Appends the wire form of the [`ClientsideRemoveEntities`].
    pub fn write(&self, buffer: &mut Vec<u8>)
        ensures
            final(buffer)@ == old(buffer)@ + Self::spec_serialize(self.deep_view()),
    {
        write_varint_list(&self.entities, buffer);
    }
}

/// The server ends the connection.
#[derive(Clone, Debug, PartialEq)]
pub struct ClientsideDisconnect;

/// The content of a [`ClientsideDisconnect`] as it goes over the wire.
pub struct ClientsideDisconnectView {}

impl DeepView for ClientsideDisconnect {
    type V = ClientsideDisconnectView;

    open spec fn deep_view(&self) -> ClientsideDisconnectView {
        ClientsideDisconnectView {  }
    }
}

impl ClientsideDisconnect {
    /// What reading a [`ClientsideDisconnect`] at `pos` yields, and the position after it.
    pub open spec fn spec_parse(s: Seq<u8>, pos: int) -> Option<(ClientsideDisconnectView, int)> {
        Some((ClientsideDisconnectView {  }, pos))
    }

    /// The bytes that writing a [`ClientsideDisconnect`] appends.
    pub open spec fn spec_serialize(v: ClientsideDisconnectView) -> Seq<u8> {
        Seq::empty()
    }

    /// The contents that read back as written: every length fits its `VarInt` prefix.
    pub open spec fn spec_wf(v: ClientsideDisconnectView) -> bool {
        true
    }

    /// Reading back what writing a [`ClientsideDisconnect`] appended gives the same contents, whatever follows.
    pub proof fn lemma_roundtrip(s: Seq<u8>, pos: int, v: ClientsideDisconnectView)
        requires
            Self::spec_wf(v),
            holds_at(s, pos, Self::spec_serialize(v)),
        ensures
            Self::spec_parse(s, pos) == Some((v, pos + Self::spec_serialize(v).len())),
    {
    }

    /// Reads a [`ClientsideDisconnect`] at the cursor and moves past it.
    pub fn read(buffer: &mut Cursor) -> (res: Option<Self>)
        ensures
            final(buffer).data@ == old(buffer).data@,
            match res {
                Some(v) => Self::spec_parse(old(buffer).data@, old(buffer).position as int) == Some(
                    (v.deep_view(), final(buffer).position as int),
                ),
                None => Self::spec_parse(old(buffer).data@, old(buffer).position as int) is None,
            },
    {
        Some(ClientsideDisconnect)
    }

    /// Appends the wire form of the [`ClientsideDisconnect`].
    pub fn write(&self, buffer: &mut Vec<u8>)
        ensures
            final(buffer)@ == old(buffer)@ + Self::spec_serialize(self.deep_view()),
    {
        assert(buffer@ =~= old(buffer)@ + Self::spec_serialize(self.deep_view()));
    }
}

/// A chat message of a player.
#[derive(Clone, Debug, PartialEq)]
pub struct ClientsidePlayerChat {
    pub global_index: i32,
    pub sender_uuid: Uuid,
    pub index: i32,
    pub message_signature: Option<Vec<u8>>,
    pub message: String,
    pub timestamp: i64,
    pub salt: i64,
    pub message_id: i32,
    pub signature: Option<Vec<u8>>,
}

/// The content of a [`ClientsidePlayerChat`] as it goes over the wire.
pub struct ClientsidePlayerChatView {
    pub global_index: i32,
    pub sender_uuid: u128,
    pub index: i32,
    pub message_signature: Option<Seq<u8>>,
    pub message: Seq<char>,
    pub timestamp: i64,
    pub salt: i64,
    pub message_id: i32,
    pub signature: Option<Seq<u8>>,
}

impl DeepView for ClientsidePlayerChat {
    type V = ClientsidePlayerChatView;

    open spec fn deep_view(&self) -> ClientsidePlayerChatView {
        ClientsidePlayerChatView {
            global_index: self.global_index,
            sender_uuid: self.sender_uuid.deep_view(),
            index: self.index,
            message_signature: self.message_signature.deep_view(),
            message: self.message.deep_view(),
            timestamp: self.timestamp.deep_view(),
            salt: self.salt.deep_view(),
            message_id: self.message_id,
            signature: self.signature.deep_view(),
        }
    }
}

impl ClientsidePlayerChat {
    /// What reading a [`ClientsidePlayerChat`] at `pos` yields, and the position after it.
    pub open spec fn spec_parse(s: Seq<u8>, pos: int) -> Option<(ClientsidePlayerChatView, int)> {
        match parse_varint(s, pos) {
            Some((global_index, p0)) => match <Uuid as Buffer>::spec_parse(s, p0) {
                Some((sender_uuid, p1)) => match parse_varint(s, p1) {
                    Some((index, p2)) => match parse_flagged::<Vec<u8>>(s, p2) {
                        Some((message_signature, p3)) => match <String as Buffer>::spec_parse(s, p3) {
                            Some((message, p4)) => match <i64 as Buffer>::spec_parse(s, p4) {
                                Some((timestamp, p5)) => match <i64 as Buffer>::spec_parse(s, p5) {
                                    Some((salt, p6)) => match parse_varint(s, p6) {
                                        Some((message_id, p7)) => match parse_flagged::<Vec<u8>>(s, p7) {
                                            Some((signature, p8)) => Some((ClientsidePlayerChatView { global_index, sender_uuid, index, message_signature, message, timestamp, salt, message_id, signature }, p8)),
                                            None => None,
                                        },
                                        None => None,
                                    },
                                    None => None,
                                },
                                None => None,
                            },
                            None => None,
                        },
                        None => None,
                    },
                    None => None,
                },
                None => None,
            },
            None => None,
        }
    }

    /// The bytes that writing a [`ClientsidePlayerChat`] appends.
    pub open spec fn spec_serialize(v: ClientsidePlayerChatView) -> Seq<u8> {
        spec_varint(v.global_index) + <Uuid as Buffer>::spec_serialize(v.sender_uuid) + spec_varint(v.index) + serialize_flagged::<Vec<u8>>(v.message_signature) + <String as Buffer>::spec_serialize(v.message) + <i64 as Buffer>::spec_serialize(v.timestamp) + <i64 as Buffer>::spec_serialize(v.salt) + spec_varint(v.message_id) + serialize_flagged::<Vec<u8>>(v.signature)
    }

    /// The contents that read back as written: every length fits its `VarInt` prefix.
    pub open spec fn spec_wf(v: ClientsidePlayerChatView) -> bool {
        <Uuid as Buffer>::spec_wf(v.sender_uuid) && flagged_wf::<Vec<u8>>(v.message_signature) && <String as Buffer>::spec_wf(v.message) && <i64 as Buffer>::spec_wf(v.timestamp) && <i64 as Buffer>::spec_wf(v.salt) && flagged_wf::<Vec<u8>>(v.signature)
    }

    /// Reading back what writing a [`ClientsidePlayerChat`] appended gives the same contents, whatever follows.
    pub proof fn lemma_roundtrip(s: Seq<u8>, pos: int, v: ClientsidePlayerChatView)
        requires
            Self::spec_wf(v),
            holds_at(s, pos, Self::spec_serialize(v)),
        ensures
            Self::spec_parse(s, pos) == Some((v, pos + Self::spec_serialize(v).len())),
    {
        lemma_holds_at_split(s, pos, spec_varint(v.global_index) + <Uuid as Buffer>::spec_serialize(v.sender_uuid) + spec_varint(v.index) + serialize_flagged::<Vec<u8>>(v.message_signature) + <String as Buffer>::spec_serialize(v.message) + <i64 as Buffer>::spec_serialize(v.timestamp) + <i64 as Buffer>::spec_serialize(v.salt) + spec_varint(v.message_id), serialize_flagged::<Vec<u8>>(v.signature));
        lemma_holds_at_split(s, pos, spec_varint(v.global_index) + <Uuid as Buffer>::spec_serialize(v.sender_uuid) + spec_varint(v.index) + serialize_flagged::<Vec<u8>>(v.message_signature) + <String as Buffer>::spec_serialize(v.message) + <i64 as Buffer>::spec_serialize(v.timestamp) + <i64 as Buffer>::spec_serialize(v.salt), spec_varint(v.message_id));
        lemma_holds_at_split(s, pos, spec_varint(v.global_index) + <Uuid as Buffer>::spec_serialize(v.sender_uuid) + spec_varint(v.index) + serialize_flagged::<Vec<u8>>(v.message_signature) + <String as Buffer>::spec_serialize(v.message) + <i64 as Buffer>::spec_serialize(v.timestamp), <i64 as Buffer>::spec_serialize(v.salt));
        lemma_holds_at_split(s, pos, spec_varint(v.global_index) + <Uuid as Buffer>::spec_serialize(v.sender_uuid) + spec_varint(v.index) + serialize_flagged::<Vec<u8>>(v.message_signature) + <String as Buffer>::spec_serialize(v.message), <i64 as Buffer>::spec_serialize(v.timestamp));
        lemma_holds_at_split(s, pos, spec_varint(v.global_index) + <Uuid as Buffer>::spec_serialize(v.sender_uuid) + spec_varint(v.index) + serialize_flagged::<Vec<u8>>(v.message_signature), <String as Buffer>::spec_serialize(v.message));
        lemma_holds_at_split(s, pos, spec_varint(v.global_index) + <Uuid as Buffer>::spec_serialize(v.sender_uuid) + spec_varint(v.index), serialize_flagged::<Vec<u8>>(v.message_signature));
        lemma_holds_at_split(s, pos, spec_varint(v.global_index) + <Uuid as Buffer>::spec_serialize(v.sender_uuid), spec_varint(v.index));
        lemma_holds_at_split(s, pos, spec_varint(v.global_index), <Uuid as Buffer>::spec_serialize(v.sender_uuid));
        lemma_varint_i32_roundtrip(s, pos, v.global_index);
        <Uuid as Buffer>::lemma_roundtrip(s, pos + spec_varint(v.global_index).len(), v.sender_uuid);
        lemma_varint_i32_roundtrip(s, pos + spec_varint(v.global_index).len() + <Uuid as Buffer>::spec_serialize(v.sender_uuid).len(), v.index);
        lemma_flagged_roundtrip::<Vec<u8>>(s, pos + spec_varint(v.global_index).len() + <Uuid as Buffer>::spec_serialize(v.sender_uuid).len() + spec_varint(v.index).len(), v.message_signature);
        <String as Buffer>::lemma_roundtrip(s, pos + spec_varint(v.global_index).len() + <Uuid as Buffer>::spec_serialize(v.sender_uuid).len() + spec_varint(v.index).len() + serialize_flagged::<Vec<u8>>(v.message_signature).len(), v.message);
        <i64 as Buffer>::lemma_roundtrip(s, pos + spec_varint(v.global_index).len() + <Uuid as Buffer>::spec_serialize(v.sender_uuid).len() + spec_varint(v.index).len() + serialize_flagged::<Vec<u8>>(v.message_signature).len() + <String as Buffer>::spec_serialize(v.message).len(), v.timestamp);
        <i64 as Buffer>::lemma_roundtrip(s, pos + spec_varint(v.global_index).len() + <Uuid as Buffer>::spec_serialize(v.sender_uuid).len() + spec_varint(v.index).len() + serialize_flagged::<Vec<u8>>(v.message_signature).len() + <String as Buffer>::spec_serialize(v.message).len() + <i64 as Buffer>::spec_serialize(v.timestamp).len(), v.salt);
        lemma_varint_i32_roundtrip(s, pos + spec_varint(v.global_index).len() + <Uuid as Buffer>::spec_serialize(v.sender_uuid).len() + spec_varint(v.index).len() + serialize_flagged::<Vec<u8>>(v.message_signature).len() + <String as Buffer>::spec_serialize(v.message).len() + <i64 as Buffer>::spec_serialize(v.timestamp).len() + <i64 as Buffer>::spec_serialize(v.salt).len(), v.message_id);
        lemma_flagged_roundtrip::<Vec<u8>>(s, pos + spec_varint(v.global_index).len() + <Uuid as Buffer>::spec_serialize(v.sender_uuid).len() + spec_varint(v.index).len() + serialize_flagged::<Vec<u8>>(v.message_signature).len() + <String as Buffer>::spec_serialize(v.message).len() + <i64 as Buffer>::spec_serialize(v.timestamp).len() + <i64 as Buffer>::spec_serialize(v.salt).len() + spec_varint(v.message_id).len(), v.signature);
    }

    /// Reads a [`ClientsidePlayerChat`] at the cursor and moves past it.
    pub fn read(buffer: &mut Cursor) -> (res: Option<Self>)
        ensures
            final(buffer).data@ == old(buffer).data@,
            match res {
                Some(v) => Self::spec_parse(old(buffer).data@, old(buffer).position as int) == Some(
                    (v.deep_view(), final(buffer).position as int),
                ),
                None => Self::spec_parse(old(buffer).data@, old(buffer).position as int) is None,
            },
    {
        let global_index = match i32::read_varint(buffer) {
            Some(x) => x,
            None => {
                return None;
            },
        };
        let sender_uuid = match <Uuid as Buffer>::read_buf(buffer) {
            Some(x) => x,
            None => {
                return None;
            },
        };
        let index = match i32::read_varint(buffer) {
            Some(x) => x,
            None => {
                return None;
            },
        };
        let message_signature = match read_flagged::<Vec<u8>>(buffer) {
            Some(x) => x,
            None => {
                return None;
            },
        };
        let message = match <String as Buffer>::read_buf(buffer) {
            Some(x) => x,
            None => {
                return None;
            },
        };
        let timestamp = match <i64 as Buffer>::read_buf(buffer) {
            Some(x) => x,
            None => {
                return None;
            },
        };
        let salt = match <i64 as Buffer>::read_buf(buffer) {
            Some(x) => x,
            None => {
                return None;
            },
        };
        let message_id = match i32::read_varint(buffer) {
            Some(x) => x,
            None => {
                return None;
            },
        };
        let signature = match read_flagged::<Vec<u8>>(buffer) {
            Some(x) => x,
            None => {
                return None;
            },
        };
        Some(ClientsidePlayerChat { global_index, sender_uuid, index, message_signature, message, timestamp, salt, message_id, signature })
    }

    /// Appends the wire form of the [`ClientsidePlayerChat`].
    pub fn write(&self, buffer: &mut Vec<u8>)
        ensures
            final(buffer)@ == old(buffer)@ + Self::spec_serialize(self.deep_view()),
    {
        self.global_index.write_varint(buffer);
        self.sender_uuid.write_buf(buffer);
        assert(buffer@ =~= old(buffer)@ + (spec_varint(self.deep_view().global_index) + <Uuid as Buffer>::spec_serialize(self.deep_view().sender_uuid)));
        self.index.write_varint(buffer);
        assert(buffer@ =~= old(buffer)@ + (spec_varint(self.deep_view().global_index) + <Uuid as Buffer>::spec_serialize(self.deep_view().sender_uuid) + spec_varint(self.deep_view().index)));
        write_flagged(&self.message_signature, buffer);
        assert(buffer@ =~= old(buffer)@ + (spec_varint(self.deep_view().global_index) + <Uuid as Buffer>::spec_serialize(self.deep_view().sender_uuid) + spec_varint(self.deep_view().index) + serialize_flagged::<Vec<u8>>(self.deep_view().message_signature)));
        self.message.write_buf(buffer);
        assert(buffer@ =~= old(buffer)@ + (spec_varint(self.deep_view().global_index) + <Uuid as Buffer>::spec_serialize(self.deep_view().sender_uuid) + spec_varint(self.deep_view().index) + serialize_flagged::<Vec<u8>>(self.deep_view().message_signature) + <String as Buffer>::spec_serialize(self.deep_view().message)));
        self.timestamp.write_buf(buffer);
        assert(buffer@ =~= old(buffer)@ + (spec_varint(self.deep_view().global_index) + <Uuid as Buffer>::spec_serialize(self.deep_view().sender_uuid) + spec_varint(self.deep_view().index) + serialize_flagged::<Vec<u8>>(self.deep_view().message_signature) + <String as Buffer>::spec_serialize(self.deep_view().message) + <i64 as Buffer>::spec_serialize(self.deep_view().timestamp)));
        self.salt.write_buf(buffer);
        assert(buffer@ =~= old(buffer)@ + (spec_varint(self.deep_view().global_index) + <Uuid as Buffer>::spec_serialize(self.deep_view().sender_uuid) + spec_varint(self.deep_view().index) + serialize_flagged::<Vec<u8>>(self.deep_view().message_signature) + <String as Buffer>::spec_serialize(self.deep_view().message) + <i64 as Buffer>::spec_serialize(self.deep_view().timestamp) + <i64 as Buffer>::spec_serialize(self.deep_view().salt)));
        self.message_id.write_varint(buffer);
        assert(buffer@ =~= old(buffer)@ + (spec_varint(self.deep_view().global_index) + <Uuid as Buffer>::spec_serialize(self.deep_view().sender_uuid) + spec_varint(self.deep_view().index) + serialize_flagged::<Vec<u8>>(self.deep_view().message_signature) + <String as Buffer>::spec_serialize(self.deep_view().message) + <i64 as Buffer>::spec_serialize(self.deep_view().timestamp) + <i64 as Buffer>::spec_serialize(self.deep_view().salt) + spec_varint(self.deep_view().message_id)));
        write_flagged(&self.signature, buffer);
        assert(buffer@ =~= old(buffer)@ + Self::spec_serialize(self.deep_view()));
    }
}

/// A chat message of the system.
#[derive(Clone, Debug, PartialEq)]
pub struct ClientsideSystemChat {
    pub message: String,
    pub overlay: bool,
}

/// The content of a [`ClientsideSystemChat`] as it goes over the wire.
pub struct ClientsideSystemChatView {
    pub message: Seq<char>,
    pub overlay: bool,
}

impl DeepView for ClientsideSystemChat {
    type V = ClientsideSystemChatView;

    open spec fn deep_view(&self) -> ClientsideSystemChatView {
        ClientsideSystemChatView {
            message: self.message.deep_view(),
            overlay: self.overlay.deep_view(),
        }
    }
}

impl ClientsideSystemChat {
    /// What reading a [`ClientsideSystemChat`] at `pos` yields, and the position after it.
    pub open spec fn spec_parse(s: Seq<u8>, pos: int) -> Option<(ClientsideSystemChatView, int)> {
        match <String as Buffer>::spec_parse(s, pos) {
            Some((message, p0)) => match <bool as Buffer>::spec_parse(s, p0) {
                Some((overlay, p1)) => Some((ClientsideSystemChatView { message, overlay }, p1)),
                None => None,
            },
            None => None,
        }
    }

    /// The bytes that writing a [`ClientsideSystemChat`] appends.
    pub open spec fn spec_serialize(v: ClientsideSystemChatView) -> Seq<u8> {
        <String as Buffer>::spec_serialize(v.message) + <bool as Buffer>::spec_serialize(v.overlay)
    }

    /// The contents that read back as written: every length fits its `VarInt` prefix.
    pub open spec fn spec_wf(v: ClientsideSystemChatView) -> bool {
        <String as Buffer>::spec_wf(v.message) && <bool as Buffer>::spec_wf(v.overlay)
    }

    /// Reading back what writing a [`ClientsideSystemChat`] appended gives the same contents, whatever follows.
    pub proof fn lemma_roundtrip(s: Seq<u8>, pos: int, v: ClientsideSystemChatView)
        requires
            Self::spec_wf(v),
            holds_at(s, pos, Self::spec_serialize(v)),
        ensures
            Self::spec_parse(s, pos) == Some((v, pos + Self::spec_serialize(v).len())),
    {
        lemma_holds_at_split(s, pos, <String as Buffer>::spec_serialize(v.message), <bool as Buffer>::spec_serialize(v.overlay));
        <String as Buffer>::lemma_roundtrip(s, pos, v.message);
        <bool as Buffer>::lemma_roundtrip(s, pos + <String as Buffer>::spec_serialize(v.message).len(), v.overlay);
    }

    /// Reads a [`ClientsideSystemChat`] at the cursor and moves past it.
    pub fn read(buffer: &mut Cursor) -> (res: Option<Self>)
        ensures
            final(buffer).data@ == old(buffer).data@,
            match res {
                Some(v) => Self::spec_parse(old(buffer).data@, old(buffer).position as int) == Some(
                    (v.deep_view(), final(buffer).position as int),
                ),
                None => Self::spec_parse(old(buffer).data@, old(buffer).position as int) is None,
            },
    {
        let message = match <String as Buffer>::read_buf(buffer) {
            Some(x) => x,
            None => {
                return None;
            },
        };
        let overlay = match <bool as Buffer>::read_buf(buffer) {
            Some(x) => x,
            None => {
                return None;
            },
        };
        Some(ClientsideSystemChat { message, overlay })
    }

    /// Appends the wire form of the [`ClientsideSystemChat`].
    pub fn write(&self, buffer: &mut Vec<u8>)
        ensures
            final(buffer)@ == old(buffer)@ + Self::spec_serialize(self.deep_view()),
    {
        self.message.write_buf(buffer);
        self.overlay.write_buf(buffer);
        assert(buffer@ =~= old(buffer)@ + Self::spec_serialize(self.deep_view()));
    }
}

/// The server sends the client to another server.
#[derive(Clone, Debug, PartialEq)]
pub struct ClientsideTransfer {
    pub server_host: String,
    pub server_port: i32,
}

/// The content of a [`ClientsideTransfer`] as it goes over the wire.
pub struct ClientsideTransferView {
    pub server_host: Seq<char>,
    pub server_port: i32,
}

impl DeepView for ClientsideTransfer {
    type V = ClientsideTransferView;

    open spec fn deep_view(&self) -> ClientsideTransferView {
        ClientsideTransferView {
            server_host: self.server_host.deep_view(),
            server_port: self.server_port,
        }
    }
}

impl ClientsideTransfer {
    /// What reading a [`ClientsideTransfer`] at `pos` yields, and the position after it.
    pub open spec fn spec_parse(s: Seq<u8>, pos: int) -> Option<(ClientsideTransferView, int)> {
        match <String as Buffer>::spec_parse(s, pos) {
            Some((server_host, p0)) => match parse_varint(s, p0) {
                Some((server_port, p1)) => Some((ClientsideTransferView { server_host, server_port }, p1)),
                None => None,
            },
            None => None,
        }
    }

    /// The bytes that writing a [`ClientsideTransfer`] appends.
    pub open spec fn spec_serialize(v: ClientsideTransferView) -> Seq<u8> {
        <String as Buffer>::spec_serialize(v.server_host) + spec_varint(v.server_port)
    }

    /// The contents that read back as written: every length fits its `VarInt` prefix.
    pub open spec fn spec_wf(v: ClientsideTransferView) -> bool {
        <String as Buffer>::spec_wf(v.server_host)
    }

    /// Reading back what writing a [`ClientsideTransfer`] appended gives the same contents, whatever follows.
    pub proof fn lemma_roundtrip(s: Seq<u8>, pos: int, v: ClientsideTransferView)
        requires
            Self::spec_wf(v),
            holds_at(s, pos, Self::spec_serialize(v)),
        ensures
            Self::spec_parse(s, pos) == Some((v, pos + Self::spec_serialize(v).len())),
    {
        lemma_holds_at_split(s, pos, <String as Buffer>::spec_serialize(v.server_host), spec_varint(v.server_port));
        <String as Buffer>::lemma_roundtrip(s, pos, v.server_host);
        lemma_varint_i32_roundtrip(s, pos + <String as Buffer>::spec_serialize(v.server_host).len(), v.server_port);
    }

    /// Reads a [`ClientsideTransfer`] at the cursor and moves past it.
    pub fn read(buffer: &mut Cursor) -> (res: Option<Self>)
        ensures
            final(buffer).data@ == old(buffer).data@,
            match res {
                Some(v) => Self::spec_parse(old(buffer).data@, old(buffer).position as int) == Some(
                    (v.deep_view(), final(buffer).position as int),
                ),
                None => Self::spec_parse(old(buffer).data@, old(buffer).position as int) is None,
            },
    {
        let server_host = match <String as Buffer>::read_buf(buffer) {
            Some(x) => x,
            None => {
                return None;
            },
        };
        let server_port = match i32::read_varint(buffer) {
            Some(x) => x,
            None => {
                return None;
            },
        };
        Some(ClientsideTransfer { server_host, server_port })
    }

    /// Appends the wire form of the [`ClientsideTransfer`].
    pub fn write(&self, buffer: &mut Vec<u8>)
        ensures
            final(buffer)@ == old(buffer)@ + Self::spec_serialize(self.deep_view()),
    {
        self.server_host.write_buf(buffer);
        self.server_port.write_varint(buffer);
        assert(buffer@ =~= old(buffer)@ + Self::spec_serialize(self.deep_view()));
    }
}

/// The slot that the player holds.
#[derive(Clone, Debug, PartialEq)]
pub struct ClientsideSetHeldItem {
    pub slot: i32,
}

/// The content of a [`ClientsideSetHeldItem`] as it goes over the wire.
pub struct ClientsideSetHeldItemView {
    pub slot: i32,
}

impl DeepView for ClientsideSetHeldItem {
    type V = ClientsideSetHeldItemView;

    open spec fn deep_view(&self) -> ClientsideSetHeldItemView {
        ClientsideSetHeldItemView {
            slot: self.slot,
        }
    }
}

impl ClientsideSetHeldItem {
    /// What reading a [`ClientsideSetHeldItem`] at `pos` yields, and the position after it.
    pub open spec fn spec_parse(s: Seq<u8>, pos: int) -> Option<(ClientsideSetHeldItemView, int)> {
        match parse_varint(s, pos) {
            Some((slot, p0)) => Some((ClientsideSetHeldItemView { slot }, p0)),
            None => None,
        }
    }

    /// The bytes that writing a [`ClientsideSetHeldItem`] appends.
    pub open spec fn spec_serialize(v: ClientsideSetHeldItemView) -> Seq<u8> {
        spec_varint(v.slot)
    }

    /// The contents that read back as written: every length fits its `VarInt` prefix.
    pub open spec fn spec_wf(v: ClientsideSetHeldItemView) -> bool {
        true
    }

    /// Reading back what writing a [`ClientsideSetHeldItem`] appended gives the same contents, whatever follows.
    pub proof fn lemma_roundtrip(s: Seq<u8>, pos: int, v: ClientsideSetHeldItemView)
        requires
            Self::spec_wf(v),
            holds_at(s, pos, Self::spec_serialize(v)),
        ensures
            Self::spec_parse(s, pos) == Some((v, pos + Self::spec_serialize(v).len())),
    {
        lemma_varint_i32_roundtrip(s, pos, v.slot);
    }

    /// Reads a [`ClientsideSetHeldItem`] at the cursor and moves past it.
    pub fn read(buffer: &mut Cursor) -> (res: Option<Self>)
        ensures
            final(buffer).data@ == old(buffer).data@,
            match res {
                Some(v) => Self::spec_parse(old(buffer).data@, old(buffer).position as int) == Some(
                    (v.deep_view(), final(buffer).position as int),
                ),
                None => Self::spec_parse(old(buffer).data@, old(buffer).position as int) is None,
            },
    {
        let slot = match i32::read_varint(buffer) {
            Some(x) => x,
            None => {
                return None;
            },
        };
        Some(ClientsideSetHeldItem { slot })
    }

    /// Appends the wire form of the [`ClientsideSetHeldItem`].
    pub fn write(&self, buffer: &mut Vec<u8>)
        ensures
            final(buffer)@ == old(buffer)@ + Self::spec_serialize(self.deep_view()),
    {
        self.slot.write_varint(buffer);
    }
}

/// An entity is leashed to another.
#[derive(Clone, Debug, PartialEq)]
pub struct ClientsideSetEntityLink {
    pub attached_entity_id: i32,
    pub holding_entity_id: i32,
}

/// The content of a [`ClientsideSetEntityLink`] as it goes over the wire.
pub struct ClientsideSetEntityLinkView {
    pub attached_entity_id: i32,
    pub holding_entity_id: i32,
}

impl DeepView for ClientsideSetEntityLink {
    type V = ClientsideSetEntityLinkView;

    open spec fn deep_view(&self) -> ClientsideSetEntityLinkView {
        ClientsideSetEntityLinkView {
            attached_entity_id: self.attached_entity_id,
            holding_entity_id: self.holding_entity_id,
        }
    }
}

impl ClientsideSetEntityLink {
    /// What reading a [`ClientsideSetEntityLink`] at `pos` yields, and the position after it.
    pub open spec fn spec_parse(s: Seq<u8>, pos: int) -> Option<(ClientsideSetEntityLinkView, int)> {
        match parse_varint(s, pos) {
            Some((attached_entity_id, p0)) => match parse_varint(s, p0) {
                Some((holding_entity_id, p1)) => Some((ClientsideSetEntityLinkView { attached_entity_id, holding_entity_id }, p1)),
                None => None,
            },
            None => None,
        }
    }

    /// The bytes that writing a [`ClientsideSetEntityLink`] appends.
    pub open spec fn spec_serialize(v: ClientsideSetEntityLinkView) -> Seq<u8> {
        spec_varint(v.attached_entity_id) + spec_varint(v.holding_entity_id)
    }

    /// The contents that read back as written: every length fits its `VarInt` prefix.
    pub open spec fn spec_wf(v: ClientsideSetEntityLinkView) -> bool {
        true
    }

    /// Reading back what writing a [`ClientsideSetEntityLink`] appended gives the same contents, whatever follows.
    pub proof fn lemma_roundtrip(s: Seq<u8>, pos: int, v: ClientsideSetEntityLinkView)
        requires
            Self::spec_wf(v),
            holds_at(s, pos, Self::spec_serialize(v)),
        ensures
            Self::spec_parse(s, pos) == Some((v, pos + Self::spec_serialize(v).len())),
    {
        lemma_holds_at_split(s, pos, spec_varint(v.attached_entity_id), spec_varint(v.holding_entity_id));
        lemma_varint_i32_roundtrip(s, pos, v.attached_entity_id);
        lemma_varint_i32_roundtrip(s, pos + spec_varint(v.attached_entity_id).len(), v.holding_entity_id);
    }

    /// Reads a [`ClientsideSetEntityLink`] at the cursor and moves past it.
    pub fn read(buffer: &mut Cursor) -> (res: Option<Self>)
        ensures
            final(buffer).data@ == old(buffer).data@,
            match res {
                Some(v) => Self::spec_parse(old(buffer).data@, old(buffer).position as int) == Some(
                    (v.deep_view(), final(buffer).position as int),
                ),
                None => Self::spec_parse(old(buffer).data@, old(buffer).position as int) is None,
            },
    {
        let attached_entity_id = match i32::read_varint(buffer) {
            Some(x) => x,
            None => {
                return None;
            },
        };
        let holding_entity_id = match i32::read_varint(buffer) {
            Some(x) => x,
            None => {
                return None;
            },
        };
        Some(ClientsideSetEntityLink { attached_entity_id, holding_entity_id })
    }

    /// Appends the wire form of the [`ClientsideSetEntityLink`].
    pub fn write(&self, buffer: &mut Vec<u8>)
        ensures
            final(buffer)@ == old(buffer)@ + Self::spec_serialize(self.deep_view()),
    {
        self.attached_entity_id.write_varint(buffer);
        self.holding_entity_id.write_varint(buffer);
        assert(buffer@ =~= old(buffer)@ + Self::spec_serialize(self.deep_view()));
    }
}

/// The view distance of the server.
#[derive(Clone, Debug, PartialEq)]
pub struct ClientsideChunkCacheRadius {
    pub view_distance: i32,
}

/// The content of a [`ClientsideChunkCacheRadius`] as it goes over the wire.
pub struct ClientsideChunkCacheRadiusView {
    pub view_distance: i32,
}

impl DeepView for ClientsideChunkCacheRadius {
    type V = ClientsideChunkCacheRadiusView;

    open spec fn deep_view(&self) -> ClientsideChunkCacheRadiusView {
        ClientsideChunkCacheRadiusView {
            view_distance: self.view_distance,
        }
    }
}

impl ClientsideChunkCacheRadius {
    /// What reading a [`ClientsideChunkCacheRadius`] at `pos` yields, and the position after it.
    pub open spec fn spec_parse(s: Seq<u8>, pos: int) -> Option<(ClientsideChunkCacheRadiusView, int)> {
        match parse_varint(s, pos) {
            Some((view_distance, p0)) => Some((ClientsideChunkCacheRadiusView { view_distance }, p0)),
            None => None,
        }
    }

    /// The bytes that writing a [`ClientsideChunkCacheRadius`] appends.
    pub open spec fn spec_serialize(v: ClientsideChunkCacheRadiusView) -> Seq<u8> {
        spec_varint(v.view_distance)
    }

    /// The contents that read back as written: every length fits its `VarInt` prefix.
    pub open spec fn spec_wf(v: ClientsideChunkCacheRadiusView) -> bool {
        true
    }

    /// Reading back what writing a [`ClientsideChunkCacheRadius`] appended gives the same contents, whatever follows.
    pub proof fn lemma_roundtrip(s: Seq<u8>, pos: int, v: ClientsideChunkCacheRadiusView)
        requires
            Self::spec_wf(v),
            holds_at(s, pos, Self::spec_serialize(v)),
        ensures
            Self::spec_parse(s, pos) == Some((v, pos + Self::spec_serialize(v).len())),
    {
        lemma_varint_i32_roundtrip(s, pos, v.view_distance);
    }

    /// Reads a [`ClientsideChunkCacheRadius`] at the cursor and moves past it.
    pub fn read(buffer: &mut Cursor) -> (res: Option<Self>)
        ensures
            final(buffer).data@ == old(buffer).data@,
            match res {
                Some(v) => Self::spec_parse(old(buffer).data@, old(buffer).position as int) == Some(
                    (v.deep_view(), final(buffer).position as int),
                ),
                None => Self::spec_parse(old(buffer).data@, old(buffer).position as int) is None,
            },
    {
        let view_distance = match i32::read_varint(buffer) {
            Some(x) => x,
            None => {
                return None;
            },
        };
        Some(ClientsideChunkCacheRadius { view_distance })
    }

    /// Appends the wire form of the [`ClientsideChunkCacheRadius`].
    pub fn write(&self, buffer: &mut Vec<u8>)
        ensures
            final(buffer)@ == old(buffer)@ + Self::spec_serialize(self.deep_view()),
    {
        self.view_distance.write_varint(buffer);
    }
}

/// The chunk at the centre of the view.
#[derive(Clone, Debug, PartialEq)]
pub struct ClientsideChunkCacheCenter {
    pub chunk_x: i32,
    pub chunk_z: i32,
}

/// The content of a [`ClientsideChunkCacheCenter`] as it goes over the wire.
pub struct ClientsideChunkCacheCenterView {
    pub chunk_x: i32,
    pub chunk_z: i32,
}

impl DeepView for ClientsideChunkCacheCenter {
    type V = ClientsideChunkCacheCenterView;

    open spec fn deep_view(&self) -> ClientsideChunkCacheCenterView {
        ClientsideChunkCacheCenterView {
            chunk_x: self.chunk_x,
            chunk_z: self.chunk_z,
        }
    }
}

impl ClientsideChunkCacheCenter {
    /// What reading a [`ClientsideChunkCacheCenter`] at `pos` yields, and the position after it.
    pub open spec fn spec_parse(s: Seq<u8>, pos: int) -> Option<(ClientsideChunkCacheCenterView, int)> {
        match parse_varint(s, pos) {
            Some((chunk_x, p0)) => match parse_varint(s, p0) {
                Some((chunk_z, p1)) => Some((ClientsideChunkCacheCenterView { chunk_x, chunk_z }, p1)),
                None => None,
            },
            None => None,
        }
    }

    /// The bytes that writing a [`ClientsideChunkCacheCenter`] appends.
    pub open spec fn spec_serialize(v: ClientsideChunkCacheCenterView) -> Seq<u8> {
        spec_varint(v.chunk_x) + spec_varint(v.chunk_z)
    }

    /// The contents that read back as written: every length fits its `VarInt` prefix.
    pub open spec fn spec_wf(v: ClientsideChunkCacheCenterView) -> bool {
        true
    }

    /// Reading back what writing a [`ClientsideChunkCacheCenter`] appended gives the same contents, whatever follows.
    pub proof fn lemma_roundtrip(s: Seq<u8>, pos: int, v: ClientsideChunkCacheCenterView)
        requires
            Self::spec_wf(v),
            holds_at(s, pos, Self::spec_serialize(v)),
        ensures
            Self::spec_parse(s, pos) == Some((v, pos + Self::spec_serialize(v).len())),
    {
        lemma_holds_at_split(s, pos, spec_varint(v.chunk_x), spec_varint(v.chunk_z));
        lemma_varint_i32_roundtrip(s, pos, v.chunk_x);
        lemma_varint_i32_roundtrip(s, pos + spec_varint(v.chunk_x).len(), v.chunk_z);
    }

    /// Reads a [`ClientsideChunkCacheCenter`] at the cursor and moves past it.
    pub fn read(buffer: &mut Cursor) -> (res: Option<Self>)
        ensures
            final(buffer).data@ == old(buffer).data@,
            match res {
                Some(v) => Self::spec_parse(old(buffer).data@, old(buffer).position as int) == Some(
                    (v.deep_view(), final(buffer).position as int),
                ),
                None => Self::spec_parse(old(buffer).data@, old(buffer).position as int) is None,
            },
    {
        let chunk_x = match i32::read_varint(buffer) {
            Some(x) => x,
            None => {
                return None;
            },
        };
        let chunk_z = match i32::read_varint(buffer) {
            Some(x) => x,
            None => {
                return None;
            },
        };
        Some(ClientsideChunkCacheCenter { chunk_x, chunk_z })
    }

    /// Appends the wire form of the [`ClientsideChunkCacheCenter`].
    pub fn write(&self, buffer: &mut Vec<u8>)
        ensures
            final(buffer)@ == old(buffer)@ + Self::spec_serialize(self.deep_view()),
    {
        self.chunk_x.write_varint(buffer);
        self.chunk_z.write_varint(buffer);
        assert(buffer@ =~= old(buffer)@ + Self::spec_serialize(self.deep_view()));
    }
}

/// The entity that the camera follows.
#[derive(Clone, Debug, PartialEq)]
pub struct ClientsideSetCamera {
    pub camera_id: i32,
}

/// The content of a [`ClientsideSetCamera`] as it goes over the wire.
pub struct ClientsideSetCameraView {
    pub camera_id: i32,
}

impl DeepView for ClientsideSetCamera {
    type V = ClientsideSetCameraView;

    open spec fn deep_view(&self) -> ClientsideSetCameraView {
        ClientsideSetCameraView {
            camera_id: self.camera_id,
        }
    }
}

impl ClientsideSetCamera {
    /// What reading a [`ClientsideSetCamera`] at `pos` yields, and the position after it.
    pub open spec fn spec_parse(s: Seq<u8>, pos: int) -> Option<(ClientsideSetCameraView, int)> {
        match parse_varint(s, pos) {
            Some((camera_id, p0)) => Some((ClientsideSetCameraView { camera_id }, p0)),
            None => None,
        }
    }

    /// The bytes that writing a [`ClientsideSetCamera`] appends.
    pub open spec fn spec_serialize(v: ClientsideSetCameraView) -> Seq<u8> {
        spec_varint(v.camera_id)
    }

    /// The contents that read back as written: every length fits its `VarInt` prefix.
    pub open spec fn spec_wf(v: ClientsideSetCameraView) -> bool {
        true
    }

    /// Reading back what writing a [`ClientsideSetCamera`] appended gives the same contents, whatever follows.
    pub proof fn lemma_roundtrip(s: Seq<u8>, pos: int, v: ClientsideSetCameraView)
        requires
            Self::spec_wf(v),
            holds_at(s, pos, Self::spec_serialize(v)),
        ensures
            Self::spec_parse(s, pos) == Some((v, pos + Self::spec_serialize(v).len())),
    {
        lemma_varint_i32_roundtrip(s, pos, v.camera_id);
    }

    /// Reads a [`ClientsideSetCamera`] at the cursor and moves past it.
    pub fn read(buffer: &mut Cursor) -> (res: Option<Self>)
        ensures
            final(buffer).data@ == old(buffer).data@,
            match res {
                Some(v) => Self::spec_parse(old(buffer).data@, old(buffer).position as int) == Some(
                    (v.deep_view(), final(buffer).position as int),
                ),
                None => Self::spec_parse(old(buffer).data@, old(buffer).position as int) is None,
            },
    {
        let camera_id = match i32::read_varint(buffer) {
            Some(x) => x,
            None => {
                return None;
            },
        };
        Some(ClientsideSetCamera { camera_id })
    }

    /// Appends the wire form of the [`ClientsideSetCamera`].
    pub fn write(&self, buffer: &mut Vec<u8>)
        ensures
            final(buffer)@ == old(buffer)@ + Self::spec_serialize(self.deep_view()),
    {
        self.camera_id.write_varint(buffer);
    }
}

/// An entity turns its head.
#[derive(Clone, Debug, PartialEq)]
pub struct ClientsideRotateHead {
    pub entity_id: i32,
    pub head_yaw: i8,
}

/// The content of a [`ClientsideRotateHead`] as it goes over the wire.
pub struct ClientsideRotateHeadView {
    pub entity_id: i32,
    pub head_yaw: i8,
}

impl DeepView for ClientsideRotateHead {
    type V = ClientsideRotateHeadView;

    open spec fn deep_view(&self) -> ClientsideRotateHeadView {
        ClientsideRotateHeadView {
            entity_id: self.entity_id,
            head_yaw: self.head_yaw.deep_view(),
        }
    }
}

impl ClientsideRotateHead {
    /// What reading a [`ClientsideRotateHead`] at `pos` yields, and the position after it.
    pub open spec fn spec_parse(s: Seq<u8>, pos: int) -> Option<(ClientsideRotateHeadView, int)> {
        match parse_varint(s, pos) {
            Some((entity_id, p0)) => match <i8 as Buffer>::spec_parse(s, p0) {
                Some((head_yaw, p1)) => Some((ClientsideRotateHeadView { entity_id, head_yaw }, p1)),
                None => None,
            },
            None => None,
        }
    }

    /// The bytes that writing a [`ClientsideRotateHead`] appends.
    pub open spec fn spec_serialize(v: ClientsideRotateHeadView) -> Seq<u8> {
        spec_varint(v.entity_id) + <i8 as Buffer>::spec_serialize(v.head_yaw)
    }

    /// The contents that read back as written: every length fits its `VarInt` prefix.
    pub open spec fn spec_wf(v: ClientsideRotateHeadView) -> bool {
        <i8 as Buffer>::spec_wf(v.head_yaw)
    }

    /// Reading back what writing a [`ClientsideRotateHead`] appended gives the same contents, whatever follows.
    pub proof fn lemma_roundtrip(s: Seq<u8>, pos: int, v: ClientsideRotateHeadView)
        requires
            Self::spec_wf(v),
            holds_at(s, pos, Self::spec_serialize(v)),
        ensures
            Self::spec_parse(s, pos) == Some((v, pos + Self::spec_serialize(v).len())),
    {
        lemma_holds_at_split(s, pos, spec_varint(v.entity_id), <i8 as Buffer>::spec_serialize(v.head_yaw));
        lemma_varint_i32_roundtrip(s, pos, v.entity_id);
        <i8 as Buffer>::lemma_roundtrip(s, pos + spec_varint(v.entity_id).len(), v.head_yaw);
    }

    /// Reads a [`ClientsideRotateHead`] at the cursor and moves past it.
    pub fn read(buffer: &mut Cursor) -> (res: Option<Self>)
        ensures
            final(buffer).data@ == old(buffer).data@,
            match res {
                Some(v) => Self::spec_parse(old(buffer).data@, old(buffer).position as int) == Some(
                    (v.deep_view(), final(buffer).position as int),
                ),
                None => Self::spec_parse(old(buffer).data@, old(buffer).position as int) is None,
            },
    {
        let entity_id = match i32::read_varint(buffer) {
            Some(x) => x,
            None => {
                return None;
            },
        };
        let head_yaw = match <i8 as Buffer>::read_buf(buffer) {
            Some(x) => x,
            None => {
                return None;
            },
        };
        Some(ClientsideRotateHead { entity_id, head_yaw })
    }

    /// Appends the wire form of the [`ClientsideRotateHead`].
    pub fn write(&self, buffer: &mut Vec<u8>)
        ensures
            final(buffer)@ == old(buffer)@ + Self::spec_serialize(self.deep_view()),
    {
        self.entity_id.write_varint(buffer);
        self.head_yaw.write_buf(buffer);
        assert(buffer@ =~= old(buffer)@ + Self::spec_serialize(self.deep_view()));
    }
}

/// The server offers a resource pack.
#[derive(Clone, Debug, PartialEq)]
pub struct ClientsideAddResourcePack {
    pub uuid: Uuid,
    pub url: String,
    pub hash: String,
    pub forced: bool,
}

/// The content of a [`ClientsideAddResourcePack`] as it goes over the wire.
pub struct ClientsideAddResourcePackView {
    pub uuid: u128,
    pub url: Seq<char>,
    pub hash: Seq<char>,
    pub forced: bool,
}

impl DeepView for ClientsideAddResourcePack {
    type V = ClientsideAddResourcePackView;

    open spec fn deep_view(&self) -> ClientsideAddResourcePackView {
        ClientsideAddResourcePackView {
            uuid: self.uuid.deep_view(),
            url: self.url.deep_view(),
            hash: self.hash.deep_view(),
            forced: self.forced.deep_view(),
        }
    }
}

impl ClientsideAddResourcePack {
    /// What reading a [`ClientsideAddResourcePack`] at `pos` yields, and the position after it.
    pub open spec fn spec_parse(s: Seq<u8>, pos: int) -> Option<(ClientsideAddResourcePackView, int)> {
        match <Uuid as Buffer>::spec_parse(s, pos) {
            Some((uuid, p0)) => match <String as Buffer>::spec_parse(s, p0) {
                Some((url, p1)) => match <String as Buffer>::spec_parse(s, p1) {
                    Some((hash, p2)) => match <bool as Buffer>::spec_parse(s, p2) {
                        Some((forced, p3)) => Some((ClientsideAddResourcePackView { uuid, url, hash, forced }, p3)),
                        None => None,
                    },
                    None => None,
                },
                None => None,
            },
            None => None,
        }
    }

    /// The bytes that writing a [`ClientsideAddResourcePack`] appends.
    pub open spec fn spec_serialize(v: ClientsideAddResourcePackView) -> Seq<u8> {
        <Uuid as Buffer>::spec_serialize(v.uuid) + <String as Buffer>::spec_serialize(v.url) + <String as Buffer>::spec_serialize(v.hash) + <bool as Buffer>::spec_serialize(v.forced)
    }

    /// The contents that read back as written: every length fits its `VarInt` prefix.
    pub open spec fn spec_wf(v: ClientsideAddResourcePackView) -> bool {
        <Uuid as Buffer>::spec_wf(v.uuid) && <String as Buffer>::spec_wf(v.url) && <String as Buffer>::spec_wf(v.hash) && <bool as Buffer>::spec_wf(v.forced)
    }

    /// Reading back what writing a [`ClientsideAddResourcePack`] appended gives the same contents, whatever follows.
    pub proof fn lemma_roundtrip(s: Seq<u8>, pos: int, v: ClientsideAddResourcePackView)
        requires
            Self::spec_wf(v),
            holds_at(s, pos, Self::spec_serialize(v)),
        ensures
            Self::spec_parse(s, pos) == Some((v, pos + Self::spec_serialize(v).len())),
    {
        lemma_holds_at_split(s, pos, <Uuid as Buffer>::spec_serialize(v.uuid) + <String as Buffer>::spec_serialize(v.url) + <String as Buffer>::spec_serialize(v.hash), <bool as Buffer>::spec_serialize(v.forced));
        lemma_holds_at_split(s, pos, <Uuid as Buffer>::spec_serialize(v.uuid) + <String as Buffer>::spec_serialize(v.url), <String as Buffer>::spec_serialize(v.hash));
        lemma_holds_at_split(s, pos, <Uuid as Buffer>::spec_serialize(v.uuid), <String as Buffer>::spec_serialize(v.url));
        <Uuid as Buffer>::lemma_roundtrip(s, pos, v.uuid);
        <String as Buffer>::lemma_roundtrip(s, pos + <Uuid as Buffer>::spec_serialize(v.uuid).len(), v.url);
        <String as Buffer>::lemma_roundtrip(s, pos + <Uuid as Buffer>::spec_serialize(v.uuid).len() + <String as Buffer>::spec_serialize(v.url).len(), v.hash);
        <bool as Buffer>::lemma_roundtrip(s, pos + <Uuid as Buffer>::spec_serialize(v.uuid).len() + <String as Buffer>::spec_serialize(v.url).len() + <String as Buffer>::spec_serialize(v.hash).len(), v.forced);
    }

    /// Reads a [`ClientsideAddResourcePack`] at the cursor and moves past it.
    pub fn read(buffer: &mut Cursor) -> (res: Option<Self>)
        ensures
            final(buffer).data@ == old(buffer).data@,
            match res {
                Some(v) => Self::spec_parse(old(buffer).data@, old(buffer).position as int) == Some(
                    (v.deep_view(), final(buffer).position as int),
                ),
                None => Self::spec_parse(old(buffer).data@, old(buffer).position as int) is None,
            },
    {
        let uuid = match <Uuid as Buffer>::read_buf(buffer) {
            Some(x) => x,
            None => {
                return None;
            },
        };
        let url = match <String as Buffer>::read_buf(buffer) {
            Some(x) => x,
            None => {
                return None;
            },
        };
        let hash = match <String as Buffer>::read_buf(buffer) {
            Some(x) => x,
            None => {
                return None;
            },
        };
        let forced = match <bool as Buffer>::read_buf(buffer) {
            Some(x) => x,
            None => {
                return None;
            },
        };
        Some(ClientsideAddResourcePack { uuid, url, hash, forced })
    }

    /// Appends the wire form of the [`ClientsideAddResourcePack`].
    pub fn write(&self, buffer: &mut Vec<u8>)
        ensures
            final(buffer)@ == old(buffer)@ + Self::spec_serialize(self.deep_view()),
    {
        self.uuid.write_buf(buffer);
        self.url.write_buf(buffer);
        assert(buffer@ =~= old(buffer)@ + (<Uuid as Buffer>::spec_serialize(self.deep_view().uuid) + <String as Buffer>::spec_serialize(self.deep_view().url)));
        self.hash.write_buf(buffer);
        assert(buffer@ =~= old(buffer)@ + (<Uuid as Buffer>::spec_serialize(self.deep_view().uuid) + <String as Buffer>::spec_serialize(self.deep_view().url) + <String as Buffer>::spec_serialize(self.deep_view().hash)));
        self.forced.write_buf(buffer);
        assert(buffer@ =~= old(buffer)@ + Self::spec_serialize(self.deep_view()));
    }
}

impl ClientsideAddResourcePack {
    /// An offered resource pack starts with its identifier as sixteen bytes, then its address
    /// as a string: reading takes the identifier from the first sixteen bytes and the address
    /// right after them, and writing gives them in that order.
    pub proof fn lemma_wire_form(v: ClientsideAddResourcePackView, s: Seq<u8>, pos: int)
        ensures
            Self::spec_serialize(v).take(16) == uuid_bytes(v.uuid),
            Self::spec_serialize(v).subrange(16, 16 + spec_str(v.url).len() as int) == spec_str(v.url),
            Self::spec_parse(s, pos) is Some ==> {
                let w = Self::spec_parse(s, pos).unwrap().0;
                &&& <Uuid as Buffer>::spec_parse(s, pos) == Some((w.uuid, pos + 16))
                &&& <String as Buffer>::spec_parse(s, pos + 16) is Some
                &&& <String as Buffer>::spec_parse(s, pos + 16).unwrap().0 == w.url
            },
    {
        let a = uuid_bytes(v.uuid);
        let b = spec_str(v.url);
        let t = Self::spec_serialize(v);
        assert(a.len() == 16);
        assert(t.take(16) =~= a);
        assert(t.subrange(16, 16 + b.len() as int) =~= b);
    }
}

/// The server removes a resource pack.
#[derive(Clone, Debug, PartialEq)]
pub struct ClientsideRemoveResourcePack {
    pub uuid: Uuid,
}

/// The content of a [`ClientsideRemoveResourcePack`] as it goes over the wire.
pub struct ClientsideRemoveResourcePackView {
    pub uuid: u128,
}

impl DeepView for ClientsideRemoveResourcePack {
    type V = ClientsideRemoveResourcePackView;

    open spec fn deep_view(&self) -> ClientsideRemoveResourcePackView {
        ClientsideRemoveResourcePackView {
            uuid: self.uuid.deep_view(),
        }
    }
}

impl ClientsideRemoveResourcePack {
    /// What reading a [`ClientsideRemoveResourcePack`] at `pos` yields, and the position after it.
    pub open spec fn spec_parse(s: Seq<u8>, pos: int) -> Option<(ClientsideRemoveResourcePackView, int)> {
        match <Uuid as Buffer>::spec_parse(s, pos) {
            Some((uuid, p0)) => Some((ClientsideRemoveResourcePackView { uuid }, p0)),
            None => None,
        }
    }

    /// The bytes that writing a [`ClientsideRemoveResourcePack`] appends.
    pub open spec fn spec_serialize(v: ClientsideRemoveResourcePackView) -> Seq<u8> {
        <Uuid as Buffer>::spec_serialize(v.uuid)
    }

    /// The contents that read back as written: every length fits its `VarInt` prefix.
    pub open spec fn spec_wf(v: ClientsideRemoveResourcePackView) -> bool {
        <Uuid as Buffer>::spec_wf(v.uuid)
    }

    /// Reading back what writing a [`ClientsideRemoveResourcePack`] appended gives the same contents, whatever follows.
    pub proof fn lemma_roundtrip(s: Seq<u8>, pos: int, v: ClientsideRemoveResourcePackView)
        requires
            Self::spec_wf(v),
            holds_at(s, pos, Self::spec_serialize(v)),
        ensures
            Self::spec_parse(s, pos) == Some((v, pos + Self::spec_serialize(v).len())),
    {
        <Uuid as Buffer>::lemma_roundtrip(s, pos, v.uuid);
    }

    /// Reads a [`ClientsideRemoveResourcePack`] at the cursor and moves past it.
    pub fn read(buffer: &mut Cursor) -> (res: Option<Self>)
        ensures
            final(buffer).data@ == old(buffer).data@,
            match res {
                Some(v) => Self::spec_parse(old(buffer).data@, old(buffer).position as int) == Some(
                    (v.deep_view(), final(buffer).position as int),
                ),
                None => Self::spec_parse(old(buffer).data@, old(buffer).position as int) is None,
            },
    {
        let uuid = match <Uuid as Buffer>::read_buf(buffer) {
            Some(x) => x,
            None => {
                return None;
            },
        };
        Some(ClientsideRemoveResourcePack { uuid })
    }

    /// Appends the wire form of the [`ClientsideRemoveResourcePack`].
    pub fn write(&self, buffer: &mut Vec<u8>)
        ensures
            final(buffer)@ == old(buffer)@ + Self::spec_serialize(self.deep_view()),
    {
        self.uuid.write_buf(buffer);
    }
}

/// An effect of an entity ends.
#[derive(Clone, Debug, PartialEq)]
pub struct ClientsideRemoveEntityEffect {
    pub entity_id: i32,
    pub effect_id: i32,
}

/// The content of a [`ClientsideRemoveEntityEffect`] as it goes over the wire.
pub struct ClientsideRemoveEntityEffectView {
    pub entity_id: i32,
    pub effect_id: i32,
}

impl DeepView for ClientsideRemoveEntityEffect {
    type V = ClientsideRemoveEntityEffectView;

    open spec fn deep_view(&self) -> ClientsideRemoveEntityEffectView {
        ClientsideRemoveEntityEffectView {
            entity_id: self.entity_id,
            effect_id: self.effect_id,
        }
    }
}

impl ClientsideRemoveEntityEffect {
    /// What reading a [`ClientsideRemoveEntityEffect`] at `pos` yields, and the position after it.
    pub open spec fn spec_parse(s: Seq<u8>, pos: int) -> Option<(ClientsideRemoveEntityEffectView, int)> {
        match parse_varint(s, pos) {
            Some((entity_id, p0)) => match parse_varint(s, p0) {
                Some((effect_id, p1)) => Some((ClientsideRemoveEntityEffectView { entity_id, effect_id }, p1)),
                None => None,
            },
            None => None,
        }
    }

    /// The bytes that writing a [`ClientsideRemoveEntityEffect`] appends.
    pub open spec fn spec_serialize(v: ClientsideRemoveEntityEffectView) -> Seq<u8> {
        spec_varint(v.entity_id) + spec_varint(v.effect_id)
    }

    /// The contents that read back as written: every length fits its `VarInt` prefix.
    pub open spec fn spec_wf(v: ClientsideRemoveEntityEffectView) -> bool {
        true
    }

    /// Reading back what writing a [`ClientsideRemoveEntityEffect`] appended gives the same contents, whatever follows.
    pub proof fn lemma_roundtrip(s: Seq<u8>, pos: int, v: ClientsideRemoveEntityEffectView)
        requires
            Self::spec_wf(v),
            holds_at(s, pos, Self::spec_serialize(v)),
        ensures
            Self::spec_parse(s, pos) == Some((v, pos + Self::spec_serialize(v).len())),
    {
        lemma_holds_at_split(s, pos, spec_varint(v.entity_id), spec_varint(v.effect_id));
        lemma_varint_i32_roundtrip(s, pos, v.entity_id);
        lemma_varint_i32_roundtrip(s, pos + spec_varint(v.entity_id).len(), v.effect_id);
    }

    /// Reads a [`ClientsideRemoveEntityEffect`] at the cursor and moves past it.
    pub fn read(buffer: &mut Cursor) -> (res: Option<Self>)
        ensures
            final(buffer).data@ == old(buffer).data@,
            match res {
                Some(v) => Self::spec_parse(old(buffer).data@, old(buffer).position as int) == Some(
                    (v.deep_view(), final(buffer).position as int),
                ),
                None => Self::spec_parse(old(buffer).data@, old(buffer).position as int) is None,
            },
    {
        let entity_id = match i32::read_varint(buffer) {
            Some(x) => x,
            None => {
                return None;
            },
        };
        let effect_id = match i32::read_varint(buffer) {
            Some(x) => x,
            None => {
                return None;
            },
        };
        Some(ClientsideRemoveEntityEffect { entity_id, effect_id })
    }

    /// Appends the wire form of the [`ClientsideRemoveEntityEffect`].
    pub fn write(&self, buffer: &mut Vec<u8>)
        ensures
            final(buffer)@ == old(buffer)@ + Self::spec_serialize(self.deep_view()),
    {
        self.entity_id.write_varint(buffer);
        self.effect_id.write_varint(buffer);
        assert(buffer@ =~= old(buffer)@ + Self::spec_serialize(self.deep_view()));
    }
}

/// The server opens a container window.
#[derive(Clone, Debug, PartialEq)]
pub struct ClientsideOpenContainer {
    pub window_id: i32,
    pub window_type: i32,
}

/// The content of a [`ClientsideOpenContainer`] as it goes over the wire.
pub struct ClientsideOpenContainerView {
    pub window_id: i32,
    pub window_type: i32,
}

impl DeepView for ClientsideOpenContainer {
    type V = ClientsideOpenContainerView;

    open spec fn deep_view(&self) -> ClientsideOpenContainerView {
        ClientsideOpenContainerView {
            window_id: self.window_id,
            window_type: self.window_type,
        }
    }
}

impl ClientsideOpenContainer {
    /// What reading a [`ClientsideOpenContainer`] at `pos` yields, and the position after it.
    pub open spec fn spec_parse(s: Seq<u8>, pos: int) -> Option<(ClientsideOpenContainerView, int)> {
        match parse_varint(s, pos) {
            Some((window_id, p0)) => match parse_varint(s, p0) {
                Some((window_type, p1)) => Some((ClientsideOpenContainerView { window_id, window_type }, p1)),
                None => None,
            },
            None => None,
        }
    }

    /// The bytes that writing a [`ClientsideOpenContainer`] appends.
    pub open spec fn spec_serialize(v: ClientsideOpenContainerView) -> Seq<u8> {
        spec_varint(v.window_id) + spec_varint(v.window_type)
    }

    /// The contents that read back as written: every length fits its `VarInt` prefix.
    pub open spec fn spec_wf(v: ClientsideOpenContainerView) -> bool {
        true
    }

    /// Reading back what writing a [`ClientsideOpenContainer`] appended gives the same contents, whatever follows.
    pub proof fn lemma_roundtrip(s: Seq<u8>, pos: int, v: ClientsideOpenContainerView)
        requires
            Self::spec_wf(v),
            holds_at(s, pos, Self::spec_serialize(v)),
        ensures
            Self::spec_parse(s, pos) == Some((v, pos + Self::spec_serialize(v).len())),
    {
        lemma_holds_at_split(s, pos, spec_varint(v.window_id), spec_varint(v.window_type));
        lemma_varint_i32_roundtrip(s, pos, v.window_id);
        lemma_varint_i32_roundtrip(s, pos + spec_varint(v.window_id).len(), v.window_type);
    }

    /// Reads a [`ClientsideOpenContainer`] at the cursor and moves past it.
    pub fn read(buffer: &mut Cursor) -> (res: Option<Self>)
        ensures
            final(buffer).data@ == old(buffer).data@,
            match res {
                Some(v) => Self::spec_parse(old(buffer).data@, old(buffer).position as int) == Some(
                    (v.deep_view(), final(buffer).position as int),
                ),
                None => Self::spec_parse(old(buffer).data@, old(buffer).position as int) is None,
            },
    {
        let window_id = match i32::read_varint(buffer) {
            Some(x) => x,
            None => {
                return None;
            },
        };
        let window_type = match i32::read_varint(buffer) {
            Some(x) => x,
            None => {
                return None;
            },
        };
        Some(ClientsideOpenContainer { window_id, window_type })
    }

    /// Appends the wire form of the [`ClientsideOpenContainer`].
    pub fn write(&self, buffer: &mut Vec<u8>)
        ensures
            final(buffer)@ == old(buffer)@ + Self::spec_serialize(self.deep_view()),
    {
        self.window_id.write_varint(buffer);
        self.window_type.write_varint(buffer);
        assert(buffer@ =~= old(buffer)@ + Self::spec_serialize(self.deep_view()));
    }
}

/// The player joins the world.
#[derive(Clone, Debug, PartialEq)]
pub struct ClientsideLogin {
    pub entity_id: i32,
    pub is_hardcore: bool,
    pub dimension_names: Vec<String>,
    pub max_players: i32,
    pub view_distance: i32,
    pub simulation_distance: i32,
    pub reduced_debug_info: bool,
    pub enable_respawn_screen: bool,
    pub dimension_type: i32,
    pub dimension_name: String,
    pub hashed_seed: i64,
}

/// The content of a [`ClientsideLogin`] as it goes over the wire.
pub struct ClientsideLoginView {
    pub entity_id: i32,
    pub is_hardcore: bool,
    pub dimension_names: Seq<Seq<char>>,
    pub max_players: i32,
    pub view_distance: i32,
    pub simulation_distance: i32,
    pub reduced_debug_info: bool,
    pub enable_respawn_screen: bool,
    pub dimension_type: i32,
    pub dimension_name: Seq<char>,
    pub hashed_seed: i64,
}

impl DeepView for ClientsideLogin {
    type V = ClientsideLoginView;

    open spec fn deep_view(&self) -> ClientsideLoginView {
        ClientsideLoginView {
            entity_id: self.entity_id.deep_view(),
            is_hardcore: self.is_hardcore.deep_view(),
            dimension_names: self.dimension_names.deep_view(),
            max_players: self.max_players,
            view_distance: self.view_distance,
            simulation_distance: self.simulation_distance,
            reduced_debug_info: self.reduced_debug_info.deep_view(),
            enable_respawn_screen: self.enable_respawn_screen.deep_view(),
            dimension_type: self.dimension_type,
            dimension_name: self.dimension_name.deep_view(),
            hashed_seed: self.hashed_seed.deep_view(),
        }
    }
}

impl ClientsideLogin {
    /// What reading a [`ClientsideLogin`] at `pos` yields, and the position after it.
    pub open spec fn spec_parse(s: Seq<u8>, pos: int) -> Option<(ClientsideLoginView, int)> {
        match <i32 as Buffer>::spec_parse(s, pos) {
            Some((entity_id, p0)) => match <bool as Buffer>::spec_parse(s, p0) {
                Some((is_hardcore, p1)) => match <Vec<String> as Buffer>::spec_parse(s, p1) {
                    Some((dimension_names, p2)) => match parse_varint(s, p2) {
                        Some((max_players, p3)) => match parse_varint(s, p3) {
                            Some((view_distance, p4)) => match parse_varint(s, p4) {
                                Some((simulation_distance, p5)) => match <bool as Buffer>::spec_parse(s, p5) {
                                    Some((reduced_debug_info, p6)) => match <bool as Buffer>::spec_parse(s, p6) {
                                        Some((enable_respawn_screen, p7)) => match parse_varint(s, p7) {
                                            Some((dimension_type, p8)) => match <String as Buffer>::spec_parse(s, p8) {
                                                Some((dimension_name, p9)) => match <i64 as Buffer>::spec_parse(s, p9) {
                                                    Some((hashed_seed, p10)) => Some((ClientsideLoginView { entity_id, is_hardcore, dimension_names, max_players, view_distance, simulation_distance, reduced_debug_info, enable_respawn_screen, dimension_type, dimension_name, hashed_seed }, p10)),
                                                    None => None,
                                                },
                                                None => None,
                                            },
                                            None => None,
                                        },
                                        None => None,
                                    },
                                    None => None,
                                },
                                None => None,
                            },
                            None => None,
                        },
                        None => None,
                    },
                    None => None,
                },
                None => None,
            },
            None => None,
        }
    }

    /// The bytes that writing a [`ClientsideLogin`] appends.
    pub open spec fn spec_serialize(v: ClientsideLoginView) -> Seq<u8> {
        <i32 as Buffer>::spec_serialize(v.entity_id) + <bool as Buffer>::spec_serialize(v.is_hardcore) + <Vec<String> as Buffer>::spec_serialize(v.dimension_names) + spec_varint(v.max_players) + spec_varint(v.view_distance) + spec_varint(v.simulation_distance) + <bool as Buffer>::spec_serialize(v.reduced_debug_info) + <bool as Buffer>::spec_serialize(v.enable_respawn_screen) + spec_varint(v.dimension_type) + <String as Buffer>::spec_serialize(v.dimension_name) + <i64 as Buffer>::spec_serialize(v.hashed_seed)
    }

    /// The contents that read back as written: every length fits its `VarInt` prefix.
    pub open spec fn spec_wf(v: ClientsideLoginView) -> bool {
        <i32 as Buffer>::spec_wf(v.entity_id) && <bool as Buffer>::spec_wf(v.is_hardcore) && <Vec<String> as Buffer>::spec_wf(v.dimension_names) && <bool as Buffer>::spec_wf(v.reduced_debug_info) && <bool as Buffer>::spec_wf(v.enable_respawn_screen) && <String as Buffer>::spec_wf(v.dimension_name) && <i64 as Buffer>::spec_wf(v.hashed_seed)
    }

    /// Reading back what writing a [`ClientsideLogin`] appended gives the same contents, whatever follows.
    pub proof fn lemma_roundtrip(s: Seq<u8>, pos: int, v: ClientsideLoginView)
        requires
            Self::spec_wf(v),
            holds_at(s, pos, Self::spec_serialize(v)),
        ensures
            Self::spec_parse(s, pos) == Some((v, pos + Self::spec_serialize(v).len())),
    {
        lemma_holds_at_split(s, pos, <i32 as Buffer>::spec_serialize(v.entity_id) + <bool as Buffer>::spec_serialize(v.is_hardcore) + <Vec<String> as Buffer>::spec_serialize(v.dimension_names) + spec_varint(v.max_players) + spec_varint(v.view_distance) + spec_varint(v.simulation_distance) + <bool as Buffer>::spec_serialize(v.reduced_debug_info) + <bool as Buffer>::spec_serialize(v.enable_respawn_screen) + spec_varint(v.dimension_type) + <String as Buffer>::spec_serialize(v.dimension_name), <i64 as Buffer>::spec_serialize(v.hashed_seed));
        lemma_holds_at_split(s, pos, <i32 as Buffer>::spec_serialize(v.entity_id) + <bool as Buffer>::spec_serialize(v.is_hardcore) + <Vec<String> as Buffer>::spec_serialize(v.dimension_names) + spec_varint(v.max_players) + spec_varint(v.view_distance) + spec_varint(v.simulation_distance) + <bool as Buffer>::spec_serialize(v.reduced_debug_info) + <bool as Buffer>::spec_serialize(v.enable_respawn_screen) + spec_varint(v.dimension_type), <String as Buffer>::spec_serialize(v.dimension_name));
        lemma_holds_at_split(s, pos, <i32 as Buffer>::spec_serialize(v.entity_id) + <bool as Buffer>::spec_serialize(v.is_hardcore) + <Vec<String> as Buffer>::spec_serialize(v.dimension_names) + spec_varint(v.max_players) + spec_varint(v.view_distance) + spec_varint(v.simulation_distance) + <bool as Buffer>::spec_serialize(v.reduced_debug_info) + <bool as Buffer>::spec_serialize(v.enable_respawn_screen), spec_varint(v.dimension_type));
        lemma_holds_at_split(s, pos, <i32 as Buffer>::spec_serialize(v.entity_id) + <bool as Buffer>::spec_serialize(v.is_hardcore) + <Vec<String> as Buffer>::spec_serialize(v.dimension_names) + spec_varint(v.max_players) + spec_varint(v.view_distance) + spec_varint(v.simulation_distance) + <bool as Buffer>::spec_serialize(v.reduced_debug_info), <bool as Buffer>::spec_serialize(v.enable_respawn_screen));
        lemma_holds_at_split(s, pos, <i32 as Buffer>::spec_serialize(v.entity_id) + <bool as Buffer>::spec_serialize(v.is_hardcore) + <Vec<String> as Buffer>::spec_serialize(v.dimension_names) + spec_varint(v.max_players) + spec_varint(v.view_distance) + spec_varint(v.simulation_distance), <bool as Buffer>::spec_serialize(v.reduced_debug_info));
        lemma_holds_at_split(s, pos, <i32 as Buffer>::spec_serialize(v.entity_id) + <bool as Buffer>::spec_serialize(v.is_hardcore) + <Vec<String> as Buffer>::spec_serialize(v.dimension_names) + spec_varint(v.max_players) + spec_varint(v.view_distance), spec_varint(v.simulation_distance));
        lemma_holds_at_split(s, pos, <i32 as Buffer>::spec_serialize(v.entity_id) + <bool as Buffer>::spec_serialize(v.is_hardcore) + <Vec<String> as Buffer>::spec_serialize(v.dimension_names) + spec_varint(v.max_players), spec_varint(v.view_distance));
        lemma_holds_at_split(s, pos, <i32 as Buffer>::spec_serialize(v.entity_id) + <bool as Buffer>::spec_serialize(v.is_hardcore) + <Vec<String> as Buffer>::spec_serialize(v.dimension_names), spec_varint(v.max_players));
        lemma_holds_at_split(s, pos, <i32 as Buffer>::spec_serialize(v.entity_id) + <bool as Buffer>::spec_serialize(v.is_hardcore), <Vec<String> as Buffer>::spec_serialize(v.dimension_names));
        lemma_holds_at_split(s, pos, <i32 as Buffer>::spec_serialize(v.entity_id), <bool as Buffer>::spec_serialize(v.is_hardcore));
        <i32 as Buffer>::lemma_roundtrip(s, pos, v.entity_id);
        <bool as Buffer>::lemma_roundtrip(s, pos + <i32 as Buffer>::spec_serialize(v.entity_id).len(), v.is_hardcore);
        <Vec<String> as Buffer>::lemma_roundtrip(s, pos + <i32 as Buffer>::spec_serialize(v.entity_id).len() + <bool as Buffer>::spec_serialize(v.is_hardcore).len(), v.dimension_names);
        lemma_varint_i32_roundtrip(s, pos + <i32 as Buffer>::spec_serialize(v.entity_id).len() + <bool as Buffer>::spec_serialize(v.is_hardcore).len() + <Vec<String> as Buffer>::spec_serialize(v.dimension_names).len(), v.max_players);
        lemma_varint_i32_roundtrip(s, pos + <i32 as Buffer>::spec_serialize(v.entity_id).len() + <bool as Buffer>::spec_serialize(v.is_hardcore).len() + <Vec<String> as Buffer>::spec_serialize(v.dimension_names).len() + spec_varint(v.max_players).len(), v.view_distance);
        lemma_varint_i32_roundtrip(s, pos + <i32 as Buffer>::spec_serialize(v.entity_id).len() + <bool as Buffer>::spec_serialize(v.is_hardcore).len() + <Vec<String> as Buffer>::spec_serialize(v.dimension_names).len() + spec_varint(v.max_players).len() + spec_varint(v.view_distance).len(), v.simulation_distance);
        <bool as Buffer>::lemma_roundtrip(s, pos + <i32 as Buffer>::spec_serialize(v.entity_id).len() + <bool as Buffer>::spec_serialize(v.is_hardcore).len() + <Vec<String> as Buffer>::spec_serialize(v.dimension_names).len() + spec_varint(v.max_players).len() + spec_varint(v.view_distance).len() + spec_varint(v.simulation_distance).len(), v.reduced_debug_info);
        <bool as Buffer>::lemma_roundtrip(s, pos + <i32 as Buffer>::spec_serialize(v.entity_id).len() + <bool as Buffer>::spec_serialize(v.is_hardcore).len() + <Vec<String> as Buffer>::spec_serialize(v.dimension_names).len() + spec_varint(v.max_players).len() + spec_varint(v.view_distance).len() + spec_varint(v.simulation_distance).len() + <bool as Buffer>::spec_serialize(v.reduced_debug_info).len(), v.enable_respawn_screen);
        lemma_varint_i32_roundtrip(s, pos + <i32 as Buffer>::spec_serialize(v.entity_id).len() + <bool as Buffer>::spec_serialize(v.is_hardcore).len() + <Vec<String> as Buffer>::spec_serialize(v.dimension_names).len() + spec_varint(v.max_players).len() + spec_varint(v.view_distance).len() + spec_varint(v.simulation_distance).len() + <bool as Buffer>::spec_serialize(v.reduced_debug_info).len() + <bool as Buffer>::spec_serialize(v.enable_respawn_screen).len(), v.dimension_type);
        <String as Buffer>::lemma_roundtrip(s, pos + <i32 as Buffer>::spec_serialize(v.entity_id).len() + <bool as Buffer>::spec_serialize(v.is_hardcore).len() + <Vec<String> as Buffer>::spec_serialize(v.dimension_names).len() + spec_varint(v.max_players).len() + spec_varint(v.view_distance).len() + spec_varint(v.simulation_distance).len() + <bool as Buffer>::spec_serialize(v.reduced_debug_info).len() + <bool as Buffer>::spec_serialize(v.enable_respawn_screen).len() + spec_varint(v.dimension_type).len(), v.dimension_name);
        <i64 as Buffer>::lemma_roundtrip(s, pos + <i32 as Buffer>::spec_serialize(v.entity_id).len() + <bool as Buffer>::spec_serialize(v.is_hardcore).len() + <Vec<String> as Buffer>::spec_serialize(v.dimension_names).len() + spec_varint(v.max_players).len() + spec_varint(v.view_distance).len() + spec_varint(v.simulation_distance).len() + <bool as Buffer>::spec_serialize(v.reduced_debug_info).len() + <bool as Buffer>::spec_serialize(v.enable_respawn_screen).len() + spec_varint(v.dimension_type).len() + <String as Buffer>::spec_serialize(v.dimension_name).len(), v.hashed_seed);
    }

    /// Reads a [`ClientsideLogin`] at the cursor and moves past it.
    pub fn read(buffer: &mut Cursor) -> (res: Option<Self>)
        ensures
            final(buffer).data@ == old(buffer).data@,
            match res {
                Some(v) => Self::spec_parse(old(buffer).data@, old(buffer).position as int) == Some(
                    (v.deep_view(), final(buffer).position as int),
                ),
                None => Self::spec_parse(old(buffer).data@, old(buffer).position as int) is None,
            },
    {
        let entity_id = match <i32 as Buffer>::read_buf(buffer) {
            Some(x) => x,
            None => {
                return None;
            },
        };
        let is_hardcore = match <bool as Buffer>::read_buf(buffer) {
            Some(x) => x,
            None => {
                return None;
            },
        };
        let dimension_names = match <Vec<String> as Buffer>::read_buf(buffer) {
            Some(x) => x,
            None => {
                return None;
            },
        };
        let max_players = match i32::read_varint(buffer) {
            Some(x) => x,
            None => {
                return None;
            },
        };
        let view_distance = match i32::read_varint(buffer) {
            Some(x) => x,
            None => {
                return None;
            },
        };
        let simulation_distance = match i32::read_varint(buffer) {
            Some(x) => x,
            None => {
                return None;
            },
        };
        let reduced_debug_info = match <bool as Buffer>::read_buf(buffer) {
            Some(x) => x,
            None => {
                return None;
            },
        };
        let enable_respawn_screen = match <bool as Buffer>::read_buf(buffer) {
            Some(x) => x,
            None => {
                return None;
            },
        };
        let dimension_type = match i32::read_varint(buffer) {
            Some(x) => x,
            None => {
                return None;
            },
        };
        let dimension_name = match <String as Buffer>::read_buf(buffer) {
            Some(x) => x,
            None => {
                return None;
            },
        };
        let hashed_seed = match <i64 as Buffer>::read_buf(buffer) {
            Some(x) => x,
            None => {
                return None;
            },
        };
        Some(ClientsideLogin { entity_id, is_hardcore, dimension_names, max_players, view_distance, simulation_distance, reduced_debug_info, enable_respawn_screen, dimension_type, dimension_name, hashed_seed })
    }

    /// Appends the wire form of the [`ClientsideLogin`].
    pub fn write(&self, buffer: &mut Vec<u8>)
        ensures
            final(buffer)@ == old(buffer)@ + Self::spec_serialize(self.deep_view()),
    {
        self.entity_id.write_buf(buffer);
        self.is_hardcore.write_buf(buffer);
        assert(buffer@ =~= old(buffer)@ + (<i32 as Buffer>::spec_serialize(self.deep_view().entity_id) + <bool as Buffer>::spec_serialize(self.deep_view().is_hardcore)));
        self.dimension_names.write_buf(buffer);
        assert(buffer@ =~= old(buffer)@ + (<i32 as Buffer>::spec_serialize(self.deep_view().entity_id) + <bool as Buffer>::spec_serialize(self.deep_view().is_hardcore) + <Vec<String> as Buffer>::spec_serialize(self.deep_view().dimension_names)));
        self.max_players.write_varint(buffer);
        assert(buffer@ =~= old(buffer)@ + (<i32 as Buffer>::spec_serialize(self.deep_view().entity_id) + <bool as Buffer>::spec_serialize(self.deep_view().is_hardcore) + <Vec<String> as Buffer>::spec_serialize(self.deep_view().dimension_names) + spec_varint(self.deep_view().max_players)));
        self.view_distance.write_varint(buffer);
        assert(buffer@ =~= old(buffer)@ + (<i32 as Buffer>::spec_serialize(self.deep_view().entity_id) + <bool as Buffer>::spec_serialize(self.deep_view().is_hardcore) + <Vec<String> as Buffer>::spec_serialize(self.deep_view().dimension_names) + spec_varint(self.deep_view().max_players) + spec_varint(self.deep_view().view_distance)));
        self.simulation_distance.write_varint(buffer);
        assert(buffer@ =~= old(buffer)@ + (<i32 as Buffer>::spec_serialize(self.deep_view().entity_id) + <bool as Buffer>::spec_serialize(self.deep_view().is_hardcore) + <Vec<String> as Buffer>::spec_serialize(self.deep_view().dimension_names) + spec_varint(self.deep_view().max_players) + spec_varint(self.deep_view().view_distance) + spec_varint(self.deep_view().simulation_distance)));
        self.reduced_debug_info.write_buf(buffer);
        assert(buffer@ =~= old(buffer)@ + (<i32 as Buffer>::spec_serialize(self.deep_view().entity_id) + <bool as Buffer>::spec_serialize(self.deep_view().is_hardcore) + <Vec<String> as Buffer>::spec_serialize(self.deep_view().dimension_names) + spec_varint(self.deep_view().max_players) + spec_varint(self.deep_view().view_distance) + spec_varint(self.deep_view().simulation_distance) + <bool as Buffer>::spec_serialize(self.deep_view().reduced_debug_info)));
        self.enable_respawn_screen.write_buf(buffer);
        assert(buffer@ =~= old(buffer)@ + (<i32 as Buffer>::spec_serialize(self.deep_view().entity_id) + <bool as Buffer>::spec_serialize(self.deep_view().is_hardcore) + <Vec<String> as Buffer>::spec_serialize(self.deep_view().dimension_names) + spec_varint(self.deep_view().max_players) + spec_varint(self.deep_view().view_distance) + spec_varint(self.deep_view().simulation_distance) + <bool as Buffer>::spec_serialize(self.deep_view().reduced_debug_info) + <bool as Buffer>::spec_serialize(self.deep_view().enable_respawn_screen)));
        self.dimension_type.write_varint(buffer);
        assert(buffer@ =~= old(buffer)@ + (<i32 as Buffer>::spec_serialize(self.deep_view().entity_id) + <bool as Buffer>::spec_serialize(self.deep_view().is_hardcore) + <Vec<String> as Buffer>::spec_serialize(self.deep_view().dimension_names) + spec_varint(self.deep_view().max_players) + spec_varint(self.deep_view().view_distance) + spec_varint(self.deep_view().simulation_distance) + <bool as Buffer>::spec_serialize(self.deep_view().reduced_debug_info) + <bool as Buffer>::spec_serialize(self.deep_view().enable_respawn_screen) + spec_varint(self.deep_view().dimension_type)));
        self.dimension_name.write_buf(buffer);
        assert(buffer@ =~= old(buffer)@ + (<i32 as Buffer>::spec_serialize(self.deep_view().entity_id) + <bool as Buffer>::spec_serialize(self.deep_view().is_hardcore) + <Vec<String> as Buffer>::spec_serialize(self.deep_view().dimension_names) + spec_varint(self.deep_view().max_players) + spec_varint(self.deep_view().view_distance) + spec_varint(self.deep_view().simulation_distance) + <bool as Buffer>::spec_serialize(self.deep_view().reduced_debug_info) + <bool as Buffer>::spec_serialize(self.deep_view().enable_respawn_screen) + spec_varint(self.deep_view().dimension_type) + <String as Buffer>::spec_serialize(self.deep_view().dimension_name)));
        self.hashed_seed.write_buf(buffer);
        assert(buffer@ =~= old(buffer)@ + Self::spec_serialize(self.deep_view()));
    }
}

impl ClientsideLogin {
    /// Where the reading of a join packet at `pos` stands after the simulation distance.
    pub open spec fn flags_offset(s: Seq<u8>, pos: int) -> int {
        match <i32 as Buffer>::spec_parse(s, pos) {
            Some((_, p0)) => match <bool as Buffer>::spec_parse(s, p0) {
                Some((_, p1)) => match <Vec<String> as Buffer>::spec_parse(s, p1) {
                    Some((_, p2)) => match parse_varint(s, p2) {
                        Some((_, p3)) => match parse_varint(s, p3) {
                            Some((_, p4)) => match parse_varint(s, p4) {
                                Some((_, p5)) => p5,
                                None => p4,
                            },
                            None => p3,
                        },
                        None => p2,
                    },
                    None => p1,
                },
                None => p0,
            },
            None => pos,
        }
    }

    /// In a join packet the two flags stand one after the other right after the simulation
    /// distance: the reduced debug information first, the respawn screen second, then the
    /// dimension type. Reading takes them from those two bytes, in that order.
    pub proof fn lemma_flags_order(v: ClientsideLoginView, s: Seq<u8>, pos: int)
        ensures
            ({
                let head = be32(v.entity_id as u32) + <bool as Buffer>::spec_serialize(v.is_hardcore)
                    + <Vec<String> as Buffer>::spec_serialize(v.dimension_names) + spec_varint(
                    v.max_players,
                ) + spec_varint(v.view_distance) + spec_varint(v.simulation_distance);
                let t = Self::spec_serialize(v);
                &&& t.take(head.len() as int) == head
                &&& t[head.len() as int] == (if v.reduced_debug_info { 1u8 } else { 0u8 })
                &&& t[head.len() as int + 1] == (if v.enable_respawn_screen { 1u8 } else { 0u8 })
                &&& t.subrange(head.len() as int + 2, head.len() as int + 2 + spec_varint(v.dimension_type).len() as int)
                    == spec_varint(v.dimension_type)
            }),
            Self::spec_parse(s, pos) is Some ==> {
                let w = Self::spec_parse(s, pos).unwrap().0;
                let p = Self::flags_offset(s, pos);
                &&& s[p] == (if w.reduced_debug_info { 1u8 } else { 0u8 })
                &&& s[p + 1] == (if w.enable_respawn_screen { 1u8 } else { 0u8 })
                &&& parse_varint(s, p + 2) is Some
                &&& parse_varint(s, p + 2).unwrap().0 == w.dimension_type
            },
    {
        let head = be32(v.entity_id as u32) + <bool as Buffer>::spec_serialize(v.is_hardcore)
            + <Vec<String> as Buffer>::spec_serialize(v.dimension_names) + spec_varint(v.max_players)
            + spec_varint(v.view_distance) + spec_varint(v.simulation_distance);
        let r = <bool as Buffer>::spec_serialize(v.reduced_debug_info);
        let e = <bool as Buffer>::spec_serialize(v.enable_respawn_screen);
        let d = spec_varint(v.dimension_type);
        let tail = <String as Buffer>::spec_serialize(v.dimension_name) + <i64 as Buffer>::spec_serialize(v.hashed_seed);
        let t = Self::spec_serialize(v);
        assert(t =~= head + r + e + d + tail);
        assert(t.take(head.len() as int) =~= head);
        assert(t.subrange(head.len() as int + 2, head.len() as int + 2 + d.len() as int) =~= d);
    }
}

/// A chunk leaves the view.
#[derive(Clone, Debug, PartialEq)]
pub struct ClientsideUnloadChunk {
    pub chunk_x: i32,
    pub chunk_z: i32,
}

/// The content of a [`ClientsideUnloadChunk`] as it goes over the wire.
pub struct ClientsideUnloadChunkView {
    pub chunk_x: i32,
    pub chunk_z: i32,
}

impl DeepView for ClientsideUnloadChunk {
    type V = ClientsideUnloadChunkView;

    open spec fn deep_view(&self) -> ClientsideUnloadChunkView {
        ClientsideUnloadChunkView {
            chunk_x: self.chunk_x.deep_view(),
            chunk_z: self.chunk_z.deep_view(),
        }
    }
}

impl ClientsideUnloadChunk {
    /// What reading a [`ClientsideUnloadChunk`] at `pos` yields, and the position after it.
    pub open spec fn spec_parse(s: Seq<u8>, pos: int) -> Option<(ClientsideUnloadChunkView, int)> {
        match <i32 as Buffer>::spec_parse(s, pos) {
            Some((chunk_x, p0)) => match <i32 as Buffer>::spec_parse(s, p0) {
                Some((chunk_z, p1)) => Some((ClientsideUnloadChunkView { chunk_x, chunk_z }, p1)),
                None => None,
            },
            None => None,
        }
    }

    /// The bytes that writing a [`ClientsideUnloadChunk`] appends.
    pub open spec fn spec_serialize(v: ClientsideUnloadChunkView) -> Seq<u8> {
        <i32 as Buffer>::spec_serialize(v.chunk_x) + <i32 as Buffer>::spec_serialize(v.chunk_z)
    }

    /// The contents that read back as written: every length fits its `VarInt` prefix.
    pub open spec fn spec_wf(v: ClientsideUnloadChunkView) -> bool {
        <i32 as Buffer>::spec_wf(v.chunk_x) && <i32 as Buffer>::spec_wf(v.chunk_z)
    }

    /// Reading back what writing a [`ClientsideUnloadChunk`] appended gives the same contents, whatever follows.
    pub proof fn lemma_roundtrip(s: Seq<u8>, pos: int, v: ClientsideUnloadChunkView)
        requires
            Self::spec_wf(v),
            holds_at(s, pos, Self::spec_serialize(v)),
        ensures
            Self::spec_parse(s, pos) == Some((v, pos + Self::spec_serialize(v).len())),
    {
        lemma_holds_at_split(s, pos, <i32 as Buffer>::spec_serialize(v.chunk_x), <i32 as Buffer>::spec_serialize(v.chunk_z));
        <i32 as Buffer>::lemma_roundtrip(s, pos, v.chunk_x);
        <i32 as Buffer>::lemma_roundtrip(s, pos + <i32 as Buffer>::spec_serialize(v.chunk_x).len(), v.chunk_z);
    }

    /// Reads a [`ClientsideUnloadChunk`] at the cursor and moves past it.
    pub fn read(buffer: &mut Cursor) -> (res: Option<Self>)
        ensures
            final(buffer).data@ == old(buffer).data@,
            match res {
                Some(v) => Self::spec_parse(old(buffer).data@, old(buffer).position as int) == Some(
                    (v.deep_view(), final(buffer).position as int),
                ),
                None => Self::spec_parse(old(buffer).data@, old(buffer).position as int) is None,
            },
    {
        let chunk_x = match <i32 as Buffer>::read_buf(buffer) {
            Some(x) => x,
            None => {
                return None;
            },
        };
        let chunk_z = match <i32 as Buffer>::read_buf(buffer) {
            Some(x) => x,
            None => {
                return None;
            },
        };
        Some(ClientsideUnloadChunk { chunk_x, chunk_z })
    }

    /// Appends the wire form of the [`ClientsideUnloadChunk`].
    pub fn write(&self, buffer: &mut Vec<u8>)
        ensures
            final(buffer)@ == old(buffer)@ + Self::spec_serialize(self.deep_view()),
    {
        self.chunk_x.write_buf(buffer);
        self.chunk_z.write_buf(buffer);
        assert(buffer@ =~= old(buffer)@ + Self::spec_serialize(self.deep_view()));
    }
}

/// A chat message is deleted.
#[derive(Clone, Debug, PartialEq)]
pub struct ClientsideClearChat {
    pub message_id: i32,
    pub signature: Option<Vec<u8>>,
}

/// The content of a [`ClientsideClearChat`] as it goes over the wire.
pub struct ClientsideClearChatView {
    pub message_id: i32,
    pub signature: Option<Seq<u8>>,
}

impl DeepView for ClientsideClearChat {
    type V = ClientsideClearChatView;

    open spec fn deep_view(&self) -> ClientsideClearChatView {
        ClientsideClearChatView {
            message_id: self.message_id,
            signature: self.signature.deep_view(),
        }
    }
}

impl ClientsideClearChat {
    /// What reading a [`ClientsideClearChat`] at `pos` yields, and the position after it.
    pub open spec fn spec_parse(s: Seq<u8>, pos: int) -> Option<(ClientsideClearChatView, int)> {
        match parse_varint(s, pos) {
            Some((message_id, p0)) => match parse_flagged::<Vec<u8>>(s, p0) {
                Some((signature, p1)) => Some((ClientsideClearChatView { message_id, signature }, p1)),
                None => None,
            },
            None => None,
        }
    }

    /// The bytes that writing a [`ClientsideClearChat`] appends.
    pub open spec fn spec_serialize(v: ClientsideClearChatView) -> Seq<u8> {
        spec_varint(v.message_id) + serialize_flagged::<Vec<u8>>(v.signature)
    }

    /// The contents that read back as written: every length fits its `VarInt` prefix.
    pub open spec fn spec_wf(v: ClientsideClearChatView) -> bool {
        flagged_wf::<Vec<u8>>(v.signature)
    }

    /// Reading back what writing a [`ClientsideClearChat`] appended gives the same contents, whatever follows.
    pub proof fn lemma_roundtrip(s: Seq<u8>, pos: int, v: ClientsideClearChatView)
        requires
            Self::spec_wf(v),
            holds_at(s, pos, Self::spec_serialize(v)),
        ensures
            Self::spec_parse(s, pos) == Some((v, pos + Self::spec_serialize(v).len())),
    {
        lemma_holds_at_split(s, pos, spec_varint(v.message_id), serialize_flagged::<Vec<u8>>(v.signature));
        lemma_varint_i32_roundtrip(s, pos, v.message_id);
        lemma_flagged_roundtrip::<Vec<u8>>(s, pos + spec_varint(v.message_id).len(), v.signature);
    }

    /// Reads a [`ClientsideClearChat`] at the cursor and moves past it.
    pub fn read(buffer: &mut Cursor) -> (res: Option<Self>)
        ensures
            final(buffer).data@ == old(buffer).data@,
            match res {
                Some(v) => Self::spec_parse(old(buffer).data@, old(buffer).position as int) == Some(
                    (v.deep_view(), final(buffer).position as int),
                ),
                None => Self::spec_parse(old(buffer).data@, old(buffer).position as int) is None,
            },
    {
        let message_id = match i32::read_varint(buffer) {
            Some(x) => x,
            None => {
                return None;
            },
        };
        let signature = match read_flagged::<Vec<u8>>(buffer) {
            Some(x) => x,
            None => {
                return None;
            },
        };
        Some(ClientsideClearChat { message_id, signature })
    }

    /// Appends the wire form of the [`ClientsideClearChat`].
    pub fn write(&self, buffer: &mut Vec<u8>)
        ensures
            final(buffer)@ == old(buffer)@ + Self::spec_serialize(self.deep_view()),
    {
        self.message_id.write_varint(buffer);
        write_flagged(&self.signature, buffer);
        assert(buffer@ =~= old(buffer)@ + Self::spec_serialize(self.deep_view()));
    }
}

/// The server places the player, with a teleportation to confirm.
#[derive(Clone, Debug, PartialEq)]
pub struct ClientsidePlayerPosition {
    pub teleport_id: i64,
    pub position: Vector3Bits,
    pub velocity: Vector3Bits,
    pub rotation: RotationBits,
    pub teleport_flags: TeleportFlags,
}

/// The content of a [`ClientsidePlayerPosition`] as it goes over the wire.
pub struct ClientsidePlayerPositionView {
    pub teleport_id: i64,
    pub position: Vector3BitsView,
    pub velocity: Vector3BitsView,
    pub rotation: RotationBitsView,
    pub teleport_flags: TeleportFlagsView,
}

impl DeepView for ClientsidePlayerPosition {
    type V = ClientsidePlayerPositionView;

    open spec fn deep_view(&self) -> ClientsidePlayerPositionView {
        ClientsidePlayerPositionView {
            teleport_id: self.teleport_id,
            position: self.position.deep_view(),
            velocity: self.velocity.deep_view(),
            rotation: self.rotation.deep_view(),
            teleport_flags: self.teleport_flags.deep_view(),
        }
    }
}

impl ClientsidePlayerPosition {
    /// What reading a [`ClientsidePlayerPosition`] at `pos` yields, and the position after it.
    pub open spec fn spec_parse(s: Seq<u8>, pos: int) -> Option<(ClientsidePlayerPositionView, int)> {
        match parse_varlong(s, pos) {
            Some((teleport_id, p0)) => match <Vector3Bits as Buffer>::spec_parse(s, p0) {
                Some((position, p1)) => match <Vector3Bits as Buffer>::spec_parse(s, p1) {
                    Some((velocity, p2)) => match <RotationBits as Buffer>::spec_parse(s, p2) {
                        Some((rotation, p3)) => match <TeleportFlags as Buffer>::spec_parse(s, p3) {
                            Some((teleport_flags, p4)) => Some((ClientsidePlayerPositionView { teleport_id, position, velocity, rotation, teleport_flags }, p4)),
                            None => None,
                        },
                        None => None,
                    },
                    None => None,
                },
                None => None,
            },
            None => None,
        }
    }

    /// The bytes that writing a [`ClientsidePlayerPosition`] appends.
    pub open spec fn spec_serialize(v: ClientsidePlayerPositionView) -> Seq<u8> {
        spec_varlong(v.teleport_id) + <Vector3Bits as Buffer>::spec_serialize(v.position) + <Vector3Bits as Buffer>::spec_serialize(v.velocity) + <RotationBits as Buffer>::spec_serialize(v.rotation) + <TeleportFlags as Buffer>::spec_serialize(v.teleport_flags)
    }

    /// The contents that read back as written: every length fits its `VarInt` prefix.
    pub open spec fn spec_wf(v: ClientsidePlayerPositionView) -> bool {
        <Vector3Bits as Buffer>::spec_wf(v.position) && <Vector3Bits as Buffer>::spec_wf(v.velocity) && <RotationBits as Buffer>::spec_wf(v.rotation) && <TeleportFlags as Buffer>::spec_wf(v.teleport_flags)
    }

    /// Reading back what writing a [`ClientsidePlayerPosition`] appended gives the same contents, whatever follows.
    pub proof fn lemma_roundtrip(s: Seq<u8>, pos: int, v: ClientsidePlayerPositionView)
        requires
            Self::spec_wf(v),
            holds_at(s, pos, Self::spec_serialize(v)),
        ensures
            Self::spec_parse(s, pos) == Some((v, pos + Self::spec_serialize(v).len())),
    {
        lemma_holds_at_split(s, pos, spec_varlong(v.teleport_id) + <Vector3Bits as Buffer>::spec_serialize(v.position) + <Vector3Bits as Buffer>::spec_serialize(v.velocity) + <RotationBits as Buffer>::spec_serialize(v.rotation), <TeleportFlags as Buffer>::spec_serialize(v.teleport_flags));
        lemma_holds_at_split(s, pos, spec_varlong(v.teleport_id) + <Vector3Bits as Buffer>::spec_serialize(v.position) + <Vector3Bits as Buffer>::spec_serialize(v.velocity), <RotationBits as Buffer>::spec_serialize(v.rotation));
        lemma_holds_at_split(s, pos, spec_varlong(v.teleport_id) + <Vector3Bits as Buffer>::spec_serialize(v.position), <Vector3Bits as Buffer>::spec_serialize(v.velocity));
        lemma_holds_at_split(s, pos, spec_varlong(v.teleport_id), <Vector3Bits as Buffer>::spec_serialize(v.position));
        lemma_varlong_i64_roundtrip(s, pos, v.teleport_id);
        <Vector3Bits as Buffer>::lemma_roundtrip(s, pos + spec_varlong(v.teleport_id).len(), v.position);
        <Vector3Bits as Buffer>::lemma_roundtrip(s, pos + spec_varlong(v.teleport_id).len() + <Vector3Bits as Buffer>::spec_serialize(v.position).len(), v.velocity);
        <RotationBits as Buffer>::lemma_roundtrip(s, pos + spec_varlong(v.teleport_id).len() + <Vector3Bits as Buffer>::spec_serialize(v.position).len() + <Vector3Bits as Buffer>::spec_serialize(v.velocity).len(), v.rotation);
        <TeleportFlags as Buffer>::lemma_roundtrip(s, pos + spec_varlong(v.teleport_id).len() + <Vector3Bits as Buffer>::spec_serialize(v.position).len() + <Vector3Bits as Buffer>::spec_serialize(v.velocity).len() + <RotationBits as Buffer>::spec_serialize(v.rotation).len(), v.teleport_flags);
    }

    /// Reads a [`ClientsidePlayerPosition`] at the cursor and moves past it.
    pub fn read(buffer: &mut Cursor) -> (res: Option<Self>)
        ensures
            final(buffer).data@ == old(buffer).data@,
            match res {
                Some(v) => Self::spec_parse(old(buffer).data@, old(buffer).position as int) == Some(
                    (v.deep_view(), final(buffer).position as int),
                ),
                None => Self::spec_parse(old(buffer).data@, old(buffer).position as int) is None,
            },
    {
        let teleport_id = match i64::read_varlong(buffer) {
            Some(x) => x,
            None => {
                return None;
            },
        };
        let position = match <Vector3Bits as Buffer>::read_buf(buffer) {
            Some(x) => x,
            None => {
                return None;
            },
        };
        let velocity = match <Vector3Bits as Buffer>::read_buf(buffer) {
            Some(x) => x,
            None => {
                return None;
            },
        };
        let rotation = match <RotationBits as Buffer>::read_buf(buffer) {
            Some(x) => x,
            None => {
                return None;
            },
        };
        let teleport_flags = match <TeleportFlags as Buffer>::read_buf(buffer) {
            Some(x) => x,
            None => {
                return None;
            },
        };
        Some(ClientsidePlayerPosition { teleport_id, position, velocity, rotation, teleport_flags })
    }

    /// Appends the wire form of the [`ClientsidePlayerPosition`].
    pub fn write(&self, buffer: &mut Vec<u8>)
        ensures
            final(buffer)@ == old(buffer)@ + Self::spec_serialize(self.deep_view()),
    {
        self.teleport_id.write_varlong(buffer);
        self.position.write_buf(buffer);
        assert(buffer@ =~= old(buffer)@ + (spec_varlong(self.deep_view().teleport_id) + <Vector3Bits as Buffer>::spec_serialize(self.deep_view().position)));
        self.velocity.write_buf(buffer);
        assert(buffer@ =~= old(buffer)@ + (spec_varlong(self.deep_view().teleport_id) + <Vector3Bits as Buffer>::spec_serialize(self.deep_view().position) + <Vector3Bits as Buffer>::spec_serialize(self.deep_view().velocity)));
        self.rotation.write_buf(buffer);
        assert(buffer@ =~= old(buffer)@ + (spec_varlong(self.deep_view().teleport_id) + <Vector3Bits as Buffer>::spec_serialize(self.deep_view().position) + <Vector3Bits as Buffer>::spec_serialize(self.deep_view().velocity) + <RotationBits as Buffer>::spec_serialize(self.deep_view().rotation)));
        self.teleport_flags.write_buf(buffer);
        assert(buffer@ =~= old(buffer)@ + Self::spec_serialize(self.deep_view()));
    }
}

impl ClientsidePlayerPosition {
    /// A player position is the teleportation id as a `VarLong`, then eight big-endian bytes
    /// for each of x, y and z of the position and of the velocity, four for the yaw, four for
    /// the pitch and four for the flags; reading takes x, y and z of the position from the
    /// three eight-byte groups right after the id, in that order.
    pub proof fn lemma_wire_form(v: ClientsidePlayerPositionView, s: Seq<u8>, pos: int)
        ensures
            Self::spec_serialize(v) == spec_varlong(v.teleport_id) + be64(v.position.x) + be64(v.position.y) + be64(
                v.position.z,
            ) + be64(v.velocity.x) + be64(v.velocity.y) + be64(v.velocity.z) + be32(v.rotation.yaw) + be32(
                v.rotation.pitch,
            ) + be32(v.teleport_flags.bits),
            Self::spec_parse(s, pos) is Some ==> {
                let w = Self::spec_parse(s, pos).unwrap().0;
                let q = parse_varlong(s, pos).unwrap().1;
                &&& parse_varlong(s, pos) is Some
                &&& parse_be64(s, q) == Some((w.position.x, q + 8))
                &&& parse_be64(s, q + 8) == Some((w.position.y, q + 16))
                &&& parse_be64(s, q + 16) == Some((w.position.z, q + 24))
            },
    {
        assert(Self::spec_serialize(v) =~= spec_varlong(v.teleport_id) + be64(v.position.x) + be64(v.position.y) + be64(
            v.position.z,
        ) + be64(v.velocity.x) + be64(v.velocity.y) + be64(v.velocity.z) + be32(v.rotation.yaw) + be32(
            v.rotation.pitch,
        ) + be32(v.teleport_flags.bits));
    }
}

/// Blocks of a chunk section change.
#[derive(Clone, Debug, PartialEq)]
pub struct ClientsideSectionBlocksUpdate {
    pub chunk_section_position: i64,
    pub head_yaw: Vec<i64>,
}

/// The content of a [`ClientsideSectionBlocksUpdate`] as it goes over the wire.
pub struct ClientsideSectionBlocksUpdateView {
    pub chunk_section_position: i64,
    pub head_yaw: Seq<i64>,
}

impl DeepView for ClientsideSectionBlocksUpdate {
    type V = ClientsideSectionBlocksUpdateView;

    open spec fn deep_view(&self) -> ClientsideSectionBlocksUpdateView {
        ClientsideSectionBlocksUpdateView {
            chunk_section_position: self.chunk_section_position.deep_view(),
            head_yaw: self.head_yaw@,
        }
    }
}

impl ClientsideSectionBlocksUpdate {
    /// What reading a [`ClientsideSectionBlocksUpdate`] at `pos` yields, and the position after it.
    pub open spec fn spec_parse(s: Seq<u8>, pos: int) -> Option<(ClientsideSectionBlocksUpdateView, int)> {
        match <i64 as Buffer>::spec_parse(s, pos) {
            Some((chunk_section_position, p0)) => match parse_varlong_list(s, p0) {
                Some((head_yaw, p1)) => Some((ClientsideSectionBlocksUpdateView { chunk_section_position, head_yaw }, p1)),
                None => None,
            },
            None => None,
        }
    }

    /// The bytes that writing a [`ClientsideSectionBlocksUpdate`] appends.
    pub open spec fn spec_serialize(v: ClientsideSectionBlocksUpdateView) -> Seq<u8> {
        <i64 as Buffer>::spec_serialize(v.chunk_section_position) + serialize_varlong_list(v.head_yaw)
    }

    /// The contents that read back as written: every length fits its `VarInt` prefix.
    pub open spec fn spec_wf(v: ClientsideSectionBlocksUpdateView) -> bool {
        <i64 as Buffer>::spec_wf(v.chunk_section_position) && varlong_list_wf(v.head_yaw)
    }

    /// Reading back what writing a [`ClientsideSectionBlocksUpdate`] appended gives the same contents, whatever follows.
    pub proof fn lemma_roundtrip(s: Seq<u8>, pos: int, v: ClientsideSectionBlocksUpdateView)
        requires
            Self::spec_wf(v),
            holds_at(s, pos, Self::spec_serialize(v)),
        ensures
            Self::spec_parse(s, pos) == Some((v, pos + Self::spec_serialize(v).len())),
    {
        lemma_holds_at_split(s, pos, <i64 as Buffer>::spec_serialize(v.chunk_section_position), serialize_varlong_list(v.head_yaw));
        <i64 as Buffer>::lemma_roundtrip(s, pos, v.chunk_section_position);
        lemma_varlong_list_roundtrip(s, pos + <i64 as Buffer>::spec_serialize(v.chunk_section_position).len(), v.head_yaw);
    }

    /// Reads a [`ClientsideSectionBlocksUpdate`] at the cursor and moves past it.
    pub fn read(buffer: &mut Cursor) -> (res: Option<Self>)
        ensures
            final(buffer).data@ == old(buffer).data@,
            match res {
                Some(v) => Self::spec_parse(old(buffer).data@, old(buffer).position as int) == Some(
                    (v.deep_view(), final(buffer).position as int),
                ),
                None => Self::spec_parse(old(buffer).data@, old(buffer).position as int) is None,
            },
    {
        let chunk_section_position = match <i64 as Buffer>::read_buf(buffer) {
            Some(x) => x,
            None => {
                return None;
            },
        };
        let head_yaw = match read_varlong_list(buffer) {
            Some(x) => x,
            None => {
                return None;
            },
        };
        Some(ClientsideSectionBlocksUpdate { chunk_section_position, head_yaw })
    }

    /// Appends the wire form of the [`ClientsideSectionBlocksUpdate`].
    pub fn write(&self, buffer: &mut Vec<u8>)
        ensures
            final(buffer)@ == old(buffer)@ + Self::spec_serialize(self.deep_view()),
    {
        self.chunk_section_position.write_buf(buffer);
        write_varlong_list(&self.head_yaw, buffer);
        assert(buffer@ =~= old(buffer)@ + Self::spec_serialize(self.deep_view()));
    }
}

/// The answer to a ping.
#[derive(Clone, Debug, PartialEq)]
pub struct ServersidePong {
    pub id: i32,
}

/// The content of a [`ServersidePong`] as it goes over the wire.
pub struct ServersidePongView {
    pub id: i32,
}

impl DeepView for ServersidePong {
    type V = ServersidePongView;

    open spec fn deep_view(&self) -> ServersidePongView {
        ServersidePongView {
            id: self.id.deep_view(),
        }
    }
}

impl ServersidePong {
    /// What reading a [`ServersidePong`] at `pos` yields, and the position after it.
    pub open spec fn spec_parse(s: Seq<u8>, pos: int) -> Option<(ServersidePongView, int)> {
        match <i32 as Buffer>::spec_parse(s, pos) {
            Some((id, p0)) => Some((ServersidePongView { id }, p0)),
            None => None,
        }
    }

    /// The bytes that writing a [`ServersidePong`] appends.
    pub open spec fn spec_serialize(v: ServersidePongView) -> Seq<u8> {
        <i32 as Buffer>::spec_serialize(v.id)
    }

    /// The contents that read back as written: every length fits its `VarInt` prefix.
    pub open spec fn spec_wf(v: ServersidePongView) -> bool {
        <i32 as Buffer>::spec_wf(v.id)
    }

    /// Reading back what writing a [`ServersidePong`] appended gives the same contents, whatever follows.
    pub proof fn lemma_roundtrip(s: Seq<u8>, pos: int, v: ServersidePongView)
        requires
            Self::spec_wf(v),
            holds_at(s, pos, Self::spec_serialize(v)),
        ensures
            Self::spec_parse(s, pos) == Some((v, pos + Self::spec_serialize(v).len())),
    {
        <i32 as Buffer>::lemma_roundtrip(s, pos, v.id);
    }

    /// Reads a [`ServersidePong`] at the cursor and moves past it.
    pub fn read(buffer: &mut Cursor) -> (res: Option<Self>)
        ensures
            final(buffer).data@ == old(buffer).data@,
            match res {
                Some(v) => Self::spec_parse(old(buffer).data@, old(buffer).position as int) == Some(
                    (v.deep_view(), final(buffer).position as int),
                ),
                None => Self::spec_parse(old(buffer).data@, old(buffer).position as int) is None,
            },
    {
        let id = match <i32 as Buffer>::read_buf(buffer) {
            Some(x) => x,
            None => {
                return None;
            },
        };
        Some(ServersidePong { id })
    }

    /// Appends the wire form of the [`ServersidePong`].
    pub fn write(&self, buffer: &mut Vec<u8>)
        ensures
            final(buffer)@ == old(buffer)@ + Self::spec_serialize(self.deep_view()),
    {
        self.id.write_buf(buffer);
    }
}

impl ServersidePong {
    /// A pong carries the id of the ping that it answers in the same four big-endian bytes: the
    /// pong written for an id is the body of the ping that carried it, and a ping read at a
    /// position has the id of the four bytes there and ends right after them.
    pub proof fn lemma_echoes_ping(id: i32, s: Seq<u8>, pos: int)
        ensures
            Self::spec_serialize(ServersidePongView { id }) == ClientsidePing::spec_serialize(ClientsidePingView { id }),
            Self::spec_serialize(ServersidePongView { id }) == be32(id as u32),
            (ClientsidePing::spec_parse(s, pos) is Some) <==> (parse_be32(s, pos) is Some),
            ClientsidePing::spec_parse(s, pos) is Some ==> ClientsidePing::spec_parse(s, pos).unwrap() == (
                ClientsidePingView { id: parse_be32(s, pos).unwrap().0 as i32 },
                pos + 4,
            ),
    {
    }
}

/// The client confirms a teleportation.
#[derive(Clone, Debug, PartialEq)]
pub struct ServersideAcceptTeleportation {
    pub teleport_id: i64,
}

/// The content of a [`ServersideAcceptTeleportation`] as it goes over the wire.
pub struct ServersideAcceptTeleportationView {
    pub teleport_id: i64,
}

impl DeepView for ServersideAcceptTeleportation {
    type V = ServersideAcceptTeleportationView;

    open spec fn deep_view(&self) -> ServersideAcceptTeleportationView {
        ServersideAcceptTeleportationView {
            teleport_id: self.teleport_id,
        }
    }
}

impl ServersideAcceptTeleportation {
    /// What reading a [`ServersideAcceptTeleportation`] at `pos` yields, and the position after it.
    pub open spec fn spec_parse(s: Seq<u8>, pos: int) -> Option<(ServersideAcceptTeleportationView, int)> {
        match parse_varlong(s, pos) {
            Some((teleport_id, p0)) => Some((ServersideAcceptTeleportationView { teleport_id }, p0)),
            None => None,
        }
    }

    /// The bytes that writing a [`ServersideAcceptTeleportation`] appends.
    pub open spec fn spec_serialize(v: ServersideAcceptTeleportationView) -> Seq<u8> {
        spec_varlong(v.teleport_id)
    }

    /// The contents that read back as written: every length fits its `VarInt` prefix.
    pub open spec fn spec_wf(v: ServersideAcceptTeleportationView) -> bool {
        true
    }

    /// Reading back what writing a [`ServersideAcceptTeleportation`] appended gives the same contents, whatever follows.
    pub proof fn lemma_roundtrip(s: Seq<u8>, pos: int, v: ServersideAcceptTeleportationView)
        requires
            Self::spec_wf(v),
            holds_at(s, pos, Self::spec_serialize(v)),
        ensures
            Self::spec_parse(s, pos) == Some((v, pos + Self::spec_serialize(v).len())),
    {
        lemma_varlong_i64_roundtrip(s, pos, v.teleport_id);
    }

    /// Reads a [`ServersideAcceptTeleportation`] at the cursor and moves past it.
    pub fn read(buffer: &mut Cursor) -> (res: Option<Self>)
        ensures
            final(buffer).data@ == old(buffer).data@,
            match res {
                Some(v) => Self::spec_parse(old(buffer).data@, old(buffer).position as int) == Some(
                    (v.deep_view(), final(buffer).position as int),
                ),
                None => Self::spec_parse(old(buffer).data@, old(buffer).position as int) is None,
            },
    {
        let teleport_id = match i64::read_varlong(buffer) {
            Some(x) => x,
            None => {
                return None;
            },
        };
        Some(ServersideAcceptTeleportation { teleport_id })
    }

    /// Appends the wire form of the [`ServersideAcceptTeleportation`].
    pub fn write(&self, buffer: &mut Vec<u8>)
        ensures
            final(buffer)@ == old(buffer)@ + Self::spec_serialize(self.deep_view()),
    {
        self.teleport_id.write_varlong(buffer);
    }
}

impl ServersideAcceptTeleportation {
    /// The confirmation of a teleportation carries the id as the server wrote it: its body is
    /// the `VarLong` that starts the player position packet that it confirms, and reading a
    /// player position takes the id from that `VarLong`.
    pub proof fn lemma_confirms_position(p: ClientsidePlayerPositionView, s: Seq<u8>, pos: int)
        ensures
            Self::spec_serialize(ServersideAcceptTeleportationView { teleport_id: p.teleport_id }) == spec_varlong(p.teleport_id),
            ClientsidePlayerPosition::spec_serialize(p).take(spec_varlong(p.teleport_id).len() as int)
                == Self::spec_serialize(ServersideAcceptTeleportationView { teleport_id: p.teleport_id }),
            ClientsidePlayerPosition::spec_parse(s, pos) is Some ==> {
                &&& parse_varlong(s, pos) is Some
                &&& parse_varlong(s, pos).unwrap().0 == ClientsidePlayerPosition::spec_parse(s, pos).unwrap().0.teleport_id
            },
    {
        let a = spec_varlong(p.teleport_id);
        let t = ClientsidePlayerPosition::spec_serialize(p);
        assert(t.take(a.len() as int) =~= a);
    }
}

/// A ping of the server, with a timestamp.
#[derive(Clone, Debug, PartialEq)]
pub struct ServersidePingRequest {
    pub timestamp: i64,
}

/// The content of a [`ServersidePingRequest`] as it goes over the wire.
pub struct ServersidePingRequestView {
    pub timestamp: i64,
}

impl DeepView for ServersidePingRequest {
    type V = ServersidePingRequestView;

    open spec fn deep_view(&self) -> ServersidePingRequestView {
        ServersidePingRequestView {
            timestamp: self.timestamp.deep_view(),
        }
    }
}

impl ServersidePingRequest {
    /// What reading a [`ServersidePingRequest`] at `pos` yields, and the position after it.
    pub open spec fn spec_parse(s: Seq<u8>, pos: int) -> Option<(ServersidePingRequestView, int)> {
        match <i64 as Buffer>::spec_parse(s, pos) {
            Some((timestamp, p0)) => Some((ServersidePingRequestView { timestamp }, p0)),
            None => None,
        }
    }

    /// The bytes that writing a [`ServersidePingRequest`] appends.
    pub open spec fn spec_serialize(v: ServersidePingRequestView) -> Seq<u8> {
        <i64 as Buffer>::spec_serialize(v.timestamp)
    }

    /// The contents that read back as written: every length fits its `VarInt` prefix.
    pub open spec fn spec_wf(v: ServersidePingRequestView) -> bool {
        <i64 as Buffer>::spec_wf(v.timestamp)
    }

    /// Reading back what writing a [`ServersidePingRequest`] appended gives the same contents, whatever follows.
    pub proof fn lemma_roundtrip(s: Seq<u8>, pos: int, v: ServersidePingRequestView)
        requires
            Self::spec_wf(v),
            holds_at(s, pos, Self::spec_serialize(v)),
        ensures
            Self::spec_parse(s, pos) == Some((v, pos + Self::spec_serialize(v).len())),
    {
        <i64 as Buffer>::lemma_roundtrip(s, pos, v.timestamp);
    }

    /// Reads a [`ServersidePingRequest`] at the cursor and moves past it.
    pub fn read(buffer: &mut Cursor) -> (res: Option<Self>)
        ensures
            final(buffer).data@ == old(buffer).data@,
            match res {
                Some(v) => Self::spec_parse(old(buffer).data@, old(buffer).position as int) == Some(
                    (v.deep_view(), final(buffer).position as int),
                ),
                None => Self::spec_parse(old(buffer).data@, old(buffer).position as int) is None,
            },
    {
        let timestamp = match <i64 as Buffer>::read_buf(buffer) {
            Some(x) => x,
            None => {
                return None;
            },
        };
        Some(ServersidePingRequest { timestamp })
    }

    /// Appends the wire form of the [`ServersidePingRequest`].
    pub fn write(&self, buffer: &mut Vec<u8>)
        ensures
            final(buffer)@ == old(buffer)@ + Self::spec_serialize(self.deep_view()),
    {
        self.timestamp.write_buf(buffer);
    }
}

/// A command of the client.
#[derive(Clone, Debug, PartialEq)]
pub struct ServersideClientCommand {
    pub command: ClientCommand,
}

/// The content of a [`ServersideClientCommand`] as it goes over the wire.
pub struct ServersideClientCommandView {
    pub command: ClientCommand,
}

impl DeepView for ServersideClientCommand {
    type V = ServersideClientCommandView;

    open spec fn deep_view(&self) -> ServersideClientCommandView {
        ServersideClientCommandView {
            command: self.command.deep_view(),
        }
    }
}

impl ServersideClientCommand {
    /// What reading a [`ServersideClientCommand`] at `pos` yields, and the position after it.
    pub open spec fn spec_parse(s: Seq<u8>, pos: int) -> Option<(ServersideClientCommandView, int)> {
        match <ClientCommand as Buffer>::spec_parse(s, pos) {
            Some((command, p0)) => Some((ServersideClientCommandView { command }, p0)),
            None => None,
        }
    }

    /// The bytes that writing a [`ServersideClientCommand`] appends.
    pub open spec fn spec_serialize(v: ServersideClientCommandView) -> Seq<u8> {
        <ClientCommand as Buffer>::spec_serialize(v.command)
    }

    /// The contents that read back as written: every length fits its `VarInt` prefix.
    pub open spec fn spec_wf(v: ServersideClientCommandView) -> bool {
        <ClientCommand as Buffer>::spec_wf(v.command)
    }

    /// Reading back what writing a [`ServersideClientCommand`] appended gives the same contents, whatever follows.
    pub proof fn lemma_roundtrip(s: Seq<u8>, pos: int, v: ServersideClientCommandView)
        requires
            Self::spec_wf(v),
            holds_at(s, pos, Self::spec_serialize(v)),
        ensures
            Self::spec_parse(s, pos) == Some((v, pos + Self::spec_serialize(v).len())),
    {
        <ClientCommand as Buffer>::lemma_roundtrip(s, pos, v.command);
    }

    /// Reads a [`ServersideClientCommand`] at the cursor and moves past it.
    pub fn read(buffer: &mut Cursor) -> (res: Option<Self>)
        ensures
            final(buffer).data@ == old(buffer).data@,
            match res {
                Some(v) => Self::spec_parse(old(buffer).data@, old(buffer).position as int) == Some(
                    (v.deep_view(), final(buffer).position as int),
                ),
                None => Self::spec_parse(old(buffer).data@, old(buffer).position as int) is None,
            },
    {
        let command = match <ClientCommand as Buffer>::read_buf(buffer) {
            Some(x) => x,
            None => {
                return None;
            },
        };
        Some(ServersideClientCommand { command })
    }

    /// Appends the wire form of the [`ServersideClientCommand`].
    pub fn write(&self, buffer: &mut Vec<u8>)
        ensures
            final(buffer)@ == old(buffer)@ + Self::spec_serialize(self.deep_view()),
    {
        self.command.write_buf(buffer);
    }
}

impl ServersideClientCommand {
    /// A client command is the identifier of the command as a `VarInt` and nothing else.
    pub proof fn lemma_wire_form(v: ServersideClientCommandView)
        ensures
            Self::spec_serialize(v) == spec_varint(v.command.spec_id()),
    {
    }
}

/// A chat command of the player.
#[derive(Clone, Debug, PartialEq)]
pub struct ServersideChatCommand {
    pub command: String,
}

/// The content of a [`ServersideChatCommand`] as it goes over the wire.
pub struct ServersideChatCommandView {
    pub command: Seq<char>,
}

impl DeepView for ServersideChatCommand {
    type V = ServersideChatCommandView;

    open spec fn deep_view(&self) -> ServersideChatCommandView {
        ServersideChatCommandView {
            command: self.command.deep_view(),
        }
    }
}

impl ServersideChatCommand {
    /// What reading a [`ServersideChatCommand`] at `pos` yields, and the position after it.
    pub open spec fn spec_parse(s: Seq<u8>, pos: int) -> Option<(ServersideChatCommandView, int)> {
        match <String as Buffer>::spec_parse(s, pos) {
            Some((command, p0)) => Some((ServersideChatCommandView { command }, p0)),
            None => None,
        }
    }

    /// The bytes that writing a [`ServersideChatCommand`] appends.
    pub open spec fn spec_serialize(v: ServersideChatCommandView) -> Seq<u8> {
        <String as Buffer>::spec_serialize(v.command)
    }

    /// The contents that read back as written: every length fits its `VarInt` prefix.
    pub open spec fn spec_wf(v: ServersideChatCommandView) -> bool {
        <String as Buffer>::spec_wf(v.command)
    }

    /// Reading back what writing a [`ServersideChatCommand`] appended gives the same contents, whatever follows.
    pub proof fn lemma_roundtrip(s: Seq<u8>, pos: int, v: ServersideChatCommandView)
        requires
            Self::spec_wf(v),
            holds_at(s, pos, Self::spec_serialize(v)),
        ensures
            Self::spec_parse(s, pos) == Some((v, pos + Self::spec_serialize(v).len())),
    {
        <String as Buffer>::lemma_roundtrip(s, pos, v.command);
    }

    /// Reads a [`ServersideChatCommand`] at the cursor and moves past it.
    pub fn read(buffer: &mut Cursor) -> (res: Option<Self>)
        ensures
            final(buffer).data@ == old(buffer).data@,
            match res {
                Some(v) => Self::spec_parse(old(buffer).data@, old(buffer).position as int) == Some(
                    (v.deep_view(), final(buffer).position as int),
                ),
                None => Self::spec_parse(old(buffer).data@, old(buffer).position as int) is None,
            },
    {
        let command = match <String as Buffer>::read_buf(buffer) {
            Some(x) => x,
            None => {
                return None;
            },
        };
        Some(ServersideChatCommand { command })
    }

    /// Appends the wire form of the [`ServersideChatCommand`].
    pub fn write(&self, buffer: &mut Vec<u8>)
        ensures
            final(buffer)@ == old(buffer)@ + Self::spec_serialize(self.deep_view()),
    {
        self.command.write_buf(buffer);
    }
}

/// A chat message of the player.
#[derive(Clone, Debug, PartialEq)]
pub struct ServersideChatMessage {
    pub message: String,
    pub timestamp: i64,
    pub salt: i64,
    pub signature: Option<Vec<u8>>,
    pub additional_info: AdditionalMessageInfo,
}

/// The content of a [`ServersideChatMessage`] as it goes over the wire.
pub struct ServersideChatMessageView {
    pub message: Seq<char>,
    pub timestamp: i64,
    pub salt: i64,
    pub signature: Option<Seq<u8>>,
    pub additional_info: AdditionalMessageInfoView,
}

impl DeepView for ServersideChatMessage {
    type V = ServersideChatMessageView;

    open spec fn deep_view(&self) -> ServersideChatMessageView {
        ServersideChatMessageView {
            message: self.message.deep_view(),
            timestamp: self.timestamp.deep_view(),
            salt: self.salt.deep_view(),
            signature: self.signature.deep_view(),
            additional_info: self.additional_info.deep_view(),
        }
    }
}

impl ServersideChatMessage {
    /// What reading a [`ServersideChatMessage`] at `pos` yields, and the position after it.
    pub open spec fn spec_parse(s: Seq<u8>, pos: int) -> Option<(ServersideChatMessageView, int)> {
        match <String as Buffer>::spec_parse(s, pos) {
            Some((message, p0)) => match <i64 as Buffer>::spec_parse(s, p0) {
                Some((timestamp, p1)) => match <i64 as Buffer>::spec_parse(s, p1) {
                    Some((salt, p2)) => match parse_flagged::<Vec<u8>>(s, p2) {
                        Some((signature, p3)) => match <AdditionalMessageInfo as Buffer>::spec_parse(s, p3) {
                            Some((additional_info, p4)) => Some((ServersideChatMessageView { message, timestamp, salt, signature, additional_info }, p4)),
                            None => None,
                        },
                        None => None,
                    },
                    None => None,
                },
                None => None,
            },
            None => None,
        }
    }

    /// The bytes that writing a [`ServersideChatMessage`] appends.
    pub open spec fn spec_serialize(v: ServersideChatMessageView) -> Seq<u8> {
        <String as Buffer>::spec_serialize(v.message) + <i64 as Buffer>::spec_serialize(v.timestamp) + <i64 as Buffer>::spec_serialize(v.salt) + serialize_flagged::<Vec<u8>>(v.signature) + <AdditionalMessageInfo as Buffer>::spec_serialize(v.additional_info)
    }

    /// The contents that read back as written: every length fits its `VarInt` prefix.
    pub open spec fn spec_wf(v: ServersideChatMessageView) -> bool {
        <String as Buffer>::spec_wf(v.message) && <i64 as Buffer>::spec_wf(v.timestamp) && <i64 as Buffer>::spec_wf(v.salt) && flagged_wf::<Vec<u8>>(v.signature) && <AdditionalMessageInfo as Buffer>::spec_wf(v.additional_info)
    }

    /// Reading back what writing a [`ServersideChatMessage`] appended gives the same contents, whatever follows.
    pub proof fn lemma_roundtrip(s: Seq<u8>, pos: int, v: ServersideChatMessageView)
        requires
            Self::spec_wf(v),
            holds_at(s, pos, Self::spec_serialize(v)),
        ensures
            Self::spec_parse(s, pos) == Some((v, pos + Self::spec_serialize(v).len())),
    {
        lemma_holds_at_split(s, pos, <String as Buffer>::spec_serialize(v.message) + <i64 as Buffer>::spec_serialize(v.timestamp) + <i64 as Buffer>::spec_serialize(v.salt) + serialize_flagged::<Vec<u8>>(v.signature), <AdditionalMessageInfo as Buffer>::spec_serialize(v.additional_info));
        lemma_holds_at_split(s, pos, <String as Buffer>::spec_serialize(v.message) + <i64 as Buffer>::spec_serialize(v.timestamp) + <i64 as Buffer>::spec_serialize(v.salt), serialize_flagged::<Vec<u8>>(v.signature));
        lemma_holds_at_split(s, pos, <String as Buffer>::spec_serialize(v.message) + <i64 as Buffer>::spec_serialize(v.timestamp), <i64 as Buffer>::spec_serialize(v.salt));
        lemma_holds_at_split(s, pos, <String as Buffer>::spec_serialize(v.message), <i64 as Buffer>::spec_serialize(v.timestamp));
        <String as Buffer>::lemma_roundtrip(s, pos, v.message);
        <i64 as Buffer>::lemma_roundtrip(s, pos + <String as Buffer>::spec_serialize(v.message).len(), v.timestamp);
        <i64 as Buffer>::lemma_roundtrip(s, pos + <String as Buffer>::spec_serialize(v.message).len() + <i64 as Buffer>::spec_serialize(v.timestamp).len(), v.salt);
        lemma_flagged_roundtrip::<Vec<u8>>(s, pos + <String as Buffer>::spec_serialize(v.message).len() + <i64 as Buffer>::spec_serialize(v.timestamp).len() + <i64 as Buffer>::spec_serialize(v.salt).len(), v.signature);
        <AdditionalMessageInfo as Buffer>::lemma_roundtrip(s, pos + <String as Buffer>::spec_serialize(v.message).len() + <i64 as Buffer>::spec_serialize(v.timestamp).len() + <i64 as Buffer>::spec_serialize(v.salt).len() + serialize_flagged::<Vec<u8>>(v.signature).len(), v.additional_info);
    }

    /// Reads a [`ServersideChatMessage`] at the cursor and moves past it.
    pub fn read(buffer: &mut Cursor) -> (res: Option<Self>)
        ensures
            final(buffer).data@ == old(buffer).data@,
            match res {
                Some(v) => Self::spec_parse(old(buffer).data@, old(buffer).position as int) == Some(
                    (v.deep_view(), final(buffer).position as int),
                ),
                None => Self::spec_parse(old(buffer).data@, old(buffer).position as int) is None,
            },
    {
        let message = match <String as Buffer>::read_buf(buffer) {
            Some(x) => x,
            None => {
                return None;
            },
        };
        let timestamp = match <i64 as Buffer>::read_buf(buffer) {
            Some(x) => x,
            None => {
                return None;
            },
        };
        let salt = match <i64 as Buffer>::read_buf(buffer) {
            Some(x) => x,
            None => {
                return None;
            },
        };
        let signature = match read_flagged::<Vec<u8>>(buffer) {
            Some(x) => x,
            None => {
                return None;
            },
        };
        let additional_info = match <AdditionalMessageInfo as Buffer>::read_buf(buffer) {
            Some(x) => x,
            None => {
                return None;
            },
        };
        Some(ServersideChatMessage { message, timestamp, salt, signature, additional_info })
    }

    /// Appends the wire form of the [`ServersideChatMessage`].
    pub fn write(&self, buffer: &mut Vec<u8>)
        ensures
            final(buffer)@ == old(buffer)@ + Self::spec_serialize(self.deep_view()),
    {
        self.message.write_buf(buffer);
        self.timestamp.write_buf(buffer);
        assert(buffer@ =~= old(buffer)@ + (<String as Buffer>::spec_serialize(self.deep_view().message) + <i64 as Buffer>::spec_serialize(self.deep_view().timestamp)));
        self.salt.write_buf(buffer);
        assert(buffer@ =~= old(buffer)@ + (<String as Buffer>::spec_serialize(self.deep_view().message) + <i64 as Buffer>::spec_serialize(self.deep_view().timestamp) + <i64 as Buffer>::spec_serialize(self.deep_view().salt)));
        write_flagged(&self.signature, buffer);
        assert(buffer@ =~= old(buffer)@ + (<String as Buffer>::spec_serialize(self.deep_view().message) + <i64 as Buffer>::spec_serialize(self.deep_view().timestamp) + <i64 as Buffer>::spec_serialize(self.deep_view().salt) + serialize_flagged::<Vec<u8>>(self.deep_view().signature)));
        self.additional_info.write_buf(buffer);
        assert(buffer@ =~= old(buffer)@ + Self::spec_serialize(self.deep_view()));
    }
}

/// The slot that the player holds.
#[derive(Clone, Debug, PartialEq)]
pub struct ServersideSetHeldItem {
    pub slot: i16,
}

/// The content of a [`ServersideSetHeldItem`] as it goes over the wire.
pub struct ServersideSetHeldItemView {
    pub slot: i16,
}

impl DeepView for ServersideSetHeldItem {
    type V = ServersideSetHeldItemView;

    open spec fn deep_view(&self) -> ServersideSetHeldItemView {
        ServersideSetHeldItemView {
            slot: self.slot.deep_view(),
        }
    }
}

impl ServersideSetHeldItem {
    /// What reading a [`ServersideSetHeldItem`] at `pos` yields, and the position after it.
    pub open spec fn spec_parse(s: Seq<u8>, pos: int) -> Option<(ServersideSetHeldItemView, int)> {
        match <i16 as Buffer>::spec_parse(s, pos) {
            Some((slot, p0)) => Some((ServersideSetHeldItemView { slot }, p0)),
            None => None,
        }
    }

    /// The bytes that writing a [`ServersideSetHeldItem`] appends.
    pub open spec fn spec_serialize(v: ServersideSetHeldItemView) -> Seq<u8> {
        <i16 as Buffer>::spec_serialize(v.slot)
    }

    /// The contents that read back as written: every length fits its `VarInt` prefix.
    pub open spec fn spec_wf(v: ServersideSetHeldItemView) -> bool {
        <i16 as Buffer>::spec_wf(v.slot)
    }

    /// Reading back what writing a [`ServersideSetHeldItem`] appended gives the same contents, whatever follows.
    pub proof fn lemma_roundtrip(s: Seq<u8>, pos: int, v: ServersideSetHeldItemView)
        requires
            Self::spec_wf(v),
            holds_at(s, pos, Self::spec_serialize(v)),
        ensures
            Self::spec_parse(s, pos) == Some((v, pos + Self::spec_serialize(v).len())),
    {
        <i16 as Buffer>::lemma_roundtrip(s, pos, v.slot);
    }

    /// Reads a [`ServersideSetHeldItem`] at the cursor and moves past it.
    pub fn read(buffer: &mut Cursor) -> (res: Option<Self>)
        ensures
            final(buffer).data@ == old(buffer).data@,
            match res {
                Some(v) => Self::spec_parse(old(buffer).data@, old(buffer).position as int) == Some(
                    (v.deep_view(), final(buffer).position as int),
                ),
                None => Self::spec_parse(old(buffer).data@, old(buffer).position as int) is None,
            },
    {
        let slot = match <i16 as Buffer>::read_buf(buffer) {
            Some(x) => x,
            None => {
                return None;
            },
        };
        Some(ServersideSetHeldItem { slot })
    }

    /// Appends the wire form of the [`ServersideSetHeldItem`].
    pub fn write(&self, buffer: &mut Vec<u8>)
        ensures
            final(buffer)@ == old(buffer)@ + Self::spec_serialize(self.deep_view()),
    {
        self.slot.write_buf(buffer);
    }
}

/// What became of an offered resource pack.
#[derive(Clone, Debug, PartialEq)]
pub struct ServersideResourcePackResponse {
    pub uuid: Uuid,
    pub state: ResourcePackState,
}

/// The content of a [`ServersideResourcePackResponse`] as it goes over the wire.
pub struct ServersideResourcePackResponseView {
    pub uuid: u128,
    pub state: ResourcePackState,
}

impl DeepView for ServersideResourcePackResponse {
    type V = ServersideResourcePackResponseView;

    open spec fn deep_view(&self) -> ServersideResourcePackResponseView {
        ServersideResourcePackResponseView {
            uuid: self.uuid.deep_view(),
            state: self.state.deep_view(),
        }
    }
}

impl ServersideResourcePackResponse {
    /// What reading a [`ServersideResourcePackResponse`] at `pos` yields, and the position after it.
    pub open spec fn spec_parse(s: Seq<u8>, pos: int) -> Option<(ServersideResourcePackResponseView, int)> {
        match <Uuid as Buffer>::spec_parse(s, pos) {
            Some((uuid, p0)) => match <ResourcePackState as Buffer>::spec_parse(s, p0) {
                Some((state, p1)) => Some((ServersideResourcePackResponseView { uuid, state }, p1)),
                None => None,
            },
            None => None,
        }
    }

    /// The bytes that writing a [`ServersideResourcePackResponse`] appends.
    pub open spec fn spec_serialize(v: ServersideResourcePackResponseView) -> Seq<u8> {
        <Uuid as Buffer>::spec_serialize(v.uuid) + <ResourcePackState as Buffer>::spec_serialize(v.state)
    }

    /// The contents that read back as written: every length fits its `VarInt` prefix.
    pub open spec fn spec_wf(v: ServersideResourcePackResponseView) -> bool {
        <Uuid as Buffer>::spec_wf(v.uuid) && <ResourcePackState as Buffer>::spec_wf(v.state)
    }

    /// Reading back what writing a [`ServersideResourcePackResponse`] appended gives the same contents, whatever follows.
    pub proof fn lemma_roundtrip(s: Seq<u8>, pos: int, v: ServersideResourcePackResponseView)
        requires
            Self::spec_wf(v),
            holds_at(s, pos, Self::spec_serialize(v)),
        ensures
            Self::spec_parse(s, pos) == Some((v, pos + Self::spec_serialize(v).len())),
    {
        lemma_holds_at_split(s, pos, <Uuid as Buffer>::spec_serialize(v.uuid), <ResourcePackState as Buffer>::spec_serialize(v.state));
        <Uuid as Buffer>::lemma_roundtrip(s, pos, v.uuid);
        <ResourcePackState as Buffer>::lemma_roundtrip(s, pos + <Uuid as Buffer>::spec_serialize(v.uuid).len(), v.state);
    }

    /// Reads a [`ServersideResourcePackResponse`] at the cursor and moves past it.
    pub fn read(buffer: &mut Cursor) -> (res: Option<Self>)
        ensures
            final(buffer).data@ == old(buffer).data@,
            match res {
                Some(v) => Self::spec_parse(old(buffer).data@, old(buffer).position as int) == Some(
                    (v.deep_view(), final(buffer).position as int),
                ),
                None => Self::spec_parse(old(buffer).data@, old(buffer).position as int) is None,
            },
    {
        let uuid = match <Uuid as Buffer>::read_buf(buffer) {
            Some(x) => x,
            None => {
                return None;
            },
        };
        let state = match <ResourcePackState as Buffer>::read_buf(buffer) {
            Some(x) => x,
            None => {
                return None;
            },
        };
        Some(ServersideResourcePackResponse { uuid, state })
    }

    /// Appends the wire form of the [`ServersideResourcePackResponse`].
    pub fn write(&self, buffer: &mut Vec<u8>)
        ensures
            final(buffer)@ == old(buffer)@ + Self::spec_serialize(self.deep_view()),
    {
        self.uuid.write_buf(buffer);
        self.state.write_buf(buffer);
        assert(buffer@ =~= old(buffer)@ + Self::spec_serialize(self.deep_view()));
    }
}

impl ServersideResourcePackResponse {
    /// A resource pack response is the identifier of the pack as sixteen bytes, then the
    /// identifier of the state as a `VarInt`; reading takes them in that order.
    pub proof fn lemma_wire_form(v: ServersideResourcePackResponseView, s: Seq<u8>, pos: int)
        ensures
            Self::spec_serialize(v) == uuid_bytes(v.uuid) + spec_varint(v.state.spec_id()),
            Self::spec_parse(s, pos) is Some ==> {
                let (w, q) = Self::spec_parse(s, pos).unwrap();
                &&& <Uuid as Buffer>::spec_parse(s, pos) == Some((w.uuid, pos + 16))
                &&& parse_varint(s, pos + 16) is Some
                &&& parse_varint(s, pos + 16).unwrap().1 == q
                &&& ResourcePackState::spec_from_id(parse_varint(s, pos + 16).unwrap().0) == Some(w.state)
            },
    {
    }
}

} // verus!

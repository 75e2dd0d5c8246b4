use vstd::prelude::*;

use crate::codec::buffer::{be32, be64, parse_be32, parse_be64, Buffer};
use crate::codec::containers::{count_of, flagged_wf, lemma_flagged_roundtrip, lemma_parse_seq_prefix, lemma_rest_roundtrip, lemma_serialize_seq_split, lemma_varint_list_roundtrip, parse_flagged, parse_rest, parse_varint_list, read_flagged, read_rest, read_varint_list, serialize_flagged, serialize_seq, serialize_varint_list, varint_list_stop, varint_list_wf, write_bytes, write_flagged, write_varint_list};
use crate::codec::cursor::{holds_at, lemma_holds_at_split, lemma_holds_at_whole, Cursor};
use crate::codec::string::{lemma_str_cut, spec_str};
use crate::codec::varint::{lemma_varint_i32_roundtrip, parse_varint, spec_varint, varint_end, varint_stop, VarInt};
use crate::codec::uuid::{uuid_bytes, Uuid};
use crate::client::structs::{ClientHand, DisplayedSkinParts};

verus! {

/// What became of a resource pack that the server offered.
#[derive(Clone, Copy, Debug, PartialEq, Eq, Structural)]
pub enum ResourcePackState {
    SuccessfullyLoaded,
    Declined,
    FailedDownload,
    Accepted,
    Downloaded,
    InvalidUrl,
    FailedToReload,
    Discarded,
}

impl ResourcePackState {
    /// The state with the given identifier; an unknown identifier counts as declined.
    pub open spec fn spec_from(value: i32) -> ResourcePackState {
        if value == 0 {
            ResourcePackState::SuccessfullyLoaded
        } else if value == 2 {
            ResourcePackState::FailedDownload
        } else if value == 3 {
            ResourcePackState::Accepted
        } else if value == 4 {
            ResourcePackState::Downloaded
        } else if value == 5 {
            ResourcePackState::InvalidUrl
        } else if value == 6 {
            ResourcePackState::FailedToReload
        } else if value == 7 {
            ResourcePackState::Discarded
        } else {
            ResourcePackState::Declined
        }
    }

    pub open spec fn spec_id(self) -> i32 {
        match self {
            ResourcePackState::SuccessfullyLoaded => 0,
            ResourcePackState::Declined => 1,
            ResourcePackState::FailedDownload => 2,
            ResourcePackState::Accepted => 3,
            ResourcePackState::Downloaded => 4,
            ResourcePackState::InvalidUrl => 5,
            ResourcePackState::FailedToReload => 6,
            ResourcePackState::Discarded => 7,
        }
    }

    /// The state with the given identifier; an unknown identifier counts as declined.
    pub fn from(value: i32) -> (res: ResourcePackState)
        ensures
            res == Self::spec_from(value),
    {
        match value {
            0 => ResourcePackState::SuccessfullyLoaded,
            1 => ResourcePackState::Declined,
            2 => ResourcePackState::FailedDownload,
            3 => ResourcePackState::Accepted,
            4 => ResourcePackState::Downloaded,
            5 => ResourcePackState::InvalidUrl,
            6 => ResourcePackState::FailedToReload,
            7 => ResourcePackState::Discarded,
            _ => ResourcePackState::Declined,
        }
    }

    /// The protocol identifier of the state.
    pub fn id(&self) -> (res: i32)
        ensures
            res == self.spec_id(),
    {
        match self {
            ResourcePackState::SuccessfullyLoaded => 0,
            ResourcePackState::Declined => 1,
            ResourcePackState::FailedDownload => 2,
            ResourcePackState::Accepted => 3,
            ResourcePackState::Downloaded => 4,
            ResourcePackState::InvalidUrl => 5,
            ResourcePackState::FailedToReload => 6,
            ResourcePackState::Discarded => 7,
        }
    }
}

impl DeepView for ResourcePackState {
    type V = ResourcePackState;

    open spec fn deep_view(&self) -> ResourcePackState {
        *self
    }
}

impl Buffer for ResourcePackState {
    /// A `VarInt` identifier; every value is taken.
    open spec fn spec_parse(s: Seq<u8>, pos: int) -> Option<(ResourcePackState, int)> {
        match parse_varint(s, pos) {
            Some((id, p)) => Some((ResourcePackState::spec_from(id), p)),
            None => None,
        }
    }

    open spec fn spec_serialize(v: ResourcePackState) -> Seq<u8> {
        spec_varint(v.spec_id())
    }

    open spec fn spec_wf(v: ResourcePackState) -> bool {
        true
    }

    open spec fn spec_stop(s: Seq<u8>, pos: int) -> int {
        varint_end(s, pos)
    }

    proof fn lemma_roundtrip(s: Seq<u8>, pos: int, v: ResourcePackState) {
        lemma_varint_i32_roundtrip(s, pos, v.spec_id());
    }

    fn read_buf(buffer: &mut Cursor) -> (res: Option<ResourcePackState>) {
        match i32::read_varint(buffer) {
            Some(id) => Some(ResourcePackState::from(id)),
            None => None,
        }
    }

    fn write_buf(&self, buffer: &mut Vec<u8>) {
        self.id().write_varint(buffer);
    }
}

/// The label of a server link: one of the labels that the client knows, or a text.
#[derive(Clone, Debug, PartialEq)]
pub enum ServerLinkLabel {
    BuiltIn(i32),
    Custom(String),
}

/// The content of a [`ServerLinkLabel`] as it goes over the wire.
pub enum ServerLinkLabelView {
    BuiltIn(i32),
    Custom(Seq<char>),
}

impl DeepView for ServerLinkLabel {
    type V = ServerLinkLabelView;

    open spec fn deep_view(&self) -> ServerLinkLabelView {
        match self {
            ServerLinkLabel::BuiltIn(id) => ServerLinkLabelView::BuiltIn(*id),
            ServerLinkLabel::Custom(text) => ServerLinkLabelView::Custom(text@),
        }
    }
}

impl Buffer for ServerLinkLabel {
    /// A flag byte; when set a `VarInt` label identifier follows, else a text.
    open spec fn spec_parse(s: Seq<u8>, pos: int) -> Option<(ServerLinkLabelView, int)> {
        match bool::spec_parse(s, pos) {
            Some((true, p)) => match parse_varint(s, p) {
                Some((id, q)) => Some((ServerLinkLabelView::BuiltIn(id), q)),
                None => None,
            },
            Some((false, p)) => match String::spec_parse(s, p) {
                Some((text, q)) => Some((ServerLinkLabelView::Custom(text), q)),
                None => None,
            },
            None => None,
        }
    }

    open spec fn spec_serialize(v: ServerLinkLabelView) -> Seq<u8> {
        match v {
            ServerLinkLabelView::BuiltIn(id) => seq![1u8] + spec_varint(id),
            ServerLinkLabelView::Custom(text) => seq![0u8] + String::spec_serialize(text),
        }
    }

    open spec fn spec_wf(v: ServerLinkLabelView) -> bool {
        match v {
            ServerLinkLabelView::BuiltIn(_) => true,
            ServerLinkLabelView::Custom(text) => String::spec_wf(text),
        }
    }

    open spec fn spec_stop(s: Seq<u8>, pos: int) -> int {
        match bool::spec_parse(s, pos) {
            Some((true, p)) => varint_stop(s, p),
            Some((false, p)) => String::spec_stop(s, p),
            None => bool::spec_stop(s, pos),
        }
    }

    proof fn lemma_roundtrip(s: Seq<u8>, pos: int, v: ServerLinkLabelView) {
        match v {
            ServerLinkLabelView::BuiltIn(id) => {
                lemma_holds_at_split(s, pos, seq![1u8], spec_varint(id));
                bool::lemma_roundtrip(s, pos, true);
                lemma_varint_i32_roundtrip(s, pos + 1, id);
            },
            ServerLinkLabelView::Custom(text) => {
                lemma_holds_at_split(s, pos, seq![0u8], String::spec_serialize(text));
                bool::lemma_roundtrip(s, pos, false);
                String::lemma_roundtrip(s, pos + 1, text);
            },
        }
    }

    fn read_buf(buffer: &mut Cursor) -> (res: Option<ServerLinkLabel>) {
        let is_built_in = match bool::read_buf(buffer) {
            Some(b) => b,
            None => {
                return None;
            },
        };
        if is_built_in {
            match i32::read_varint(buffer) {
                Some(id) => Some(ServerLinkLabel::BuiltIn(id)),
                None => None,
            }
        } else {
            match String::read_buf(buffer) {
                Some(text) => Some(ServerLinkLabel::Custom(text)),
                None => None,
            }
        }
    }

    fn write_buf(&self, buffer: &mut Vec<u8>) {
        match self {
            ServerLinkLabel::BuiltIn(id) => {
                true.write_buf(buffer);
                id.write_varint(buffer);
            },
            ServerLinkLabel::Custom(text) => {
                false.write_buf(buffer);
                text.write_buf(buffer);
            },
        }
        assert(buffer@ =~= old(buffer)@ + Self::spec_serialize(self.deep_view()));
    }
}

/// A keep-alive exchange, the same packet in both directions.
#[derive(Clone, Debug, PartialEq)]
pub struct MultisideKeepAlive {
    pub id: i64,
}

/// The content of a [`MultisideKeepAlive`] as it goes over the wire.
pub struct MultisideKeepAliveView {
    pub id: i64,
}

impl DeepView for MultisideKeepAlive {
    type V = MultisideKeepAliveView;

    open spec fn deep_view(&self) -> MultisideKeepAliveView {
        MultisideKeepAliveView {
            id: self.id.deep_view(),
        }
    }
}

impl MultisideKeepAlive {
    /// What reading a [`MultisideKeepAlive`] at `pos` yields, and the position after it.
    pub open spec fn spec_parse(s: Seq<u8>, pos: int) -> Option<(MultisideKeepAliveView, int)> {
        match <i64 as Buffer>::spec_parse(s, pos) {
            Some((id, p0)) => Some((MultisideKeepAliveView { id }, p0)),
            None => None,
        }
    }

    /// The bytes that writing a [`MultisideKeepAlive`] appends.
    pub open spec fn spec_serialize(v: MultisideKeepAliveView) -> Seq<u8> {
        <i64 as Buffer>::spec_serialize(v.id)
    }

    /// The contents that read back as written: every length fits its `VarInt` prefix.
    pub open spec fn spec_wf(v: MultisideKeepAliveView) -> bool {
        <i64 as Buffer>::spec_wf(v.id)
    }

    /// Reading back what writing a [`MultisideKeepAlive`] appended gives the same contents, whatever follows.
    pub proof fn lemma_roundtrip(s: Seq<u8>, pos: int, v: MultisideKeepAliveView)
        requires
            Self::spec_wf(v),
            holds_at(s, pos, Self::spec_serialize(v)),
        ensures
            Self::spec_parse(s, pos) == Some((v, pos + Self::spec_serialize(v).len())),
    {
        <i64 as Buffer>::lemma_roundtrip(s, pos, v.id);
    }

    /// Reads a [`MultisideKeepAlive`] at the cursor and moves past it.
    pub fn read(buffer: &mut Cursor) -> (res: Option<Self>)
        ensures
            final(buffer).data@ == old(buffer).data@,
            match res {
                Some(v) => Self::spec_parse(old(buffer).data@, old(buffer).position as int) == Some(
                    (v.deep_view(), final(buffer).position as int),
                ),
                None => Self::spec_parse(old(buffer).data@, old(buffer).position as int) is None,
            },
    {
        let id = match <i64 as Buffer>::read_buf(buffer) {
            Some(x) => x,
            None => {
                return None;
            },
        };
        Some(MultisideKeepAlive { id })
    }

    /// Appends the wire form of the [`MultisideKeepAlive`].
    pub fn write(&self, buffer: &mut Vec<u8>)
        ensures
            final(buffer)@ == old(buffer)@ + Self::spec_serialize(self.deep_view()),
    {
        self.id.write_buf(buffer);
    }
}

impl MultisideKeepAlive {
    /// The body of a keep-alive is its id and nothing else, as eight big-endian bytes; reading
    /// takes the id from the eight bytes at the position, moves past them, and refuses fewer.
    pub proof fn lemma_wire_form(v: MultisideKeepAliveView, s: Seq<u8>, pos: int)
        ensures
            Self::spec_serialize(v) == be64(v.id as u64),
            Self::spec_serialize(v).len() == 8,
            (Self::spec_parse(s, pos) is Some) <==> (0 <= pos && pos + 8 <= s.len()),
            Self::spec_parse(s, pos) is Some ==> {
                &&& Self::spec_parse(s, pos).unwrap().1 == pos + 8
                &&& parse_be64(s, pos) is Some
                &&& Self::spec_parse(s, pos).unwrap().0.id == parse_be64(s, pos).unwrap().0 as i64
            },
    {
    }
}

/// A ping of the server, to be answered with a pong.
#[derive(Clone, Debug, PartialEq)]
pub struct ClientsidePing {
    pub id: i32,
}

/// The content of a [`ClientsidePing`] as it goes over the wire.
pub struct ClientsidePingView {
    pub id: i32,
}

impl DeepView for ClientsidePing {
    type V = ClientsidePingView;

    open spec fn deep_view(&self) -> ClientsidePingView {
        ClientsidePingView {
            id: self.id.deep_view(),
        }
    }
}

impl ClientsidePing {
    /// What reading a [`ClientsidePing`] at `pos` yields, and the position after it.
    pub open spec fn spec_parse(s: Seq<u8>, pos: int) -> Option<(ClientsidePingView, int)> {
        match <i32 as Buffer>::spec_parse(s, pos) {
            Some((id, p0)) => Some((ClientsidePingView { id }, p0)),
            None => None,
        }
    }

    /// The bytes that writing a [`ClientsidePing`] appends.
    pub open spec fn spec_serialize(v: ClientsidePingView) -> Seq<u8> {
        <i32 as Buffer>::spec_serialize(v.id)
    }

    /// The contents that read back as written: every length fits its `VarInt` prefix.
    pub open spec fn spec_wf(v: ClientsidePingView) -> bool {
        <i32 as Buffer>::spec_wf(v.id)
    }

    /// Reading back what writing a [`ClientsidePing`] appended gives the same contents, whatever follows.
    pub proof fn lemma_roundtrip(s: Seq<u8>, pos: int, v: ClientsidePingView)
        requires
            Self::spec_wf(v),
            holds_at(s, pos, Self::spec_serialize(v)),
        ensures
            Self::spec_parse(s, pos) == Some((v, pos + Self::spec_serialize(v).len())),
    {
        <i32 as Buffer>::lemma_roundtrip(s, pos, v.id);
    }

    /// Reads a [`ClientsidePing`] at the cursor and moves past it.
    pub fn read(buffer: &mut Cursor) -> (res: Option<Self>)
        ensures
            final(buffer).data@ == old(buffer).data@,
            match res {
                Some(v) => Self::spec_parse(old(buffer).data@, old(buffer).position as int) == Some(
                    (v.deep_view(), final(buffer).position as int),
                ),
                None => Self::spec_parse(old(buffer).data@, old(buffer).position as int) is None,
            },
    {
        let id = match <i32 as Buffer>::read_buf(buffer) {
            Some(x) => x,
            None => {
                return None;
            },
        };
        Some(ClientsidePing { id })
    }

    /// Appends the wire form of the [`ClientsidePing`].
    pub fn write(&self, buffer: &mut Vec<u8>)
        ensures
            final(buffer)@ == old(buffer)@ + Self::spec_serialize(self.deep_view()),
    {
        self.id.write_buf(buffer);
    }
}

/// The server asks for a stored cookie.
#[derive(Clone, Debug, PartialEq)]
pub struct ClientsideCookieRequest {
    pub key: String,
}

/// The content of a [`ClientsideCookieRequest`] as it goes over the wire.
pub struct ClientsideCookieRequestView {
    pub key: Seq<char>,
}

impl DeepView for ClientsideCookieRequest {
    type V = ClientsideCookieRequestView;

    open spec fn deep_view(&self) -> ClientsideCookieRequestView {
        ClientsideCookieRequestView {
            key: self.key.deep_view(),
        }
    }
}

impl ClientsideCookieRequest {
    /// What reading a [`ClientsideCookieRequest`] at `pos` yields, and the position after it.
    pub open spec fn spec_parse(s: Seq<u8>, pos: int) -> Option<(ClientsideCookieRequestView, int)> {
        match <String as Buffer>::spec_parse(s, pos) {
            Some((key, p0)) => Some((ClientsideCookieRequestView { key }, p0)),
            None => None,
        }
    }

    /// The bytes that writing a [`ClientsideCookieRequest`] appends.
    pub open spec fn spec_serialize(v: ClientsideCookieRequestView) -> Seq<u8> {
        <String as Buffer>::spec_serialize(v.key)
    }

    /// The contents that read back as written: every length fits its `VarInt` prefix.
    pub open spec fn spec_wf(v: ClientsideCookieRequestView) -> bool {
        <String as Buffer>::spec_wf(v.key)
    }

    /// Reading back what writing a [`ClientsideCookieRequest`] appended gives the same contents, whatever follows.
    pub proof fn lemma_roundtrip(s: Seq<u8>, pos: int, v: ClientsideCookieRequestView)
        requires
            Self::spec_wf(v),
            holds_at(s, pos, Self::spec_serialize(v)),
        ensures
            Self::spec_parse(s, pos) == Some((v, pos + Self::spec_serialize(v).len())),
    {
        <String as Buffer>::lemma_roundtrip(s, pos, v.key);
    }

    /// Reads a [`ClientsideCookieRequest`] at the cursor and moves past it.
    pub fn read(buffer: &mut Cursor) -> (res: Option<Self>)
        ensures
            final(buffer).data@ == old(buffer).data@,
            match res {
                Some(v) => Self::spec_parse(old(buffer).data@, old(buffer).position as int) == Some(
                    (v.deep_view(), final(buffer).position as int),
                ),
                None => Self::spec_parse(old(buffer).data@, old(buffer).position as int) is None,
            },
    {
        let key = match <String as Buffer>::read_buf(buffer) {
            Some(x) => x,
            None => {
                return None;
            },
        };
        Some(ClientsideCookieRequest { key })
    }

    /// Appends the wire form of the [`ClientsideCookieRequest`].
    pub fn write(&self, buffer: &mut Vec<u8>)
        ensures
            final(buffer)@ == old(buffer)@ + Self::spec_serialize(self.deep_view()),
    {
        self.key.write_buf(buffer);
    }
}

impl ClientsideCookieRequest {
    /// A cookie request cut short anywhere does not read.
    pub proof fn lemma_cut(v: ClientsideCookieRequestView, k: int)
        requires
            Self::spec_wf(v),
            0 <= k < Self::spec_serialize(v).len(),
        ensures
            Self::spec_parse(Self::spec_serialize(v).take(k), 0) is None,
    {
        let s = Self::spec_serialize(v).take(k);
        lemma_holds_at_whole(s);
        lemma_str_cut(s, 0, v.key);
    }
}

/// A message on a plugin channel; its data runs to the end of the packet.
#[derive(Clone, Debug, PartialEq)]
pub struct ClientsidePluginMessage {
    pub channel: String,
    pub data: Vec<u8>,
}

/// The content of a [`ClientsidePluginMessage`] as it goes over the wire.
pub struct ClientsidePluginMessageView {
    pub channel: Seq<char>,
    pub data: Seq<u8>,
}

impl DeepView for ClientsidePluginMessage {
    type V = ClientsidePluginMessageView;

    open spec fn deep_view(&self) -> ClientsidePluginMessageView {
        ClientsidePluginMessageView {
            channel: self.channel.deep_view(),
            data: self.data@,
        }
    }
}

impl ClientsidePluginMessage {
    /// What reading a [`ClientsidePluginMessage`] at `pos` yields, and the position after it.
    pub open spec fn spec_parse(s: Seq<u8>, pos: int) -> Option<(ClientsidePluginMessageView, int)> {
        match <String as Buffer>::spec_parse(s, pos) {
            Some((channel, p0)) => match parse_rest(s, p0) {
                Some((data, p1)) => Some((ClientsidePluginMessageView { channel, data }, p1)),
                None => None,
            },
            None => None,
        }
    }

    /// The bytes that writing a [`ClientsidePluginMessage`] appends.
    pub open spec fn spec_serialize(v: ClientsidePluginMessageView) -> Seq<u8> {
        <String as Buffer>::spec_serialize(v.channel) + v.data
    }

    /// The contents that read back as written: every length fits its `VarInt` prefix.
    pub open spec fn spec_wf(v: ClientsidePluginMessageView) -> bool {
        <String as Buffer>::spec_wf(v.channel)
    }

    /// Reading back what writing a [`ClientsidePluginMessage`] appended gives the same contents, when the bytes run to the end of the input.
    pub proof fn lemma_roundtrip(s: Seq<u8>, pos: int, v: ClientsidePluginMessageView)
        requires
            Self::spec_wf(v),
            holds_at(s, pos, Self::spec_serialize(v)),
            s.len() == pos + Self::spec_serialize(v).len(),
        ensures
            Self::spec_parse(s, pos) == Some((v, pos + Self::spec_serialize(v).len())),
    {
        lemma_holds_at_split(s, pos, <String as Buffer>::spec_serialize(v.channel), v.data);
        <String as Buffer>::lemma_roundtrip(s, pos, v.channel);
        lemma_rest_roundtrip(s, pos + <String as Buffer>::spec_serialize(v.channel).len(), v.data);
    }

    /// Reads a [`ClientsidePluginMessage`] at the cursor and moves past it.
    pub fn read(buffer: &mut Cursor) -> (res: Option<Self>)
        ensures
            final(buffer).data@ == old(buffer).data@,
            match res {
                Some(v) => Self::spec_parse(old(buffer).data@, old(buffer).position as int) == Some(
                    (v.deep_view(), final(buffer).position as int),
                ),
                None => Self::spec_parse(old(buffer).data@, old(buffer).position as int) is None,
            },
    {
        let channel = match <String as Buffer>::read_buf(buffer) {
            Some(x) => x,
            None => {
                return None;
            },
        };
        let data = match Some(read_rest(buffer)) {
            Some(x) => x,
            None => {
                return None;
            },
        };
        Some(ClientsidePluginMessage { channel, data })
    }

    /// Appends the wire form of the [`ClientsidePluginMessage`].
    pub fn write(&self, buffer: &mut Vec<u8>)
        ensures
            final(buffer)@ == old(buffer)@ + Self::spec_serialize(self.deep_view()),
    {
        self.channel.write_buf(buffer);
        write_bytes(&self.data, buffer);
        assert(buffer@ =~= old(buffer)@ + Self::spec_serialize(self.deep_view()));
    }
}

/// The server ends the connection; the reason runs to the end of the packet.
#[derive(Clone, Debug, PartialEq)]
pub struct ClientsideDisconnect {
    pub reason: Vec<u8>,
}

/// The content of a [`ClientsideDisconnect`] as it goes over the wire.
pub struct ClientsideDisconnectView {
    pub reason: Seq<u8>,
}

impl DeepView for ClientsideDisconnect {
    type V = ClientsideDisconnectView;

    open spec fn deep_view(&self) -> ClientsideDisconnectView {
        ClientsideDisconnectView {
            reason: self.reason@,
        }
    }
}

impl ClientsideDisconnect {
    /// What reading a [`ClientsideDisconnect`] at `pos` yields, and the position after it.
    pub open spec fn spec_parse(s: Seq<u8>, pos: int) -> Option<(ClientsideDisconnectView, int)> {
        match parse_rest(s, pos) {
            Some((reason, p0)) => Some((ClientsideDisconnectView { reason }, p0)),
            None => None,
        }
    }

    /// The bytes that writing a [`ClientsideDisconnect`] appends.
    pub open spec fn spec_serialize(v: ClientsideDisconnectView) -> Seq<u8> {
        v.reason
    }

    /// The contents that read back as written: every length fits its `VarInt` prefix.
    pub open spec fn spec_wf(v: ClientsideDisconnectView) -> bool {
        true
    }

    /// Reading back what writing a [`ClientsideDisconnect`] appended gives the same contents, when the bytes run to the end of the input.
    pub proof fn lemma_roundtrip(s: Seq<u8>, pos: int, v: ClientsideDisconnectView)
        requires
            Self::spec_wf(v),
            holds_at(s, pos, Self::spec_serialize(v)),
            s.len() == pos + Self::spec_serialize(v).len(),
        ensures
            Self::spec_parse(s, pos) == Some((v, pos + Self::spec_serialize(v).len())),
    {
        lemma_rest_roundtrip(s, pos, v.reason);
    }

    /// Reads a [`ClientsideDisconnect`] at the cursor and moves past it.
    pub fn read(buffer: &mut Cursor) -> (res: Option<Self>)
        ensures
            final(buffer).data@ == old(buffer).data@,
            match res {
                Some(v) => Self::spec_parse(old(buffer).data@, old(buffer).position as int) == Some(
                    (v.deep_view(), final(buffer).position as int),
                ),
                None => Self::spec_parse(old(buffer).data@, old(buffer).position as int) is None,
            },
    {
        let reason = match Some(read_rest(buffer)) {
            Some(x) => x,
            None => {
                return None;
            },
        };
        Some(ClientsideDisconnect { reason })
    }

    /// Appends the wire form of the [`ClientsideDisconnect`].
    pub fn write(&self, buffer: &mut Vec<u8>)
        ensures
            final(buffer)@ == old(buffer)@ + Self::spec_serialize(self.deep_view()),
    {
        write_bytes(&self.reason, buffer);
    }
}

/// The server ends the configuration.
#[derive(Clone, Debug, PartialEq)]
pub struct ClientsideFinishConfiguration;

/// The content of a [`ClientsideFinishConfiguration`] as it goes over the wire.
pub struct ClientsideFinishConfigurationView {}

impl DeepView for ClientsideFinishConfiguration {
    type V = ClientsideFinishConfigurationView;

    open spec fn deep_view(&self) -> ClientsideFinishConfigurationView {
        ClientsideFinishConfigurationView {  }
    }
}

impl ClientsideFinishConfiguration {
    /// What reading a [`ClientsideFinishConfiguration`] at `pos` yields, and the position after it.
    pub open spec fn spec_parse(s: Seq<u8>, pos: int) -> Option<(ClientsideFinishConfigurationView, int)> {
        Some((ClientsideFinishConfigurationView {  }, pos))
    }

    /// The bytes that writing a [`ClientsideFinishConfiguration`] appends.
    pub open spec fn spec_serialize(v: ClientsideFinishConfigurationView) -> Seq<u8> {
        Seq::empty()
    }

    /// The contents that read back as written: every length fits its `VarInt` prefix.
    pub open spec fn spec_wf(v: ClientsideFinishConfigurationView) -> bool {
        true
    }

    /// Reading back what writing a [`ClientsideFinishConfiguration`] appended gives the same contents, whatever follows.
    pub proof fn lemma_roundtrip(s: Seq<u8>, pos: int, v: ClientsideFinishConfigurationView)
        requires
            Self::spec_wf(v),
            holds_at(s, pos, Self::spec_serialize(v)),
        ensures
            Self::spec_parse(s, pos) == Some((v, pos + Self::spec_serialize(v).len())),
    {
    }

    /// Reads a [`ClientsideFinishConfiguration`] at the cursor and moves past it.
    pub fn read(buffer: &mut Cursor) -> (res: Option<Self>)
        ensures
            final(buffer).data@ == old(buffer).data@,
            match res {
                Some(v) => Self::spec_parse(old(buffer).data@, old(buffer).position as int) == Some(
                    (v.deep_view(), final(buffer).position as int),
                ),
                None => Self::spec_parse(old(buffer).data@, old(buffer).position as int) is None,
            },
    {
        Some(ClientsideFinishConfiguration)
    }

    /// Appends the wire form of the [`ClientsideFinishConfiguration`].
    pub fn write(&self, buffer: &mut Vec<u8>)
        ensures
            final(buffer)@ == old(buffer)@ + Self::spec_serialize(self.deep_view()),
    {
        assert(buffer@ =~= old(buffer)@ + Self::spec_serialize(self.deep_view()));
    }
}

/// The server resets the chat.
#[derive(Clone, Debug, PartialEq)]
pub struct ClientsideResetChat;

/// The content of a [`ClientsideResetChat`] as it goes over the wire.
pub struct ClientsideResetChatView {}

impl DeepView for ClientsideResetChat {
    type V = ClientsideResetChatView;

    open spec fn deep_view(&self) -> ClientsideResetChatView {
        ClientsideResetChatView {  }
    }
}

impl ClientsideResetChat {
    /// What reading a [`ClientsideResetChat`] at `pos` yields, and the position after it.
    pub open spec fn spec_parse(s: Seq<u8>, pos: int) -> Option<(ClientsideResetChatView, int)> {
        Some((ClientsideResetChatView {  }, pos))
    }

    /// The bytes that writing a [`ClientsideResetChat`] appends.
    pub open spec fn spec_serialize(v: ClientsideResetChatView) -> Seq<u8> {
        Seq::empty()
    }

    /// The contents that read back as written: every length fits its `VarInt` prefix.
    pub open spec fn spec_wf(v: ClientsideResetChatView) -> bool {
        true
    }

    /// Reading back what writing a [`ClientsideResetChat`] appended gives the same contents, whatever follows.
    pub proof fn lemma_roundtrip(s: Seq<u8>, pos: int, v: ClientsideResetChatView)
        requires
            Self::spec_wf(v),
            holds_at(s, pos, Self::spec_serialize(v)),
        ensures
            Self::spec_parse(s, pos) == Some((v, pos + Self::spec_serialize(v).len())),
    {
    }

    /// Reads a [`ClientsideResetChat`] at the cursor and moves past it.
    pub fn read(buffer: &mut Cursor) -> (res: Option<Self>)
        ensures
            final(buffer).data@ == old(buffer).data@,
            match res {
                Some(v) => Self::spec_parse(old(buffer).data@, old(buffer).position as int) == Some(
                    (v.deep_view(), final(buffer).position as int),
                ),
                None => Self::spec_parse(old(buffer).data@, old(buffer).position as int) is None,
            },
    {
        Some(ClientsideResetChat)
    }

    /// Appends the wire form of the [`ClientsideResetChat`].
    pub fn write(&self, buffer: &mut Vec<u8>)
        ensures
            final(buffer)@ == old(buffer)@ + Self::spec_serialize(self.deep_view()),
    {
        assert(buffer@ =~= old(buffer)@ + Self::spec_serialize(self.deep_view()));
    }
}

/// Registry data; the raw data runs to the end of the packet.
#[derive(Clone, Debug, PartialEq)]
pub struct ClientsideRegistryData {
    pub registry_id: String,
    pub raw_data: Vec<u8>,
}

/// The content of a [`ClientsideRegistryData`] as it goes over the wire.
pub struct ClientsideRegistryDataView {
    pub registry_id: Seq<char>,
    pub raw_data: Seq<u8>,
}

impl DeepView for ClientsideRegistryData {
    type V = ClientsideRegistryDataView;

    open spec fn deep_view(&self) -> ClientsideRegistryDataView {
        ClientsideRegistryDataView {
            registry_id: self.registry_id.deep_view(),
            raw_data: self.raw_data@,
        }
    }
}

impl ClientsideRegistryData {
    /// What reading a [`ClientsideRegistryData`] at `pos` yields, and the position after it.
    pub open spec fn spec_parse(s: Seq<u8>, pos: int) -> Option<(ClientsideRegistryDataView, int)> {
        match <String as Buffer>::spec_parse(s, pos) {
            Some((registry_id, p0)) => match parse_rest(s, p0) {
                Some((raw_data, p1)) => Some((ClientsideRegistryDataView { registry_id, raw_data }, p1)),
                None => None,
            },
            None => None,
        }
    }

    /// The bytes that writing a [`ClientsideRegistryData`] appends.
    pub open spec fn spec_serialize(v: ClientsideRegistryDataView) -> Seq<u8> {
        <String as Buffer>::spec_serialize(v.registry_id) + v.raw_data
    }

    /// The contents that read back as written: every length fits its `VarInt` prefix.
    pub open spec fn spec_wf(v: ClientsideRegistryDataView) -> bool {
        <String as Buffer>::spec_wf(v.registry_id)
    }

    /// Reading back what writing a [`ClientsideRegistryData`] appended gives the same contents, when the bytes run to the end of the input.
    pub proof fn lemma_roundtrip(s: Seq<u8>, pos: int, v: ClientsideRegistryDataView)
        requires
            Self::spec_wf(v),
            holds_at(s, pos, Self::spec_serialize(v)),
            s.len() == pos + Self::spec_serialize(v).len(),
        ensures
            Self::spec_parse(s, pos) == Some((v, pos + Self::spec_serialize(v).len())),
    {
        lemma_holds_at_split(s, pos, <String as Buffer>::spec_serialize(v.registry_id), v.raw_data);
        <String as Buffer>::lemma_roundtrip(s, pos, v.registry_id);
        lemma_rest_roundtrip(s, pos + <String as Buffer>::spec_serialize(v.registry_id).len(), v.raw_data);
    }

    /// Reads a [`ClientsideRegistryData`] at the cursor and moves past it.
    pub fn read(buffer: &mut Cursor) -> (res: Option<Self>)
        ensures
            final(buffer).data@ == old(buffer).data@,
            match res {
                Some(v) => Self::spec_parse(old(buffer).data@, old(buffer).position as int) == Some(
                    (v.deep_view(), final(buffer).position as int),
                ),
                None => Self::spec_parse(old(buffer).data@, old(buffer).position as int) is None,
            },
    {
        let registry_id = match <String as Buffer>::read_buf(buffer) {
            Some(x) => x,
            None => {
                return None;
            },
        };
        let raw_data = match Some(read_rest(buffer)) {
            Some(x) => x,
            None => {
                return None;
            },
        };
        Some(ClientsideRegistryData { registry_id, raw_data })
    }

    /// Appends the wire form of the [`ClientsideRegistryData`].
    pub fn write(&self, buffer: &mut Vec<u8>)
        ensures
            final(buffer)@ == old(buffer)@ + Self::spec_serialize(self.deep_view()),
    {
        self.registry_id.write_buf(buffer);
        write_bytes(&self.raw_data, buffer);
        assert(buffer@ =~= old(buffer)@ + Self::spec_serialize(self.deep_view()));
    }
}

/// The server removes one resource pack, or all of them.
#[derive(Clone, Debug, PartialEq)]
pub struct ClientsideRemoveResourcePack {
    pub uuid: Option<Uuid>,
}

/// The content of a [`ClientsideRemoveResourcePack`] as it goes over the wire.
pub struct ClientsideRemoveResourcePackView {
    pub uuid: Option<u128>,
}

impl DeepView for ClientsideRemoveResourcePack {
    type V = ClientsideRemoveResourcePackView;

    open spec fn deep_view(&self) -> ClientsideRemoveResourcePackView {
        ClientsideRemoveResourcePackView {
            uuid: self.uuid.deep_view(),
        }
    }
}

impl ClientsideRemoveResourcePack {
    /// What reading a [`ClientsideRemoveResourcePack`] at `pos` yields, and the position after it.
    pub open spec fn spec_parse(s: Seq<u8>, pos: int) -> Option<(ClientsideRemoveResourcePackView, int)> {
        match parse_flagged::<Uuid>(s, pos) {
            Some((uuid, p0)) => Some((ClientsideRemoveResourcePackView { uuid }, p0)),
            None => None,
        }
    }

    /// The bytes that writing a [`ClientsideRemoveResourcePack`] appends.
    pub open spec fn spec_serialize(v: ClientsideRemoveResourcePackView) -> Seq<u8> {
        serialize_flagged::<Uuid>(v.uuid)
    }

    /// The contents that read back as written: every length fits its `VarInt` prefix.
    pub open spec fn spec_wf(v: ClientsideRemoveResourcePackView) -> bool {
        flagged_wf::<Uuid>(v.uuid)
    }

    /// Reading back what writing a [`ClientsideRemoveResourcePack`] appended gives the same contents, whatever follows.
    pub proof fn lemma_roundtrip(s: Seq<u8>, pos: int, v: ClientsideRemoveResourcePackView)
        requires
            Self::spec_wf(v),
            holds_at(s, pos, Self::spec_serialize(v)),
        ensures
            Self::spec_parse(s, pos) == Some((v, pos + Self::spec_serialize(v).len())),
    {
        lemma_flagged_roundtrip::<Uuid>(s, pos, v.uuid);
    }

    /// Reads a [`ClientsideRemoveResourcePack`] at the cursor and moves past it.
    pub fn read(buffer: &mut Cursor) -> (res: Option<Self>)
        ensures
            final(buffer).data@ == old(buffer).data@,
            match res {
                Some(v) => Self::spec_parse(old(buffer).data@, old(buffer).position as int) == Some(
                    (v.deep_view(), final(buffer).position as int),
                ),
                None => Self::spec_parse(old(buffer).data@, old(buffer).position as int) is None,
            },
    {
        let uuid = match read_flagged::<Uuid>(buffer) {
            Some(x) => x,
            None => {
                return None;
            },
        };
        Some(ClientsideRemoveResourcePack { uuid })
    }

    /// Appends the wire form of the [`ClientsideRemoveResourcePack`].
    pub fn write(&self, buffer: &mut Vec<u8>)
        ensures
            final(buffer)@ == old(buffer)@ + Self::spec_serialize(self.deep_view()),
    {
        write_flagged(&self.uuid, buffer);
    }
}

/// The server offers a resource pack.
#[derive(Clone, Debug, PartialEq)]
pub struct ClientsideAddResourcePack {
    pub uuid: Uuid,
    pub url: String,
    pub hash: String,
    pub forced: bool,
    pub prompt_message: Option<String>,
}

/// The content of a [`ClientsideAddResourcePack`] as it goes over the wire.
pub struct ClientsideAddResourcePackView {
    pub uuid: u128,
    pub url: Seq<char>,
    pub hash: Seq<char>,
    pub forced: bool,
    pub prompt_message: Option<Seq<char>>,
}

impl DeepView for ClientsideAddResourcePack {
    type V = ClientsideAddResourcePackView;

    open spec fn deep_view(&self) -> ClientsideAddResourcePackView {
        ClientsideAddResourcePackView {
            uuid: self.uuid.deep_view(),
            url: self.url.deep_view(),
            hash: self.hash.deep_view(),
            forced: self.forced.deep_view(),
            prompt_message: self.prompt_message.deep_view(),
        }
    }
}

impl ClientsideAddResourcePack {
    /// What reading a [`ClientsideAddResourcePack`] at `pos` yields, and the position after it.
    pub open spec fn spec_parse(s: Seq<u8>, pos: int) -> Option<(ClientsideAddResourcePackView, int)> {
        match <Uuid as Buffer>::spec_parse(s, pos) {
            Some((uuid, p0)) => match <String as Buffer>::spec_parse(s, p0) {
                Some((url, p1)) => match <String as Buffer>::spec_parse(s, p1) {
                    Some((hash, p2)) => match <bool as Buffer>::spec_parse(s, p2) {
                        Some((forced, p3)) => match parse_flagged::<String>(s, p3) {
                            Some((prompt_message, p4)) => Some((ClientsideAddResourcePackView { uuid, url, hash, forced, prompt_message }, p4)),
                            None => None,
                        },
                        None => None,
                    },
                    None => None,
                },
                None => None,
            },
            None => None,
        }
    }

    /// The bytes that writing a [`ClientsideAddResourcePack`] appends.
    pub open spec fn spec_serialize(v: ClientsideAddResourcePackView) -> Seq<u8> {
        <Uuid as Buffer>::spec_serialize(v.uuid) + <String as Buffer>::spec_serialize(v.url) + <String as Buffer>::spec_serialize(v.hash) + <bool as Buffer>::spec_serialize(v.forced) + serialize_flagged::<String>(v.prompt_message)
    }

    /// The contents that read back as written: every length fits its `VarInt` prefix.
    pub open spec fn spec_wf(v: ClientsideAddResourcePackView) -> bool {
        <Uuid as Buffer>::spec_wf(v.uuid) && <String as Buffer>::spec_wf(v.url) && <String as Buffer>::spec_wf(v.hash) && <bool as Buffer>::spec_wf(v.forced) && flagged_wf::<String>(v.prompt_message)
    }

    /// Reading back what writing a [`ClientsideAddResourcePack`] appended gives the same contents, whatever follows.
    pub proof fn lemma_roundtrip(s: Seq<u8>, pos: int, v: ClientsideAddResourcePackView)
        requires
            Self::spec_wf(v),
            holds_at(s, pos, Self::spec_serialize(v)),
        ensures
            Self::spec_parse(s, pos) == Some((v, pos + Self::spec_serialize(v).len())),
    {
        lemma_holds_at_split(s, pos, <Uuid as Buffer>::spec_serialize(v.uuid) + <String as Buffer>::spec_serialize(v.url) + <String as Buffer>::spec_serialize(v.hash) + <bool as Buffer>::spec_serialize(v.forced), serialize_flagged::<String>(v.prompt_message));
        lemma_holds_at_split(s, pos, <Uuid as Buffer>::spec_serialize(v.uuid) + <String as Buffer>::spec_serialize(v.url) + <String as Buffer>::spec_serialize(v.hash), <bool as Buffer>::spec_serialize(v.forced));
        lemma_holds_at_split(s, pos, <Uuid as Buffer>::spec_serialize(v.uuid) + <String as Buffer>::spec_serialize(v.url), <String as Buffer>::spec_serialize(v.hash));
        lemma_holds_at_split(s, pos, <Uuid as Buffer>::spec_serialize(v.uuid), <String as Buffer>::spec_serialize(v.url));
        <Uuid as Buffer>::lemma_roundtrip(s, pos, v.uuid);
        <String as Buffer>::lemma_roundtrip(s, pos + <Uuid as Buffer>::spec_serialize(v.uuid).len(), v.url);
        <String as Buffer>::lemma_roundtrip(s, pos + <Uuid as Buffer>::spec_serialize(v.uuid).len() + <String as Buffer>::spec_serialize(v.url).len(), v.hash);
        <bool as Buffer>::lemma_roundtrip(s, pos + <Uuid as Buffer>::spec_serialize(v.uuid).len() + <String as Buffer>::spec_serialize(v.url).len() + <String as Buffer>::spec_serialize(v.hash).len(), v.forced);
        lemma_flagged_roundtrip::<String>(s, pos + <Uuid as Buffer>::spec_serialize(v.uuid).len() + <String as Buffer>::spec_serialize(v.url).len() + <String as Buffer>::spec_serialize(v.hash).len() + <bool as Buffer>::spec_serialize(v.forced).len(), v.prompt_message);
    }

    /// Reads a [`ClientsideAddResourcePack`] at the cursor and moves past it.
    pub fn read(buffer: &mut Cursor) -> (res: Option<Self>)
        ensures
            final(buffer).data@ == old(buffer).data@,
            match res {
                Some(v) => Self::spec_parse(old(buffer).data@, old(buffer).position as int) == Some(
                    (v.deep_view(), final(buffer).position as int),
                ),
                None => Self::spec_parse(old(buffer).data@, old(buffer).position as int) is None,
            },
    {
        let uuid = match <Uuid as Buffer>::read_buf(buffer) {
            Some(x) => x,
            None => {
                return None;
            },
        };
        let url = match <String as Buffer>::read_buf(buffer) {
            Some(x) => x,
            None => {
                return None;
            },
        };
        let hash = match <String as Buffer>::read_buf(buffer) {
            Some(x) => x,
            None => {
                return None;
            },
        };
        let forced = match <bool as Buffer>::read_buf(buffer) {
            Some(x) => x,
            None => {
                return None;
            },
        };
        let prompt_message = match read_flagged::<String>(buffer) {
            Some(x) => x,
            None => {
                return None;
            },
        };
        Some(ClientsideAddResourcePack { uuid, url, hash, forced, prompt_message })
    }

    /// Appends the wire form of the [`ClientsideAddResourcePack`].
    pub fn write(&self, buffer: &mut Vec<u8>)
        ensures
            final(buffer)@ == old(buffer)@ + Self::spec_serialize(self.deep_view()),
    {
        self.uuid.write_buf(buffer);
        self.url.write_buf(buffer);
        assert(buffer@ =~= old(buffer)@ + (<Uuid as Buffer>::spec_serialize(self.deep_view().uuid) + <String as Buffer>::spec_serialize(self.deep_view().url)));
        self.hash.write_buf(buffer);
        assert(buffer@ =~= old(buffer)@ + (<Uuid as Buffer>::spec_serialize(self.deep_view().uuid) + <String as Buffer>::spec_serialize(self.deep_view().url) + <String as Buffer>::spec_serialize(self.deep_view().hash)));
        self.forced.write_buf(buffer);
        assert(buffer@ =~= old(buffer)@ + (<Uuid as Buffer>::spec_serialize(self.deep_view().uuid) + <String as Buffer>::spec_serialize(self.deep_view().url) + <String as Buffer>::spec_serialize(self.deep_view().hash) + <bool as Buffer>::spec_serialize(self.deep_view().forced)));
        write_flagged(&self.prompt_message, buffer);
        assert(buffer@ =~= old(buffer)@ + Self::spec_serialize(self.deep_view()));
    }
}

impl ClientsideAddResourcePack {
    /// An offered resource pack starts with its identifier as sixteen bytes, then its address
    /// as a string: reading takes the identifier from the first sixteen bytes and the address
    /// right after them, and writing gives them in that order.
    pub proof fn lemma_wire_form(v: ClientsideAddResourcePackView, s: Seq<u8>, pos: int)
        ensures
            Self::spec_serialize(v).take(16) == uuid_bytes(v.uuid),
            Self::spec_serialize(v).subrange(16, 16 + spec_str(v.url).len() as int) == spec_str(v.url),
            Self::spec_parse(s, pos) is Some ==> {
                let w = Self::spec_parse(s, pos).unwrap().0;
                &&& <Uuid as Buffer>::spec_parse(s, pos) == Some((w.uuid, pos + 16))
                &&& <String as Buffer>::spec_parse(s, pos + 16) is Some
                &&& <String as Buffer>::spec_parse(s, pos + 16).unwrap().0 == w.url
            },
    {
        let a = uuid_bytes(v.uuid);
        let b = spec_str(v.url);
        let t = Self::spec_serialize(v);
        assert(a.len() == 16);
        assert(t.take(16) =~= a);
        assert(t.subrange(16, 16 + b.len() as int) =~= b);
    }
}

/// The server stores a cookie.
#[derive(Clone, Debug, PartialEq)]
pub struct ClientsideStoreCookie {
    pub key: String,
    pub payload: Vec<u8>,
}

/// The content of a [`ClientsideStoreCookie`] as it goes over the wire.
pub struct ClientsideStoreCookieView {
    pub key: Seq<char>,
    pub payload: Seq<u8>,
}

impl DeepView for ClientsideStoreCookie {
    type V = ClientsideStoreCookieView;

    open spec fn deep_view(&self) -> ClientsideStoreCookieView {
        ClientsideStoreCookieView {
            key: self.key.deep_view(),
            payload: self.payload.deep_view(),
        }
    }
}

impl ClientsideStoreCookie {
    /// What reading a [`ClientsideStoreCookie`] at `pos` yields, and the position after it.
    pub open spec fn spec_parse(s: Seq<u8>, pos: int) -> Option<(ClientsideStoreCookieView, int)> {
        match <String as Buffer>::spec_parse(s, pos) {
            Some((key, p0)) => match <Vec<u8> as Buffer>::spec_parse(s, p0) {
                Some((payload, p1)) => Some((ClientsideStoreCookieView { key, payload }, p1)),
                None => None,
            },
            None => None,
        }
    }

    /// The bytes that writing a [`ClientsideStoreCookie`] appends.
    pub open spec fn spec_serialize(v: ClientsideStoreCookieView) -> Seq<u8> {
        <String as Buffer>::spec_serialize(v.key) + <Vec<u8> as Buffer>::spec_serialize(v.payload)
    }

    /// The contents that read back as written: every length fits its `VarInt` prefix.
    pub open spec fn spec_wf(v: ClientsideStoreCookieView) -> bool {
        <String as Buffer>::spec_wf(v.key) && <Vec<u8> as Buffer>::spec_wf(v.payload)
    }

    /// Reading back what writing a [`ClientsideStoreCookie`] appended gives the same contents, whatever follows.
    pub proof fn lemma_roundtrip(s: Seq<u8>, pos: int, v: ClientsideStoreCookieView)
        requires
            Self::spec_wf(v),
            holds_at(s, pos, Self::spec_serialize(v)),
        ensures
            Self::spec_parse(s, pos) == Some((v, pos + Self::spec_serialize(v).len())),
    {
        lemma_holds_at_split(s, pos, <String as Buffer>::spec_serialize(v.key), <Vec<u8> as Buffer>::spec_serialize(v.payload));
        <String as Buffer>::lemma_roundtrip(s, pos, v.key);
        <Vec<u8> as Buffer>::lemma_roundtrip(s, pos + <String as Buffer>::spec_serialize(v.key).len(), v.payload);
    }

    /// Reads a [`ClientsideStoreCookie`] at the cursor and moves past it.
    pub fn read(buffer: &mut Cursor) -> (res: Option<Self>)
        ensures
            final(buffer).data@ == old(buffer).data@,
            match res {
                Some(v) => Self::spec_parse(old(buffer).data@, old(buffer).position as int) == Some(
                    (v.deep_view(), final(buffer).position as int),
                ),
                None => Self::spec_parse(old(buffer).data@, old(buffer).position as int) is None,
            },
    {
        let key = match <String as Buffer>::read_buf(buffer) {
            Some(x) => x,
            None => {
                return None;
            },
        };
        let payload = match <Vec<u8> as Buffer>::read_buf(buffer) {
            Some(x) => x,
            None => {
                return None;
            },
        };
        Some(ClientsideStoreCookie { key, payload })
    }

    /// Appends the wire form of the [`ClientsideStoreCookie`].
    pub fn write(&self, buffer: &mut Vec<u8>)
        ensures
            final(buffer)@ == old(buffer)@ + Self::spec_serialize(self.deep_view()),
    {
        self.key.write_buf(buffer);
        self.payload.write_buf(buffer);
        assert(buffer@ =~= old(buffer)@ + Self::spec_serialize(self.deep_view()));
    }
}

/// The server sends the client to another server.
#[derive(Clone, Debug, PartialEq)]
pub struct ClientsideTransfer {
    pub server_host: String,
    pub server_port: i32,
}

/// The content of a [`ClientsideTransfer`] as it goes over the wire.
pub struct ClientsideTransferView {
    pub server_host: Seq<char>,
    pub server_port: i32,
}

impl DeepView for ClientsideTransfer {
    type V = ClientsideTransferView;

    open spec fn deep_view(&self) -> ClientsideTransferView {
        ClientsideTransferView {
            server_host: self.server_host.deep_view(),
            server_port: self.server_port,
        }
    }
}

impl ClientsideTransfer {
    /// What reading a [`ClientsideTransfer`] at `pos` yields, and the position after it.
    pub open spec fn spec_parse(s: Seq<u8>, pos: int) -> Option<(ClientsideTransferView, int)> {
        match <String as Buffer>::spec_parse(s, pos) {
            Some((server_host, p0)) => match parse_varint(s, p0) {
                Some((server_port, p1)) => Some((ClientsideTransferView { server_host, server_port }, p1)),
                None => None,
            },
            None => None,
        }
    }

    /// The bytes that writing a [`ClientsideTransfer`] appends.
    pub open spec fn spec_serialize(v: ClientsideTransferView) -> Seq<u8> {
        <String as Buffer>::spec_serialize(v.server_host) + spec_varint(v.server_port)
    }

    /// The contents that read back as written: every length fits its `VarInt` prefix.
    pub open spec fn spec_wf(v: ClientsideTransferView) -> bool {
        <String as Buffer>::spec_wf(v.server_host)
    }

    /// Reading back what writing a [`ClientsideTransfer`] appended gives the same contents, whatever follows.
    pub proof fn lemma_roundtrip(s: Seq<u8>, pos: int, v: ClientsideTransferView)
        requires
            Self::spec_wf(v),
            holds_at(s, pos, Self::spec_serialize(v)),
        ensures
            Self::spec_parse(s, pos) == Some((v, pos + Self::spec_serialize(v).len())),
    {
        lemma_holds_at_split(s, pos, <String as Buffer>::spec_serialize(v.server_host), spec_varint(v.server_port));
        <String as Buffer>::lemma_roundtrip(s, pos, v.server_host);
        lemma_varint_i32_roundtrip(s, pos + <String as Buffer>::spec_serialize(v.server_host).len(), v.server_port);
    }

    /// Reads a [`ClientsideTransfer`] at the cursor and moves past it.
    pub fn read(buffer: &mut Cursor) -> (res: Option<Self>)
        ensures
            final(buffer).data@ == old(buffer).data@,
            match res {
                Some(v) => Self::spec_parse(old(buffer).data@, old(buffer).position as int) == Some(
                    (v.deep_view(), final(buffer).position as int),
                ),
                None => Self::spec_parse(old(buffer).data@, old(buffer).position as int) is None,
            },
    {
        let server_host = match <String as Buffer>::read_buf(buffer) {
            Some(x) => x,
            None => {
                return None;
            },
        };
        let server_port = match i32::read_varint(buffer) {
            Some(x) => x,
            None => {
                return None;
            },
        };
        Some(ClientsideTransfer { server_host, server_port })
    }

    /// Appends the wire form of the [`ClientsideTransfer`].
    pub fn write(&self, buffer: &mut Vec<u8>)
        ensures
            final(buffer)@ == old(buffer)@ + Self::spec_serialize(self.deep_view()),
    {
        self.server_host.write_buf(buffer);
        self.server_port.write_varint(buffer);
        assert(buffer@ =~= old(buffer)@ + Self::spec_serialize(self.deep_view()));
    }
}

/// The feature flags that the server has on.
#[derive(Clone, Debug, PartialEq)]
pub struct ClientsideFeatureFlags {
    pub features: Vec<String>,
}

/// The content of a [`ClientsideFeatureFlags`] as it goes over the wire.
pub struct ClientsideFeatureFlagsView {
    pub features: Seq<Seq<char>>,
}

impl DeepView for ClientsideFeatureFlags {
    type V = ClientsideFeatureFlagsView;

    open spec fn deep_view(&self) -> ClientsideFeatureFlagsView {
        ClientsideFeatureFlagsView {
            features: self.features.deep_view(),
        }
    }
}

impl ClientsideFeatureFlags {
    /// What reading a [`ClientsideFeatureFlags`] at `pos` yields, and the position after it.
    pub open spec fn spec_parse(s: Seq<u8>, pos: int) -> Option<(ClientsideFeatureFlagsView, int)> {
        match <Vec<String> as Buffer>::spec_parse(s, pos) {
            Some((features, p0)) => Some((ClientsideFeatureFlagsView { features }, p0)),
            None => None,
        }
    }

    /// The bytes that writing a [`ClientsideFeatureFlags`] appends.
    pub open spec fn spec_serialize(v: ClientsideFeatureFlagsView) -> Seq<u8> {
        <Vec<String> as Buffer>::spec_serialize(v.features)
    }

    /// The contents that read back as written: every length fits its `VarInt` prefix.
    pub open spec fn spec_wf(v: ClientsideFeatureFlagsView) -> bool {
        <Vec<String> as Buffer>::spec_wf(v.features)
    }

    /// Reading back what writing a [`ClientsideFeatureFlags`] appended gives the same contents, whatever follows.
    pub proof fn lemma_roundtrip(s: Seq<u8>, pos: int, v: ClientsideFeatureFlagsView)
        requires
            Self::spec_wf(v),
            holds_at(s, pos, Self::spec_serialize(v)),
        ensures
            Self::spec_parse(s, pos) == Some((v, pos + Self::spec_serialize(v).len())),
    {
        <Vec<String> as Buffer>::lemma_roundtrip(s, pos, v.features);
    }

    /// Reads a [`ClientsideFeatureFlags`] at the cursor and moves past it.
    pub fn read(buffer: &mut Cursor) -> (res: Option<Self>)
        ensures
            final(buffer).data@ == old(buffer).data@,
            match res {
                Some(v) => Self::spec_parse(old(buffer).data@, old(buffer).position as int) == Some(
                    (v.deep_view(), final(buffer).position as int),
                ),
                None => Self::spec_parse(old(buffer).data@, old(buffer).position as int) is None,
            },
    {
        let features = match <Vec<String> as Buffer>::read_buf(buffer) {
            Some(x) => x,
            None => {
                return None;
            },
        };
        Some(ClientsideFeatureFlags { features })
    }

    /// Appends the wire form of the [`ClientsideFeatureFlags`].
    pub fn write(&self, buffer: &mut Vec<u8>)
        ensures
            final(buffer)@ == old(buffer)@ + Self::spec_serialize(self.deep_view()),
    {
        self.features.write_buf(buffer);
    }
}

/// A named tag and its entries.
#[derive(Clone, Debug, PartialEq)]
pub struct Tag {
    pub name: String,
    pub entries: Vec<i32>,
}

/// The content of a [`Tag`] as it goes over the wire.
pub struct TagView {
    pub name: Seq<char>,
    pub entries: Seq<i32>,
}

impl DeepView for Tag {
    type V = TagView;

    open spec fn deep_view(&self) -> TagView {
        TagView {
            name: self.name.deep_view(),
            entries: self.entries@,
        }
    }
}

impl Buffer for Tag {
    open spec fn spec_parse(s: Seq<u8>, pos: int) -> Option<(TagView, int)> {
        match <String as Buffer>::spec_parse(s, pos) {
            Some((name, p0)) => match parse_varint_list(s, p0) {
                Some((entries, p1)) => Some((TagView { name, entries }, p1)),
                None => None,
            },
            None => None,
        }
    }

    open spec fn spec_serialize(v: TagView) -> Seq<u8> {
        <String as Buffer>::spec_serialize(v.name) + serialize_varint_list(v.entries)
    }

    open spec fn spec_wf(v: TagView) -> bool {
        <String as Buffer>::spec_wf(v.name) && varint_list_wf(v.entries)
    }

    open spec fn spec_stop(s: Seq<u8>, pos: int) -> int {
        match <String as Buffer>::spec_parse(s, pos) {
            Some((_, p0)) => match parse_varint_list(s, p0) {
                Some((_, p1)) => p1,
                None => varint_list_stop(s, p0),
            },
            None => <String as Buffer>::spec_stop(s, pos),
        }
    }

    proof fn lemma_roundtrip(s: Seq<u8>, pos: int, v: TagView) {
        lemma_holds_at_split(s, pos, <String as Buffer>::spec_serialize(v.name), serialize_varint_list(v.entries));
        <String as Buffer>::lemma_roundtrip(s, pos, v.name);
        lemma_varint_list_roundtrip(s, pos + <String as Buffer>::spec_serialize(v.name).len(), v.entries);
    }

    fn read_buf(buffer: &mut Cursor) -> (res: Option<Tag>) {
        let name = match <String as Buffer>::read_buf(buffer) {
            Some(x) => x,
            None => {
                return None;
            },
        };
        let entries = match read_varint_list(buffer) {
            Some(x) => x,
            None => {
                return None;
            },
        };
        Some(Tag { name, entries })
    }

    fn write_buf(&self, buffer: &mut Vec<u8>) {
        self.name.write_buf(buffer);
        write_varint_list(&self.entries, buffer);
        assert(buffer@ =~= old(buffer)@ + Self::spec_serialize(self.deep_view()));
    }
}

/// The tags of one registry.
#[derive(Clone, Debug, PartialEq)]
pub struct TagGroup {
    pub tag_type: String,
    pub tags: Vec<Tag>,
}

/// The content of a [`TagGroup`] as it goes over the wire.
pub struct TagGroupView {
    pub tag_type: Seq<char>,
    pub tags: Seq<TagView>,
}

impl DeepView for TagGroup {
    type V = TagGroupView;

    open spec fn deep_view(&self) -> TagGroupView {
        TagGroupView {
            tag_type: self.tag_type.deep_view(),
            tags: self.tags.deep_view(),
        }
    }
}

impl Buffer for TagGroup {
    open spec fn spec_parse(s: Seq<u8>, pos: int) -> Option<(TagGroupView, int)> {
        match <String as Buffer>::spec_parse(s, pos) {
            Some((tag_type, p0)) => match <Vec<Tag> as Buffer>::spec_parse(s, p0) {
                Some((tags, p1)) => Some((TagGroupView { tag_type, tags }, p1)),
                None => None,
            },
            None => None,
        }
    }

    open spec fn spec_serialize(v: TagGroupView) -> Seq<u8> {
        <String as Buffer>::spec_serialize(v.tag_type) + <Vec<Tag> as Buffer>::spec_serialize(v.tags)
    }

    open spec fn spec_wf(v: TagGroupView) -> bool {
        <String as Buffer>::spec_wf(v.tag_type) && <Vec<Tag> as Buffer>::spec_wf(v.tags)
    }

    open spec fn spec_stop(s: Seq<u8>, pos: int) -> int {
        match <String as Buffer>::spec_parse(s, pos) {
            Some((_, p0)) => match <Vec<Tag> as Buffer>::spec_parse(s, p0) {
                Some((_, p1)) => p1,
                None => <Vec<Tag> as Buffer>::spec_stop(s, p0),
            },
            None => <String as Buffer>::spec_stop(s, pos),
        }
    }

    proof fn lemma_roundtrip(s: Seq<u8>, pos: int, v: TagGroupView) {
        lemma_holds_at_split(s, pos, <String as Buffer>::spec_serialize(v.tag_type), <Vec<Tag> as Buffer>::spec_serialize(v.tags));
        <String as Buffer>::lemma_roundtrip(s, pos, v.tag_type);
        <Vec<Tag> as Buffer>::lemma_roundtrip(s, pos + <String as Buffer>::spec_serialize(v.tag_type).len(), v.tags);
    }

    fn read_buf(buffer: &mut Cursor) -> (res: Option<TagGroup>) {
        let tag_type = match <String as Buffer>::read_buf(buffer) {
            Some(x) => x,
            None => {
                return None;
            },
        };
        let tags = match <Vec<Tag> as Buffer>::read_buf(buffer) {
            Some(x) => x,
            None => {
                return None;
            },
        };
        Some(TagGroup { tag_type, tags })
    }

    fn write_buf(&self, buffer: &mut Vec<u8>) {
        self.tag_type.write_buf(buffer);
        self.tags.write_buf(buffer);
        assert(buffer@ =~= old(buffer)@ + Self::spec_serialize(self.deep_view()));
    }
}

/// The server sends the tags of its registries.
#[derive(Clone, Debug, PartialEq)]
pub struct ClientsideUpdateTags {
    pub tags: Vec<TagGroup>,
}

/// The content of a [`ClientsideUpdateTags`] as it goes over the wire.
pub struct ClientsideUpdateTagsView {
    pub tags: Seq<TagGroupView>,
}

impl DeepView for ClientsideUpdateTags {
    type V = ClientsideUpdateTagsView;

    open spec fn deep_view(&self) -> ClientsideUpdateTagsView {
        ClientsideUpdateTagsView {
            tags: self.tags.deep_view(),
        }
    }
}

impl ClientsideUpdateTags {
    /// What reading a [`ClientsideUpdateTags`] at `pos` yields, and the position after it.
    pub open spec fn spec_parse(s: Seq<u8>, pos: int) -> Option<(ClientsideUpdateTagsView, int)> {
        match <Vec<TagGroup> as Buffer>::spec_parse(s, pos) {
            Some((tags, p0)) => Some((ClientsideUpdateTagsView { tags }, p0)),
            None => None,
        }
    }

    /// The bytes that writing a [`ClientsideUpdateTags`] appends.
    pub open spec fn spec_serialize(v: ClientsideUpdateTagsView) -> Seq<u8> {
        <Vec<TagGroup> as Buffer>::spec_serialize(v.tags)
    }

    /// The contents that read back as written: every length fits its `VarInt` prefix.
    pub open spec fn spec_wf(v: ClientsideUpdateTagsView) -> bool {
        <Vec<TagGroup> as Buffer>::spec_wf(v.tags)
    }

    /// Reading back what writing a [`ClientsideUpdateTags`] appended gives the same contents, whatever follows.
    pub proof fn lemma_roundtrip(s: Seq<u8>, pos: int, v: ClientsideUpdateTagsView)
        requires
            Self::spec_wf(v),
            holds_at(s, pos, Self::spec_serialize(v)),
        ensures
            Self::spec_parse(s, pos) == Some((v, pos + Self::spec_serialize(v).len())),
    {
        <Vec<TagGroup> as Buffer>::lemma_roundtrip(s, pos, v.tags);
    }

    /// Reads a [`ClientsideUpdateTags`] at the cursor and moves past it.
    pub fn read(buffer: &mut Cursor) -> (res: Option<Self>)
        ensures
            final(buffer).data@ == old(buffer).data@,
            match res {
                Some(v) => Self::spec_parse(old(buffer).data@, old(buffer).position as int) == Some(
                    (v.deep_view(), final(buffer).position as int),
                ),
                None => Self::spec_parse(old(buffer).data@, old(buffer).position as int) is None,
            },
    {
        let tags = match <Vec<TagGroup> as Buffer>::read_buf(buffer) {
            Some(x) => x,
            None => {
                return None;
            },
        };
        Some(ClientsideUpdateTags { tags })
    }

    /// Appends the wire form of the [`ClientsideUpdateTags`].
    pub fn write(&self, buffer: &mut Vec<u8>)
        ensures
            final(buffer)@ == old(buffer)@ + Self::spec_serialize(self.deep_view()),
    {
        self.tags.write_buf(buffer);
    }
}

/// A data pack, named by namespace, identifier and version.
#[derive(Clone, Debug, PartialEq)]
pub struct KnownPack {
    pub namespace: String,
    pub id: String,
    pub version: String,
}

/// The content of a [`KnownPack`] as it goes over the wire.
pub struct KnownPackView {
    pub namespace: Seq<char>,
    pub id: Seq<char>,
    pub version: Seq<char>,
}

impl DeepView for KnownPack {
    type V = KnownPackView;

    open spec fn deep_view(&self) -> KnownPackView {
        KnownPackView {
            namespace: self.namespace.deep_view(),
            id: self.id.deep_view(),
            version: self.version.deep_view(),
        }
    }
}

impl Buffer for KnownPack {
    open spec fn spec_parse(s: Seq<u8>, pos: int) -> Option<(KnownPackView, int)> {
        match <String as Buffer>::spec_parse(s, pos) {
            Some((namespace, p0)) => match <String as Buffer>::spec_parse(s, p0) {
                Some((id, p1)) => match <String as Buffer>::spec_parse(s, p1) {
                    Some((version, p2)) => Some((KnownPackView { namespace, id, version }, p2)),
                    None => None,
                },
                None => None,
            },
            None => None,
        }
    }

    open spec fn spec_serialize(v: KnownPackView) -> Seq<u8> {
        <String as Buffer>::spec_serialize(v.namespace) + <String as Buffer>::spec_serialize(v.id) + <String as Buffer>::spec_serialize(v.version)
    }

    open spec fn spec_wf(v: KnownPackView) -> bool {
        <String as Buffer>::spec_wf(v.namespace) && <String as Buffer>::spec_wf(v.id) && <String as Buffer>::spec_wf(v.version)
    }

    open spec fn spec_stop(s: Seq<u8>, pos: int) -> int {
        match <String as Buffer>::spec_parse(s, pos) {
            Some((_, p0)) => match <String as Buffer>::spec_parse(s, p0) {
                Some((_, p1)) => match <String as Buffer>::spec_parse(s, p1) {
                    Some((_, p2)) => p2,
                    None => <String as Buffer>::spec_stop(s, p1),
                },
                None => <String as Buffer>::spec_stop(s, p0),
            },
            None => <String as Buffer>::spec_stop(s, pos),
        }
    }

    proof fn lemma_roundtrip(s: Seq<u8>, pos: int, v: KnownPackView) {
        lemma_holds_at_split(s, pos, <String as Buffer>::spec_serialize(v.namespace) + <String as Buffer>::spec_serialize(v.id), <String as Buffer>::spec_serialize(v.version));
        lemma_holds_at_split(s, pos, <String as Buffer>::spec_serialize(v.namespace), <String as Buffer>::spec_serialize(v.id));
        <String as Buffer>::lemma_roundtrip(s, pos, v.namespace);
        <String as Buffer>::lemma_roundtrip(s, pos + <String as Buffer>::spec_serialize(v.namespace).len(), v.id);
        <String as Buffer>::lemma_roundtrip(s, pos + <String as Buffer>::spec_serialize(v.namespace).len() + <String as Buffer>::spec_serialize(v.id).len(), v.version);
    }

    fn read_buf(buffer: &mut Cursor) -> (res: Option<KnownPack>) {
        let namespace = match <String as Buffer>::read_buf(buffer) {
            Some(x) => x,
            None => {
                return None;
            },
        };
        let id = match <String as Buffer>::read_buf(buffer) {
            Some(x) => x,
            None => {
                return None;
            },
        };
        let version = match <String as Buffer>::read_buf(buffer) {
            Some(x) => x,
            None => {
                return None;
            },
        };
        Some(KnownPack { namespace, id, version })
    }

    fn write_buf(&self, buffer: &mut Vec<u8>) {
        self.namespace.write_buf(buffer);
        self.id.write_buf(buffer);
        assert(buffer@ =~= old(buffer)@ + (<String as Buffer>::spec_serialize(self.deep_view().namespace) + <String as Buffer>::spec_serialize(self.deep_view().id)));
        self.version.write_buf(buffer);
        assert(buffer@ =~= old(buffer)@ + Self::spec_serialize(self.deep_view()));
    }
}

impl KnownPack {
    /// A known data pack is written as its namespace, its identifier and its version, each a
    /// string, in that order.
    pub proof fn lemma_wire_form(v: KnownPackView)
        ensures
            <KnownPack as Buffer>::spec_serialize(v) == spec_str(v.namespace) + spec_str(v.id) + spec_str(v.version),
    {
    }
}

/// The data packs that the server knows.
#[derive(Clone, Debug, PartialEq)]
pub struct ClientsideKnownPacks {
    pub known_packs: Vec<KnownPack>,
}

/// The content of a [`ClientsideKnownPacks`] as it goes over the wire.
pub struct ClientsideKnownPacksView {
    pub known_packs: Seq<KnownPackView>,
}

impl DeepView for ClientsideKnownPacks {
    type V = ClientsideKnownPacksView;

    open spec fn deep_view(&self) -> ClientsideKnownPacksView {
        ClientsideKnownPacksView {
            known_packs: self.known_packs.deep_view(),
        }
    }
}

impl ClientsideKnownPacks {
    /// What reading a [`ClientsideKnownPacks`] at `pos` yields, and the position after it.
    pub open spec fn spec_parse(s: Seq<u8>, pos: int) -> Option<(ClientsideKnownPacksView, int)> {
        match <Vec<KnownPack> as Buffer>::spec_parse(s, pos) {
            Some((known_packs, p0)) => Some((ClientsideKnownPacksView { known_packs }, p0)),
            None => None,
        }
    }

    /// The bytes that writing a [`ClientsideKnownPacks`] appends.
    pub open spec fn spec_serialize(v: ClientsideKnownPacksView) -> Seq<u8> {
        <Vec<KnownPack> as Buffer>::spec_serialize(v.known_packs)
    }

    /// The contents that read back as written: every length fits its `VarInt` prefix.
    pub open spec fn spec_wf(v: ClientsideKnownPacksView) -> bool {
        <Vec<KnownPack> as Buffer>::spec_wf(v.known_packs)
    }

    /// Reading back what writing a [`ClientsideKnownPacks`] appended gives the same contents, whatever follows.
    pub proof fn lemma_roundtrip(s: Seq<u8>, pos: int, v: ClientsideKnownPacksView)
        requires
            Self::spec_wf(v),
            holds_at(s, pos, Self::spec_serialize(v)),
        ensures
            Self::spec_parse(s, pos) == Some((v, pos + Self::spec_serialize(v).len())),
    {
        <Vec<KnownPack> as Buffer>::lemma_roundtrip(s, pos, v.known_packs);
    }

    /// Reads a [`ClientsideKnownPacks`] at the cursor and moves past it.
    pub fn read(buffer: &mut Cursor) -> (res: Option<Self>)
        ensures
            final(buffer).data@ == old(buffer).data@,
            match res {
                Some(v) => Self::spec_parse(old(buffer).data@, old(buffer).position as int) == Some(
                    (v.deep_view(), final(buffer).position as int),
                ),
                None => Self::spec_parse(old(buffer).data@, old(buffer).position as int) is None,
            },
    {
        let known_packs = match <Vec<KnownPack> as Buffer>::read_buf(buffer) {
            Some(x) => x,
            None => {
                return None;
            },
        };
        Some(ClientsideKnownPacks { known_packs })
    }

    /// Appends the wire form of the [`ClientsideKnownPacks`].
    pub fn write(&self, buffer: &mut Vec<u8>)
        ensures
            final(buffer)@ == old(buffer)@ + Self::spec_serialize(self.deep_view()),
    {
        self.known_packs.write_buf(buffer);
    }
}

/// A detail for crash reports, with a title and a description.
#[derive(Clone, Debug, PartialEq)]
pub struct ReportDetail {
    pub title: String,
    pub description: String,
}

/// The content of a [`ReportDetail`] as it goes over the wire.
pub struct ReportDetailView {
    pub title: Seq<char>,
    pub description: Seq<char>,
}

impl DeepView for ReportDetail {
    type V = ReportDetailView;

    open spec fn deep_view(&self) -> ReportDetailView {
        ReportDetailView {
            title: self.title.deep_view(),
            description: self.description.deep_view(),
        }
    }
}

impl Buffer for ReportDetail {
    open spec fn spec_parse(s: Seq<u8>, pos: int) -> Option<(ReportDetailView, int)> {
        match <String as Buffer>::spec_parse(s, pos) {
            Some((title, p0)) => match <String as Buffer>::spec_parse(s, p0) {
                Some((description, p1)) => Some((ReportDetailView { title, description }, p1)),
                None => None,
            },
            None => None,
        }
    }

    open spec fn spec_serialize(v: ReportDetailView) -> Seq<u8> {
        <String as Buffer>::spec_serialize(v.title) + <String as Buffer>::spec_serialize(v.description)
    }

    open spec fn spec_wf(v: ReportDetailView) -> bool {
        <String as Buffer>::spec_wf(v.title) && <String as Buffer>::spec_wf(v.description)
    }

    open spec fn spec_stop(s: Seq<u8>, pos: int) -> int {
        match <String as Buffer>::spec_parse(s, pos) {
            Some((_, p0)) => match <String as Buffer>::spec_parse(s, p0) {
                Some((_, p1)) => p1,
                None => <String as Buffer>::spec_stop(s, p0),
            },
            None => <String as Buffer>::spec_stop(s, pos),
        }
    }

    proof fn lemma_roundtrip(s: Seq<u8>, pos: int, v: ReportDetailView) {
        lemma_holds_at_split(s, pos, <String as Buffer>::spec_serialize(v.title), <String as Buffer>::spec_serialize(v.description));
        <String as Buffer>::lemma_roundtrip(s, pos, v.title);
        <String as Buffer>::lemma_roundtrip(s, pos + <String as Buffer>::spec_serialize(v.title).len(), v.description);
    }

    fn read_buf(buffer: &mut Cursor) -> (res: Option<ReportDetail>) {
        let title = match <String as Buffer>::read_buf(buffer) {
            Some(x) => x,
            None => {
                return None;
            },
        };
        let description = match <String as Buffer>::read_buf(buffer) {
            Some(x) => x,
            None => {
                return None;
            },
        };
        Some(ReportDetail { title, description })
    }

    fn write_buf(&self, buffer: &mut Vec<u8>) {
        self.title.write_buf(buffer);
        self.description.write_buf(buffer);
        assert(buffer@ =~= old(buffer)@ + Self::spec_serialize(self.deep_view()));
    }
}

/// Details that the server adds to crash reports.
#[derive(Clone, Debug, PartialEq)]
pub struct ClientsideCustomReportDetails {
    pub details: Vec<ReportDetail>,
}

/// The content of a [`ClientsideCustomReportDetails`] as it goes over the wire.
pub struct ClientsideCustomReportDetailsView {
    pub details: Seq<ReportDetailView>,
}

impl DeepView for ClientsideCustomReportDetails {
    type V = ClientsideCustomReportDetailsView;

    open spec fn deep_view(&self) -> ClientsideCustomReportDetailsView {
        ClientsideCustomReportDetailsView {
            details: self.details.deep_view(),
        }
    }
}

impl ClientsideCustomReportDetails {
    /// What reading a [`ClientsideCustomReportDetails`] at `pos` yields, and the position after it.
    pub open spec fn spec_parse(s: Seq<u8>, pos: int) -> Option<(ClientsideCustomReportDetailsView, int)> {
        match <Vec<ReportDetail> as Buffer>::spec_parse(s, pos) {
            Some((details, p0)) => Some((ClientsideCustomReportDetailsView { details }, p0)),
            None => None,
        }
    }

    /// The bytes that writing a [`ClientsideCustomReportDetails`] appends.
    pub open spec fn spec_serialize(v: ClientsideCustomReportDetailsView) -> Seq<u8> {
        <Vec<ReportDetail> as Buffer>::spec_serialize(v.details)
    }

    /// The contents that read back as written: every length fits its `VarInt` prefix.
    pub open spec fn spec_wf(v: ClientsideCustomReportDetailsView) -> bool {
        <Vec<ReportDetail> as Buffer>::spec_wf(v.details)
    }

    /// Reading back what writing a [`ClientsideCustomReportDetails`] appended gives the same contents, whatever follows.
    pub proof fn lemma_roundtrip(s: Seq<u8>, pos: int, v: ClientsideCustomReportDetailsView)
        requires
            Self::spec_wf(v),
            holds_at(s, pos, Self::spec_serialize(v)),
        ensures
            Self::spec_parse(s, pos) == Some((v, pos + Self::spec_serialize(v).len())),
    {
        <Vec<ReportDetail> as Buffer>::lemma_roundtrip(s, pos, v.details);
    }

    /// Reads a [`ClientsideCustomReportDetails`] at the cursor and moves past it.
    pub fn read(buffer: &mut Cursor) -> (res: Option<Self>)
        ensures
            final(buffer).data@ == old(buffer).data@,
            match res {
                Some(v) => Self::spec_parse(old(buffer).data@, old(buffer).position as int) == Some(
                    (v.deep_view(), final(buffer).position as int),
                ),
                None => Self::spec_parse(old(buffer).data@, old(buffer).position as int) is None,
            },
    {
        let details = match <Vec<ReportDetail> as Buffer>::read_buf(buffer) {
            Some(x) => x,
            None => {
                return None;
            },
        };
        Some(ClientsideCustomReportDetails { details })
    }

    /// Appends the wire form of the [`ClientsideCustomReportDetails`].
    pub fn write(&self, buffer: &mut Vec<u8>)
        ensures
            final(buffer)@ == old(buffer)@ + Self::spec_serialize(self.deep_view()),
    {
        self.details.write_buf(buffer);
    }
}

/// A link that the server offers, with its label.
#[derive(Clone, Debug, PartialEq)]
pub struct ServerLink {
    pub label: ServerLinkLabel,
    pub url: String,
}

/// The content of a [`ServerLink`] as it goes over the wire.
pub struct ServerLinkView {
    pub label: ServerLinkLabelView,
    pub url: Seq<char>,
}

impl DeepView for ServerLink {
    type V = ServerLinkView;

    open spec fn deep_view(&self) -> ServerLinkView {
        ServerLinkView {
            label: self.label.deep_view(),
            url: self.url.deep_view(),
        }
    }
}

impl Buffer for ServerLink {
    open spec fn spec_parse(s: Seq<u8>, pos: int) -> Option<(ServerLinkView, int)> {
        match <ServerLinkLabel as Buffer>::spec_parse(s, pos) {
            Some((label, p0)) => match <String as Buffer>::spec_parse(s, p0) {
                Some((url, p1)) => Some((ServerLinkView { label, url }, p1)),
                None => None,
            },
            None => None,
        }
    }

    open spec fn spec_serialize(v: ServerLinkView) -> Seq<u8> {
        <ServerLinkLabel as Buffer>::spec_serialize(v.label) + <String as Buffer>::spec_serialize(v.url)
    }

    open spec fn spec_wf(v: ServerLinkView) -> bool {
        <ServerLinkLabel as Buffer>::spec_wf(v.label) && <String as Buffer>::spec_wf(v.url)
    }

    open spec fn spec_stop(s: Seq<u8>, pos: int) -> int {
        match <ServerLinkLabel as Buffer>::spec_parse(s, pos) {
            Some((_, p0)) => match <String as Buffer>::spec_parse(s, p0) {
                Some((_, p1)) => p1,
                None => <String as Buffer>::spec_stop(s, p0),
            },
            None => <ServerLinkLabel as Buffer>::spec_stop(s, pos),
        }
    }

    proof fn lemma_roundtrip(s: Seq<u8>, pos: int, v: ServerLinkView) {
        lemma_holds_at_split(s, pos, <ServerLinkLabel as Buffer>::spec_serialize(v.label), <String as Buffer>::spec_serialize(v.url));
        <ServerLinkLabel as Buffer>::lemma_roundtrip(s, pos, v.label);
        <String as Buffer>::lemma_roundtrip(s, pos + <ServerLinkLabel as Buffer>::spec_serialize(v.label).len(), v.url);
    }

    fn read_buf(buffer: &mut Cursor) -> (res: Option<ServerLink>) {
        let label = match <ServerLinkLabel as Buffer>::read_buf(buffer) {
            Some(x) => x,
            None => {
                return None;
            },
        };
        let url = match <String as Buffer>::read_buf(buffer) {
            Some(x) => x,
            None => {
                return None;
            },
        };
        Some(ServerLink { label, url })
    }

    fn write_buf(&self, buffer: &mut Vec<u8>) {
        self.label.write_buf(buffer);
        self.url.write_buf(buffer);
        assert(buffer@ =~= old(buffer)@ + Self::spec_serialize(self.deep_view()));
    }
}

/// The links that the server offers.
#[derive(Clone, Debug, PartialEq)]
pub struct ClientsideServerLinks {
    pub links: Vec<ServerLink>,
}

/// The content of a [`ClientsideServerLinks`] as it goes over the wire.
pub struct ClientsideServerLinksView {
    pub links: Seq<ServerLinkView>,
}

impl DeepView for ClientsideServerLinks {
    type V = ClientsideServerLinksView;

    open spec fn deep_view(&self) -> ClientsideServerLinksView {
        ClientsideServerLinksView {
            links: self.links.deep_view(),
        }
    }
}

impl ClientsideServerLinks {
    /// What reading a [`ClientsideServerLinks`] at `pos` yields, and the position after it.
    pub open spec fn spec_parse(s: Seq<u8>, pos: int) -> Option<(ClientsideServerLinksView, int)> {
        match <Vec<ServerLink> as Buffer>::spec_parse(s, pos) {
            Some((links, p0)) => Some((ClientsideServerLinksView { links }, p0)),
            None => None,
        }
    }

    /// The bytes that writing a [`ClientsideServerLinks`] appends.
    pub open spec fn spec_serialize(v: ClientsideServerLinksView) -> Seq<u8> {
        <Vec<ServerLink> as Buffer>::spec_serialize(v.links)
    }

    /// The contents that read back as written: every length fits its `VarInt` prefix.
    pub open spec fn spec_wf(v: ClientsideServerLinksView) -> bool {
        <Vec<ServerLink> as Buffer>::spec_wf(v.links)
    }

    /// Reading back what writing a [`ClientsideServerLinks`] appended gives the same contents, whatever follows.
    pub proof fn lemma_roundtrip(s: Seq<u8>, pos: int, v: ClientsideServerLinksView)
        requires
            Self::spec_wf(v),
            holds_at(s, pos, Self::spec_serialize(v)),
        ensures
            Self::spec_parse(s, pos) == Some((v, pos + Self::spec_serialize(v).len())),
    {
        <Vec<ServerLink> as Buffer>::lemma_roundtrip(s, pos, v.links);
    }

    /// Reads a [`ClientsideServerLinks`] at the cursor and moves past it.
    pub fn read(buffer: &mut Cursor) -> (res: Option<Self>)
        ensures
            final(buffer).data@ == old(buffer).data@,
            match res {
                Some(v) => Self::spec_parse(old(buffer).data@, old(buffer).position as int) == Some(
                    (v.deep_view(), final(buffer).position as int),
                ),
                None => Self::spec_parse(old(buffer).data@, old(buffer).position as int) is None,
            },
    {
        let links = match <Vec<ServerLink> as Buffer>::read_buf(buffer) {
            Some(x) => x,
            None => {
                return None;
            },
        };
        Some(ClientsideServerLinks { links })
    }

    /// Appends the wire form of the [`ClientsideServerLinks`].
    pub fn write(&self, buffer: &mut Vec<u8>)
        ensures
            final(buffer)@ == old(buffer)@ + Self::spec_serialize(self.deep_view()),
    {
        self.links.write_buf(buffer);
    }
}

impl ClientsideServerLinks {
    /// Where the label flag of the `i`th link stands in the bytes of the packet.
    pub open spec fn link_flag_offset(v: ClientsideServerLinksView, i: int) -> int {
        (spec_varint(v.links.len() as i32).len() + serialize_seq::<ServerLink>(v.links.take(i)).len()) as int
    }

    /// The label flag of a link is 1 for a built-in label and 0 for a text; the packet with one
    /// of these flags replaced by a byte above 1 does not read.
    pub proof fn lemma_bad_flag(v: ClientsideServerLinksView, i: int, flag: u8)
        requires
            Self::spec_wf(v),
            0 <= i < v.links.len(),
            flag > 1,
        ensures
            Self::spec_serialize(v)[Self::link_flag_offset(v, i)] == (match v.links[i].label {
                ServerLinkLabelView::BuiltIn(_) => 1u8,
                ServerLinkLabelView::Custom(_) => 0u8,
            }),
            Self::spec_parse(Self::spec_serialize(v).update(Self::link_flag_offset(v, i), flag), 0) is None,
    {
        let links = v.links;
        let n = links.len() as i32;
        let vb = spec_varint(n);
        let front = serialize_seq::<ServerLink>(links.take(i));
        let back = serialize_seq::<ServerLink>(links.skip(i));
        let t = Self::spec_serialize(v);
        lemma_serialize_seq_split::<ServerLink>(links, i);
        assert(t == vb + front + back);
        let link = links[i];
        assert(links.skip(i)[0] == link);
        assert(back == <ServerLink as Buffer>::spec_serialize(link) + serialize_seq::<ServerLink>(
            links.skip(i).drop_first(),
        ));
        let off = Self::link_flag_offset(v, i);
        assert(off == vb.len() + front.len());
        assert(t[off] == back[0]);
        let t2 = t.update(off, flag);
        assert(t2.subrange(0, vb.len() as int) =~= vb);
        lemma_varint_i32_roundtrip(t2, 0, n);
        assert(count_of(n) == links.len());
        assert(t2.subrange(vb.len() as int, off) =~= front);
        assert forall|j: int| 0 <= j < links.take(i).len() implies <ServerLink as Buffer>::spec_wf(
            #[trigger] links.take(i)[j],
        ) by {
            assert(links.take(i)[j] == links[j]);
        }
        lemma_parse_seq_prefix::<ServerLink>(t2, vb.len() as int, links.take(i), links.len());
        assert(t2[off] == flag);
    }
}

/// The settings of the client.
#[derive(Clone, Debug, PartialEq)]
pub struct ServersideClientInformation {
    pub locale: String,
    pub view_distance: i8,
    pub chat_mode: i32,
    pub chat_colors: bool,
    pub displayed_skin_parts: DisplayedSkinParts,
    pub main_hand: ClientHand,
    pub enable_text_filtering: bool,
    pub allow_server_listings: bool,
    pub particle_status: i32,
}

/// The content of a [`ServersideClientInformation`] as it goes over the wire.
pub struct ServersideClientInformationView {
    pub locale: Seq<char>,
    pub view_distance: i8,
    pub chat_mode: i32,
    pub chat_colors: bool,
    pub displayed_skin_parts: DisplayedSkinParts,
    pub main_hand: ClientHand,
    pub enable_text_filtering: bool,
    pub allow_server_listings: bool,
    pub particle_status: i32,
}

impl DeepView for ServersideClientInformation {
    type V = ServersideClientInformationView;

    open spec fn deep_view(&self) -> ServersideClientInformationView {
        ServersideClientInformationView {
            locale: self.locale.deep_view(),
            view_distance: self.view_distance.deep_view(),
            chat_mode: self.chat_mode,
            chat_colors: self.chat_colors.deep_view(),
            displayed_skin_parts: self.displayed_skin_parts.deep_view(),
            main_hand: self.main_hand.deep_view(),
            enable_text_filtering: self.enable_text_filtering.deep_view(),
            allow_server_listings: self.allow_server_listings.deep_view(),
            particle_status: self.particle_status,
        }
    }
}

impl ServersideClientInformation {
    /// What reading a [`ServersideClientInformation`] at `pos` yields, and the position after it.
    pub open spec fn spec_parse(s: Seq<u8>, pos: int) -> Option<(ServersideClientInformationView, int)> {
        match <String as Buffer>::spec_parse(s, pos) {
            Some((locale, p0)) => match <i8 as Buffer>::spec_parse(s, p0) {
                Some((view_distance, p1)) => match parse_varint(s, p1) {
                    Some((chat_mode, p2)) => match <bool as Buffer>::spec_parse(s, p2) {
                        Some((chat_colors, p3)) => match <DisplayedSkinParts as Buffer>::spec_parse(s, p3) {
                            Some((displayed_skin_parts, p4)) => match <ClientHand as Buffer>::spec_parse(s, p4) {
                                Some((main_hand, p5)) => match <bool as Buffer>::spec_parse(s, p5) {
                                    Some((enable_text_filtering, p6)) => match <bool as Buffer>::spec_parse(s, p6) {
                                        Some((allow_server_listings, p7)) => match parse_varint(s, p7) {
                                            Some((particle_status, p8)) => Some((ServersideClientInformationView { locale, view_distance, chat_mode, chat_colors, displayed_skin_parts, main_hand, enable_text_filtering, allow_server_listings, particle_status }, p8)),
                                            None => None,
                                        },
                                        None => None,
                                    },
                                    None => None,
                                },
                                None => None,
                            },
                            None => None,
                        },
                        None => None,
                    },
                    None => None,
                },
                None => None,
            },
            None => None,
        }
    }

    /// The bytes that writing a [`ServersideClientInformation`] appends.
    pub open spec fn spec_serialize(v: ServersideClientInformationView) -> Seq<u8> {
        <String as Buffer>::spec_serialize(v.locale) + <i8 as Buffer>::spec_serialize(v.view_distance) + spec_varint(v.chat_mode) + <bool as Buffer>::spec_serialize(v.chat_colors) + <DisplayedSkinParts as Buffer>::spec_serialize(v.displayed_skin_parts) + <ClientHand as Buffer>::spec_serialize(v.main_hand) + <bool as Buffer>::spec_serialize(v.enable_text_filtering) + <bool as Buffer>::spec_serialize(v.allow_server_listings) + spec_varint(v.particle_status)
    }

    /// The contents that read back as written: every length fits its `VarInt` prefix.
    pub open spec fn spec_wf(v: ServersideClientInformationView) -> bool {
        <String as Buffer>::spec_wf(v.locale) && <i8 as Buffer>::spec_wf(v.view_distance) && <bool as Buffer>::spec_wf(v.chat_colors) && <DisplayedSkinParts as Buffer>::spec_wf(v.displayed_skin_parts) && <ClientHand as Buffer>::spec_wf(v.main_hand) && <bool as Buffer>::spec_wf(v.enable_text_filtering) && <bool as Buffer>::spec_wf(v.allow_server_listings)
    }

    /// Reading back what writing a [`ServersideClientInformation`] appended gives the same contents, whatever follows.
    pub proof fn lemma_roundtrip(s: Seq<u8>, pos: int, v: ServersideClientInformationView)
        requires
            Self::spec_wf(v),
            holds_at(s, pos, Self::spec_serialize(v)),
        ensures
            Self::spec_parse(s, pos) == Some((v, pos + Self::spec_serialize(v).len())),
    {
        lemma_holds_at_split(s, pos, <String as Buffer>::spec_serialize(v.locale) + <i8 as Buffer>::spec_serialize(v.view_distance) + spec_varint(v.chat_mode) + <bool as Buffer>::spec_serialize(v.chat_colors) + <DisplayedSkinParts as Buffer>::spec_serialize(v.displayed_skin_parts) + <ClientHand as Buffer>::spec_serialize(v.main_hand) + <bool as Buffer>::spec_serialize(v.enable_text_filtering) + <bool as Buffer>::spec_serialize(v.allow_server_listings), spec_varint(v.particle_status));
        lemma_holds_at_split(s, pos, <String as Buffer>::spec_serialize(v.locale) + <i8 as Buffer>::spec_serialize(v.view_distance) + spec_varint(v.chat_mode) + <bool as Buffer>::spec_serialize(v.chat_colors) + <DisplayedSkinParts as Buffer>::spec_serialize(v.displayed_skin_parts) + <ClientHand as Buffer>::spec_serialize(v.main_hand) + <bool as Buffer>::spec_serialize(v.enable_text_filtering), <bool as Buffer>::spec_serialize(v.allow_server_listings));
        lemma_holds_at_split(s, pos, <String as Buffer>::spec_serialize(v.locale) + <i8 as Buffer>::spec_serialize(v.view_distance) + spec_varint(v.chat_mode) + <bool as Buffer>::spec_serialize(v.chat_colors) + <DisplayedSkinParts as Buffer>::spec_serialize(v.displayed_skin_parts) + <ClientHand as Buffer>::spec_serialize(v.main_hand), <bool as Buffer>::spec_serialize(v.enable_text_filtering));
        lemma_holds_at_split(s, pos, <String as Buffer>::spec_serialize(v.locale) + <i8 as Buffer>::spec_serialize(v.view_distance) + spec_varint(v.chat_mode) + <bool as Buffer>::spec_serialize(v.chat_colors) + <DisplayedSkinParts as Buffer>::spec_serialize(v.displayed_skin_parts), <ClientHand as Buffer>::spec_serialize(v.main_hand));
        lemma_holds_at_split(s, pos, <String as Buffer>::spec_serialize(v.locale) + <i8 as Buffer>::spec_serialize(v.view_distance) + spec_varint(v.chat_mode) + <bool as Buffer>::spec_serialize(v.chat_colors), <DisplayedSkinParts as Buffer>::spec_serialize(v.displayed_skin_parts));
        lemma_holds_at_split(s, pos, <String as Buffer>::spec_serialize(v.locale) + <i8 as Buffer>::spec_serialize(v.view_distance) + spec_varint(v.chat_mode), <bool as Buffer>::spec_serialize(v.chat_colors));
        lemma_holds_at_split(s, pos, <String as Buffer>::spec_serialize(v.locale) + <i8 as Buffer>::spec_serialize(v.view_distance), spec_varint(v.chat_mode));
        lemma_holds_at_split(s, pos, <String as Buffer>::spec_serialize(v.locale), <i8 as Buffer>::spec_serialize(v.view_distance));
        <String as Buffer>::lemma_roundtrip(s, pos, v.locale);
        <i8 as Buffer>::lemma_roundtrip(s, pos + <String as Buffer>::spec_serialize(v.locale).len(), v.view_distance);
        lemma_varint_i32_roundtrip(s, pos + <String as Buffer>::spec_serialize(v.locale).len() + <i8 as Buffer>::spec_serialize(v.view_distance).len(), v.chat_mode);
        <bool as Buffer>::lemma_roundtrip(s, pos + <String as Buffer>::spec_serialize(v.locale).len() + <i8 as Buffer>::spec_serialize(v.view_distance).len() + spec_varint(v.chat_mode).len(), v.chat_colors);
        <DisplayedSkinParts as Buffer>::lemma_roundtrip(s, pos + <String as Buffer>::spec_serialize(v.locale).len() + <i8 as Buffer>::spec_serialize(v.view_distance).len() + spec_varint(v.chat_mode).len() + <bool as Buffer>::spec_serialize(v.chat_colors).len(), v.displayed_skin_parts);
        <ClientHand as Buffer>::lemma_roundtrip(s, pos + <String as Buffer>::spec_serialize(v.locale).len() + <i8 as Buffer>::spec_serialize(v.view_distance).len() + spec_varint(v.chat_mode).len() + <bool as Buffer>::spec_serialize(v.chat_colors).len() + <DisplayedSkinParts as Buffer>::spec_serialize(v.displayed_skin_parts).len(), v.main_hand);
        <bool as Buffer>::lemma_roundtrip(s, pos + <String as Buffer>::spec_serialize(v.locale).len() + <i8 as Buffer>::spec_serialize(v.view_distance).len() + spec_varint(v.chat_mode).len() + <bool as Buffer>::spec_serialize(v.chat_colors).len() + <DisplayedSkinParts as Buffer>::spec_serialize(v.displayed_skin_parts).len() + <ClientHand as Buffer>::spec_serialize(v.main_hand).len(), v.enable_text_filtering);
        <bool as Buffer>::lemma_roundtrip(s, pos + <String as Buffer>::spec_serialize(v.locale).len() + <i8 as Buffer>::spec_serialize(v.view_distance).len() + spec_varint(v.chat_mode).len() + <bool as Buffer>::spec_serialize(v.chat_colors).len() + <DisplayedSkinParts as Buffer>::spec_serialize(v.displayed_skin_parts).len() + <ClientHand as Buffer>::spec_serialize(v.main_hand).len() + <bool as Buffer>::spec_serialize(v.enable_text_filtering).len(), v.allow_server_listings);
        lemma_varint_i32_roundtrip(s, pos + <String as Buffer>::spec_serialize(v.locale).len() + <i8 as Buffer>::spec_serialize(v.view_distance).len() + spec_varint(v.chat_mode).len() + <bool as Buffer>::spec_serialize(v.chat_colors).len() + <DisplayedSkinParts as Buffer>::spec_serialize(v.displayed_skin_parts).len() + <ClientHand as Buffer>::spec_serialize(v.main_hand).len() + <bool as Buffer>::spec_serialize(v.enable_text_filtering).len() + <bool as Buffer>::spec_serialize(v.allow_server_listings).len(), v.particle_status);
    }

    /// Reads a [`ServersideClientInformation`] at the cursor and moves past it.
    pub fn read(buffer: &mut Cursor) -> (res: Option<Self>)
        ensures
            final(buffer).data@ == old(buffer).data@,
            match res {
                Some(v) => Self::spec_parse(old(buffer).data@, old(buffer).position as int) == Some(
                    (v.deep_view(), final(buffer).position as int),
                ),
                None => Self::spec_parse(old(buffer).data@, old(buffer).position as int) is None,
            },
    {
        let locale = match <String as Buffer>::read_buf(buffer) {
            Some(x) => x,
            None => {
                return None;
            },
        };
        let view_distance = match <i8 as Buffer>::read_buf(buffer) {
            Some(x) => x,
            None => {
                return None;
            },
        };
        let chat_mode = match i32::read_varint(buffer) {
            Some(x) => x,
            None => {
                return None;
            },
        };
        let chat_colors = match <bool as Buffer>::read_buf(buffer) {
            Some(x) => x,
            None => {
                return None;
            },
        };
        let displayed_skin_parts = match <DisplayedSkinParts as Buffer>::read_buf(buffer) {
            Some(x) => x,
            None => {
                return None;
            },
        };
        let main_hand = match <ClientHand as Buffer>::read_buf(buffer) {
            Some(x) => x,
            None => {
                return None;
            },
        };
        let enable_text_filtering = match <bool as Buffer>::read_buf(buffer) {
            Some(x) => x,
            None => {
                return None;
            },
        };
        let allow_server_listings = match <bool as Buffer>::read_buf(buffer) {
            Some(x) => x,
            None => {
                return None;
            },
        };
        let particle_status = match i32::read_varint(buffer) {
            Some(x) => x,
            None => {
                return None;
            },
        };
        Some(ServersideClientInformation { locale, view_distance, chat_mode, chat_colors, displayed_skin_parts, main_hand, enable_text_filtering, allow_server_listings, particle_status })
    }

    /// Appends the wire form of the [`ServersideClientInformation`].
    pub fn write(&self, buffer: &mut Vec<u8>)
        ensures
            final(buffer)@ == old(buffer)@ + Self::spec_serialize(self.deep_view()),
    {
        self.locale.write_buf(buffer);
        self.view_distance.write_buf(buffer);
        assert(buffer@ =~= old(buffer)@ + (<String as Buffer>::spec_serialize(self.deep_view().locale) + <i8 as Buffer>::spec_serialize(self.deep_view().view_distance)));
        self.chat_mode.write_varint(buffer);
        assert(buffer@ =~= old(buffer)@ + (<String as Buffer>::spec_serialize(self.deep_view().locale) + <i8 as Buffer>::spec_serialize(self.deep_view().view_distance) + spec_varint(self.deep_view().chat_mode)));
        self.chat_colors.write_buf(buffer);
        assert(buffer@ =~= old(buffer)@ + (<String as Buffer>::spec_serialize(self.deep_view().locale) + <i8 as Buffer>::spec_serialize(self.deep_view().view_distance) + spec_varint(self.deep_view().chat_mode) + <bool as Buffer>::spec_serialize(self.deep_view().chat_colors)));
        self.displayed_skin_parts.write_buf(buffer);
        assert(buffer@ =~= old(buffer)@ + (<String as Buffer>::spec_serialize(self.deep_view().locale) + <i8 as Buffer>::spec_serialize(self.deep_view().view_distance) + spec_varint(self.deep_view().chat_mode) + <bool as Buffer>::spec_serialize(self.deep_view().chat_colors) + <DisplayedSkinParts as Buffer>::spec_serialize(self.deep_view().displayed_skin_parts)));
        self.main_hand.write_buf(buffer);
        assert(buffer@ =~= old(buffer)@ + (<String as Buffer>::spec_serialize(self.deep_view().locale) + <i8 as Buffer>::spec_serialize(self.deep_view().view_distance) + spec_varint(self.deep_view().chat_mode) + <bool as Buffer>::spec_serialize(self.deep_view().chat_colors) + <DisplayedSkinParts as Buffer>::spec_serialize(self.deep_view().displayed_skin_parts) + <ClientHand as Buffer>::spec_serialize(self.deep_view().main_hand)));
        self.enable_text_filtering.write_buf(buffer);
        assert(buffer@ =~= old(buffer)@ + (<String as Buffer>::spec_serialize(self.deep_view().locale) + <i8 as Buffer>::spec_serialize(self.deep_view().view_distance) + spec_varint(self.deep_view().chat_mode) + <bool as Buffer>::spec_serialize(self.deep_view().chat_colors) + <DisplayedSkinParts as Buffer>::spec_serialize(self.deep_view().displayed_skin_parts) + <ClientHand as Buffer>::spec_serialize(self.deep_view().main_hand) + <bool as Buffer>::spec_serialize(self.deep_view().enable_text_filtering)));
        self.allow_server_listings.write_buf(buffer);
        assert(buffer@ =~= old(buffer)@ + (<String as Buffer>::spec_serialize(self.deep_view().locale) + <i8 as Buffer>::spec_serialize(self.deep_view().view_distance) + spec_varint(self.deep_view().chat_mode) + <bool as Buffer>::spec_serialize(self.deep_view().chat_colors) + <DisplayedSkinParts as Buffer>::spec_serialize(self.deep_view().displayed_skin_parts) + <ClientHand as Buffer>::spec_serialize(self.deep_view().main_hand) + <bool as Buffer>::spec_serialize(self.deep_view().enable_text_filtering) + <bool as Buffer>::spec_serialize(self.deep_view().allow_server_listings)));
        self.particle_status.write_varint(buffer);
        assert(buffer@ =~= old(buffer)@ + Self::spec_serialize(self.deep_view()));
    }
}

impl ServersideClientInformation {
    /// The settings go out in this order: the locale as a string, the view distance as one
    /// byte, the chat mode as a `VarInt`, the chat colours flag as one byte, the skin parts as
    /// their one-byte mask, the main hand as a `VarInt`, the text filtering and server listing
    /// flags as one byte each, and the particle status as a `VarInt`.
    pub proof fn lemma_wire_form(v: ServersideClientInformationView)
        ensures
            Self::spec_serialize(v) == spec_str(v.locale) + seq![v.view_distance as u8] + spec_varint(v.chat_mode)
                + seq![if v.chat_colors { 1u8 } else { 0u8 }] + seq![crate::client::structs::skin_mask(v.displayed_skin_parts)]
                + spec_varint(v.main_hand.spec_id()) + seq![if v.enable_text_filtering { 1u8 } else { 0u8 }]
                + seq![if v.allow_server_listings { 1u8 } else { 0u8 }] + spec_varint(v.particle_status),
    {
    }
}

/// The answer to a cookie request.
#[derive(Clone, Debug, PartialEq)]
pub struct ServersideCookieResponse {
    pub key: String,
    pub payload: Option<Vec<u8>>,
}

/// The content of a [`ServersideCookieResponse`] as it goes over the wire.
pub struct ServersideCookieResponseView {
    pub key: Seq<char>,
    pub payload: Option<Seq<u8>>,
}

impl DeepView for ServersideCookieResponse {
    type V = ServersideCookieResponseView;

    open spec fn deep_view(&self) -> ServersideCookieResponseView {
        ServersideCookieResponseView {
            key: self.key.deep_view(),
            payload: self.payload.deep_view(),
        }
    }
}

impl ServersideCookieResponse {
    /// What reading a [`ServersideCookieResponse`] at `pos` yields, and the position after it.
    pub open spec fn spec_parse(s: Seq<u8>, pos: int) -> Option<(ServersideCookieResponseView, int)> {
        match <String as Buffer>::spec_parse(s, pos) {
            Some((key, p0)) => match parse_flagged::<Vec<u8>>(s, p0) {
                Some((payload, p1)) => Some((ServersideCookieResponseView { key, payload }, p1)),
                None => None,
            },
            None => None,
        }
    }

    /// The bytes that writing a [`ServersideCookieResponse`] appends.
    pub open spec fn spec_serialize(v: ServersideCookieResponseView) -> Seq<u8> {
        <String as Buffer>::spec_serialize(v.key) + serialize_flagged::<Vec<u8>>(v.payload)
    }

    /// The contents that read back as written: every length fits its `VarInt` prefix.
    pub open spec fn spec_wf(v: ServersideCookieResponseView) -> bool {
        <String as Buffer>::spec_wf(v.key) && flagged_wf::<Vec<u8>>(v.payload)
    }

    /// Reading back what writing a [`ServersideCookieResponse`] appended gives the same contents, whatever follows.
    pub proof fn lemma_roundtrip(s: Seq<u8>, pos: int, v: ServersideCookieResponseView)
        requires
            Self::spec_wf(v),
            holds_at(s, pos, Self::spec_serialize(v)),
        ensures
            Self::spec_parse(s, pos) == Some((v, pos + Self::spec_serialize(v).len())),
    {
        lemma_holds_at_split(s, pos, <String as Buffer>::spec_serialize(v.key), serialize_flagged::<Vec<u8>>(v.payload));
        <String as Buffer>::lemma_roundtrip(s, pos, v.key);
        lemma_flagged_roundtrip::<Vec<u8>>(s, pos + <String as Buffer>::spec_serialize(v.key).len(), v.payload);
    }

    /// Reads a [`ServersideCookieResponse`] at the cursor and moves past it.
    pub fn read(buffer: &mut Cursor) -> (res: Option<Self>)
        ensures
            final(buffer).data@ == old(buffer).data@,
            match res {
                Some(v) => Self::spec_parse(old(buffer).data@, old(buffer).position as int) == Some(
                    (v.deep_view(), final(buffer).position as int),
                ),
                None => Self::spec_parse(old(buffer).data@, old(buffer).position as int) is None,
            },
    {
        let key = match <String as Buffer>::read_buf(buffer) {
            Some(x) => x,
            None => {
                return None;
            },
        };
        let payload = match read_flagged::<Vec<u8>>(buffer) {
            Some(x) => x,
            None => {
                return None;
            },
        };
        Some(ServersideCookieResponse { key, payload })
    }

    /// Appends the wire form of the [`ServersideCookieResponse`].
    pub fn write(&self, buffer: &mut Vec<u8>)
        ensures
            final(buffer)@ == old(buffer)@ + Self::spec_serialize(self.deep_view()),
    {
        self.key.write_buf(buffer);
        write_flagged(&self.payload, buffer);
        assert(buffer@ =~= old(buffer)@ + Self::spec_serialize(self.deep_view()));
    }
}

/// The answer to a ping.
#[derive(Clone, Debug, PartialEq)]
pub struct ServersidePong {
    pub id: i32,
}

/// The content of a [`ServersidePong`] as it goes over the wire.
pub struct ServersidePongView {
    pub id: i32,
}

impl DeepView for ServersidePong {
    type V = ServersidePongView;

    open spec fn deep_view(&self) -> ServersidePongView {
        ServersidePongView {
            id: self.id.deep_view(),
        }
    }
}

impl ServersidePong {
    /// What reading a [`ServersidePong`] at `pos` yields, and the position after it.
    pub open spec fn spec_parse(s: Seq<u8>, pos: int) -> Option<(ServersidePongView, int)> {
        match <i32 as Buffer>::spec_parse(s, pos) {
            Some((id, p0)) => Some((ServersidePongView { id }, p0)),
            None => None,
        }
    }

    /// The bytes that writing a [`ServersidePong`] appends.
    pub open spec fn spec_serialize(v: ServersidePongView) -> Seq<u8> {
        <i32 as Buffer>::spec_serialize(v.id)
    }

    /// The contents that read back as written: every length fits its `VarInt` prefix.
    pub open spec fn spec_wf(v: ServersidePongView) -> bool {
        <i32 as Buffer>::spec_wf(v.id)
    }

    /// Reading back what writing a [`ServersidePong`] appended gives the same contents, whatever follows.
    pub proof fn lemma_roundtrip(s: Seq<u8>, pos: int, v: ServersidePongView)
        requires
            Self::spec_wf(v),
            holds_at(s, pos, Self::spec_serialize(v)),
        ensures
            Self::spec_parse(s, pos) == Some((v, pos + Self::spec_serialize(v).len())),
    {
        <i32 as Buffer>::lemma_roundtrip(s, pos, v.id);
    }

    /// Reads a [`ServersidePong`] at the cursor and moves past it.
    pub fn read(buffer: &mut Cursor) -> (res: Option<Self>)
        ensures
            final(buffer).data@ == old(buffer).data@,
            match res {
                Some(v) => Self::spec_parse(old(buffer).data@, old(buffer).position as int) == Some(
                    (v.deep_view(), final(buffer).position as int),
                ),
                None => Self::spec_parse(old(buffer).data@, old(buffer).position as int) is None,
            },
    {
        let id = match <i32 as Buffer>::read_buf(buffer) {
            Some(x) => x,
            None => {
                return None;
            },
        };
        Some(ServersidePong { id })
    }

    /// Appends the wire form of the [`ServersidePong`].
    pub fn write(&self, buffer: &mut Vec<u8>)
        ensures
            final(buffer)@ == old(buffer)@ + Self::spec_serialize(self.deep_view()),
    {
        self.id.write_buf(buffer);
    }
}

impl ServersidePong {
    /// A pong carries the id of the ping that it answers in the same four big-endian bytes: the
    /// pong written for an id is the body of the ping that carried it, and a ping read at a
    /// position has the id of the four bytes there and ends right after them.
    pub proof fn lemma_echoes_ping(id: i32, s: Seq<u8>, pos: int)
        ensures
            Self::spec_serialize(ServersidePongView { id }) == ClientsidePing::spec_serialize(ClientsidePingView { id }),
            Self::spec_serialize(ServersidePongView { id }) == be32(id as u32),
            (ClientsidePing::spec_parse(s, pos) is Some) <==> (parse_be32(s, pos) is Some),
            ClientsidePing::spec_parse(s, pos) is Some ==> ClientsidePing::spec_parse(s, pos).unwrap() == (
                ClientsidePingView { id: parse_be32(s, pos).unwrap().0 as i32 },
                pos + 4,
            ),
    {
    }
}

/// A message on a plugin channel; its data runs to the end of the packet.
#[derive(Clone, Debug, PartialEq)]
pub struct ServersidePluginMessage {
    pub channel: String,
    pub data: Vec<u8>,
}

/// The content of a [`ServersidePluginMessage`] as it goes over the wire.
pub struct ServersidePluginMessageView {
    pub channel: Seq<char>,
    pub data: Seq<u8>,
}

impl DeepView for ServersidePluginMessage {
    type V = ServersidePluginMessageView;

    open spec fn deep_view(&self) -> ServersidePluginMessageView {
        ServersidePluginMessageView {
            channel: self.channel.deep_view(),
            data: self.data@,
        }
    }
}

impl ServersidePluginMessage {
    /// What reading a [`ServersidePluginMessage`] at `pos` yields, and the position after it.
    pub open spec fn spec_parse(s: Seq<u8>, pos: int) -> Option<(ServersidePluginMessageView, int)> {
        match <String as Buffer>::spec_parse(s, pos) {
            Some((channel, p0)) => match parse_rest(s, p0) {
                Some((data, p1)) => Some((ServersidePluginMessageView { channel, data }, p1)),
                None => None,
            },
            None => None,
        }
    }

    /// The bytes that writing a [`ServersidePluginMessage`] appends.
    pub open spec fn spec_serialize(v: ServersidePluginMessageView) -> Seq<u8> {
        <String as Buffer>::spec_serialize(v.channel) + v.data
    }

    /// The contents that read back as written: every length fits its `VarInt` prefix.
    pub open spec fn spec_wf(v: ServersidePluginMessageView) -> bool {
        <String as Buffer>::spec_wf(v.channel)
    }

    /// Reading back what writing a [`ServersidePluginMessage`] appended gives the same contents, when the bytes run to the end of the input.
    pub proof fn lemma_roundtrip(s: Seq<u8>, pos: int, v: ServersidePluginMessageView)
        requires
            Self::spec_wf(v),
            holds_at(s, pos, Self::spec_serialize(v)),
            s.len() == pos + Self::spec_serialize(v).len(),
        ensures
            Self::spec_parse(s, pos) == Some((v, pos + Self::spec_serialize(v).len())),
    {
        lemma_holds_at_split(s, pos, <String as Buffer>::spec_serialize(v.channel), v.data);
        <String as Buffer>::lemma_roundtrip(s, pos, v.channel);
        lemma_rest_roundtrip(s, pos + <String as Buffer>::spec_serialize(v.channel).len(), v.data);
    }

    /// Reads a [`ServersidePluginMessage`] at the cursor and moves past it.
    pub fn read(buffer: &mut Cursor) -> (res: Option<Self>)
        ensures
            final(buffer).data@ == old(buffer).data@,
            match res {
                Some(v) => Self::spec_parse(old(buffer).data@, old(buffer).position as int) == Some(
                    (v.deep_view(), final(buffer).position as int),
                ),
                None => Self::spec_parse(old(buffer).data@, old(buffer).position as int) is None,
            },
    {
        let channel = match <String as Buffer>::read_buf(buffer) {
            Some(x) => x,
            None => {
                return None;
            },
        };
        let data = match Some(read_rest(buffer)) {
            Some(x) => x,
            None => {
                return None;
            },
        };
        Some(ServersidePluginMessage { channel, data })
    }

    /// Appends the wire form of the [`ServersidePluginMessage`].
    pub fn write(&self, buffer: &mut Vec<u8>)
        ensures
            final(buffer)@ == old(buffer)@ + Self::spec_serialize(self.deep_view()),
    {
        self.channel.write_buf(buffer);
        write_bytes(&self.data, buffer);
        assert(buffer@ =~= old(buffer)@ + Self::spec_serialize(self.deep_view()));
    }
}

/// The client acknowledges the end of the configuration.
#[derive(Clone, Debug, PartialEq)]
pub struct ServersideAcknowledgeFinishConfiguration;

/// The content of a [`ServersideAcknowledgeFinishConfiguration`] as it goes over the wire.
pub struct ServersideAcknowledgeFinishConfigurationView {}

impl DeepView for ServersideAcknowledgeFinishConfiguration {
    type V = ServersideAcknowledgeFinishConfigurationView;

    open spec fn deep_view(&self) -> ServersideAcknowledgeFinishConfigurationView {
        ServersideAcknowledgeFinishConfigurationView {  }
    }
}

impl ServersideAcknowledgeFinishConfiguration {
    /// What reading a [`ServersideAcknowledgeFinishConfiguration`] at `pos` yields, and the position after it.
    pub open spec fn spec_parse(s: Seq<u8>, pos: int) -> Option<(ServersideAcknowledgeFinishConfigurationView, int)> {
        Some((ServersideAcknowledgeFinishConfigurationView {  }, pos))
    }

    /// The bytes that writing a [`ServersideAcknowledgeFinishConfiguration`] appends.
    pub open spec fn spec_serialize(v: ServersideAcknowledgeFinishConfigurationView) -> Seq<u8> {
        Seq::empty()
    }

    /// The contents that read back as written: every length fits its `VarInt` prefix.
    pub open spec fn spec_wf(v: ServersideAcknowledgeFinishConfigurationView) -> bool {
        true
    }

    /// Reading back what writing a [`ServersideAcknowledgeFinishConfiguration`] appended gives the same contents, whatever follows.
    pub proof fn lemma_roundtrip(s: Seq<u8>, pos: int, v: ServersideAcknowledgeFinishConfigurationView)
        requires
            Self::spec_wf(v),
            holds_at(s, pos, Self::spec_serialize(v)),
        ensures
            Self::spec_parse(s, pos) == Some((v, pos + Self::spec_serialize(v).len())),
    {
    }

    /// Reads a [`ServersideAcknowledgeFinishConfiguration`] at the cursor and moves past it.
    pub fn read(buffer: &mut Cursor) -> (res: Option<Self>)
        ensures
            final(buffer).data@ == old(buffer).data@,
            match res {
                Some(v) => Self::spec_parse(old(buffer).data@, old(buffer).position as int) == Some(
                    (v.deep_view(), final(buffer).position as int),
                ),
                None => Self::spec_parse(old(buffer).data@, old(buffer).position as int) is None,
            },
    {
        Some(ServersideAcknowledgeFinishConfiguration)
    }

    /// Appends the wire form of the [`ServersideAcknowledgeFinishConfiguration`].
    pub fn write(&self, buffer: &mut Vec<u8>)
        ensures
            final(buffer)@ == old(buffer)@ + Self::spec_serialize(self.deep_view()),
    {
        assert(buffer@ =~= old(buffer)@ + Self::spec_serialize(self.deep_view()));
    }
}

/// What became of an offered resource pack.
#[derive(Clone, Debug, PartialEq)]
pub struct ServersideResourcePackResponse {
    pub uuid: Uuid,
    pub state: ResourcePackState,
}

/// The content of a [`ServersideResourcePackResponse`] as it goes over the wire.
pub struct ServersideResourcePackResponseView {
    pub uuid: u128,
    pub state: ResourcePackState,
}

impl DeepView for ServersideResourcePackResponse {
    type V = ServersideResourcePackResponseView;

    open spec fn deep_view(&self) -> ServersideResourcePackResponseView {
        ServersideResourcePackResponseView {
            uuid: self.uuid.deep_view(),
            state: self.state.deep_view(),
        }
    }
}

impl ServersideResourcePackResponse {
    /// What reading a [`ServersideResourcePackResponse`] at `pos` yields, and the position after it.
    pub open spec fn spec_parse(s: Seq<u8>, pos: int) -> Option<(ServersideResourcePackResponseView, int)> {
        match <Uuid as Buffer>::spec_parse(s, pos) {
            Some((uuid, p0)) => match <ResourcePackState as Buffer>::spec_parse(s, p0) {
                Some((state, p1)) => Some((ServersideResourcePackResponseView { uuid, state }, p1)),
                None => None,
            },
            None => None,
        }
    }

    /// The bytes that writing a [`ServersideResourcePackResponse`] appends.
    pub open spec fn spec_serialize(v: ServersideResourcePackResponseView) -> Seq<u8> {
        <Uuid as Buffer>::spec_serialize(v.uuid) + <ResourcePackState as Buffer>::spec_serialize(v.state)
    }

    /// The contents that read back as written: every length fits its `VarInt` prefix.
    pub open spec fn spec_wf(v: ServersideResourcePackResponseView) -> bool {
        <Uuid as Buffer>::spec_wf(v.uuid) && <ResourcePackState as Buffer>::spec_wf(v.state)
    }

    /// Reading back what writing a [`ServersideResourcePackResponse`] appended gives the same contents, whatever follows.
    pub proof fn lemma_roundtrip(s: Seq<u8>, pos: int, v: ServersideResourcePackResponseView)
        requires
            Self::spec_wf(v),
            holds_at(s, pos, Self::spec_serialize(v)),
        ensures
            Self::spec_parse(s, pos) == Some((v, pos + Self::spec_serialize(v).len())),
    {
        lemma_holds_at_split(s, pos, <Uuid as Buffer>::spec_serialize(v.uuid), <ResourcePackState as Buffer>::spec_serialize(v.state));
        <Uuid as Buffer>::lemma_roundtrip(s, pos, v.uuid);
        <ResourcePackState as Buffer>::lemma_roundtrip(s, pos + <Uuid as Buffer>::spec_serialize(v.uuid).len(), v.state);
    }

    /// Reads a [`ServersideResourcePackResponse`] at the cursor and moves past it.
    pub fn read(buffer: &mut Cursor) -> (res: Option<Self>)
        ensures
            final(buffer).data@ == old(buffer).data@,
            match res {
                Some(v) => Self::spec_parse(old(buffer).data@, old(buffer).position as int) == Some(
                    (v.deep_view(), final(buffer).position as int),
                ),
                None => Self::spec_parse(old(buffer).data@, old(buffer).position as int) is None,
            },
    {
        let uuid = match <Uuid as Buffer>::read_buf(buffer) {
            Some(x) => x,
            None => {
                return None;
            },
        };
        let state = match <ResourcePackState as Buffer>::read_buf(buffer) {
            Some(x) => x,
            None => {
                return None;
            },
        };
        Some(ServersideResourcePackResponse { uuid, state })
    }

    /// Appends the wire form of the [`ServersideResourcePackResponse`].
    pub fn write(&self, buffer: &mut Vec<u8>)
        ensures
            final(buffer)@ == old(buffer)@ + Self::spec_serialize(self.deep_view()),
    {
        self.uuid.write_buf(buffer);
        self.state.write_buf(buffer);
        assert(buffer@ =~= old(buffer)@ + Self::spec_serialize(self.deep_view()));
    }
}

impl ServersideResourcePackResponse {
    /// A resource pack response is the identifier of the pack as sixteen bytes, then the
    /// identifier of the state as a `VarInt`; reading takes them in that order.
    pub proof fn lemma_wire_form(v: ServersideResourcePackResponseView, s: Seq<u8>, pos: int)
        ensures
            Self::spec_serialize(v) == uuid_bytes(v.uuid) + spec_varint(v.state.spec_id()),
            Self::spec_parse(s, pos) is Some ==> {
                let (w, q) = Self::spec_parse(s, pos).unwrap();
                &&& <Uuid as Buffer>::spec_parse(s, pos) == Some((w.uuid, pos + 16))
                &&& parse_varint(s, pos + 16) is Some
                &&& parse_varint(s, pos + 16).unwrap().1 == q
                &&& w.state == ResourcePackState::spec_from(parse_varint(s, pos + 16).unwrap().0)
            },
    {
    }
}

/// The data packs that the client knows.
#[derive(Clone, Debug, PartialEq)]
pub struct ServersideKnownPacks {
    pub known_packs: Vec<KnownPack>,
}

/// The content of a [`ServersideKnownPacks`] as it goes over the wire.
pub struct ServersideKnownPacksView {
    pub known_packs: Seq<KnownPackView>,
}

impl DeepView for ServersideKnownPacks {
    type V = ServersideKnownPacksView;

    open spec fn deep_view(&self) -> ServersideKnownPacksView {
        ServersideKnownPacksView {
            known_packs: self.known_packs.deep_view(),
        }
    }
}

impl ServersideKnownPacks {
    /// What reading a [`ServersideKnownPacks`] at `pos` yields, and the position after it.
    pub open spec fn spec_parse(s: Seq<u8>, pos: int) -> Option<(ServersideKnownPacksView, int)> {
        match <Vec<KnownPack> as Buffer>::spec_parse(s, pos) {
            Some((known_packs, p0)) => Some((ServersideKnownPacksView { known_packs }, p0)),
            None => None,
        }
    }

    /// The bytes that writing a [`ServersideKnownPacks`] appends.
    pub open spec fn spec_serialize(v: ServersideKnownPacksView) -> Seq<u8> {
        <Vec<KnownPack> as Buffer>::spec_serialize(v.known_packs)
    }

    /// The contents that read back as written: every length fits its `VarInt` prefix.
    pub open spec fn spec_wf(v: ServersideKnownPacksView) -> bool {
        <Vec<KnownPack> as Buffer>::spec_wf(v.known_packs)
    }

    /// Reading back what writing a [`ServersideKnownPacks`] appended gives the same contents, whatever follows.
    pub proof fn lemma_roundtrip(s: Seq<u8>, pos: int, v: ServersideKnownPacksView)
        requires
            Self::spec_wf(v),
            holds_at(s, pos, Self::spec_serialize(v)),
        ensures
            Self::spec_parse(s, pos) == Some((v, pos + Self::spec_serialize(v).len())),
    {
        <Vec<KnownPack> as Buffer>::lemma_roundtrip(s, pos, v.known_packs);
    }

    /// Reads a [`ServersideKnownPacks`] at the cursor and moves past it.
    pub fn read(buffer: &mut Cursor) -> (res: Option<Self>)
        ensures
            final(buffer).data@ == old(buffer).data@,
            match res {
                Some(v) => Self::spec_parse(old(buffer).data@, old(buffer).position as int) == Some(
                    (v.deep_view(), final(buffer).position as int),
                ),
                None => Self::spec_parse(old(buffer).data@, old(buffer).position as int) is None,
            },
    {
        let known_packs = match <Vec<KnownPack> as Buffer>::read_buf(buffer) {
            Some(x) => x,
            None => {
                return None;
            },
        };
        Some(ServersideKnownPacks { known_packs })
    }

    /// Appends the wire form of the [`ServersideKnownPacks`].
    pub fn write(&self, buffer: &mut Vec<u8>)
        ensures
            final(buffer)@ == old(buffer)@ + Self::spec_serialize(self.deep_view()),
    {
        self.known_packs.write_buf(buffer);
    }
}

} // verus!

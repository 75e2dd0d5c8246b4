use vstd::prelude::*;

use crate::codec::buffer::Buffer;
use crate::codec::containers::{bytes_view, flagged_stop, flagged_wf, lemma_byte_vec_cut, lemma_flagged_rest_roundtrip, lemma_flagged_roundtrip, lemma_rest_roundtrip, parse_flagged, parse_flagged_rest, parse_rest, read_flagged, read_flagged_rest, read_rest, serialize_flagged, serialize_flagged_rest, write_bytes, write_flagged, write_flagged_rest};
use crate::codec::cursor::{holds_at, lemma_holds_at_split, lemma_holds_at_whole, Cursor};
use crate::codec::string::{lemma_str_cut, spec_str};
use crate::codec::varint::{lemma_varint_i32_roundtrip, parse_varint, spec_varint, VarInt};
use crate::codec::uuid::{uuid_bytes, Uuid};

verus! {

/// The server refuses the login, with a reason.
#[derive(Clone, Debug, PartialEq)]
pub struct ClientsideLoginDisconnect {
    pub reason: String,
}

/// The content of a [`ClientsideLoginDisconnect`] as it goes over the wire.
pub struct ClientsideLoginDisconnectView {
    pub reason: Seq<char>,
}

impl DeepView for ClientsideLoginDisconnect {
    type V = ClientsideLoginDisconnectView;

    open spec fn deep_view(&self) -> ClientsideLoginDisconnectView {
        ClientsideLoginDisconnectView {
            reason: self.reason.deep_view(),
        }
    }
}

impl ClientsideLoginDisconnect {
    /// What reading a [`ClientsideLoginDisconnect`] at `pos` yields, and the position after it.
    pub open spec fn spec_parse(s: Seq<u8>, pos: int) -> Option<(ClientsideLoginDisconnectView, int)> {
        match <String as Buffer>::spec_parse(s, pos) {
            Some((reason, p0)) => Some((ClientsideLoginDisconnectView { reason }, p0)),
            None => None,
        }
    }

    /// The bytes that writing a [`ClientsideLoginDisconnect`] appends.
    pub open spec fn spec_serialize(v: ClientsideLoginDisconnectView) -> Seq<u8> {
        <String as Buffer>::spec_serialize(v.reason)
    }

    /// The contents that read back as written: every length fits its `VarInt` prefix.
    pub open spec fn spec_wf(v: ClientsideLoginDisconnectView) -> bool {
        <String as Buffer>::spec_wf(v.reason)
    }

    /// Reading back what writing a [`ClientsideLoginDisconnect`] appended gives the same contents, whatever follows.
    pub proof fn lemma_roundtrip(s: Seq<u8>, pos: int, v: ClientsideLoginDisconnectView)
        requires
            Self::spec_wf(v),
            holds_at(s, pos, Self::spec_serialize(v)),
        ensures
            Self::spec_parse(s, pos) == Some((v, pos + Self::spec_serialize(v).len())),
    {
        <String as Buffer>::lemma_roundtrip(s, pos, v.reason);
    }

    /// Reads a [`ClientsideLoginDisconnect`] at the cursor and moves past it.
    pub fn read(buffer: &mut Cursor) -> (res: Option<Self>)
        ensures
            final(buffer).data@ == old(buffer).data@,
            match res {
                Some(v) => Self::spec_parse(old(buffer).data@, old(buffer).position as int) == Some(
                    (v.deep_view(), final(buffer).position as int),
                ),
                None => Self::spec_parse(old(buffer).data@, old(buffer).position as int) is None,
            },
    {
        let reason = match <String as Buffer>::read_buf(buffer) {
            Some(x) => x,
            None => {
                return None;
            },
        };
        Some(ClientsideLoginDisconnect { reason })
    }

    /// Appends the wire form of the [`ClientsideLoginDisconnect`].
    pub fn write(&self, buffer: &mut Vec<u8>)
        ensures
            final(buffer)@ == old(buffer)@ + Self::spec_serialize(self.deep_view()),
    {
        self.reason.write_buf(buffer);
    }
}

/// The server asks the client to turn on encryption.
#[derive(Clone, Debug, PartialEq)]
pub struct ClientsideEncryptionRequest {
    pub server_id: String,
    pub public_key: Vec<u8>,
    pub verify_token: Vec<u8>,
    pub should_authenticate: bool,
}

/// The content of a [`ClientsideEncryptionRequest`] as it goes over the wire.
pub struct ClientsideEncryptionRequestView {
    pub server_id: Seq<char>,
    pub public_key: Seq<u8>,
    pub verify_token: Seq<u8>,
    pub should_authenticate: bool,
}

impl DeepView for ClientsideEncryptionRequest {
    type V = ClientsideEncryptionRequestView;

    open spec fn deep_view(&self) -> ClientsideEncryptionRequestView {
        ClientsideEncryptionRequestView {
            server_id: self.server_id.deep_view(),
            public_key: self.public_key.deep_view(),
            verify_token: self.verify_token.deep_view(),
            should_authenticate: self.should_authenticate.deep_view(),
        }
    }
}

impl ClientsideEncryptionRequest {
    /// What reading a [`ClientsideEncryptionRequest`] at `pos` yields, and the position after it.
    pub open spec fn spec_parse(s: Seq<u8>, pos: int) -> Option<(ClientsideEncryptionRequestView, int)> {
        match <String as Buffer>::spec_parse(s, pos) {
            Some((server_id, p0)) => match <Vec<u8> as Buffer>::spec_parse(s, p0) {
                Some((public_key, p1)) => match <Vec<u8> as Buffer>::spec_parse(s, p1) {
                    Some((verify_token, p2)) => match <bool as Buffer>::spec_parse(s, p2) {
                        Some((should_authenticate, p3)) => Some((ClientsideEncryptionRequestView { server_id, public_key, verify_token, should_authenticate }, p3)),
                        None => None,
                    },
                    None => None,
                },
                None => None,
            },
            None => None,
        }
    }

    /// The bytes that writing a [`ClientsideEncryptionRequest`] appends.
    pub open spec fn spec_serialize(v: ClientsideEncryptionRequestView) -> Seq<u8> {
        <String as Buffer>::spec_serialize(v.server_id) + <Vec<u8> as Buffer>::spec_serialize(v.public_key) + <Vec<u8> as Buffer>::spec_serialize(v.verify_token) + <bool as Buffer>::spec_serialize(v.should_authenticate)
    }

    /// The contents that read back as written: every length fits its `VarInt` prefix.
    pub open spec fn spec_wf(v: ClientsideEncryptionRequestView) -> bool {
        <String as Buffer>::spec_wf(v.server_id) && <Vec<u8> as Buffer>::spec_wf(v.public_key) && <Vec<u8> as Buffer>::spec_wf(v.verify_token) && <bool as Buffer>::spec_wf(v.should_authenticate)
    }

    /// Reading back what writing a [`ClientsideEncryptionRequest`] appended gives the same contents, whatever follows.
    pub proof fn lemma_roundtrip(s: Seq<u8>, pos: int, v: ClientsideEncryptionRequestView)
        requires
            Self::spec_wf(v),
            holds_at(s, pos, Self::spec_serialize(v)),
        ensures
            Self::spec_parse(s, pos) == Some((v, pos + Self::spec_serialize(v).len())),
    {
        lemma_holds_at_split(s, pos, <String as Buffer>::spec_serialize(v.server_id) + <Vec<u8> as Buffer>::spec_serialize(v.public_key) + <Vec<u8> as Buffer>::spec_serialize(v.verify_token), <bool as Buffer>::spec_serialize(v.should_authenticate));
        lemma_holds_at_split(s, pos, <String as Buffer>::spec_serialize(v.server_id) + <Vec<u8> as Buffer>::spec_serialize(v.public_key), <Vec<u8> as Buffer>::spec_serialize(v.verify_token));
        lemma_holds_at_split(s, pos, <String as Buffer>::spec_serialize(v.server_id), <Vec<u8> as Buffer>::spec_serialize(v.public_key));
        <String as Buffer>::lemma_roundtrip(s, pos, v.server_id);
        <Vec<u8> as Buffer>::lemma_roundtrip(s, pos + <String as Buffer>::spec_serialize(v.server_id).len(), v.public_key);
        <Vec<u8> as Buffer>::lemma_roundtrip(s, pos + <String as Buffer>::spec_serialize(v.server_id).len() + <Vec<u8> as Buffer>::spec_serialize(v.public_key).len(), v.verify_token);
        <bool as Buffer>::lemma_roundtrip(s, pos + <String as Buffer>::spec_serialize(v.server_id).len() + <Vec<u8> as Buffer>::spec_serialize(v.public_key).len() + <Vec<u8> as Buffer>::spec_serialize(v.verify_token).len(), v.should_authenticate);
    }

    /// Reads a [`ClientsideEncryptionRequest`] at the cursor and moves past it.
    pub fn read(buffer: &mut Cursor) -> (res: Option<Self>)
        ensures
            final(buffer).data@ == old(buffer).data@,
            match res {
                Some(v) => Self::spec_parse(old(buffer).data@, old(buffer).position as int) == Some(
                    (v.deep_view(), final(buffer).position as int),
                ),
                None => Self::spec_parse(old(buffer).data@, old(buffer).position as int) is None,
            },
    {
        let server_id = match <String as Buffer>::read_buf(buffer) {
            Some(x) => x,
            None => {
                return None;
            },
        };
        let public_key = match <Vec<u8> as Buffer>::read_buf(buffer) {
            Some(x) => x,
            None => {
                return None;
            },
        };
        let verify_token = match <Vec<u8> as Buffer>::read_buf(buffer) {
            Some(x) => x,
            None => {
                return None;
            },
        };
        let should_authenticate = match <bool as Buffer>::read_buf(buffer) {
            Some(x) => x,
            None => {
                return None;
            },
        };
        Some(ClientsideEncryptionRequest { server_id, public_key, verify_token, should_authenticate })
    }

    /// Appends the wire form of the [`ClientsideEncryptionRequest`].
    pub fn write(&self, buffer: &mut Vec<u8>)
        ensures
            final(buffer)@ == old(buffer)@ + Self::spec_serialize(self.deep_view()),
    {
        self.server_id.write_buf(buffer);
        self.public_key.write_buf(buffer);
        assert(buffer@ =~= old(buffer)@ + (<String as Buffer>::spec_serialize(self.deep_view().server_id) + <Vec<u8> as Buffer>::spec_serialize(self.deep_view().public_key)));
        self.verify_token.write_buf(buffer);
        assert(buffer@ =~= old(buffer)@ + (<String as Buffer>::spec_serialize(self.deep_view().server_id) + <Vec<u8> as Buffer>::spec_serialize(self.deep_view().public_key) + <Vec<u8> as Buffer>::spec_serialize(self.deep_view().verify_token)));
        self.should_authenticate.write_buf(buffer);
        assert(buffer@ =~= old(buffer)@ + Self::spec_serialize(self.deep_view()));
    }
}

impl ClientsideEncryptionRequest {
    /// An encryption request cut short anywhere does not read.
    pub proof fn lemma_cut(v: ClientsideEncryptionRequestView, k: int)
        requires
            Self::spec_wf(v),
            0 <= k < Self::spec_serialize(v).len(),
        ensures
            Self::spec_parse(Self::spec_serialize(v).take(k), 0) is None,
    {
        let a = <String as Buffer>::spec_serialize(v.server_id);
        let b = <Vec<u8> as Buffer>::spec_serialize(v.public_key);
        let c = <Vec<u8> as Buffer>::spec_serialize(v.verify_token);
        let t = Self::spec_serialize(v);
        let s = t.take(k);
        lemma_holds_at_whole(s);
        if k < a.len() {
            assert(s =~= a.take(k));
            lemma_str_cut(s, 0, v.server_id);
        } else {
            let p0 = a.len() as int;
            assert(s.subrange(0, p0) =~= a);
            <String as Buffer>::lemma_roundtrip(s, 0, v.server_id);
            if k < p0 + b.len() {
                assert(s.subrange(p0, k) =~= b.take(k - p0));
                lemma_byte_vec_cut(s, p0, v.public_key);
            } else {
                let p1 = p0 + b.len();
                assert(s.subrange(p0, p1) =~= b);
                <Vec<u8> as Buffer>::lemma_roundtrip(s, p0, v.public_key);
                if k < p1 + c.len() {
                    assert(s.subrange(p1, k) =~= c.take(k - p1));
                    lemma_byte_vec_cut(s, p1, v.verify_token);
                } else {
                    let p2 = p1 + c.len();
                    assert(s.subrange(p1, p2) =~= c);
                    <Vec<u8> as Buffer>::lemma_roundtrip(s, p1, v.verify_token);
                    assert(p2 == k);
                }
            }
        }
    }
}

/// A property of a player profile, with an optional signature.
#[derive(Clone, Debug, PartialEq)]
pub struct Property {
    pub name: String,
    pub value: String,
    pub signature: Option<String>,
}

/// The content of a [`Property`] as it goes over the wire.
pub struct PropertyView {
    pub name: Seq<char>,
    pub value: Seq<char>,
    pub signature: Option<Seq<char>>,
}

impl DeepView for Property {
    type V = PropertyView;

    open spec fn deep_view(&self) -> PropertyView {
        PropertyView {
            name: self.name.deep_view(),
            value: self.value.deep_view(),
            signature: self.signature.deep_view(),
        }
    }
}

impl Buffer for Property {
    open spec fn spec_parse(s: Seq<u8>, pos: int) -> Option<(PropertyView, int)> {
        match <String as Buffer>::spec_parse(s, pos) {
            Some((name, p0)) => match <String as Buffer>::spec_parse(s, p0) {
                Some((value, p1)) => match parse_flagged::<String>(s, p1) {
                    Some((signature, p2)) => Some((PropertyView { name, value, signature }, p2)),
                    None => None,
                },
                None => None,
            },
            None => None,
        }
    }

    open spec fn spec_serialize(v: PropertyView) -> Seq<u8> {
        <String as Buffer>::spec_serialize(v.name) + <String as Buffer>::spec_serialize(v.value) + serialize_flagged::<String>(v.signature)
    }

    open spec fn spec_wf(v: PropertyView) -> bool {
        <String as Buffer>::spec_wf(v.name) && <String as Buffer>::spec_wf(v.value) && flagged_wf::<String>(v.signature)
    }

    open spec fn spec_stop(s: Seq<u8>, pos: int) -> int {
        match <String as Buffer>::spec_parse(s, pos) {
            Some((_, p0)) => match <String as Buffer>::spec_parse(s, p0) {
                Some((_, p1)) => match parse_flagged::<String>(s, p1) {
                    Some((_, p2)) => p2,
                    None => flagged_stop::<String>(s, p1),
                },
                None => <String as Buffer>::spec_stop(s, p0),
            },
            None => <String as Buffer>::spec_stop(s, pos),
        }
    }

    proof fn lemma_roundtrip(s: Seq<u8>, pos: int, v: PropertyView) {
        lemma_holds_at_split(s, pos, <String as Buffer>::spec_serialize(v.name) + <String as Buffer>::spec_serialize(v.value), serialize_flagged::<String>(v.signature));
        lemma_holds_at_split(s, pos, <String as Buffer>::spec_serialize(v.name), <String as Buffer>::spec_serialize(v.value));
        <String as Buffer>::lemma_roundtrip(s, pos, v.name);
        <String as Buffer>::lemma_roundtrip(s, pos + <String as Buffer>::spec_serialize(v.name).len(), v.value);
        lemma_flagged_roundtrip::<String>(s, pos + <String as Buffer>::spec_serialize(v.name).len() + <String as Buffer>::spec_serialize(v.value).len(), v.signature);
    }

    fn read_buf(buffer: &mut Cursor) -> (res: Option<Property>) {
        let name = match <String as Buffer>::read_buf(buffer) {
            Some(x) => x,
            None => {
                return None;
            },
        };
        let value = match <String as Buffer>::read_buf(buffer) {
            Some(x) => x,
            None => {
                return None;
            },
        };
        let signature = match read_flagged::<String>(buffer) {
            Some(x) => x,
            None => {
                return None;
            },
        };
        Some(Property { name, value, signature })
    }

    fn write_buf(&self, buffer: &mut Vec<u8>) {
        self.name.write_buf(buffer);
        self.value.write_buf(buffer);
        assert(buffer@ =~= old(buffer)@ + (<String as Buffer>::spec_serialize(self.deep_view().name) + <String as Buffer>::spec_serialize(self.deep_view().value)));
        write_flagged(&self.signature, buffer);
        assert(buffer@ =~= old(buffer)@ + Self::spec_serialize(self.deep_view()));
    }
}

impl Property {
    /// A profile property is written as its name and its value, each a string, then its
    /// signature behind a presence flag.
    pub proof fn lemma_wire_form(v: PropertyView)
        ensures
            <Property as Buffer>::spec_serialize(v) == spec_str(v.name) + spec_str(v.value) + serialize_flagged::<String>(
                v.signature,
            ),
    {
    }
}

/// The server accepts the login and gives the profile of the player.
#[derive(Clone, Debug, PartialEq)]
pub struct ClientsideLoginSuccess {
    pub uuid: Uuid,
    pub username: String,
    pub properties: Vec<Property>,
}

/// The content of a [`ClientsideLoginSuccess`] as it goes over the wire.
pub struct ClientsideLoginSuccessView {
    pub uuid: u128,
    pub username: Seq<char>,
    pub properties: Seq<PropertyView>,
}

impl DeepView for ClientsideLoginSuccess {
    type V = ClientsideLoginSuccessView;

    open spec fn deep_view(&self) -> ClientsideLoginSuccessView {
        ClientsideLoginSuccessView {
            uuid: self.uuid.deep_view(),
            username: self.username.deep_view(),
            properties: self.properties.deep_view(),
        }
    }
}

impl ClientsideLoginSuccess {
    /// What reading a [`ClientsideLoginSuccess`] at `pos` yields, and the position after it.
    pub open spec fn spec_parse(s: Seq<u8>, pos: int) -> Option<(ClientsideLoginSuccessView, int)> {
        match <Uuid as Buffer>::spec_parse(s, pos) {
            Some((uuid, p0)) => match <String as Buffer>::spec_parse(s, p0) {
                Some((username, p1)) => match <Vec<Property> as Buffer>::spec_parse(s, p1) {
                    Some((properties, p2)) => Some((ClientsideLoginSuccessView { uuid, username, properties }, p2)),
                    None => None,
                },
                None => None,
            },
            None => None,
        }
    }

    /// The bytes that writing a [`ClientsideLoginSuccess`] appends.
    pub open spec fn spec_serialize(v: ClientsideLoginSuccessView) -> Seq<u8> {
        <Uuid as Buffer>::spec_serialize(v.uuid) + <String as Buffer>::spec_serialize(v.username) + <Vec<Property> as Buffer>::spec_serialize(v.properties)
    }

    /// The contents that read back as written: every length fits its `VarInt` prefix.
    pub open spec fn spec_wf(v: ClientsideLoginSuccessView) -> bool {
        <Uuid as Buffer>::spec_wf(v.uuid) && <String as Buffer>::spec_wf(v.username) && <Vec<Property> as Buffer>::spec_wf(v.properties)
    }

    /// Reading back what writing a [`ClientsideLoginSuccess`] appended gives the same contents, whatever follows.
    pub proof fn lemma_roundtrip(s: Seq<u8>, pos: int, v: ClientsideLoginSuccessView)
        requires
            Self::spec_wf(v),
            holds_at(s, pos, Self::spec_serialize(v)),
        ensures
            Self::spec_parse(s, pos) == Some((v, pos + Self::spec_serialize(v).len())),
    {
        lemma_holds_at_split(s, pos, <Uuid as Buffer>::spec_serialize(v.uuid) + <String as Buffer>::spec_serialize(v.username), <Vec<Property> as Buffer>::spec_serialize(v.properties));
        lemma_holds_at_split(s, pos, <Uuid as Buffer>::spec_serialize(v.uuid), <String as Buffer>::spec_serialize(v.username));
        <Uuid as Buffer>::lemma_roundtrip(s, pos, v.uuid);
        <String as Buffer>::lemma_roundtrip(s, pos + <Uuid as Buffer>::spec_serialize(v.uuid).len(), v.username);
        <Vec<Property> as Buffer>::lemma_roundtrip(s, pos + <Uuid as Buffer>::spec_serialize(v.uuid).len() + <String as Buffer>::spec_serialize(v.username).len(), v.properties);
    }

    /// Reads a [`ClientsideLoginSuccess`] at the cursor and moves past it.
    pub fn read(buffer: &mut Cursor) -> (res: Option<Self>)
        ensures
            final(buffer).data@ == old(buffer).data@,
            match res {
                Some(v) => Self::spec_parse(old(buffer).data@, old(buffer).position as int) == Some(
                    (v.deep_view(), final(buffer).position as int),
                ),
                None => Self::spec_parse(old(buffer).data@, old(buffer).position as int) is None,
            },
    {
        let uuid = match <Uuid as Buffer>::read_buf(buffer) {
            Some(x) => x,
            None => {
                return None;
            },
        };
        let username = match <String as Buffer>::read_buf(buffer) {
            Some(x) => x,
            None => {
                return None;
            },
        };
        let properties = match <Vec<Property> as Buffer>::read_buf(buffer) {
            Some(x) => x,
            None => {
                return None;
            },
        };
        Some(ClientsideLoginSuccess { uuid, username, properties })
    }

    /// Appends the wire form of the [`ClientsideLoginSuccess`].
    pub fn write(&self, buffer: &mut Vec<u8>)
        ensures
            final(buffer)@ == old(buffer)@ + Self::spec_serialize(self.deep_view()),
    {
        self.uuid.write_buf(buffer);
        self.username.write_buf(buffer);
        assert(buffer@ =~= old(buffer)@ + (<Uuid as Buffer>::spec_serialize(self.deep_view().uuid) + <String as Buffer>::spec_serialize(self.deep_view().username)));
        self.properties.write_buf(buffer);
        assert(buffer@ =~= old(buffer)@ + Self::spec_serialize(self.deep_view()));
    }
}

impl ClientsideLoginSuccess {
    /// A login success starts with the identifier of the player as its sixteen bytes, then the
    /// name as a string; reading takes the identifier from the first sixteen bytes and the name
    /// right after them.
    pub proof fn lemma_wire_form(v: ClientsideLoginSuccessView, s: Seq<u8>, pos: int)
        ensures
            Self::spec_serialize(v).take(16) == uuid_bytes(v.uuid),
            Self::spec_serialize(v).subrange(16, 16 + spec_str(v.username).len() as int) == spec_str(v.username),
            Self::spec_parse(s, pos) is Some ==> {
                let w = Self::spec_parse(s, pos).unwrap().0;
                &&& <Uuid as Buffer>::spec_parse(s, pos) == Some((w.uuid, pos + 16))
                &&& <String as Buffer>::spec_parse(s, pos + 16) is Some
                &&& <String as Buffer>::spec_parse(s, pos + 16).unwrap().0 == w.username
            },
    {
        let a = uuid_bytes(v.uuid);
        let b = spec_str(v.username);
        let c = <Vec<Property> as Buffer>::spec_serialize(v.properties);
        assert(a.len() == 16);
        assert(Self::spec_serialize(v) == a + b + c);
        assert((a + b + c).take(16) =~= a);
        assert((a + b + c).subrange(16, 16 + b.len() as int) =~= b);
    }
}

/// The server turns on compression above a threshold.
#[derive(Clone, Debug, PartialEq)]
pub struct ClientsideSetCompression {
    pub compression_threshold: i32,
}

/// The content of a [`ClientsideSetCompression`] as it goes over the wire.
pub struct ClientsideSetCompressionView {
    pub compression_threshold: i32,
}

impl DeepView for ClientsideSetCompression {
    type V = ClientsideSetCompressionView;

    open spec fn deep_view(&self) -> ClientsideSetCompressionView {
        ClientsideSetCompressionView {
            compression_threshold: self.compression_threshold,
        }
    }
}

impl ClientsideSetCompression {
    /// What reading a [`ClientsideSetCompression`] at `pos` yields, and the position after it.
    pub open spec fn spec_parse(s: Seq<u8>, pos: int) -> Option<(ClientsideSetCompressionView, int)> {
        match parse_varint(s, pos) {
            Some((compression_threshold, p0)) => Some((ClientsideSetCompressionView { compression_threshold }, p0)),
            None => None,
        }
    }

    /// The bytes that writing a [`ClientsideSetCompression`] appends.
    pub open spec fn spec_serialize(v: ClientsideSetCompressionView) -> Seq<u8> {
        spec_varint(v.compression_threshold)
    }

    /// The contents that read back as written: every length fits its `VarInt` prefix.
    pub open spec fn spec_wf(v: ClientsideSetCompressionView) -> bool {
        true
    }

    /// Reading back what writing a [`ClientsideSetCompression`] appended gives the same contents, whatever follows.
    pub proof fn lemma_roundtrip(s: Seq<u8>, pos: int, v: ClientsideSetCompressionView)
        requires
            Self::spec_wf(v),
            holds_at(s, pos, Self::spec_serialize(v)),
        ensures
            Self::spec_parse(s, pos) == Some((v, pos + Self::spec_serialize(v).len())),
    {
        lemma_varint_i32_roundtrip(s, pos, v.compression_threshold);
    }

    /// Reads a [`ClientsideSetCompression`] at the cursor and moves past it.
    pub fn read(buffer: &mut Cursor) -> (res: Option<Self>)
        ensures
            final(buffer).data@ == old(buffer).data@,
            match res {
                Some(v) => Self::spec_parse(old(buffer).data@, old(buffer).position as int) == Some(
                    (v.deep_view(), final(buffer).position as int),
                ),
                None => Self::spec_parse(old(buffer).data@, old(buffer).position as int) is None,
            },
    {
        let compression_threshold = match i32::read_varint(buffer) {
            Some(x) => x,
            None => {
                return None;
            },
        };
        Some(ClientsideSetCompression { compression_threshold })
    }

    /// Appends the wire form of the [`ClientsideSetCompression`].
    pub fn write(&self, buffer: &mut Vec<u8>)
        ensures
            final(buffer)@ == old(buffer)@ + Self::spec_serialize(self.deep_view()),
    {
        self.compression_threshold.write_varint(buffer);
    }
}

impl ClientsideSetCompression {
    /// The body of a compression packet is the threshold as a `VarInt`: reading it takes the
    /// `VarInt` at the position, and writing a threshold gives that `VarInt`.
    pub proof fn lemma_wire_form(v: ClientsideSetCompressionView, s: Seq<u8>, pos: int)
        ensures
            Self::spec_serialize(v) == spec_varint(v.compression_threshold),
            (Self::spec_parse(s, pos) is Some) <==> (parse_varint(s, pos) is Some),
            Self::spec_parse(s, pos) is Some ==> Self::spec_parse(s, pos).unwrap() == (
                ClientsideSetCompressionView { compression_threshold: parse_varint(s, pos).unwrap().0 },
                parse_varint(s, pos).unwrap().1,
            ),
    {
    }
}

/// A login plugin request; its data runs to the end of the packet.
#[derive(Clone, Debug, PartialEq)]
pub struct ClientsidePluginRequest {
    pub message_id: i32,
    pub channel: String,
    pub data: Vec<u8>,
}

/// The content of a [`ClientsidePluginRequest`] as it goes over the wire.
pub struct ClientsidePluginRequestView {
    pub message_id: i32,
    pub channel: Seq<char>,
    pub data: Seq<u8>,
}

impl DeepView for ClientsidePluginRequest {
    type V = ClientsidePluginRequestView;

    open spec fn deep_view(&self) -> ClientsidePluginRequestView {
        ClientsidePluginRequestView {
            message_id: self.message_id,
            channel: self.channel.deep_view(),
            data: self.data@,
        }
    }
}

impl ClientsidePluginRequest {
    /// What reading a [`ClientsidePluginRequest`] at `pos` yields, and the position after it.
    pub open spec fn spec_parse(s: Seq<u8>, pos: int) -> Option<(ClientsidePluginRequestView, int)> {
        match parse_varint(s, pos) {
            Some((message_id, p0)) => match <String as Buffer>::spec_parse(s, p0) {
                Some((channel, p1)) => match parse_rest(s, p1) {
                    Some((data, p2)) => Some((ClientsidePluginRequestView { message_id, channel, data }, p2)),
                    None => None,
                },
                None => None,
            },
            None => None,
        }
    }

    /// The bytes that writing a [`ClientsidePluginRequest`] appends.
    pub open spec fn spec_serialize(v: ClientsidePluginRequestView) -> Seq<u8> {
        spec_varint(v.message_id) + <String as Buffer>::spec_serialize(v.channel) + v.data
    }

    /// The contents that read back as written: every length fits its `VarInt` prefix.
    pub open spec fn spec_wf(v: ClientsidePluginRequestView) -> bool {
        <String as Buffer>::spec_wf(v.channel)
    }

    /// Reading back what writing a [`ClientsidePluginRequest`] appended gives the same contents, when the bytes run to the end of the input.
    pub proof fn lemma_roundtrip(s: Seq<u8>, pos: int, v: ClientsidePluginRequestView)
        requires
            Self::spec_wf(v),
            holds_at(s, pos, Self::spec_serialize(v)),
            s.len() == pos + Self::spec_serialize(v).len(),
        ensures
            Self::spec_parse(s, pos) == Some((v, pos + Self::spec_serialize(v).len())),
    {
        lemma_holds_at_split(s, pos, spec_varint(v.message_id) + <String as Buffer>::spec_serialize(v.channel), v.data);
        lemma_holds_at_split(s, pos, spec_varint(v.message_id), <String as Buffer>::spec_serialize(v.channel));
        lemma_varint_i32_roundtrip(s, pos, v.message_id);
        <String as Buffer>::lemma_roundtrip(s, pos + spec_varint(v.message_id).len(), v.channel);
        lemma_rest_roundtrip(s, pos + spec_varint(v.message_id).len() + <String as Buffer>::spec_serialize(v.channel).len(), v.data);
    }

    /// Reads a [`ClientsidePluginRequest`] at the cursor and moves past it.
    pub fn read(buffer: &mut Cursor) -> (res: Option<Self>)
        ensures
            final(buffer).data@ == old(buffer).data@,
            match res {
                Some(v) => Self::spec_parse(old(buffer).data@, old(buffer).position as int) == Some(
                    (v.deep_view(), final(buffer).position as int),
                ),
                None => Self::spec_parse(old(buffer).data@, old(buffer).position as int) is None,
            },
    {
        let message_id = match i32::read_varint(buffer) {
            Some(x) => x,
            None => {
                return None;
            },
        };
        let channel = match <String as Buffer>::read_buf(buffer) {
            Some(x) => x,
            None => {
                return None;
            },
        };
        let data = match Some(read_rest(buffer)) {
            Some(x) => x,
            None => {
                return None;
            },
        };
        Some(ClientsidePluginRequest { message_id, channel, data })
    }

    /// Appends the wire form of the [`ClientsidePluginRequest`].
    pub fn write(&self, buffer: &mut Vec<u8>)
        ensures
            final(buffer)@ == old(buffer)@ + Self::spec_serialize(self.deep_view()),
    {
        self.message_id.write_varint(buffer);
        self.channel.write_buf(buffer);
        assert(buffer@ =~= old(buffer)@ + (spec_varint(self.deep_view().message_id) + <String as Buffer>::spec_serialize(self.deep_view().channel)));
        write_bytes(&self.data, buffer);
        assert(buffer@ =~= old(buffer)@ + Self::spec_serialize(self.deep_view()));
    }
}

/// The server asks for a stored cookie.
#[derive(Clone, Debug, PartialEq)]
pub struct ClientsideCookieRequest {
    pub key: String,
}

/// The content of a [`ClientsideCookieRequest`] as it goes over the wire.
pub struct ClientsideCookieRequestView {
    pub key: Seq<char>,
}

impl DeepView for ClientsideCookieRequest {
    type V = ClientsideCookieRequestView;

    open spec fn deep_view(&self) -> ClientsideCookieRequestView {
        ClientsideCookieRequestView {
            key: self.key.deep_view(),
        }
    }
}

impl ClientsideCookieRequest {
    /// What reading a [`ClientsideCookieRequest`] at `pos` yields, and the position after it.
    pub open spec fn spec_parse(s: Seq<u8>, pos: int) -> Option<(ClientsideCookieRequestView, int)> {
        match <String as Buffer>::spec_parse(s, pos) {
            Some((key, p0)) => Some((ClientsideCookieRequestView { key }, p0)),
            None => None,
        }
    }

    /// The bytes that writing a [`ClientsideCookieRequest`] appends.
    pub open spec fn spec_serialize(v: ClientsideCookieRequestView) -> Seq<u8> {
        <String as Buffer>::spec_serialize(v.key)
    }

    /// The contents that read back as written: every length fits its `VarInt` prefix.
    pub open spec fn spec_wf(v: ClientsideCookieRequestView) -> bool {
        <String as Buffer>::spec_wf(v.key)
    }

    /// Reading back what writing a [`ClientsideCookieRequest`] appended gives the same contents, whatever follows.
    pub proof fn lemma_roundtrip(s: Seq<u8>, pos: int, v: ClientsideCookieRequestView)
        requires
            Self::spec_wf(v),
            holds_at(s, pos, Self::spec_serialize(v)),
        ensures
            Self::spec_parse(s, pos) == Some((v, pos + Self::spec_serialize(v).len())),
    {
        <String as Buffer>::lemma_roundtrip(s, pos, v.key);
    }

    /// Reads a [`ClientsideCookieRequest`] at the cursor and moves past it.
    pub fn read(buffer: &mut Cursor) -> (res: Option<Self>)
        ensures
            final(buffer).data@ == old(buffer).data@,
            match res {
                Some(v) => Self::spec_parse(old(buffer).data@, old(buffer).position as int) == Some(
                    (v.deep_view(), final(buffer).position as int),
                ),
                None => Self::spec_parse(old(buffer).data@, old(buffer).position as int) is None,
            },
    {
        let key = match <String as Buffer>::read_buf(buffer) {
            Some(x) => x,
            None => {
                return None;
            },
        };
        Some(ClientsideCookieRequest { key })
    }

    /// Appends the wire form of the [`ClientsideCookieRequest`].
    pub fn write(&self, buffer: &mut Vec<u8>)
        ensures
            final(buffer)@ == old(buffer)@ + Self::spec_serialize(self.deep_view()),
    {
        self.key.write_buf(buffer);
    }
}

impl ClientsideCookieRequest {
    /// A cookie request cut short anywhere does not read.
    pub proof fn lemma_cut(v: ClientsideCookieRequestView, k: int)
        requires
            Self::spec_wf(v),
            0 <= k < Self::spec_serialize(v).len(),
        ensures
            Self::spec_parse(Self::spec_serialize(v).take(k), 0) is None,
    {
        let s = Self::spec_serialize(v).take(k);
        lemma_holds_at_whole(s);
        lemma_str_cut(s, 0, v.key);
    }
}

/// The client starts the login with its name and identifier.
#[derive(Clone, Debug, PartialEq)]
pub struct ServersideLoginStart {
    pub username: String,
    pub uuid: Uuid,
}

/// The content of a [`ServersideLoginStart`] as it goes over the wire.
pub struct ServersideLoginStartView {
    pub username: Seq<char>,
    pub uuid: u128,
}

impl DeepView for ServersideLoginStart {
    type V = ServersideLoginStartView;

    open spec fn deep_view(&self) -> ServersideLoginStartView {
        ServersideLoginStartView {
            username: self.username.deep_view(),
            uuid: self.uuid.deep_view(),
        }
    }
}

impl ServersideLoginStart {
    /// What reading a [`ServersideLoginStart`] at `pos` yields, and the position after it.
    pub open spec fn spec_parse(s: Seq<u8>, pos: int) -> Option<(ServersideLoginStartView, int)> {
        match <String as Buffer>::spec_parse(s, pos) {
            Some((username, p0)) => match <Uuid as Buffer>::spec_parse(s, p0) {
                Some((uuid, p1)) => Some((ServersideLoginStartView { username, uuid }, p1)),
                None => None,
            },
            None => None,
        }
    }

    /// The bytes that writing a [`ServersideLoginStart`] appends.
    pub open spec fn spec_serialize(v: ServersideLoginStartView) -> Seq<u8> {
        <String as Buffer>::spec_serialize(v.username) + <Uuid as Buffer>::spec_serialize(v.uuid)
    }

    /// The contents that read back as written: every length fits its `VarInt` prefix.
    pub open spec fn spec_wf(v: ServersideLoginStartView) -> bool {
        <String as Buffer>::spec_wf(v.username) && <Uuid as Buffer>::spec_wf(v.uuid)
    }

    /// Reading back what writing a [`ServersideLoginStart`] appended gives the same contents, whatever follows.
    pub proof fn lemma_roundtrip(s: Seq<u8>, pos: int, v: ServersideLoginStartView)
        requires
            Self::spec_wf(v),
            holds_at(s, pos, Self::spec_serialize(v)),
        ensures
            Self::spec_parse(s, pos) == Some((v, pos + Self::spec_serialize(v).len())),
    {
        lemma_holds_at_split(s, pos, <String as Buffer>::spec_serialize(v.username), <Uuid as Buffer>::spec_serialize(v.uuid));
        <String as Buffer>::lemma_roundtrip(s, pos, v.username);
        <Uuid as Buffer>::lemma_roundtrip(s, pos + <String as Buffer>::spec_serialize(v.username).len(), v.uuid);
    }

    /// Reads a [`ServersideLoginStart`] at the cursor and moves past it.
    pub fn read(buffer: &mut Cursor) -> (res: Option<Self>)
        ensures
            final(buffer).data@ == old(buffer).data@,
            match res {
                Some(v) => Self::spec_parse(old(buffer).data@, old(buffer).position as int) == Some(
                    (v.deep_view(), final(buffer).position as int),
                ),
                None => Self::spec_parse(old(buffer).data@, old(buffer).position as int) is None,
            },
    {
        let username = match <String as Buffer>::read_buf(buffer) {
            Some(x) => x,
            None => {
                return None;
            },
        };
        let uuid = match <Uuid as Buffer>::read_buf(buffer) {
            Some(x) => x,
            None => {
                return None;
            },
        };
        Some(ServersideLoginStart { username, uuid })
    }

    /// Appends the wire form of the [`ServersideLoginStart`].
    pub fn write(&self, buffer: &mut Vec<u8>)
        ensures
            final(buffer)@ == old(buffer)@ + Self::spec_serialize(self.deep_view()),
    {
        self.username.write_buf(buffer);
        self.uuid.write_buf(buffer);
        assert(buffer@ =~= old(buffer)@ + Self::spec_serialize(self.deep_view()));
    }
}

impl ServersideLoginStart {
    /// A login start is the name of the player as a string, then its identifier as sixteen
    /// bytes.
    pub proof fn lemma_wire_form(v: ServersideLoginStartView)
        ensures
            Self::spec_serialize(v) == spec_str(v.username) + uuid_bytes(v.uuid),
    {
    }
}

/// The answer to an encryption request.
#[derive(Clone, Debug, PartialEq)]
pub struct ServersideEncryptionResponse {
    pub shared_secret: Vec<u8>,
    pub verify_token: Vec<u8>,
}

/// The content of a [`ServersideEncryptionResponse`] as it goes over the wire.
pub struct ServersideEncryptionResponseView {
    pub shared_secret: Seq<u8>,
    pub verify_token: Seq<u8>,
}

impl DeepView for ServersideEncryptionResponse {
    type V = ServersideEncryptionResponseView;

    open spec fn deep_view(&self) -> ServersideEncryptionResponseView {
        ServersideEncryptionResponseView {
            shared_secret: self.shared_secret.deep_view(),
            verify_token: self.verify_token.deep_view(),
        }
    }
}

impl ServersideEncryptionResponse {
    /// What reading a [`ServersideEncryptionResponse`] at `pos` yields, and the position after it.
    pub open spec fn spec_parse(s: Seq<u8>, pos: int) -> Option<(ServersideEncryptionResponseView, int)> {
        match <Vec<u8> as Buffer>::spec_parse(s, pos) {
            Some((shared_secret, p0)) => match <Vec<u8> as Buffer>::spec_parse(s, p0) {
                Some((verify_token, p1)) => Some((ServersideEncryptionResponseView { shared_secret, verify_token }, p1)),
                None => None,
            },
            None => None,
        }
    }

    /// The bytes that writing a [`ServersideEncryptionResponse`] appends.
    pub open spec fn spec_serialize(v: ServersideEncryptionResponseView) -> Seq<u8> {
        <Vec<u8> as Buffer>::spec_serialize(v.shared_secret) + <Vec<u8> as Buffer>::spec_serialize(v.verify_token)
    }

    /// The contents that read back as written: every length fits its `VarInt` prefix.
    pub open spec fn spec_wf(v: ServersideEncryptionResponseView) -> bool {
        <Vec<u8> as Buffer>::spec_wf(v.shared_secret) && <Vec<u8> as Buffer>::spec_wf(v.verify_token)
    }

    /// Reading back what writing a [`ServersideEncryptionResponse`] appended gives the same contents, whatever follows.
    pub proof fn lemma_roundtrip(s: Seq<u8>, pos: int, v: ServersideEncryptionResponseView)
        requires
            Self::spec_wf(v),
            holds_at(s, pos, Self::spec_serialize(v)),
        ensures
            Self::spec_parse(s, pos) == Some((v, pos + Self::spec_serialize(v).len())),
    {
        lemma_holds_at_split(s, pos, <Vec<u8> as Buffer>::spec_serialize(v.shared_secret), <Vec<u8> as Buffer>::spec_serialize(v.verify_token));
        <Vec<u8> as Buffer>::lemma_roundtrip(s, pos, v.shared_secret);
        <Vec<u8> as Buffer>::lemma_roundtrip(s, pos + <Vec<u8> as Buffer>::spec_serialize(v.shared_secret).len(), v.verify_token);
    }

    /// Reads a [`ServersideEncryptionResponse`] at the cursor and moves past it.
    pub fn read(buffer: &mut Cursor) -> (res: Option<Self>)
        ensures
            final(buffer).data@ == old(buffer).data@,
            match res {
                Some(v) => Self::spec_parse(old(buffer).data@, old(buffer).position as int) == Some(
                    (v.deep_view(), final(buffer).position as int),
                ),
                None => Self::spec_parse(old(buffer).data@, old(buffer).position as int) is None,
            },
    {
        let shared_secret = match <Vec<u8> as Buffer>::read_buf(buffer) {
            Some(x) => x,
            None => {
                return None;
            },
        };
        let verify_token = match <Vec<u8> as Buffer>::read_buf(buffer) {
            Some(x) => x,
            None => {
                return None;
            },
        };
        Some(ServersideEncryptionResponse { shared_secret, verify_token })
    }

    /// Appends the wire form of the [`ServersideEncryptionResponse`].
    pub fn write(&self, buffer: &mut Vec<u8>)
        ensures
            final(buffer)@ == old(buffer)@ + Self::spec_serialize(self.deep_view()),
    {
        self.shared_secret.write_buf(buffer);
        self.verify_token.write_buf(buffer);
        assert(buffer@ =~= old(buffer)@ + Self::spec_serialize(self.deep_view()));
    }
}

/// The answer to a login plugin request; its data runs to the end of the packet.
#[derive(Clone, Debug, PartialEq)]
pub struct ServersidePluginResponse {
    pub message_id: i32,
    pub data: Option<Vec<u8>>,
}

/// The content of a [`ServersidePluginResponse`] as it goes over the wire.
pub struct ServersidePluginResponseView {
    pub message_id: i32,
    pub data: Option<Seq<u8>>,
}

impl DeepView for ServersidePluginResponse {
    type V = ServersidePluginResponseView;

    open spec fn deep_view(&self) -> ServersidePluginResponseView {
        ServersidePluginResponseView {
            message_id: self.message_id,
            data: bytes_view(&self.data),
        }
    }
}

impl ServersidePluginResponse {
    /// What reading a [`ServersidePluginResponse`] at `pos` yields, and the position after it.
    pub open spec fn spec_parse(s: Seq<u8>, pos: int) -> Option<(ServersidePluginResponseView, int)> {
        match parse_varint(s, pos) {
            Some((message_id, p0)) => match parse_flagged_rest(s, p0) {
                Some((data, p1)) => Some((ServersidePluginResponseView { message_id, data }, p1)),
                None => None,
            },
            None => None,
        }
    }

    /// The bytes that writing a [`ServersidePluginResponse`] appends.
    pub open spec fn spec_serialize(v: ServersidePluginResponseView) -> Seq<u8> {
        spec_varint(v.message_id) + serialize_flagged_rest(v.data)
    }

    /// The contents that read back as written: every length fits its `VarInt` prefix.
    pub open spec fn spec_wf(v: ServersidePluginResponseView) -> bool {
        true
    }

    /// Reading back what writing a [`ServersidePluginResponse`] appended gives the same contents, when the bytes run to the end of the input.
    pub proof fn lemma_roundtrip(s: Seq<u8>, pos: int, v: ServersidePluginResponseView)
        requires
            Self::spec_wf(v),
            holds_at(s, pos, Self::spec_serialize(v)),
            s.len() == pos + Self::spec_serialize(v).len(),
        ensures
            Self::spec_parse(s, pos) == Some((v, pos + Self::spec_serialize(v).len())),
    {
        lemma_holds_at_split(s, pos, spec_varint(v.message_id), serialize_flagged_rest(v.data));
        lemma_varint_i32_roundtrip(s, pos, v.message_id);
        lemma_flagged_rest_roundtrip(s, pos + spec_varint(v.message_id).len(), v.data);
    }

    /// Reads a [`ServersidePluginResponse`] at the cursor and moves past it.
    pub fn read(buffer: &mut Cursor) -> (res: Option<Self>)
        ensures
            final(buffer).data@ == old(buffer).data@,
            match res {
                Some(v) => Self::spec_parse(old(buffer).data@, old(buffer).position as int) == Some(
                    (v.deep_view(), final(buffer).position as int),
                ),
                None => Self::spec_parse(old(buffer).data@, old(buffer).position as int) is None,
            },
    {
        let message_id = match i32::read_varint(buffer) {
            Some(x) => x,
            None => {
                return None;
            },
        };
        let data = match read_flagged_rest(buffer) {
            Some(x) => x,
            None => {
                return None;
            },
        };
        Some(ServersidePluginResponse { message_id, data })
    }

    /// Appends the wire form of the [`ServersidePluginResponse`].
    pub fn write(&self, buffer: &mut Vec<u8>)
        ensures
            final(buffer)@ == old(buffer)@ + Self::spec_serialize(self.deep_view()),
    {
        self.message_id.write_varint(buffer);
        write_flagged_rest(&self.data, buffer);
        assert(buffer@ =~= old(buffer)@ + Self::spec_serialize(self.deep_view()));
    }
}

/// The client acknowledges the login.
#[derive(Clone, Debug, PartialEq)]
pub struct ServersideLoginAcknowledged;

/// The content of a [`ServersideLoginAcknowledged`] as it goes over the wire.
pub struct ServersideLoginAcknowledgedView {}

impl DeepView for ServersideLoginAcknowledged {
    type V = ServersideLoginAcknowledgedView;

    open spec fn deep_view(&self) -> ServersideLoginAcknowledgedView {
        ServersideLoginAcknowledgedView {  }
    }
}

impl ServersideLoginAcknowledged {
    /// What reading a [`ServersideLoginAcknowledged`] at `pos` yields, and the position after it.
    pub open spec fn spec_parse(s: Seq<u8>, pos: int) -> Option<(ServersideLoginAcknowledgedView, int)> {
        Some((ServersideLoginAcknowledgedView {  }, pos))
    }

    /// The bytes that writing a [`ServersideLoginAcknowledged`] appends.
    pub open spec fn spec_serialize(v: ServersideLoginAcknowledgedView) -> Seq<u8> {
        Seq::empty()
    }

    /// The contents that read back as written: every length fits its `VarInt` prefix.
    pub open spec fn spec_wf(v: ServersideLoginAcknowledgedView) -> bool {
        true
    }

    /// Reading back what writing a [`ServersideLoginAcknowledged`] appended gives the same contents, whatever follows.
    pub proof fn lemma_roundtrip(s: Seq<u8>, pos: int, v: ServersideLoginAcknowledgedView)
        requires
            Self::spec_wf(v),
            holds_at(s, pos, Self::spec_serialize(v)),
        ensures
            Self::spec_parse(s, pos) == Some((v, pos + Self::spec_serialize(v).len())),
    {
    }

    /// Reads a [`ServersideLoginAcknowledged`] at the cursor and moves past it.
    pub fn read(buffer: &mut Cursor) -> (res: Option<Self>)
        ensures
            final(buffer).data@ == old(buffer).data@,
            match res {
                Some(v) => Self::spec_parse(old(buffer).data@, old(buffer).position as int) == Some(
                    (v.deep_view(), final(buffer).position as int),
                ),
                None => Self::spec_parse(old(buffer).data@, old(buffer).position as int) is None,
            },
    {
        Some(ServersideLoginAcknowledged)
    }

    /// Appends the wire form of the [`ServersideLoginAcknowledged`].
    pub fn write(&self, buffer: &mut Vec<u8>)
        ensures
            final(buffer)@ == old(buffer)@ + Self::spec_serialize(self.deep_view()),
    {
        assert(buffer@ =~= old(buffer)@ + Self::spec_serialize(self.deep_view()));
    }
}

/// The answer to a cookie request.
#[derive(Clone, Debug, PartialEq)]
pub struct ServersideCookieResponse {
    pub key: String,
    pub payload: Option<Vec<u8>>,
}

/// The content of a [`ServersideCookieResponse`] as it goes over the wire.
pub struct ServersideCookieResponseView {
    pub key: Seq<char>,
    pub payload: Option<Seq<u8>>,
}

impl DeepView for ServersideCookieResponse {
    type V = ServersideCookieResponseView;

    open spec fn deep_view(&self) -> ServersideCookieResponseView {
        ServersideCookieResponseView {
            key: self.key.deep_view(),
            payload: self.payload.deep_view(),
        }
    }
}

impl ServersideCookieResponse {
    /// What reading a [`ServersideCookieResponse`] at `pos` yields, and the position after it.
    pub open spec fn spec_parse(s: Seq<u8>, pos: int) -> Option<(ServersideCookieResponseView, int)> {
        match <String as Buffer>::spec_parse(s, pos) {
            Some((key, p0)) => match parse_flagged::<Vec<u8>>(s, p0) {
                Some((payload, p1)) => Some((ServersideCookieResponseView { key, payload }, p1)),
                None => None,
            },
            None => None,
        }
    }

    /// The bytes that writing a [`ServersideCookieResponse`] appends.
    pub open spec fn spec_serialize(v: ServersideCookieResponseView) -> Seq<u8> {
        <String as Buffer>::spec_serialize(v.key) + serialize_flagged::<Vec<u8>>(v.payload)
    }

    /// The contents that read back as written: every length fits its `VarInt` prefix.
    pub open spec fn spec_wf(v: ServersideCookieResponseView) -> bool {
        <String as Buffer>::spec_wf(v.key) && flagged_wf::<Vec<u8>>(v.payload)
    }

    /// Reading back what writing a [`ServersideCookieResponse`] appended gives the same contents, whatever follows.
    pub proof fn lemma_roundtrip(s: Seq<u8>, pos: int, v: ServersideCookieResponseView)
        requires
            Self::spec_wf(v),
            holds_at(s, pos, Self::spec_serialize(v)),
        ensures
            Self::spec_parse(s, pos) == Some((v, pos + Self::spec_serialize(v).len())),
    {
        lemma_holds_at_split(s, pos, <String as Buffer>::spec_serialize(v.key), serialize_flagged::<Vec<u8>>(v.payload));
        <String as Buffer>::lemma_roundtrip(s, pos, v.key);
        lemma_flagged_roundtrip::<Vec<u8>>(s, pos + <String as Buffer>::spec_serialize(v.key).len(), v.payload);
    }

    /// Reads a [`ServersideCookieResponse`] at the cursor and moves past it.
    pub fn read(buffer: &mut Cursor) -> (res: Option<Self>)
        ensures
            final(buffer).data@ == old(buffer).data@,
            match res {
                Some(v) => Self::spec_parse(old(buffer).data@, old(buffer).position as int) == Some(
                    (v.deep_view(), final(buffer).position as int),
                ),
                None => Self::spec_parse(old(buffer).data@, old(buffer).position as int) is None,
            },
    {
        let key = match <String as Buffer>::read_buf(buffer) {
            Some(x) => x,
            None => {
                return None;
            },
        };
        let payload = match read_flagged::<Vec<u8>>(buffer) {
            Some(x) => x,
            None => {
                return None;
            },
        };
        Some(ServersideCookieResponse { key, payload })
    }

    /// Appends the wire form of the [`ServersideCookieResponse`].
    pub fn write(&self, buffer: &mut Vec<u8>)
        ensures
            final(buffer)@ == old(buffer)@ + Self::spec_serialize(self.deep_view()),
    {
        self.key.write_buf(buffer);
        write_flagged(&self.payload, buffer);
        assert(buffer@ =~= old(buffer)@ + Self::spec_serialize(self.deep_view()));
    }
}

} // verus!

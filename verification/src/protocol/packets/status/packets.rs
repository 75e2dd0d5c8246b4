use vstd::prelude::*;

use crate::codec::buffer::Buffer;
use crate::codec::cursor::{holds_at, Cursor};
use crate::codec::varint::VarInt;

verus! {

/// The status of the server, as JSON text.
#[derive(Clone, Debug, PartialEq)]
pub struct ClientsideStatusResponse {
    pub response: String,
}

/// The content of a [`ClientsideStatusResponse`] as it goes over the wire.
pub struct ClientsideStatusResponseView {
    pub response: Seq<char>,
}

impl DeepView for ClientsideStatusResponse {
    type V = ClientsideStatusResponseView;

    open spec fn deep_view(&self) -> ClientsideStatusResponseView {
        ClientsideStatusResponseView {
            response: self.response.deep_view(),
        }
    }
}

impl ClientsideStatusResponse {
    /// What reading a [`ClientsideStatusResponse`] at `pos` yields, and the position after it.
    pub open spec fn spec_parse(s: Seq<u8>, pos: int) -> Option<(ClientsideStatusResponseView, int)> {
        match <String as Buffer>::spec_parse(s, pos) {
            Some((response, p0)) => Some((ClientsideStatusResponseView { response }, p0)),
            None => None,
        }
    }

    /// The bytes that writing a [`ClientsideStatusResponse`] appends.
    pub open spec fn spec_serialize(v: ClientsideStatusResponseView) -> Seq<u8> {
        <String as Buffer>::spec_serialize(v.response)
    }

    /// The contents that read back as written: every length fits its `VarInt` prefix.
    pub open spec fn spec_wf(v: ClientsideStatusResponseView) -> bool {
        <String as Buffer>::spec_wf(v.response)
    }

    /// Reading back what writing a [`ClientsideStatusResponse`] appended gives the same contents, whatever follows.
    pub proof fn lemma_roundtrip(s: Seq<u8>, pos: int, v: ClientsideStatusResponseView)
        requires
            Self::spec_wf(v),
            holds_at(s, pos, Self::spec_serialize(v)),
        ensures
            Self::spec_parse(s, pos) == Some((v, pos + Self::spec_serialize(v).len())),
    {
        <String as Buffer>::lemma_roundtrip(s, pos, v.response);
    }

    /// Reads a [`ClientsideStatusResponse`] at the cursor and moves past it.
    pub fn read(buffer: &mut Cursor) -> (res: Option<Self>)
        ensures
            final(buffer).data@ == old(buffer).data@,
            match res {
                Some(v) => Self::spec_parse(old(buffer).data@, old(buffer).position as int) == Some(
                    (v.deep_view(), final(buffer).position as int),
                ),
                None => Self::spec_parse(old(buffer).data@, old(buffer).position as int) is None,
            },
    {
        let response = match <String as Buffer>::read_buf(buffer) {
            Some(x) => x,
            None => {
                return None;
            },
        };
        Some(ClientsideStatusResponse { response })
    }

    /// Appends the wire form of the [`ClientsideStatusResponse`].
    pub fn write(&self, buffer: &mut Vec<u8>)
        ensures
            final(buffer)@ == old(buffer)@ + Self::spec_serialize(self.deep_view()),
    {
        self.response.write_buf(buffer);
    }
}

/// The answer to a ping request.
#[derive(Clone, Debug, PartialEq)]
pub struct ClientsidePongResponse {
    pub timestamp: i64,
}

/// The content of a [`ClientsidePongResponse`] as it goes over the wire.
pub struct ClientsidePongResponseView {
    pub timestamp: i64,
}

impl DeepView for ClientsidePongResponse {
    type V = ClientsidePongResponseView;

    open spec fn deep_view(&self) -> ClientsidePongResponseView {
        ClientsidePongResponseView {
            timestamp: self.timestamp.deep_view(),
        }
    }
}

impl ClientsidePongResponse {
    /// What reading a [`ClientsidePongResponse`] at `pos` yields, and the position after it.
    pub open spec fn spec_parse(s: Seq<u8>, pos: int) -> Option<(ClientsidePongResponseView, int)> {
        match <i64 as Buffer>::spec_parse(s, pos) {
            Some((timestamp, p0)) => Some((ClientsidePongResponseView { timestamp }, p0)),
            None => None,
        }
    }

    /// The bytes that writing a [`ClientsidePongResponse`] appends.
    pub open spec fn spec_serialize(v: ClientsidePongResponseView) -> Seq<u8> {
        <i64 as Buffer>::spec_serialize(v.timestamp)
    }

    /// The contents that read back as written: every length fits its `VarInt` prefix.
    pub open spec fn spec_wf(v: ClientsidePongResponseView) -> bool {
        <i64 as Buffer>::spec_wf(v.timestamp)
    }

    /// Reading back what writing a [`ClientsidePongResponse`] appended gives the same contents, whatever follows.
    pub proof fn lemma_roundtrip(s: Seq<u8>, pos: int, v: ClientsidePongResponseView)
        requires
            Self::spec_wf(v),
            holds_at(s, pos, Self::spec_serialize(v)),
        ensures
            Self::spec_parse(s, pos) == Some((v, pos + Self::spec_serialize(v).len())),
    {
        <i64 as Buffer>::lemma_roundtrip(s, pos, v.timestamp);
    }

    /// Reads a [`ClientsidePongResponse`] at the cursor and moves past it.
    pub fn read(buffer: &mut Cursor) -> (res: Option<Self>)
        ensures
            final(buffer).data@ == old(buffer).data@,
            match res {
                Some(v) => Self::spec_parse(old(buffer).data@, old(buffer).position as int) == Some(
                    (v.deep_view(), final(buffer).position as int),
                ),
                None => Self::spec_parse(old(buffer).data@, old(buffer).position as int) is None,
            },
    {
        let timestamp = match <i64 as Buffer>::read_buf(buffer) {
            Some(x) => x,
            None => {
                return None;
            },
        };
        Some(ClientsidePongResponse { timestamp })
    }

    /// Appends the wire form of the [`ClientsidePongResponse`].
    pub fn write(&self, buffer: &mut Vec<u8>)
        ensures
            final(buffer)@ == old(buffer)@ + Self::spec_serialize(self.deep_view()),
    {
        self.timestamp.write_buf(buffer);
    }
}

/// The client asks for the status of the server.
#[derive(Clone, Debug, PartialEq)]
pub struct ServersideStatusRequest;

/// The content of a [`ServersideStatusRequest`] as it goes over the wire.
pub struct ServersideStatusRequestView {}

impl DeepView for ServersideStatusRequest {
    type V = ServersideStatusRequestView;

    open spec fn deep_view(&self) -> ServersideStatusRequestView {
        ServersideStatusRequestView {  }
    }
}

impl ServersideStatusRequest {
    /// What reading a [`ServersideStatusRequest`] at `pos` yields, and the position after it.
    pub open spec fn spec_parse(s: Seq<u8>, pos: int) -> Option<(ServersideStatusRequestView, int)> {
        Some((ServersideStatusRequestView {  }, pos))
    }

    /// The bytes that writing a [`ServersideStatusRequest`] appends.
    pub open spec fn spec_serialize(v: ServersideStatusRequestView) -> Seq<u8> {
        Seq::empty()
    }

    /// The contents that read back as written: every length fits its `VarInt` prefix.
    pub open spec fn spec_wf(v: ServersideStatusRequestView) -> bool {
        true
    }

    /// Reading back what writing a [`ServersideStatusRequest`] appended gives the same contents, whatever follows.
    pub proof fn lemma_roundtrip(s: Seq<u8>, pos: int, v: ServersideStatusRequestView)
        requires
            Self::spec_wf(v),
            holds_at(s, pos, Self::spec_serialize(v)),
        ensures
            Self::spec_parse(s, pos) == Some((v, pos + Self::spec_serialize(v).len())),
    {
    }

    /// Reads a [`ServersideStatusRequest`] at the cursor and moves past it.
    pub fn read(buffer: &mut Cursor) -> (res: Option<Self>)
        ensures
            final(buffer).data@ == old(buffer).data@,
            match res {
                Some(v) => Self::spec_parse(old(buffer).data@, old(buffer).position as int) == Some(
                    (v.deep_view(), final(buffer).position as int),
                ),
                None => Self::spec_parse(old(buffer).data@, old(buffer).position as int) is None,
            },
    {
        Some(ServersideStatusRequest)
    }

    /// Appends the wire form of the [`ServersideStatusRequest`].
    pub fn write(&self, buffer: &mut Vec<u8>)
        ensures
            final(buffer)@ == old(buffer)@ + Self::spec_serialize(self.deep_view()),
    {
        assert(buffer@ =~= old(buffer)@ + Self::spec_serialize(self.deep_view()));
    }
}

/// A ping of the server, with a timestamp.
#[derive(Clone, Debug, PartialEq)]
pub struct ServersidePingRequest {
    pub timestamp: i64,
}

/// The content of a [`ServersidePingRequest`] as it goes over the wire.
pub struct ServersidePingRequestView {
    pub timestamp: i64,
}

impl DeepView for ServersidePingRequest {
    type V = ServersidePingRequestView;

    open spec fn deep_view(&self) -> ServersidePingRequestView {
        ServersidePingRequestView {
            timestamp: self.timestamp.deep_view(),
        }
    }
}

impl ServersidePingRequest {
    /// What reading a [`ServersidePingRequest`] at `pos` yields, and the position after it.
    pub open spec fn spec_parse(s: Seq<u8>, pos: int) -> Option<(ServersidePingRequestView, int)> {
        match <i64 as Buffer>::spec_parse(s, pos) {
            Some((timestamp, p0)) => Some((ServersidePingRequestView { timestamp }, p0)),
            None => None,
        }
    }

    /// The bytes that writing a [`ServersidePingRequest`] appends.
    pub open spec fn spec_serialize(v: ServersidePingRequestView) -> Seq<u8> {
        <i64 as Buffer>::spec_serialize(v.timestamp)
    }

    /// The contents that read back as written: every length fits its `VarInt` prefix.
    pub open spec fn spec_wf(v: ServersidePingRequestView) -> bool {
        <i64 as Buffer>::spec_wf(v.timestamp)
    }

    /// Reading back what writing a [`ServersidePingRequest`] appended gives the same contents, whatever follows.
    pub proof fn lemma_roundtrip(s: Seq<u8>, pos: int, v: ServersidePingRequestView)
        requires
            Self::spec_wf(v),
            holds_at(s, pos, Self::spec_serialize(v)),
        ensures
            Self::spec_parse(s, pos) == Some((v, pos + Self::spec_serialize(v).len())),
    {
        <i64 as Buffer>::lemma_roundtrip(s, pos, v.timestamp);
    }

    /// Reads a [`ServersidePingRequest`] at the cursor and moves past it.
    pub fn read(buffer: &mut Cursor) -> (res: Option<Self>)
        ensures
            final(buffer).data@ == old(buffer).data@,
            match res {
                Some(v) => Self::spec_parse(old(buffer).data@, old(buffer).position as int) == Some(
                    (v.deep_view(), final(buffer).position as int),
                ),
                None => Self::spec_parse(old(buffer).data@, old(buffer).position as int) is None,
            },
    {
        let timestamp = match <i64 as Buffer>::read_buf(buffer) {
            Some(x) => x,
            None => {
                return None;
            },
        };
        Some(ServersidePingRequest { timestamp })
    }

    /// Appends the wire form of the [`ServersidePingRequest`].
    pub fn write(&self, buffer: &mut Vec<u8>)
        ensures
            final(buffer)@ == old(buffer)@ + Self::spec_serialize(self.deep_view()),
    {
        self.timestamp.write_buf(buffer);
    }
}

} // verus!

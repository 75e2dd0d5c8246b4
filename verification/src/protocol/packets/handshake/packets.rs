use vstd::prelude::*;

use crate::codec::buffer::{be16, Buffer};
use crate::codec::cursor::{holds_at, lemma_holds_at_split, Cursor};
use crate::codec::string::spec_str;
use crate::codec::varint::{lemma_varint_i32_roundtrip, parse_varint, spec_varint, VarInt};
pub use crate::protocol::types::intention::ClientIntention;

verus! {

/// The first packet of a connection: protocol version, address and intention.
#[derive(Clone, Debug, PartialEq)]
pub struct ServersideGreet {
    pub protocol_version: i32,
    pub server_host: String,
    pub server_port: u16,
    pub intention: ClientIntention,
}

/// The content of a [`ServersideGreet`] as it goes over the wire.
pub struct ServersideGreetView {
    pub protocol_version: i32,
    pub server_host: Seq<char>,
    pub server_port: u16,
    pub intention: ClientIntention,
}

impl DeepView for ServersideGreet {
    type V = ServersideGreetView;

    open spec fn deep_view(&self) -> ServersideGreetView {
        ServersideGreetView {
            protocol_version: self.protocol_version,
            server_host: self.server_host.deep_view(),
            server_port: self.server_port.deep_view(),
            intention: self.intention.deep_view(),
        }
    }
}

impl ServersideGreet {
    /// What reading a [`ServersideGreet`] at `pos` yields, and the position after it.
    pub open spec fn spec_parse(s: Seq<u8>, pos: int) -> Option<(ServersideGreetView, int)> {
        match parse_varint(s, pos) {
            Some((protocol_version, p0)) => match <String as Buffer>::spec_parse(s, p0) {
                Some((server_host, p1)) => match <u16 as Buffer>::spec_parse(s, p1) {
                    Some((server_port, p2)) => match <ClientIntention as Buffer>::spec_parse(s, p2) {
                        Some((intention, p3)) => Some((ServersideGreetView { protocol_version, server_host, server_port, intention }, p3)),
                        None => None,
                    },
                    None => None,
                },
                None => None,
            },
            None => None,
        }
    }

    /// The bytes that writing a [`ServersideGreet`] appends.
    pub open spec fn spec_serialize(v: ServersideGreetView) -> Seq<u8> {
        spec_varint(v.protocol_version) + <String as Buffer>::spec_serialize(v.server_host) + <u16 as Buffer>::spec_serialize(v.server_port) + <ClientIntention as Buffer>::spec_serialize(v.intention)
    }

    /// The contents that read back as written: every length fits its `VarInt` prefix.
    pub open spec fn spec_wf(v: ServersideGreetView) -> bool {
        <String as Buffer>::spec_wf(v.server_host) && <u16 as Buffer>::spec_wf(v.server_port) && <ClientIntention as Buffer>::spec_wf(v.intention)
    }

    /// Reading back what writing a [`ServersideGreet`] appended gives the same contents, whatever follows.
    pub proof fn lemma_roundtrip(s: Seq<u8>, pos: int, v: ServersideGreetView)
        requires
            Self::spec_wf(v),
            holds_at(s, pos, Self::spec_serialize(v)),
        ensures
            Self::spec_parse(s, pos) == Some((v, pos + Self::spec_serialize(v).len())),
    {
        lemma_holds_at_split(s, pos, spec_varint(v.protocol_version) + <String as Buffer>::spec_serialize(v.server_host) + <u16 as Buffer>::spec_serialize(v.server_port), <ClientIntention as Buffer>::spec_serialize(v.intention));
        lemma_holds_at_split(s, pos, spec_varint(v.protocol_version) + <String as Buffer>::spec_serialize(v.server_host), <u16 as Buffer>::spec_serialize(v.server_port));
        lemma_holds_at_split(s, pos, spec_varint(v.protocol_version), <String as Buffer>::spec_serialize(v.server_host));
        lemma_varint_i32_roundtrip(s, pos, v.protocol_version);
        <String as Buffer>::lemma_roundtrip(s, pos + spec_varint(v.protocol_version).len(), v.server_host);
        <u16 as Buffer>::lemma_roundtrip(s, pos + spec_varint(v.protocol_version).len() + <String as Buffer>::spec_serialize(v.server_host).len(), v.server_port);
        <ClientIntention as Buffer>::lemma_roundtrip(s, pos + spec_varint(v.protocol_version).len() + <String as Buffer>::spec_serialize(v.server_host).len() + <u16 as Buffer>::spec_serialize(v.server_port).len(), v.intention);
    }

    /// Reads a [`ServersideGreet`] at the cursor and moves past it.
    pub fn read(buffer: &mut Cursor) -> (res: Option<Self>)
        ensures
            final(buffer).data@ == old(buffer).data@,
            match res {
                Some(v) => Self::spec_parse(old(buffer).data@, old(buffer).position as int) == Some(
                    (v.deep_view(), final(buffer).position as int),
                ),
                None => Self::spec_parse(old(buffer).data@, old(buffer).position as int) is None,
            },
    {
        let protocol_version = match i32::read_varint(buffer) {
            Some(x) => x,
            None => {
                return None;
            },
        };
        let server_host = match <String as Buffer>::read_buf(buffer) {
            Some(x) => x,
            None => {
                return None;
            },
        };
        let server_port = match <u16 as Buffer>::read_buf(buffer) {
            Some(x) => x,
            None => {
                return None;
            },
        };
        let intention = match <ClientIntention as Buffer>::read_buf(buffer) {
            Some(x) => x,
            None => {
                return None;
            },
        };
        Some(ServersideGreet { protocol_version, server_host, server_port, intention })
    }

    /// Appends the wire form of the [`ServersideGreet`].
    pub fn write(&self, buffer: &mut Vec<u8>)
        ensures
            final(buffer)@ == old(buffer)@ + Self::spec_serialize(self.deep_view()),
    {
        self.protocol_version.write_varint(buffer);
        self.server_host.write_buf(buffer);
        assert(buffer@ =~= old(buffer)@ + (spec_varint(self.deep_view().protocol_version) + <String as Buffer>::spec_serialize(self.deep_view().server_host)));
        self.server_port.write_buf(buffer);
        assert(buffer@ =~= old(buffer)@ + (spec_varint(self.deep_view().protocol_version) + <String as Buffer>::spec_serialize(self.deep_view().server_host) + <u16 as Buffer>::spec_serialize(self.deep_view().server_port)));
        self.intention.write_buf(buffer);
        assert(buffer@ =~= old(buffer)@ + Self::spec_serialize(self.deep_view()));
    }
}

impl ServersideGreet {
    /// The first packet of a connection is the protocol version as a `VarInt`, the host as a
    /// string, the port as two big-endian bytes and the identifier of the intention as a
    /// `VarInt`, in that order.
    pub proof fn lemma_wire_form(v: ServersideGreetView)
        ensures
            Self::spec_serialize(v) == spec_varint(v.protocol_version) + spec_str(v.server_host) + be16(v.server_port)
                + spec_varint(v.intention.spec_id()),
    {
    }
}

} // verus!

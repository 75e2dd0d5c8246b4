use vstd::prelude::*;

use crate::codec::cursor::{holds_at, Cursor};

verus! {

/// A family of packets that share one state of the protocol: each packet has a numeric
/// identifier and a body.
pub trait Packet: Sized + DeepView {
    /// The identifier of the packet.
    spec fn spec_id(v: <Self as DeepView>::V) -> u32;

    /// What reading a body with the given identifier at `pos` yields.
    spec fn spec_parse_body(id: u32, s: Seq<u8>, pos: int) -> Option<(<Self as DeepView>::V, int)>;

    /// The bytes of the body.
    spec fn spec_serialize_body(v: <Self as DeepView>::V) -> Seq<u8>;

    /// The packets whose body reads back as written.
    spec fn spec_wf(v: <Self as DeepView>::V) -> bool;

    /// A body that runs to the end of the input reads back as written, under its identifier.
    proof fn lemma_body_roundtrip(s: Seq<u8>, pos: int, v: <Self as DeepView>::V)
        requires
            Self::spec_wf(v),
            holds_at(s, pos, Self::spec_serialize_body(v)),
            s.len() == pos + Self::spec_serialize_body(v).len(),
        ensures
            Self::spec_parse_body(Self::spec_id(v), s, pos) == Some((v, s.len() as int)),
    ;

    /// The identifier of the packet.
    fn id(&self) -> (res: u32)
        ensures
            res == Self::spec_id(self.deep_view()),
    ;

    /// Reads the body of the packet with the given identifier at the cursor.
    fn read(id: u32, buffer: &mut Cursor) -> (res: Option<Self>)
        ensures
            final(buffer).data@ == old(buffer).data@,
            match res {
                Some(v) => Self::spec_parse_body(id, old(buffer).data@, old(buffer).position as int)
                    == Some((v.deep_view(), final(buffer).position as int)),
                None => Self::spec_parse_body(id, old(buffer).data@, old(buffer).position as int) is None,
            },
    ;

    /// Appends the body of the packet.
    fn write(&self, buffer: &mut Vec<u8>)
        ensures
            final(buffer)@ == old(buffer)@ + Self::spec_serialize_body(self.deep_view()),
    ;
}

/// Conversion of a packet into the family that carries it.
pub trait IntoPacket<T> {
    fn into_packet(self) -> T;
}

} // verus!

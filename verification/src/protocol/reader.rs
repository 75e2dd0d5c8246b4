use vstd::prelude::*;

use crate::codec::containers::copy_range;
use crate::codec::cursor::{holds_at, lemma_holds_at_split, Cursor};
use crate::codec::varint::{lemma_varint_i32_roundtrip, parse_varint, spec_varint, VarInt};
use crate::protocol::compression::{opt_bytes, zlib_decompress, zlib_decompressed};
use crate::protocol::packet::Packet;

verus! {

/// The largest size, in bytes, that a packet may have before compression.
pub const MAX_PACKET_SIZE: u32 = 8388608;

/// Bytes received from the network, with the position of the first byte not yet taken.
pub struct PacketBuffer {
    data: Vec<u8>,
    position: usize,
}

impl PacketBuffer {
    /// The bytes held.
    pub closed spec fn bytes(&self) -> Seq<u8> {
        self.data@
    }

    /// The position of the first byte not yet taken.
    pub closed spec fn pos(&self) -> int {
        self.position as int
    }

    /// The position stands within the bytes.
    pub open spec fn wf(&self) -> bool {
        0 <= self.pos() <= self.bytes().len()
    }

    /// An empty buffer.
    pub fn new() -> (res: PacketBuffer)
        ensures
            res.wf(),
            res.bytes() == Seq::<u8>::empty(),
            res.pos() == 0,
    {
        PacketBuffer { data: Vec::new(), position: 0 }
    }

    /// Appends received bytes.
    pub fn extend_from_slice(&mut self, bytes: &[u8])
        requires
            old(self).wf(),
        ensures
            final(self).wf(),
            final(self).bytes() == old(self).bytes() + bytes@,
            final(self).pos() == old(self).pos(),
    {
        let mut i: usize = 0;
        while i < bytes.len()
            invariant
                i <= bytes@.len(),
                self.position == old(self).position,
                self.data@ == old(self).data@ + bytes@.subrange(0, i as int),
            decreases bytes@.len() - i,
        {
            self.data.push(bytes[i]);
            i = i + 1;
            assert(self.data@ =~= old(self).data@ + bytes@.subrange(0, i as int));
        }
        assert(bytes@.subrange(0, bytes@.len() as int) =~= bytes@);
    }

    /// The number of bytes not yet taken.
    pub fn remaining(&self) -> (res: usize)
        requires
            self.wf(),
        ensures
            res == self.bytes().len() - self.pos(),
    {
        self.data.len() - self.position
    }
}

/// A frame read at `pos`: a `VarInt` length, then that many bytes; the frame and the position
/// after it. A negative length, or more than there is, is no frame.
pub open spec fn spec_frame(s: Seq<u8>, pos: int) -> Option<(Seq<u8>, int)> {
    match parse_varint(s, pos) {
        Some((n, p)) => if n < 0 || p + n > s.len() {
            None
        } else {
            Some((s.subrange(p, p + n), p + n))
        },
        None => None,
    }
}

/// The bytes of a frame: the `VarInt` length of the data, then the data.
pub open spec fn spec_framed(data: Seq<u8>) -> Seq<u8> {
    spec_varint(data.len() as i32) + data
}

/// A frame reads back whole, wherever it stands and whatever follows it.
pub proof fn lemma_frame_roundtrip(s: Seq<u8>, pos: int, data: Seq<u8>)
    requires
        data.len() <= i32::MAX,
        holds_at(s, pos, spec_framed(data)),
    ensures
        spec_frame(s, pos) == Some((data, pos + spec_framed(data).len())),
{
    let n = data.len() as i32;
    lemma_holds_at_split(s, pos, spec_varint(n), data);
    lemma_varint_i32_roundtrip(s, pos, n);
}

/// Takes the next complete frame from the buffer. When every byte has been taken the buffer is
/// emptied; when no complete frame stands at the position, nothing changes.
pub fn parse_frame(buffer: &mut PacketBuffer) -> (res: Option<Vec<u8>>)
    requires
        old(buffer).wf(),
    ensures
        final(buffer).wf(),
        match spec_frame(old(buffer).bytes(), old(buffer).pos()) {
            Some((frame, next)) => {
                &&& res matches Some(f) && f@ == frame
                &&& if next == old(buffer).bytes().len() {
                    final(buffer).bytes() == Seq::<u8>::empty() && final(buffer).pos() == 0
                } else {
                    final(buffer).bytes() == old(buffer).bytes() && final(buffer).pos() == next
                }
            },
            None => {
                &&& res is None
                &&& final(buffer).bytes() == old(buffer).bytes()
                &&& final(buffer).pos() == old(buffer).pos()
            },
        },
{
    let mut copy = Cursor { data: buffer.data.as_slice(), position: buffer.position };
    let n = match i32::read_varint(&mut copy) {
        Some(n) => n,
        None => {
            return None;
        },
    };
    if n < 0 {
        return None;
    }
    let length = n as usize;
    let p = copy.position;
    assert(p <= buffer.data@.len());
    if length > buffer.data.len() - p {
        return None;
    }
    let data = copy_range(buffer.data.as_slice(), p, p + length);
    buffer.position = p + length;
    if buffer.position == buffer.data.len() {
        buffer.data.clear();
        buffer.position = 0;
    }
    Some(data)
}

/// What is left of a frame after decompression: a `VarInt` size, then either the data as it is
/// (size zero) or zlib data. A size under the threshold or above [`MAX_PACKET_SIZE`] is
/// refused.
pub open spec fn spec_decompressed(s: Seq<u8>, pos: int, threshold: u32) -> Option<Seq<u8>> {
    match parse_varint(s, pos) {
        Some((n, p)) => if (n as u32) == 0 {
            Some(s.subrange(p, s.len() as int))
        } else if (n as u32) < threshold {
            None
        } else if (n as u32) > MAX_PACKET_SIZE {
            None
        } else {
            zlib_decompressed(s.subrange(p, s.len() as int))
        },
        None => None,
    }
}

/// Reads the size of a compressed frame at the cursor, then its data, and takes the rest of
/// the input.
pub fn compression_decoder(stream: &mut Cursor, compression_threshold: u32) -> (res: Option<Vec<u8>>)
    ensures
        final(stream).data@ == old(stream).data@,
        opt_bytes(res) == spec_decompressed(
            old(stream).data@,
            old(stream).position as int,
            compression_threshold,
        ),
        res is Some ==> final(stream).position == final(stream).data@.len(),
{
    let n = match i32::read_varint(stream) {
        Some(n) => n as u32,
        None => {
            return None;
        },
    };
    let p = stream.position;
    let end = stream.data.len();
    if n == 0 {
        let buf = copy_range(stream.data, p, end);
        stream.position = end;
        return Some(buf);
    }
    if n < compression_threshold {
        return None;
    }
    if n > MAX_PACKET_SIZE {
        return None;
    }
    let decoded = zlib_decompress(&stream.data[p..end]);
    stream.position = end;
    decoded
}

/// What a frame becomes once decompressed, when compression is on.
pub open spec fn spec_raw_packet(frame: Seq<u8>, compression_threshold: Option<u32>) -> Option<
    Seq<u8>,
> {
    match compression_threshold {
        Some(t) => spec_decompressed(frame, 0, t),
        None => Some(frame),
    }
}

/// Takes the next frame from the buffer and decompresses it when compression is on.
pub fn read_raw_packet_from_buffer(buffer: &mut PacketBuffer, compression_threshold: Option<u32>) -> (res: Option<Vec<u8>>)
    requires
        old(buffer).wf(),
    ensures
        final(buffer).wf(),
        match spec_frame(old(buffer).bytes(), old(buffer).pos()) {
            Some((frame, next)) => {
                &&& opt_bytes(res) == spec_raw_packet(frame, compression_threshold)
                &&& if next == old(buffer).bytes().len() {
                    final(buffer).bytes() == Seq::<u8>::empty() && final(buffer).pos() == 0
                } else {
                    final(buffer).bytes() == old(buffer).bytes() && final(buffer).pos() == next
                }
            },
            None => {
                &&& res is None
                &&& final(buffer).bytes() == old(buffer).bytes()
                &&& final(buffer).pos() == old(buffer).pos()
            },
        },
{
    let buf = match parse_frame(buffer) {
        Some(b) => b,
        None => {
            return None;
        },
    };
    match compression_threshold {
        Some(threshold) => {
            let mut stream = Cursor::new(buf.as_slice());
            compression_decoder(&mut stream, threshold)
        },
        None => Some(buf),
    }
}

/// A packet read at `pos`: a `VarInt` identifier, then the body of the packet with that
/// identifier.
pub open spec fn spec_deserialize<P: Packet>(s: Seq<u8>, pos: int) -> Option<
    (<P as DeepView>::V, int),
> {
    match parse_varint(s, pos) {
        Some((id, p)) => P::spec_parse_body(id as u32, s, p),
        None => None,
    }
}

/// Reads a packet identifier and the body of the packet.
pub fn deserialize_packet<P: Packet>(stream: &mut Cursor) -> (res: Option<P>)
    ensures
        final(stream).data@ == old(stream).data@,
        match res {
            Some(p) => spec_deserialize::<P>(old(stream).data@, old(stream).position as int)
                == Some((p.deep_view(), final(stream).position as int)),
            None => spec_deserialize::<P>(old(stream).data@, old(stream).position as int) is None,
        },
{
    let packet_id = match i32::read_varint(stream) {
        Some(id) => id as u32,
        None => {
            return None;
        },
    };
    P::read(packet_id, stream)
}

/// Frames come out in the order they went in: of two frames sent one after the other, the
/// first is read first, and the second is read where the first ends.
pub proof fn lemma_frames_in_order(first: Seq<u8>, second: Seq<u8>, rest: Seq<u8>)
    requires
        first.len() <= i32::MAX,
        second.len() <= i32::MAX,
    ensures
        ({
            let s = spec_framed(first) + spec_framed(second) + rest;
            let end = spec_framed(first).len() as int;
            &&& spec_frame(s, 0) == Some((first, end))
            &&& spec_frame(s, end) == Some((second, end + spec_framed(second).len()))
        }),
{
    let s = spec_framed(first) + spec_framed(second) + rest;
    assert(holds_at(s, 0, spec_framed(first) + spec_framed(second))) by {
        assert(s.subrange(0, (spec_framed(first) + spec_framed(second)).len() as int) =~= spec_framed(
            first,
        ) + spec_framed(second));
    }
    lemma_holds_at_split(s, 0, spec_framed(first), spec_framed(second));
    lemma_frame_roundtrip(s, 0, first);
    lemma_frame_roundtrip(s, spec_framed(first).len() as int, second);
}

} // verus!

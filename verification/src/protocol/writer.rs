use vstd::prelude::*;

use crate::codec::containers::write_bytes;
use crate::codec::cursor::{holds_at, lemma_holds_at_split};
use crate::codec::varint::{lemma_varint_i32_roundtrip, parse_varint, spec_varint, VarInt};
use crate::protocol::compression::{opt_bytes, zlib_compress, zlib_compressed, zlib_decompressed};
use crate::protocol::packet::Packet;
use crate::protocol::reader::{
    lemma_frame_roundtrip, spec_decompressed, spec_deserialize, spec_frame, spec_framed,
    spec_raw_packet, MAX_PACKET_SIZE,
};

verus! {

/// The bytes of a packet: its `VarInt` identifier, then its body; nothing when they come to
/// more than [`MAX_PACKET_SIZE`].
pub open spec fn spec_serialize_packet<P: Packet>(v: <P as DeepView>::V) -> Option<Seq<u8>> {
    let bytes = spec_varint(P::spec_id(v) as i32) + P::spec_serialize_body(v);
    if bytes.len() > MAX_PACKET_SIZE {
        None
    } else {
        Some(bytes)
    }
}

/// Writes the identifier and the body of a packet.
pub fn serialize_packet<P: Packet>(packet: &P) -> (res: Option<Vec<u8>>)
    ensures
        opt_bytes(res) == spec_serialize_packet::<P>(packet.deep_view()),
{
    let mut buf: Vec<u8> = Vec::new();
    (packet.id() as i32).write_varint(&mut buf);
    packet.write(&mut buf);
    if buf.len() > MAX_PACKET_SIZE as usize {
        return None;
    }
    Some(buf)
}

/// A packet that was written reads back as it was.
pub proof fn lemma_packet_roundtrip<P: Packet>(v: <P as DeepView>::V)
    requires
        P::spec_wf(v),
        spec_serialize_packet::<P>(v) is Some,
    ensures
        ({
            let bytes = spec_serialize_packet::<P>(v).unwrap();
            spec_deserialize::<P>(bytes, 0) == Some((v, bytes.len() as int))
        }),
{
    let id = P::spec_id(v);
    let bytes = spec_varint(id as i32) + P::spec_serialize_body(v);
    assert(holds_at(bytes, 0, bytes)) by {
        assert(bytes.subrange(0, bytes.len() as int) =~= bytes);
    }
    lemma_holds_at_split(bytes, 0, spec_varint(id as i32), P::spec_serialize_body(v));
    lemma_varint_i32_roundtrip(bytes, 0, id as i32);
    assert((id as i32) as u32 == id) by (bit_vector);
    P::lemma_body_roundtrip(bytes, spec_varint(id as i32).len() as int, v);
}

/// The data of a frame under compression: a `VarInt` zero and the data as it is, when the data
/// is shorter than the threshold; else its `VarInt` length and the zlib data.
pub open spec fn spec_compressed(data: Seq<u8>, compression_threshold: u32) -> Option<Seq<u8>> {
    if data.len() < compression_threshold {
        Some(spec_varint(0) + data)
    } else {
        match zlib_compressed(data) {
            Some(c) => Some(spec_varint(data.len() as i32) + c),
            None => None,
        }
    }
}

/// Data that decompresses back to itself: data under the threshold, or data of at most
/// [`MAX_PACKET_SIZE`] bytes that is not empty.
pub open spec fn decompresses_back(data: Seq<u8>, compression_threshold: u32) -> bool {
    data.len() < compression_threshold || 0 < data.len() <= MAX_PACKET_SIZE
}

/// Prepares data for a connection on which compression is on.
pub fn compression_encoder(data: &[u8], compression_threshold: u32) -> (res: Option<Vec<u8>>)
    ensures
        opt_bytes(res) == spec_compressed(data@, compression_threshold),
        res matches Some(e) ==> decompresses_back(data@, compression_threshold) ==> spec_decompressed(
            e@,
            0,
            compression_threshold,
        ) == Some(data@),
{
    let n = data.len();
    if n < compression_threshold as usize {
        let mut buf: Vec<u8> = Vec::new();
        0i32.write_varint(&mut buf);
        let ghost head = buf@;
        let mut i: usize = 0;
        while i < n
            invariant
                n == data@.len(),
                head == spec_varint(0),
                i <= n,
                buf@ == head + data@.subrange(0, i as int),
            decreases n - i,
        {
            buf.push(data[i]);
            i = i + 1;
            assert(buf@ =~= head + data@.subrange(0, i as int));
        }
        proof {
            assert(data@.subrange(0, n as int) =~= data@);
            let e = buf@;
            assert(holds_at(e, 0, e)) by {
                assert(e.subrange(0, e.len() as int) =~= e);
            }
            lemma_holds_at_split(e, 0, spec_varint(0), data@);
            lemma_varint_i32_roundtrip(e, 0, 0);
            assert(e.subrange(spec_varint(0).len() as int, e.len() as int) =~= data@);
        }
        Some(buf)
    } else {
        let mut compressed = match zlib_compress(data) {
            Some(c) => c,
            None => {
                return None;
            },
        };
        let mut buf: Vec<u8> = Vec::new();
        (n as i32).write_varint(&mut buf);
        let ghost head = buf@;
        let ghost c = compressed@;
        buf.append(&mut compressed);
        proof {
            let e = buf@;
            if decompresses_back(data@, compression_threshold) {
                assert(holds_at(e, 0, e)) by {
                    assert(e.subrange(0, e.len() as int) =~= e);
                }
                lemma_holds_at_split(e, 0, spec_varint(n as i32), c);
                lemma_varint_i32_roundtrip(e, 0, n as i32);
                assert(e.subrange(head.len() as int, e.len() as int) =~= c);
                assert(((n as i32) as u32) as int == n);
            }
        }
        Some(buf)
    }
}

/// Prefixes data with its `VarInt` length, making a frame.
pub fn frame_prepender(data: Vec<u8>) -> (res: Option<Vec<u8>>)
    ensures
        res matches Some(f) && f@ == spec_framed(data@),
{
    let mut buf: Vec<u8> = Vec::new();
    (data.len() as i32).write_varint(&mut buf);
    write_bytes(&data, &mut buf);
    Some(buf)
}

/// The bytes that go over the network for a packet: the packet, compressed when compression is
/// on, in a frame.
pub open spec fn spec_network_packet(raw: Seq<u8>, compression_threshold: Option<u32>) -> Option<
    Seq<u8>,
> {
    match compression_threshold {
        Some(t) => match spec_compressed(raw, t) {
            Some(e) => Some(spec_framed(e)),
            None => None,
        },
        None => Some(spec_framed(raw)),
    }
}

/// Reading a frame from the start of `net` and decompressing it when compression is on.
pub open spec fn spec_network_read(net: Seq<u8>, compression_threshold: Option<u32>) -> Option<
    Seq<u8>,
> {
    match spec_frame(net, 0) {
        Some((frame, _)) => spec_raw_packet(frame, compression_threshold),
        None => None,
    }
}

/// Prepares a packet for the network: compression when it is on, then a frame.
pub fn encode_to_network_packet(raw_packet: &[u8], compression_threshold: Option<u32>) -> (res: Option<Vec<u8>>)
    ensures
        opt_bytes(res) == spec_network_packet(raw_packet@, compression_threshold),
        res matches Some(net) ==> net@.len() <= i32::MAX ==> (match compression_threshold {
            Some(t) => decompresses_back(raw_packet@, t),
            None => true,
        }) ==> spec_network_read(net@, compression_threshold) == Some(raw_packet@),
{
    let mut data: Vec<u8> = Vec::new();
    write_bytes_from_slice(raw_packet, &mut data);
    match compression_threshold {
        Some(threshold) => {
            data = match compression_encoder(raw_packet, threshold) {
                Some(e) => e,
                None => {
                    return None;
                },
            };
        },
        None => {},
    }
    let ghost inner = data@;
    let framed = frame_prepender(data);
    proof {
        let net = spec_framed(inner);
        if net.len() <= i32::MAX {
            assert(holds_at(net, 0, net)) by {
                assert(net.subrange(0, net.len() as int) =~= net);
            }
            lemma_frame_roundtrip(net, 0, inner);
        }
    }
    framed
}

/// Copies a slice into a vector.
fn write_bytes_from_slice(data: &[u8], buffer: &mut Vec<u8>)
    ensures
        final(buffer)@ == old(buffer)@ + data@,
{
    let mut i: usize = 0;
    while i < data.len()
        invariant
            i <= data@.len(),
            buffer@ == old(buffer)@ + data@.subrange(0, i as int),
        decreases data@.len() - i,
    {
        buffer.push(data[i]);
        i = i + 1;
        assert(buffer@ =~= old(buffer)@ + data@.subrange(0, i as int));
    }
    assert(data@.subrange(0, data@.len() as int) =~= data@);
}

} // verus!

use std::io::Read;

use flate2::Compression;

use vstd::prelude::*;

verus! {

/// What `flate2` makes of `data` with a zlib encoder at the default level, read to the end;
/// `None` when reading fails.
pub uninterp spec fn zlib_compressed(data: Seq<u8>) -> Option<Seq<u8>>;

/// What `flate2` makes of `data` with a zlib decoder, read to the end; `None` when reading
/// fails, as it does on data that is not a zlib stream.
pub uninterp spec fn zlib_decompressed(data: Seq<u8>) -> Option<Seq<u8>>;

/// The bytes of an optional byte vector, when there is one.
pub open spec fn opt_bytes(v: Option<Vec<u8>>) -> Option<Seq<u8>> {
    match v {
        Some(b) => Some(b@),
        None => None,
    }
}

/// Compresses `data` with `flate2::bufread::ZlibEncoder` at `Compression::default()`, read
/// to the end with `read_to_end`. The contract names the result, and states that a zlib
/// decoder gives the data back from it: zlib is lossless. Which bytes the encoder writes is
/// left unsaid: the zlib and deflate formats take pages to state.
#[verifier::external_body]
pub(crate) fn zlib_compress(data: &[u8]) -> (res: Option<Vec<u8>>)
    ensures
        opt_bytes(res) == zlib_compressed(data@),
        res matches Some(c) ==> zlib_decompressed(c@) == Some(data@),
{
    let mut encoder = flate2::bufread::ZlibEncoder::new(data, Compression::default());
    let mut out = Vec::new();
    match encoder.read_to_end(&mut out) {
        Ok(_) => Some(out),
        Err(_) => None,
    }
}

/// Decompresses `data` with `flate2::read::ZlibDecoder`, read to the end with
/// `read_to_end`. The contract names the result; which inputs are valid zlib streams, and
/// what they decompress to, is left unsaid beyond the fact stated at `zlib_compress`.
#[verifier::external_body]
pub(crate) fn zlib_decompress(data: &[u8]) -> (res: Option<Vec<u8>>)
    ensures
        opt_bytes(res) == zlib_decompressed(data@),
{
    let mut decoder = flate2::read::ZlibDecoder::new(data);
    let mut out = Vec::new();
    match decoder.read_to_end(&mut out) {
        Ok(_) => Some(out),
        Err(_) => None,
    }
}

} // verus!

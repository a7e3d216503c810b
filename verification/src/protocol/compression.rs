use vstd::prelude::*;
use std::io::{Read, Write};

verus! {

/// What zlib makes of `data` at a compression level from 0 to 9, or nothing
/// where the compressor fails.
pub uninterp spec fn zlib_deflate(data: Seq<u8>, level: u32) -> Option<Seq<u8>>;

/// The first `max_read` bytes, at most, of what a zlib stream at the front of
/// `data` inflates to, or nothing where the stream is damaged within them.
pub uninterp spec fn zlib_inflate(data: Seq<u8>, max_read: u64) -> Option<Seq<u8>>;

/// A result with its bytes taken by their view.
pub open spec fn bytes_of(r: Option<Vec<u8>>) -> Option<Seq<u8>> {
    match r {
        Some(v) => Some(v@),
        None => None,
    }
}

/// `flate2::write::ZlibEncoder` over a vector, with `write_all` and `finish`:
/// `data` as one zlib stream. A stream that it made inflates to `data` again,
/// which ends before one byte more than `data` has is read.
#[verifier::external_body]
pub(crate) fn zlib_compress(data: &[u8], level: u32) -> (out: Option<Vec<u8>>)
    requires
        level <= 9,
    ensures
        bytes_of(out) == zlib_deflate(data@, level),
        out matches Some(stream) ==> data@.len() < u64::MAX ==> zlib_inflate(
            stream@,
            (data@.len() + 1) as u64,
        ) == Some(data@),
{
    let mut encoder = flate2::write::ZlibEncoder::new(Vec::new(), flate2::Compression::new(level));
    encoder.write_all(data).ok()?;
    encoder.finish().ok()
}

/// `flate2::read::ZlibDecoder` over a slice, read to its end through
/// `Read::take`: what the zlib stream at the front of `data` inflates to, cut
/// off after `max_read` bytes.
#[verifier::external_body]
pub(crate) fn zlib_decompress(data: &[u8], max_read: u64) -> (out: Option<Vec<u8>>)
    ensures
        bytes_of(out) == zlib_inflate(data@, max_read),
        out matches Some(bytes) ==> bytes@.len() <= max_read,
{
    let mut out = Vec::new();
    flate2::read::ZlibDecoder::new(data).take(max_read).read_to_end(&mut out).ok()?;
    Some(out)
}

} // verus!

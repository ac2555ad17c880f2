//! Compression for the two codecs: zlib (through `flate2`) on the TCP
//! side, zstd on the QUIC side.
//!
//! What either algorithm produces takes pages to state, so each
//! compressor's output is given a name, and each decompressor promises
//! to invert it: feeding it a named compression of `p` yields `p`
//! back, as long as `p` fits the output bound. Decompressed output is
//! always bounded, to resist decompression bombs.

use std::io::Read;
use std::io::Write;
use vstd::prelude::*;
use crate::error::CodecError;

verus! {

/// The zlib stream `flate2` produces for `data` at compression level
/// `level`.
pub uninterp spec fn zlib_deflate(data: Seq<u8>, level: u32) -> Seq<u8>;

/// The zstd block the configured `zstd` compressor produces for `data`
/// at compression level `level`, with checksum, content size,
/// dictionary id and magic bytes all disabled.
pub uninterp spec fn zstd_pack(data: Seq<u8>, level: i32) -> Seq<u8>;

/// Relies on `flate2::write::ZlibEncoder`: the stream produced depends
/// on the input bytes and the level alone, and writing into a `Vec`
/// cannot fail. flate2's compression scale runs from 0 to 9; its miniz
/// backend asserts that bound, so larger levels are kept out.
#[verifier::external_body]
pub fn zlib_compress(data: &[u8], level: u32) -> (r: Vec<u8>)
    requires
        level <= 9,
    ensures
        r@ == zlib_deflate(data@, level),
{
    let mut encoder = flate2::write::ZlibEncoder::new(
        Vec::new(),
        flate2::Compression::new(level),
    );
    encoder.write_all(data).expect("writing to a Vec cannot fail");
    encoder.finish().expect("writing to a Vec cannot fail")
}

/// Relies on `flate2::read::ZlibDecoder`: inflating inverts deflating
/// at every level. Output is read through a `limit`-sized window, so
/// a success never exceeds `limit` bytes, and a stream that deflates
/// to more than `limit` is refused.
#[verifier::external_body]
pub fn zlib_decompress(data: &[u8], limit: usize) -> (r: Result<Vec<u8>, CodecError>)
    ensures
        match r {
            Ok(out) => {
                &&& out@.len() <= limit
                &&& forall|p: Seq<u8>, l: u32|
                    data@ == zlib_deflate(p, l) && p.len() <= limit ==> out@ == p
            },
            Err(_) => forall|p: Seq<u8>, l: u32| data@ == zlib_deflate(p, l) ==> p.len() > limit,
        },
{
    let mut out = Vec::new();
    let take_len = (limit as u64).saturating_add(1);
    match flate2::read::ZlibDecoder::new(data).take(take_len).read_to_end(&mut out) {
        Ok(_) => {
            if out.len() > limit {
                Err(CodecError::TooLarge(out.len()))
            } else {
                Ok(out)
            }
        },
        Err(_) => Err(CodecError::BadCompressedData),
    }
}

/// Relies on `zstd::bulk::Compressor` configured without checksum,
/// content size, dictionary id or magic bytes: the block produced
/// depends on the input bytes and the level alone. At a valid level,
/// compression into the compress-bound-sized buffer the bulk API
/// allocates cannot fail, so the result is unconditional, and the
/// output never exceeds that bound, which zstd states as the input
/// length plus 1/256th of it plus a margin of at most 64 bytes.
#[verifier::external_body]
pub fn zstd_compress(data: &[u8], level: i32) -> (r: Vec<u8>)
    requires
        1 <= level <= 19,
    ensures
        r@ == zstd_pack(data@, level),
        r@.len() <= data@.len() + data@.len() / 256 + 64,
{
    let result = zstd::bulk::Compressor::new(level).and_then(|mut compressor| {
        compressor.include_checksum(false)?;
        compressor.include_contentsize(false)?;
        compressor.include_dictid(false)?;
        compressor.include_magicbytes(false)?;
        compressor.compress(data)
    });
    result.expect("bulk zstd compression at a valid level cannot fail")
}

/// Relies on `zstd::bulk::Decompressor` configured without magic
/// bytes: decompressing inverts the configured compressor at every
/// level, and a block whose contents exceed `limit` is refused.
#[verifier::external_body]
pub fn zstd_decompress(data: &[u8], limit: usize) -> (r: Result<Vec<u8>, CodecError>)
    ensures
        match r {
            Ok(out) => {
                &&& out@.len() <= limit
                &&& forall|p: Seq<u8>, l: i32|
                    data@ == zstd_pack(p, l) && p.len() <= limit ==> out@ == p
            },
            Err(_) => forall|p: Seq<u8>, l: i32| data@ == zstd_pack(p, l) ==> p.len() > limit,
        },
{
    let result = zstd::bulk::Decompressor::new().and_then(|mut decompressor| {
        decompressor.include_magicbytes(false)?;
        decompressor.decompress(data, limit)
    });
    result.map_err(|_| CodecError::BadCompressedData)
}

} // verus!

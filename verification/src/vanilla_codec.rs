//! The native codec: length-prefixed framing for the TCP side, with
//! optional zlib compression above a negotiated threshold and optional
//! AES-128 CFB-8 encryption of the whole byte stream.
//!
//! A frame is a VarInt length followed by that many bytes. With
//! compression enabled the bytes begin with a VarInt: zero means the
//! payload follows uncompressed, anything else is the payload's length
//! and the rest is its zlib stream. Declared lengths above one
//! mebibyte are refused before anything is allocated.

use vstd::prelude::*;
use vstd::seq_lib::*;
use crate::cipher::{cfb8_decrypt_seq, cfb8_encrypt_seq, CipherState};
use crate::compress::{zlib_compress, zlib_decompress, zlib_deflate};
use crate::decoder::Decoder;
use crate::encoder::Encoder;
use crate::error::{CodecError, DecodeError};
use crate::wire::{
    lemma_concat_skip, lemma_parse_var_int_of_encoding, lemma_var_int_bytes_len, parse_var_int,
    var_int_bytes, var_int_needs_more,
};
use crate::BUFFER_LIMIT;

verus! {

/// The zlib level the proxy compresses at: the fastest one, since
/// most packets crossing the TCP side are small.
pub const COMPRESSION_LEVEL: u32 = 1;

/// A 16-byte AES key for the terminal encryption.
#[derive(Copy, Clone, Debug)]
pub struct EncryptionKey([u8; 16]);

impl View for EncryptionKey {
    type V = Seq<u8>;

    closed spec fn view(&self) -> Seq<u8> {
        self.0@
    }
}

impl EncryptionKey {
    /// Wraps raw key bytes.
    pub fn new(bytes: [u8; 16]) -> (r: EncryptionKey)
        ensures
            r@ == bytes@,
    {
        EncryptionKey(bytes)
    }

    /// The raw key bytes.
    pub fn as_bytes(&self) -> (r: &[u8; 16])
        ensures
            r@ == self@,
    {
        &self.0
    }
}

/// The payload size, in bytes, at and above which a packet is
/// compressed.
#[derive(Copy, Clone, Debug, PartialEq, Eq, Structural)]
pub struct CompressionThreshold(usize);

impl CompressionThreshold {
    /// The threshold in bytes.
    pub closed spec fn spec_value(&self) -> usize {
        self.0
    }

    /// Wraps a threshold; zero would compress everything and is not a
    /// meaningful negotiation, so at least one byte is required.
    pub fn new(threshold: usize) -> (r: CompressionThreshold)
        requires
            threshold >= 1,
        ensures
            r.spec_value() == threshold,
    {
        CompressionThreshold(threshold)
    }

    /// The threshold in bytes.
    pub fn value(&self) -> (r: usize)
        ensures
            r == self.spec_value(),
    {
        self.0
    }
}

/// The number of bytes a VarInt occupies.
pub fn var_int_size(x: i32) -> (n: usize)
    ensures
        n == var_int_bytes(x as u32).len(),
{
    let mut enc = Encoder::new();
    enc.write_var_int(x)
}

/// The frame of a payload without compression: its length, then the
/// payload.
pub open spec fn plain_frame(payload: Seq<u8>) -> Seq<u8> {
    var_int_bytes(payload.len() as u32) + payload
}

/// The block inside a compressed-mode frame: a zero marker and the
/// payload itself below the threshold, or the payload's length and
/// its zlib stream at or above it.
pub open spec fn compressed_block(payload: Seq<u8>, threshold: usize) -> Seq<u8> {
    if payload.len() >= threshold {
        var_int_bytes(payload.len() as u32) + zlib_deflate(payload, COMPRESSION_LEVEL)
    } else {
        var_int_bytes(0) + payload
    }
}

/// The frame of a payload with compression enabled: the block's
/// length, then the block.
pub open spec fn compressed_frame(payload: Seq<u8>, threshold: usize) -> Seq<u8> {
    var_int_bytes(compressed_block(payload, threshold).len() as u32) + compressed_block(
        payload,
        threshold,
    )
}

/// The frame a payload is sent as under the given compression setting.
pub open spec fn native_frame(payload: Seq<u8>, compression: Option<CompressionThreshold>) -> Seq<
    u8,
> {
    match compression {
        None => plain_frame(payload),
        Some(t) => compressed_frame(payload, t.spec_value()),
    }
}

/// Whether a payload can be framed at all: its frame's length prefixes
/// must fit a VarInt.
pub open spec fn frame_fits(payload: Seq<u8>, compression: Option<CompressionThreshold>) -> bool {
    match compression {
        None => payload.len() <= 0x7fffffff,
        Some(t) => payload.len() <= 0x7fffffff && compressed_block(payload, t.spec_value()).len()
            <= 0x7fffffff,
    }
}

/// Whether the buffered bytes hold the prefix of a frame that has not
/// fully arrived: either the length VarInt itself is incomplete, or
/// the length parsed, is within the bound, and more bytes than are
/// buffered belong to the frame. More input must come.
pub open spec fn frame_needs_more(buf: Seq<u8>) -> bool {
    ||| var_int_needs_more(buf)
    ||| {
        let q = parse_var_int(buf, 4);
        &&& q is Some
        &&& (q->0).0 <= BUFFER_LIMIT
        &&& buf.skip((q->0).1).len() < (q->0).0
    }
}

/// Whether one whole well-formed frame sits at the head of the buffer:
/// its length parses within the bound and all its bytes are present,
/// and, with compression on, the block is a zero-marked plain payload
/// or the zlib stream of some payload within the bound.
pub open spec fn native_frame_decodable(
    buf: Seq<u8>,
    compression: Option<CompressionThreshold>,
) -> bool {
    match parse_var_int(buf, 4) {
        None => false,
        Some((l, n)) => {
            let contents = buf.skip(n).take(l as int);
            &&& l <= BUFFER_LIMIT
            &&& buf.skip(n).len() >= l
            &&& match compression {
                None => true,
                Some(_) => match parse_var_int(contents, 4) {
                    None => false,
                    Some((dl, n2)) => dl <= 0x7fffffff && (dl == 0 || exists|p: Seq<u8>, lv: u32|
                        contents.skip(n2) == zlib_deflate(p, lv) && p.len() <= BUFFER_LIMIT),
                },
            }
        },
    }
}

/// The framing codec of the TCP side.
pub struct VanillaCodec {
    read_buffer: Vec<u8>,
    compression: Option<CompressionThreshold>,
    encryption: Option<CipherState>,
}

impl VanillaCodec {
    /// The decrypted bytes received but not yet decoded.
    pub closed spec fn buffered(&self) -> Seq<u8> {
        self.read_buffer@
    }

    /// The compression threshold, once negotiated.
    pub closed spec fn compression_config(&self) -> Option<CompressionThreshold> {
        self.compression
    }

    /// Whether encryption has been enabled.
    pub closed spec fn is_encrypted(&self) -> bool {
        self.encryption is Some
    }

    /// The encryption key, once enabled.
    pub closed spec fn key_view(&self) -> Seq<u8>
        recommends
            self.is_encrypted(),
    {
        self.encryption->0.key_view()
    }

    /// The ciphertext produced so far by the sending half.
    pub closed spec fn enc_hist(&self) -> Seq<u8>
        recommends
            self.is_encrypted(),
    {
        self.encryption->0.enc_hist()
    }

    /// The ciphertext consumed so far by the receiving half.
    pub closed spec fn dec_hist(&self) -> Seq<u8>
        recommends
            self.is_encrypted(),
    {
        self.encryption->0.dec_hist()
    }

    /// A fresh codec: no compression, no encryption, nothing buffered.
    pub fn new() -> (r: VanillaCodec)
        ensures
            r.buffered().len() == 0,
            r.compression_config() is None,
            !r.is_encrypted(),
    {
        VanillaCodec { read_buffer: Vec::new(), compression: None, encryption: None }
    }

    /// Enables terminal encryption. One-shot: enabling twice is a
    /// programming error, kept out by the precondition.
    pub fn enable_encryption(&mut self, key: &EncryptionKey)
        requires
            !old(self).is_encrypted(),
        ensures
            final(self).is_encrypted(),
            final(self).key_view() == key@,
            final(self).enc_hist() == Seq::<u8>::empty(),
            final(self).dec_hist() == Seq::<u8>::empty(),
            final(self).buffered() == old(self).buffered(),
            final(self).compression_config() == old(self).compression_config(),
    {
        self.encryption = Some(CipherState::new(key.as_bytes()));
    }

    /// Enables compression at the negotiated threshold. One-shot:
    /// enabling twice is a programming error, kept out by the
    /// precondition.
    pub fn enable_compression(&mut self, threshold: CompressionThreshold)
        requires
            old(self).compression_config() is None,
        ensures
            final(self).compression_config() == Some(threshold),
            final(self).buffered() == old(self).buffered(),
            final(self).is_encrypted() == old(self).is_encrypted(),
            old(self).is_encrypted() ==> final(self).key_view() == old(self).key_view()
                && final(self).enc_hist() == old(self).enc_hist() && final(self).dec_hist()
                == old(self).dec_hist(),
    {
        self.compression = Some(threshold);
    }

    /// Encodes one packet payload to its wire bytes: framed, compressed
    /// when enabled and the payload reaches the threshold, and then
    /// enciphered when enabled. Fails exactly when a length prefix
    /// would overflow, which never happens for a bounded payload that
    /// stays below the compression threshold.
    pub fn encode_packet(&mut self, payload: &[u8]) -> (r: Result<Vec<u8>, CodecError>)
        ensures
            final(self).buffered() == old(self).buffered(),
            payload@.len() <= BUFFER_LIMIT && match old(self).compression_config() {
                None => true,
                Some(t) => payload@.len() < t.spec_value(),
            } ==> r is Ok,
            final(self).compression_config() == old(self).compression_config(),
            final(self).is_encrypted() == old(self).is_encrypted(),
            old(self).is_encrypted() ==> final(self).key_view() == old(self).key_view()
                && final(self).dec_hist() == old(self).dec_hist(),
            match r {
                Ok(out) => {
                    let frame = native_frame(payload@, old(self).compression_config());
                    &&& frame_fits(payload@, old(self).compression_config())
                    &&& if old(self).is_encrypted() {
                        &&& out@ == cfb8_encrypt_seq(
                            old(self).key_view(),
                            old(self).enc_hist(),
                            frame,
                        )
                        &&& final(self).enc_hist() == old(self).enc_hist() + out@
                    } else {
                        out@ == frame
                    }
                },
                Err(_) => {
                    &&& !frame_fits(payload@, old(self).compression_config())
                    &&& old(self).is_encrypted() ==> final(self).enc_hist() == old(
                        self,
                    ).enc_hist()
                },
            },
    {
        if payload.len() > 0x7fffffff {
            return Err(CodecError::Unframeable);
        }
        let mut framed: Vec<u8> = match &self.compression {
            Some(threshold) => {
                let t = threshold.value();
                let mut block = Encoder::new();
                if payload.len() >= t {
                    block.write_var_int(payload.len() as i32);
                    let deflated = zlib_compress(payload, COMPRESSION_LEVEL);
                    block.write_slice(deflated.as_slice());
                } else {
                    block.write_var_int(0);
                    block.write_slice(payload);
                }
                let block = block.into_bytes();
                proof {
                    assert(var_int_bytes(0).len() == 1);
                }
                if block.len() > 0x7fffffff {
                    return Err(CodecError::Unframeable);
                }
                let mut enc = Encoder::new();
                enc.write_var_int(block.len() as i32);
                enc.write_slice(block.as_slice());
                enc.into_bytes()
            },
            None => {
                let mut enc = Encoder::new();
                enc.write_var_int(payload.len() as i32);
                enc.write_slice(payload);
                enc.into_bytes()
            },
        };
        proof {
            crate::wire::lemma_u32_i32_cast(payload@.len() as u32);
            assert(framed@ == native_frame(payload@, self.compression));
        }
        match &mut self.encryption {
            Some(cipher) => {
                cipher.encrypt_vec(&mut framed);
            },
            None => {},
        }
        Ok(framed)
    }

    /// Feeds received bytes to the codec: deciphered first when
    /// encryption is on, then buffered for decoding. When the bytes
    /// are the encipherment of some plaintext under the matching state,
    /// exactly that plaintext is buffered.
    pub fn give_data(&mut self, data: &[u8])
        ensures
            final(self).compression_config() == old(self).compression_config(),
            final(self).is_encrypted() == old(self).is_encrypted(),
            if old(self).is_encrypted() {
                &&& final(self).key_view() == old(self).key_view()
                &&& final(self).enc_hist() == old(self).enc_hist()
                &&& final(self).dec_hist() == old(self).dec_hist() + data@
                &&& final(self).buffered() == old(self).buffered() + cfb8_decrypt_seq(
                    old(self).key_view(),
                    old(self).dec_hist(),
                    data@,
                )
                &&& forall|p: Seq<u8>|
                    #[trigger] cfb8_encrypt_seq(old(self).key_view(), old(self).dec_hist(), p)
                        == data@ ==> final(self).buffered() == old(self).buffered() + p
            } else {
                final(self).buffered() == old(self).buffered() + data@
            },
    {
        let mut incoming = vstd::slice::slice_to_vec(data);
        match &mut self.encryption {
            Some(cipher) => {
                cipher.decrypt_vec(&mut incoming);
            },
            None => {},
        }
        self.read_buffer.append(&mut incoming);
    }

    /// Attempts to decode one packet payload from the buffered bytes.
    ///
    /// Returns nothing when a whole frame has not arrived yet, the
    /// payload when one has, and an error, fatal to the stream, when
    /// the frame is malformed or oversized. Oversized declared lengths
    /// are refused before any allocation.
    pub fn decode_packet(&mut self) -> (r: Result<Option<Vec<u8>>, CodecError>)
        ensures
            final(self).compression_config() == old(self).compression_config(),
            final(self).is_encrypted() == old(self).is_encrypted(),
            old(self).is_encrypted() ==> final(self).key_view() == old(self).key_view()
                && final(self).enc_hist() == old(self).enc_hist() && final(self).dec_hist()
                == old(self).dec_hist(),
            match r {
                Ok(Some(payload)) => {
                    let q = parse_var_int(old(self).buffered(), 4);
                    &&& q is Some
                    &&& {
                        let l = (q->0).0;
                        let n = (q->0).1;
                        let contents = old(self).buffered().skip(n).take(l as int);
                        &&& l <= BUFFER_LIMIT
                        &&& old(self).buffered().skip(n).len() >= l
                        &&& final(self).buffered() == old(self).buffered().skip(n + l)
                        &&& match old(self).compression_config() {
                            None => payload@ == contents,
                            Some(_) => {
                                let q2 = parse_var_int(contents, 4);
                                &&& q2 is Some
                                &&& {
                                    let dl = (q2->0).0;
                                    let n2 = (q2->0).1;
                                    &&& dl <= 0x7fffffff
                                    &&& if dl == 0 {
                                        payload@ == contents.skip(n2)
                                    } else {
                                        &&& payload@.len() <= BUFFER_LIMIT
                                        &&& forall|p: Seq<u8>, lv: u32|
                                            contents.skip(n2) == zlib_deflate(p, lv) && p.len()
                                                <= BUFFER_LIMIT ==> payload@ == p
                                    }
                                }
                            },
                        }
                    }
                },
                Ok(None) => {
                    &&& final(self).buffered() == old(self).buffered()
                    &&& frame_needs_more(old(self).buffered())
                },
                Err(_) => {
                    &&& final(self).buffered() == old(self).buffered()
                    &&& !frame_needs_more(old(self).buffered())
                    &&& !native_frame_decodable(
                        old(self).buffered(),
                        old(self).compression_config(),
                    )
                },
            },
    {
        let ghost buf0 = self.read_buffer@;
        proof {
            crate::wire::lemma_parse_var_int_none(buf0, 4);
        }
        let (payload, consumed): (Vec<u8>, usize) = {
            let mut dec = Decoder::new(self.read_buffer.as_slice());
            let (length, n) = match dec.read_var_int_with_size() {
                Ok(x) => x,
                Err(DecodeError::EndOfStream(_)) => {
                    return Ok(None);
                },
                Err(e) => {
                    return Err(CodecError::Decode(e));
                },
            };
            if length < 0 {
                proof {
                    let l = length;
                    assert(l < 0 ==> (l as u32) > 0x7fffffffu32) by (bit_vector);
                }
                return Err(CodecError::NegativeLength(length));
            }
            let length = length as usize;
            if length > BUFFER_LIMIT {
                return Err(CodecError::TooLarge(length));
            }
            let contents = match dec.consume_slice(length) {
                Ok(s) => s,
                Err(_) => {
                    return Ok(None);
                },
            };
            let payload: Vec<u8> = match &self.compression {
                None => vstd::slice::slice_to_vec(contents),
                Some(_) => {
                    let mut inner = Decoder::new(contents);
                    let (data_length, _) = match inner.read_var_int_with_size() {
                        Ok(x) => x,
                        Err(e) => {
                            return Err(CodecError::Decode(e));
                        },
                    };
                    if data_length < 0 {
                        proof {
                            let l = data_length;
                            assert(l < 0 ==> (l as u32) > 0x7fffffffu32) by (bit_vector);
                        }
                        return Err(CodecError::Decode(DecodeError::IntConversion));
                    }
                    if data_length == 0 {
                        vstd::slice::slice_to_vec(inner.buffer())
                    } else {
                        match zlib_decompress(inner.buffer(), BUFFER_LIMIT) {
                            Ok(out) => out,
                            Err(e) => {
                                return Err(e);
                            },
                        }
                    }
                },
            };
            (payload, n + length)
        };
        proof {
            crate::wire::lemma_parse_var_int_len(buf0, 4);
            assert(consumed as int <= buf0.len());
        }
        let rest = self.read_buffer.split_off(consumed);
        self.read_buffer = rest;
        proof {
            let q = parse_var_int(buf0, 4);
            let n = (q->0).1;
            let l = (q->0).0;
            assert_seqs_equal!(
                buf0.skip(consumed as int) == buf0.skip(n + l)
            );
        }
        Ok(Some(payload))
    }
}

/// The frame of a payload parses back apart: its length prefix reads
/// back, and the frame's contents are exactly the block that was
/// framed. Below the threshold the block starts with a zero marker and
/// carries the payload itself; at or above it, the payload's length
/// and its zlib stream.
pub proof fn lemma_native_frame_shape(payload: Seq<u8>, compression: Option<CompressionThreshold>)
    requires
        frame_fits(payload, compression),
    ensures
        ({
            let frame = native_frame(payload, compression);
            let body = match compression {
                None => payload,
                Some(t) => compressed_block(payload, t.spec_value()),
            };
            let q = parse_var_int(frame, 4);
            &&& q == Some((body.len() as u32, var_int_bytes(body.len() as u32).len() as int))
            &&& frame.skip((q->0).1).take(body.len() as int) == body
            &&& frame.skip((q->0).1 + body.len()) == Seq::<u8>::empty()
        }),
{
    let body = match compression {
        None => payload,
        Some(t) => compressed_block(payload, t.spec_value()),
    };
    let prefix = var_int_bytes(body.len() as u32);
    lemma_var_int_bytes_len(body.len() as u32);
    lemma_parse_var_int_of_encoding(body.len() as u32, body, 4);
    assert(native_frame(payload, compression) == prefix + body);
    lemma_concat_skip(prefix, body);
    assert_seqs_equal!((prefix + body).skip(prefix.len() as int).take(body.len() as int) == body);
    assert_seqs_equal!(
        (prefix + body).skip(prefix.len() as int + body.len() as int) == Seq::<u8>::empty()
    );
}

/// Inside a compressed-mode block, the zero marker or the payload
/// length reads back, and what follows it is the payload or its zlib
/// stream.
pub proof fn lemma_compressed_block_shape(payload: Seq<u8>, threshold: usize)
    requires
        payload.len() <= 0x7fffffff,
    ensures
        ({
            let block = compressed_block(payload, threshold);
            let q2 = parse_var_int(block, 4);
            if payload.len() >= threshold {
                &&& q2 == Some(
                    (
                        payload.len() as u32,
                        var_int_bytes(payload.len() as u32).len() as int,
                    ),
                )
                &&& block.skip((q2->0).1) == zlib_deflate(payload, COMPRESSION_LEVEL)
            } else {
                &&& q2 == Some((0u32, 1int))
                &&& block.skip(1) == payload
            }
        }),
{
    if payload.len() >= threshold {
        let prefix = var_int_bytes(payload.len() as u32);
        lemma_var_int_bytes_len(payload.len() as u32);
        lemma_parse_var_int_of_encoding(
            payload.len() as u32,
            zlib_deflate(payload, COMPRESSION_LEVEL),
            4,
        );
        lemma_concat_skip(prefix, zlib_deflate(payload, COMPRESSION_LEVEL));
    } else {
        lemma_var_int_bytes_len(0);
        lemma_parse_var_int_of_encoding(0, payload, 4);
        assert(var_int_bytes(0) == seq![0u8]);
        lemma_concat_skip(var_int_bytes(0), payload);
    }
}

/// Every frame the encoder can emit is one whole decodable frame: with
/// no compression for any bounded payload, and with compression on
/// whenever the block fits the bound — which is always the case below
/// the threshold, and holds above it whenever the zlib stream fits.
pub proof fn lemma_native_frame_decodable(
    payload: Seq<u8>,
    compression: Option<CompressionThreshold>,
)
    requires
        payload.len() <= BUFFER_LIMIT,
        match compression {
            None => true,
            Some(t) => compressed_block(payload, t.spec_value()).len() <= BUFFER_LIMIT,
        },
    ensures
        native_frame_decodable(native_frame(payload, compression), compression),
        !frame_needs_more(native_frame(payload, compression)),
{
    let frame = native_frame(payload, compression);
    assert(frame_fits(payload, compression));
    lemma_native_frame_shape(payload, compression);
    crate::wire::lemma_parse_var_int_none(frame, 4);
    let body = match compression {
        None => payload,
        Some(t) => compressed_block(payload, t.spec_value()),
    };
    let q = parse_var_int(frame, 4);
    let n = (q->0).1;
    assert(frame.skip(n).len() == body.len()) by {
        assert(frame.skip(n).take(body.len() as int) == body);
        assert(frame.skip(n + body.len()) == Seq::<u8>::empty());
    }
    match compression {
        None => {},
        Some(t) => {
            lemma_compressed_block_shape(payload, t.spec_value());
            let contents = frame.skip(n).take((q->0).0 as int);
            assert(contents == body);
            if payload.len() >= t.spec_value() {
                let q2 = parse_var_int(body, 4);
                assert(body.skip((q2->0).1) == zlib_deflate(payload, COMPRESSION_LEVEL));
                assert(exists|p: Seq<u8>, lv: u32|
                    body.skip((q2->0).1) == zlib_deflate(p, lv) && p.len() <= BUFFER_LIMIT) by {
                    assert(body.skip((q2->0).1) == zlib_deflate(payload, COMPRESSION_LEVEL)
                        && payload.len() <= BUFFER_LIMIT);
                }
            }
        },
    }
}

/// Below the threshold the compressed-mode frame of a payload is a
/// whole decodable frame outright: zlib is never involved, so no
/// hypothesis about its output is needed.
pub proof fn lemma_native_frame_decodable_below_threshold(
    payload: Seq<u8>,
    threshold: CompressionThreshold,
)
    requires
        payload.len() < threshold.spec_value(),
        payload.len() + 1 <= BUFFER_LIMIT,
    ensures
        native_frame_decodable(
            native_frame(payload, Some(threshold)),
            Some(threshold),
        ),
        !frame_needs_more(native_frame(payload, Some(threshold))),
{
    assert(var_int_bytes(0).len() == 1);
    assert(compressed_block(payload, threshold.spec_value()).len() == 1 + payload.len());
    lemma_native_frame_decodable(payload, Some(threshold));
}

} // verus!

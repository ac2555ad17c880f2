//! The QUIC-side codec, one instance per stream.
//!
//! A frame is a VarInt length, one flag byte whose lowest bit says
//! whether the payload is compressed, and the payload, zstd-compressed
//! whenever the plain payload reaches 128 bytes. There is no
//! encryption here: QUIC's own TLS covers the link. Declared lengths
//! above one mebibyte are refused before anything is allocated.

use vstd::prelude::*;
use vstd::seq_lib::*;
use crate::compress::{zstd_compress, zstd_decompress, zstd_pack};
use crate::decoder::Decoder;
use crate::encoder::Encoder;
use crate::error::{CodecError, DecodeError};
use crate::vanilla_codec::frame_needs_more;
use crate::wire::{
    lemma_concat_skip, lemma_parse_var_int_of_encoding, lemma_var_int_bytes_len, parse_var_int,
    var_int_bytes,
};
use crate::BUFFER_LIMIT;

verus! {

/// Payload size, in bytes, at and above which a payload is compressed.
pub const QUIC_COMPRESSION_THRESHOLD: usize = 128;

/// The zstd level used over QUIC: high, to spend effort saving
/// bandwidth on the long-haul link.
pub const ZSTD_LEVEL: i32 = 12;

/// The flag bit marking a compressed payload.
pub const FLAG_COMPRESSED: u8 = 0x01;

/// The body of a QUIC frame: the flag byte, then the payload, packed
/// with zstd exactly when the plain payload reaches the threshold.
pub open spec fn quic_body(payload: Seq<u8>) -> Seq<u8> {
    if payload.len() >= QUIC_COMPRESSION_THRESHOLD {
        seq![FLAG_COMPRESSED] + zstd_pack(payload, ZSTD_LEVEL as i32)
    } else {
        seq![0u8] + payload
    }
}

/// A whole QUIC frame: the body's length, then the body.
pub open spec fn quic_frame(payload: Seq<u8>) -> Seq<u8> {
    var_int_bytes(quic_body(payload).len() as u32) + quic_body(payload)
}

/// Whether one whole well-formed frame sits at the head of the buffer:
/// its length parses within the bound and all its bytes are present,
/// the flag byte is defined, and a compressed body is the zstd block
/// of some payload within the bound.
pub open spec fn quic_frame_decodable(buf: Seq<u8>) -> bool {
    match parse_var_int(buf, 4) {
        None => false,
        Some((l, n)) => {
            let body = buf.skip(n).take(l as int);
            &&& l <= BUFFER_LIMIT
            &&& buf.skip(n).len() >= l
            &&& body.len() >= 1
            &&& (body[0] == 0 || (body[0] == FLAG_COMPRESSED && exists|p: Seq<u8>, lv: i32|
                body.skip(1) == zstd_pack(p, lv) && p.len() <= BUFFER_LIMIT))
        },
    }
}

/// The framing codec of one QUIC stream.
pub struct OptimizedCodec {
    read_buffer: Vec<u8>,
}

impl OptimizedCodec {
    /// The bytes received but not yet decoded.
    pub closed spec fn buffered(&self) -> Seq<u8> {
        self.read_buffer@
    }

    /// A fresh codec with nothing buffered.
    pub fn new() -> (r: OptimizedCodec)
        ensures
            r.buffered().len() == 0,
    {
        OptimizedCodec { read_buffer: Vec::new() }
    }

    /// Encodes one packet payload to its frame. Fails exactly when the
    /// body's length cannot be carried by the length prefix, which
    /// never happens for a payload within the one-mebibyte bound.
    pub fn encode_packet(&mut self, payload: &[u8]) -> (r: Result<Vec<u8>, CodecError>)
        ensures
            final(self).buffered() == old(self).buffered(),
            payload@.len() <= BUFFER_LIMIT ==> r is Ok,
            match r {
                Ok(out) => {
                    &&& out@ == quic_frame(payload@)
                    &&& quic_body(payload@).len() <= 0x7fffffff
                },
                Err(_) => quic_body(payload@).len() > 0x7fffffff,
            },
    {
        let mut body = Encoder::new();
        if payload.len() >= QUIC_COMPRESSION_THRESHOLD {
            body.write_u8(FLAG_COMPRESSED);
            let packed = zstd_compress(payload, ZSTD_LEVEL);
            body.write_slice(packed.as_slice());
        } else {
            body.write_u8(0);
            body.write_slice(payload);
        }
        let body = body.into_bytes();
        if body.len() > 0x7fffffff {
            return Err(CodecError::Unframeable);
        }
        let mut enc = Encoder::new();
        enc.write_var_int(body.len() as i32);
        enc.write_slice(body.as_slice());
        proof {
            crate::wire::lemma_u32_i32_cast(body@.len() as u32);
        }
        Ok(enc.into_bytes())
    }

    /// Feeds received bytes to the codec's buffer.
    pub fn give_data(&mut self, data: &[u8])
        ensures
            final(self).buffered() == old(self).buffered() + data@,
    {
        self.read_buffer.extend_from_slice(data);
    }

    /// Attempts to decode one packet payload from the buffered bytes.
    ///
    /// Returns nothing when a whole frame has not arrived yet, the
    /// payload when one has, and an error, fatal to the stream, when
    /// the frame is malformed or oversized. Oversized declared lengths
    /// are refused before any allocation.
    pub fn decode_packet(&mut self) -> (r: Result<Option<Vec<u8>>, CodecError>)
        ensures
            match r {
                Ok(Some(payload)) => {
                    let q = parse_var_int(old(self).buffered(), 4);
                    &&& q is Some
                    &&& {
                        let l = (q->0).0;
                        let n = (q->0).1;
                        let body = old(self).buffered().skip(n).take(l as int);
                        &&& l <= BUFFER_LIMIT
                        &&& old(self).buffered().skip(n).len() >= l
                        &&& final(self).buffered() == old(self).buffered().skip(n + l)
                        &&& body.len() >= 1
                        &&& (body[0] == 0 || body[0] == FLAG_COMPRESSED)
                        &&& if body[0] == 0 {
                            payload@ == body.skip(1)
                        } else {
                            &&& payload@.len() <= BUFFER_LIMIT
                            &&& forall|p: Seq<u8>, lv: i32|
                                body.skip(1) == zstd_pack(p, lv) && p.len() <= BUFFER_LIMIT
                                    ==> payload@ == p
                        }
                    }
                },
                Ok(None) => {
                    &&& final(self).buffered() == old(self).buffered()
                    &&& frame_needs_more(old(self).buffered())
                },
                Err(_) => {
                    &&& final(self).buffered() == old(self).buffered()
                    &&& !frame_needs_more(old(self).buffered())
                    &&& !quic_frame_decodable(old(self).buffered())
                },
            },
    {
        let ghost buf0 = self.read_buffer@;
        proof {
            crate::wire::lemma_parse_var_int_none(buf0, 4);
        }
        let (payload, consumed): (Vec<u8>, usize) = {
            let mut dec = Decoder::new(self.read_buffer.as_slice());
            let (length, n) = match dec.read_var_int_with_size() {
                Ok(x) => x,
                Err(DecodeError::EndOfStream(_)) => {
                    return Ok(None);
                },
                Err(e) => {
                    return Err(CodecError::Decode(e));
                },
            };
            if length < 0 {
                proof {
                    let l = length;
                    assert(l < 0 ==> (l as u32) > 0x7fffffffu32) by (bit_vector);
                }
                return Err(CodecError::NegativeLength(length));
            }
            let length = length as usize;
            if length > BUFFER_LIMIT {
                return Err(CodecError::TooLarge(length));
            }
            let body = match dec.consume_slice(length) {
                Ok(s) => s,
                Err(_) => {
                    return Ok(None);
                },
            };
            let mut inner = Decoder::new(body);
            let flags = match inner.read_u8() {
                Ok(f) => f,
                Err(e) => {
                    return Err(CodecError::Decode(e));
                },
            };
            let payload: Vec<u8> = if flags == 0 {
                vstd::slice::slice_to_vec(inner.buffer())
            } else if flags == FLAG_COMPRESSED {
                match zstd_decompress(inner.buffer(), BUFFER_LIMIT) {
                    Ok(out) => out,
                    Err(e) => {
                        return Err(e);
                    },
                }
            } else {
                return Err(CodecError::InvalidFlags(flags));
            };
            (payload, n + length)
        };
        proof {
            crate::wire::lemma_parse_var_int_len(buf0, 4);
            assert(consumed as int <= buf0.len());
        }
        let rest = self.read_buffer.split_off(consumed);
        self.read_buffer = rest;
        proof {
            let q = parse_var_int(buf0, 4);
            let n = (q->0).1;
            let l = (q->0).0;
            assert_seqs_equal!(buf0.skip(consumed as int) == buf0.skip(n + l));
        }
        Ok(Some(payload))
    }
}

/// A QUIC frame parses back apart: the length prefix reads back, the
/// first body byte is the compression flag, set exactly when the plain
/// payload reaches the threshold, and the rest of the body is the
/// payload or its zstd block.
pub proof fn lemma_quic_frame_shape(payload: Seq<u8>)
    requires
        quic_body(payload).len() <= 0x7fffffff,
    ensures
        ({
            let frame = quic_frame(payload);
            let body = quic_body(payload);
            let q = parse_var_int(frame, 4);
            &&& q == Some((body.len() as u32, var_int_bytes(body.len() as u32).len() as int))
            &&& frame.skip((q->0).1).take(body.len() as int) == body
            &&& frame.skip((q->0).1 + body.len()) == Seq::<u8>::empty()
            &&& body[0] == if payload.len() >= QUIC_COMPRESSION_THRESHOLD {
                FLAG_COMPRESSED
            } else {
                0u8
            }
            &&& body.skip(1) == if payload.len() >= QUIC_COMPRESSION_THRESHOLD {
                zstd_pack(payload, ZSTD_LEVEL as i32)
            } else {
                payload
            }
        }),
{
    let body = quic_body(payload);
    let prefix = var_int_bytes(body.len() as u32);
    lemma_var_int_bytes_len(body.len() as u32);
    lemma_parse_var_int_of_encoding(body.len() as u32, body, 4);
    lemma_concat_skip(prefix, body);
    assert_seqs_equal!((prefix + body).skip(prefix.len() as int).take(body.len() as int) == body);
    assert_seqs_equal!(
        (prefix + body).skip(prefix.len() as int + body.len() as int) == Seq::<u8>::empty()
    );
    if payload.len() >= QUIC_COMPRESSION_THRESHOLD {
        lemma_concat_skip(seq![FLAG_COMPRESSED], zstd_pack(payload, ZSTD_LEVEL as i32));
        assert(body.skip(1) == zstd_pack(payload, ZSTD_LEVEL as i32));
    } else {
        lemma_concat_skip(seq![0u8], payload);
        assert(body.skip(1) == payload);
    }
}

/// Every frame the encoder can emit is one whole decodable frame,
/// whenever its body fits the one-mebibyte bound.
pub proof fn lemma_quic_frame_decodable(payload: Seq<u8>)
    requires
        payload.len() <= BUFFER_LIMIT,
        quic_body(payload).len() <= BUFFER_LIMIT,
    ensures
        quic_frame_decodable(quic_frame(payload)),
        !frame_needs_more(quic_frame(payload)),
{
    let frame = quic_frame(payload);
    let body = quic_body(payload);
    lemma_quic_frame_shape(payload);
    crate::wire::lemma_parse_var_int_none(frame, 4);
    let q = parse_var_int(frame, 4);
    let n = (q->0).1;
    assert(frame.skip(n).len() == body.len()) by {
        assert(frame.skip(n).take(body.len() as int) == body);
        assert(frame.skip(n + body.len()) == Seq::<u8>::empty());
    }
    if payload.len() >= QUIC_COMPRESSION_THRESHOLD {
        assert(exists|p: Seq<u8>, lv: i32|
            body.skip(1) == zstd_pack(p, lv) && p.len() <= BUFFER_LIMIT) by {
            assert(body.skip(1) == zstd_pack(payload, ZSTD_LEVEL as i32) && payload.len()
                <= BUFFER_LIMIT);
        }
    }
}

} // verus!

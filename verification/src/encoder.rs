//! A raw encoder for the protocol bitstream.

use vstd::prelude::*;
use vstd::seq_lib::*;
use crate::wire::{be_u128, be_u16, be_u32, be_u64, lemma_var_int_bytes_len, var_int_bytes};

verus! {

/// Appends wire representations of protocol values to an owned byte
/// buffer.
pub struct Encoder {
    buffer: Vec<u8>,
}

impl Encoder {
    /// The bytes written so far.
    pub closed spec fn bytes(&self) -> Seq<u8> {
        self.buffer@
    }

    /// Creates an encoder with an empty buffer.
    pub fn new() -> (r: Encoder)
        ensures
            r.bytes() == Seq::<u8>::empty(),
    {
        Encoder { buffer: Vec::new() }
    }

    /// Hands the written bytes out.
    pub fn into_bytes(self) -> (r: Vec<u8>)
        ensures
            r@ == self.bytes(),
    {
        self.buffer
    }

    /// Writes an unsigned byte to the stream.
    pub fn write_u8(&mut self, x: u8)
        ensures
            final(self).bytes() == old(self).bytes() + seq![x],
    {
        self.buffer.push(x);
        proof {
            assert_seqs_equal!(self.buffer@ == old(self).bytes() + seq![x]);
        }
    }

    /// Writes a signed byte to the stream.
    pub fn write_i8(&mut self, x: i8)
        ensures
            final(self).bytes() == old(self).bytes() + seq![x as u8],
    {
        self.write_u8(x as u8);
    }

    /// Writes an unsigned short to the stream, big-endian.
    pub fn write_u16(&mut self, x: u16)
        ensures
            final(self).bytes() == old(self).bytes() + be_u16(x),
    {
        self.buffer.push((x >> 8) as u8);
        self.buffer.push(x as u8);
        proof {
            assert_seqs_equal!(self.buffer@ == old(self).bytes() + be_u16(x));
        }
    }

    /// Writes a signed short to the stream, big-endian.
    pub fn write_i16(&mut self, x: i16)
        ensures
            final(self).bytes() == old(self).bytes() + be_u16(x as u16),
    {
        self.write_u16(x as u16);
    }

    /// Writes an unsigned int to the stream, big-endian.
    pub fn write_u32(&mut self, x: u32)
        ensures
            final(self).bytes() == old(self).bytes() + be_u32(x),
    {
        self.buffer.push((x >> 24) as u8);
        self.buffer.push((x >> 16) as u8);
        self.buffer.push((x >> 8) as u8);
        self.buffer.push(x as u8);
        proof {
            assert_seqs_equal!(self.buffer@ == old(self).bytes() + be_u32(x));
        }
    }

    /// Writes a signed int to the stream, big-endian.
    pub fn write_i32(&mut self, x: i32)
        ensures
            final(self).bytes() == old(self).bytes() + be_u32(x as u32),
    {
        self.write_u32(x as u32);
    }

    /// Writes an unsigned long to the stream, big-endian.
    pub fn write_u64(&mut self, x: u64)
        ensures
            final(self).bytes() == old(self).bytes() + be_u64(x),
    {
        self.buffer.push((x >> 56) as u8);
        self.buffer.push((x >> 48) as u8);
        self.buffer.push((x >> 40) as u8);
        self.buffer.push((x >> 32) as u8);
        self.buffer.push((x >> 24) as u8);
        self.buffer.push((x >> 16) as u8);
        self.buffer.push((x >> 8) as u8);
        self.buffer.push(x as u8);
        proof {
            assert_seqs_equal!(self.buffer@ == old(self).bytes() + be_u64(x));
        }
    }

    /// Writes a signed long to the stream, big-endian.
    pub fn write_i64(&mut self, x: i64)
        ensures
            final(self).bytes() == old(self).bytes() + be_u64(x as u64),
    {
        self.write_u64(x as u64);
    }

    /// Writes an unsigned 128-bit integer to the stream, big-endian.
    pub fn write_u128(&mut self, x: u128)
        ensures
            final(self).bytes() == old(self).bytes() + be_u128(x),
    {
        self.write_u64((x >> 64) as u64);
        self.write_u64(x as u64);
        proof {
            assert_seqs_equal!(self.buffer@ == old(self).bytes() + be_u128(x));
        }
    }

    /// Writes a boolean to the stream, as a single 0x00 or 0x01 byte.
    pub fn write_bool(&mut self, x: bool)
        ensures
            final(self).bytes() == old(self).bytes() + seq![if x { 1u8 } else { 0u8 }],
    {
        if x {
            self.write_u8(1);
        } else {
            self.write_u8(0);
        }
    }

    /// Writes a series of bytes to the stream, with no length prefix.
    pub fn write_slice(&mut self, slice: &[u8])
        ensures
            final(self).bytes() == old(self).bytes() + slice@,
    {
        self.buffer.extend_from_slice(slice);
    }

    /// Writes a VarInt to the stream. Returns the number of bytes
    /// written, which is between one and five.
    pub fn write_var_int(&mut self, x: i32) -> (n: usize)
        ensures
            final(self).bytes() == old(self).bytes() + var_int_bytes(x as u32),
            n == var_int_bytes(x as u32).len(),
            1 <= n <= 5,
    {
        proof {
            lemma_var_int_bytes_len(x as u32);
        }
        let ghost start = self.buffer@;
        let mut v: u32 = x as u32;
        let mut n: usize = 0;
        loop
            invariant_except_break
                self.buffer@ + var_int_bytes(v) == start + var_int_bytes(x as u32),
                n + var_int_bytes(v).len() == var_int_bytes(x as u32).len(),
                n <= 4,
            ensures
                self.buffer@ == start + var_int_bytes(x as u32),
                n == var_int_bytes(x as u32).len(),
            decreases v,
        {
            proof {
                lemma_var_int_bytes_len(v);
                lemma_var_int_bytes_len(x as u32);
            }
            if v < 0x80 {
                self.buffer.push(v as u8);
                n = n + 1;
                proof {
                    assert(var_int_bytes(v) == seq![v as u8]);
                    assert_seqs_equal!(self.buffer@ == start + var_int_bytes(x as u32));
                }
                break;
            } else {
                let b: u8 = ((v % 0x80) + 0x80) as u8;
                let ghost prev = self.buffer@;
                let ghost v0 = v;
                self.buffer.push(b);
                v = v / 0x80;
                n = n + 1;
                proof {
                    assert(v0 / 0x80 < v0) by (nonlinear_arith)
                        requires
                            v0 >= 0x80,
                    ;
                    assert(var_int_bytes(v0) == seq![b] + var_int_bytes(v0 / 0x80));
                    assert_seqs_equal!(
                        self.buffer@ + var_int_bytes(v) == prev + var_int_bytes(v0)
                    );
                }
            }
        }
        n
    }
}

} // verus!

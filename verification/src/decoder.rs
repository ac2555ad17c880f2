//! A raw decoder for the protocol bitstream.

use vstd::prelude::*;
use vstd::seq_lib::*;
use vstd::slice::*;
use crate::error::DecodeError;
use crate::wire::{
    lemma_parse_var_int_len, lemma_parse_var_int_none, lemma_u32_i32_cast, parse_var_int,
    u128_of_be, u16_of_be, u32_of_be, u64_of_be, var_int_needs_more, var_int_runs_long,
};

verus! {

/// Reads wire representations of protocol values from the front of a
/// borrowed byte slice.
pub struct Decoder<'a> {
    buffer: &'a [u8],
}

impl<'a> Decoder<'a> {
    /// The bytes not yet consumed.
    pub closed spec fn remaining(&self) -> Seq<u8> {
        self.buffer@
    }

    /// Creates a decoder over the buffer it will read from.
    pub fn new(buffer: &'a [u8]) -> (r: Decoder<'a>)
        ensures
            r.remaining() == buffer@,
    {
        Decoder { buffer }
    }

    /// Creates a new decoder at the same position.
    pub fn duplicate(&self) -> (r: Decoder<'a>)
        ensures
            r.remaining() == self.remaining(),
    {
        Decoder { buffer: self.buffer }
    }

    /// Gets the remaining buffer.
    pub fn buffer(&self) -> (r: &'a [u8])
        ensures
            r@ == self.remaining(),
    {
        self.buffer
    }

    /// Returns whether no data is left in the buffer.
    pub fn is_finished(&self) -> (r: bool)
        ensures
            r == (self.remaining().len() == 0),
    {
        self.buffer.len() == 0
    }

    /// Consumes `n` bytes from the buffer, returning them as a slice.
    /// Fails, consuming nothing, when fewer than `n` bytes remain.
    pub fn consume_slice(&mut self, n: usize) -> (r: Result<&'a [u8], DecodeError>)
        ensures
            match r {
                Ok(s) => {
                    &&& n <= old(self).remaining().len()
                    &&& s@ == old(self).remaining().take(n as int)
                    &&& final(self).remaining() == old(self).remaining().skip(n as int)
                },
                Err(e) => {
                    &&& n > old(self).remaining().len()
                    &&& e == DecodeError::EndOfStream(n)
                    &&& final(self).remaining() == old(self).remaining()
                },
            },
    {
        if n <= self.buffer.len() {
            let data = slice_subrange(self.buffer, 0, n);
            self.buffer = slice_subrange(self.buffer, n, self.buffer.len());
            Ok(data)
        } else {
            Err(DecodeError::EndOfStream(n))
        }
    }

    /// Consumes `N` bytes from the buffer into an array. Fails,
    /// consuming nothing, when fewer than `N` bytes remain.
    pub fn consume<const N: usize>(&mut self) -> (r: Result<[u8; N], DecodeError>)
        ensures
            match r {
                Ok(a) => {
                    &&& N <= old(self).remaining().len()
                    &&& a@ == old(self).remaining().take(N as int)
                    &&& final(self).remaining() == old(self).remaining().skip(N as int)
                },
                Err(e) => {
                    &&& N > old(self).remaining().len()
                    &&& e == DecodeError::EndOfStream(N)
                    &&& final(self).remaining() == old(self).remaining()
                },
            },
    {
        let s = self.consume_slice(N)?;
        let mut out: [u8; N] = vstd::array::array_fill_for_copy_types(0u8);
        let out_slice = vstd::array::ref_mut_array_unsizing_coercion(&mut out);
        let mut i: usize = 0;
        while i < N
            invariant
                i <= N,
                out_slice@.len() == N,
                s@.len() == N,
                forall|j: int| 0 <= j < i ==> out_slice@[j] == s@[j],
            decreases N - i,
        {
            out_slice.set(i, *slice_index_get(s, i));
            i = i + 1;
        }
        proof {
            assert_seqs_equal!(out_slice@ == s@);
        }
        Ok(out)
    }

    /// Reads an unsigned byte from the stream.
    pub fn read_u8(&mut self) -> (r: Result<u8, DecodeError>)
        ensures
            match r {
                Ok(x) => {
                    &&& old(self).remaining().len() >= 1
                    &&& x == old(self).remaining()[0]
                    &&& final(self).remaining() == old(self).remaining().skip(1)
                },
                Err(e) => {
                    &&& old(self).remaining().len() == 0
                    &&& e == DecodeError::EndOfStream(1)
                    &&& final(self).remaining() == old(self).remaining()
                },
            },
    {
        let s = self.consume_slice(1)?;
        Ok(*slice_index_get(s, 0))
    }

    /// Reads a signed byte from the stream.
    pub fn read_i8(&mut self) -> (r: Result<i8, DecodeError>)
        ensures
            match r {
                Ok(x) => {
                    &&& old(self).remaining().len() >= 1
                    &&& x == old(self).remaining()[0] as i8
                    &&& final(self).remaining() == old(self).remaining().skip(1)
                },
                Err(e) => {
                    &&& old(self).remaining().len() == 0
                    &&& e == DecodeError::EndOfStream(1)
                    &&& final(self).remaining() == old(self).remaining()
                },
            },
    {
        let b = self.read_u8()?;
        Ok(b as i8)
    }

    /// Reads an unsigned short from the stream, big-endian.
    pub fn read_u16(&mut self) -> (r: Result<u16, DecodeError>)
        ensures
            match r {
                Ok(x) => {
                    &&& old(self).remaining().len() >= 2
                    &&& x == u16_of_be(old(self).remaining().take(2))
                    &&& final(self).remaining() == old(self).remaining().skip(2)
                },
                Err(e) => {
                    &&& old(self).remaining().len() < 2
                    &&& e == DecodeError::EndOfStream(2)
                    &&& final(self).remaining() == old(self).remaining()
                },
            },
    {
        let s = self.consume_slice(2)?;
        let b0 = *slice_index_get(s, 0);
        let b1 = *slice_index_get(s, 1);
        Ok(((b0 as u16) << 8) | (b1 as u16))
    }

    /// Reads a signed short from the stream, big-endian.
    pub fn read_i16(&mut self) -> (r: Result<i16, DecodeError>)
        ensures
            match r {
                Ok(x) => {
                    &&& old(self).remaining().len() >= 2
                    &&& x == u16_of_be(old(self).remaining().take(2)) as i16
                    &&& final(self).remaining() == old(self).remaining().skip(2)
                },
                Err(e) => {
                    &&& old(self).remaining().len() < 2
                    &&& e == DecodeError::EndOfStream(2)
                    &&& final(self).remaining() == old(self).remaining()
                },
            },
    {
        let x = self.read_u16()?;
        Ok(x as i16)
    }

    /// Reads an unsigned int from the stream, big-endian.
    pub fn read_u32(&mut self) -> (r: Result<u32, DecodeError>)
        ensures
            match r {
                Ok(x) => {
                    &&& old(self).remaining().len() >= 4
                    &&& x == u32_of_be(old(self).remaining().take(4))
                    &&& final(self).remaining() == old(self).remaining().skip(4)
                },
                Err(e) => {
                    &&& old(self).remaining().len() < 4
                    &&& e == DecodeError::EndOfStream(4)
                    &&& final(self).remaining() == old(self).remaining()
                },
            },
    {
        let s = self.consume_slice(4)?;
        let b0 = *slice_index_get(s, 0);
        let b1 = *slice_index_get(s, 1);
        let b2 = *slice_index_get(s, 2);
        let b3 = *slice_index_get(s, 3);
        Ok(((b0 as u32) << 24) | ((b1 as u32) << 16) | ((b2 as u32) << 8) | (b3 as u32))
    }

    /// Reads a signed int from the stream, big-endian.
    pub fn read_i32(&mut self) -> (r: Result<i32, DecodeError>)
        ensures
            match r {
                Ok(x) => {
                    &&& old(self).remaining().len() >= 4
                    &&& x == u32_of_be(old(self).remaining().take(4)) as i32
                    &&& final(self).remaining() == old(self).remaining().skip(4)
                },
                Err(e) => {
                    &&& old(self).remaining().len() < 4
                    &&& e == DecodeError::EndOfStream(4)
                    &&& final(self).remaining() == old(self).remaining()
                },
            },
    {
        let x = self.read_u32()?;
        Ok(x as i32)
    }

    /// Reads an unsigned long from the stream, big-endian.
    pub fn read_u64(&mut self) -> (r: Result<u64, DecodeError>)
        ensures
            match r {
                Ok(x) => {
                    &&& old(self).remaining().len() >= 8
                    &&& x == u64_of_be(old(self).remaining().take(8))
                    &&& final(self).remaining() == old(self).remaining().skip(8)
                },
                Err(e) => {
                    &&& old(self).remaining().len() < 8
                    &&& e == DecodeError::EndOfStream(8)
                    &&& final(self).remaining() == old(self).remaining()
                },
            },
    {
        let s = self.consume_slice(8)?;
        let b0 = *slice_index_get(s, 0);
        let b1 = *slice_index_get(s, 1);
        let b2 = *slice_index_get(s, 2);
        let b3 = *slice_index_get(s, 3);
        let b4 = *slice_index_get(s, 4);
        let b5 = *slice_index_get(s, 5);
        let b6 = *slice_index_get(s, 6);
        let b7 = *slice_index_get(s, 7);
        Ok(
            ((b0 as u64) << 56) | ((b1 as u64) << 48) | ((b2 as u64) << 40) | ((b3 as u64) << 32)
                | ((b4 as u64) << 24) | ((b5 as u64) << 16) | ((b6 as u64) << 8) | (b7 as u64),
        )
    }

    /// Reads a signed long from the stream, big-endian.
    pub fn read_i64(&mut self) -> (r: Result<i64, DecodeError>)
        ensures
            match r {
                Ok(x) => {
                    &&& old(self).remaining().len() >= 8
                    &&& x == u64_of_be(old(self).remaining().take(8)) as i64
                    &&& final(self).remaining() == old(self).remaining().skip(8)
                },
                Err(e) => {
                    &&& old(self).remaining().len() < 8
                    &&& e == DecodeError::EndOfStream(8)
                    &&& final(self).remaining() == old(self).remaining()
                },
            },
    {
        let x = self.read_u64()?;
        Ok(x as i64)
    }

    /// Reads an unsigned 128-bit integer from the stream, big-endian.
    pub fn read_u128(&mut self) -> (r: Result<u128, DecodeError>)
        ensures
            match r {
                Ok(x) => {
                    &&& old(self).remaining().len() >= 16
                    &&& x == u128_of_be(old(self).remaining().take(16))
                    &&& final(self).remaining() == old(self).remaining().skip(16)
                },
                Err(e) => {
                    &&& old(self).remaining().len() < 16
                    &&& final(self).remaining() == old(self).remaining()
                    &&& e is EndOfStream
                },
            },
    {
        let ghost start = self.remaining();
        if self.buffer.len() < 16 {
            return Err(DecodeError::EndOfStream(16));
        }
        let hi = self.read_u64()?;
        let lo = self.read_u64()?;
        proof {
            assert_seqs_equal!(start.take(16).take(8) == start.take(8));
            assert_seqs_equal!(start.take(16).skip(8) == start.skip(8).take(8));
            assert_seqs_equal!(self.remaining() == start.skip(16));
        }
        Ok(((hi as u128) << 64) | (lo as u128))
    }

    /// Reads a boolean from the stream: strictly 0x00 or 0x01.
    pub fn read_bool(&mut self) -> (r: Result<bool, DecodeError>)
        ensures
            match r {
                Ok(x) => {
                    &&& old(self).remaining().len() >= 1
                    &&& old(self).remaining()[0] == if x { 1u8 } else { 0u8 }
                    &&& final(self).remaining() == old(self).remaining().skip(1)
                },
                Err(e) => match e {
                    DecodeError::EndOfStream(n) => {
                        &&& old(self).remaining().len() == 0
                        &&& n == 1
                        &&& final(self).remaining() == old(self).remaining()
                    },
                    DecodeError::InvalidBool(b) => {
                        &&& old(self).remaining().len() >= 1
                        &&& b == old(self).remaining()[0]
                        &&& b >= 2
                        &&& final(self).remaining() == old(self).remaining().skip(1)
                    },
                    _ => false,
                },
            },
    {
        let x = self.read_u8()?;
        if x == 0 {
            Ok(false)
        } else if x == 1 {
            Ok(true)
        } else {
            Err(DecodeError::InvalidBool(x))
        }
    }

    /// Consumes and returns everything left in the buffer.
    pub fn read_rest(&mut self) -> (r: Vec<u8>)
        ensures
            r@ == old(self).remaining(),
            final(self).remaining().len() == 0,
    {
        let data = vstd::slice::slice_to_vec(self.buffer);
        self.buffer = slice_subrange(self.buffer, self.buffer.len(), self.buffer.len());
        data
    }

    /// Reads a VarInt from the stream.
    pub fn read_var_int(&mut self) -> (r: Result<i32, DecodeError>)
        ensures
            match r {
                Ok(x) => {
                    let p = parse_var_int(old(self).remaining(), 4);
                    &&& p is Some
                    &&& (p->0).0 == x as u32
                    &&& x == (p->0).0 as i32
                    &&& final(self).remaining() == old(self).remaining().skip((p->0).1)
                },
                Err(e) => {
                    &&& parse_var_int(old(self).remaining(), 4) is None
                    &&& match e {
                        DecodeError::VarIntTooLong => var_int_runs_long(old(self).remaining()),
                        DecodeError::EndOfStream(_) => var_int_needs_more(old(self).remaining()),
                        _ => false,
                    }
                },
            },
    {
        match self.read_var_int_with_size() {
            Ok((x, _)) => Ok(x),
            Err(e) => Err(e),
        }
    }

    /// Reads a VarInt from the stream, additionally returning the
    /// number of bytes read.
    pub fn read_var_int_with_size(&mut self) -> (r: Result<(i32, usize), DecodeError>)
        ensures
            match r {
                Ok((x, n)) => {
                    &&& parse_var_int(old(self).remaining(), 4) == Some((x as u32, n as int))
                    &&& x == (x as u32) as i32
                    &&& 1 <= n <= 5
                    &&& final(self).remaining() == old(self).remaining().skip(n as int)
                },
                Err(e) => {
                    &&& parse_var_int(old(self).remaining(), 4) is None
                    &&& match e {
                        DecodeError::VarIntTooLong => var_int_runs_long(old(self).remaining()),
                        DecodeError::EndOfStream(_) => var_int_needs_more(old(self).remaining()),
                        _ => false,
                    }
                },
            },
    {
        match self.read_var_int_limited(4) {
            Ok((v, n)) => {
                proof {
                    lemma_u32_i32_cast(v);
                }
                Ok((v as i32, n))
            },
            Err(e) => {
                proof {
                    lemma_parse_var_int_none(old(self).remaining(), 4);
                }
                Err(e)
            },
        }
    }

    /// Reads a VarInt that may follow at most `k` further continuation
    /// bytes, mirroring the specification parser one byte at a time.
    fn read_var_int_limited(&mut self, k: u32) -> (r: Result<(u32, usize), DecodeError>)
        requires
            k <= 4,
        ensures
            match r {
                Ok((x, n)) => {
                    &&& parse_var_int(old(self).remaining(), k as nat) == Some((x, n as int))
                    &&& 1 <= n <= k + 1
                    &&& final(self).remaining() == old(self).remaining().skip(n as int)
                },
                Err(e) => match e {
                    DecodeError::VarIntTooLong => {
                        &&& old(self).remaining().len() >= k + 1
                    &&& forall|i: int| 0 <= i <= k ==> old(self).remaining()[i] >= 0x80
                    },
                    DecodeError::EndOfStream(_) => {
                        &&& old(self).remaining().len() <= k
                        &&& forall|i: int|
                            0 <= i < old(self).remaining().len() ==> old(self).remaining()[i]
                                >= 0x80
                    },
                    _ => false,
                },
            },
        decreases k,
    {
        let b = self.read_u8()?;
        if b < 0x80 {
            Ok((b as u32, 1))
        } else if k == 0 {
            Err(DecodeError::VarIntTooLong)
        } else {
            match self.read_var_int_limited(k - 1) {
                Ok((v, n)) => {
                    let low: u32 = (b - 0x80) as u32;
                    let wide: u64 = (v as u64) * 0x80 + (low as u64);
                    let x: u32 = #[verifier::truncate] (wide as u32);
                    proof {
                        let s = old(self).remaining();
                        lemma_parse_var_int_len(s.skip(1), (k - 1) as nat);
                        assert(x == (((v as int) * 0x80 + low) as u32));
                        assert_seqs_equal!(
                            s.skip(1).skip(n as int) == s.skip(n as int + 1)
                        );
                    }
                    Ok((x, n + 1))
                },
                Err(e) => {
                    proof {
                        let s = old(self).remaining();
                        let t = s.skip(1);
                        assert(forall|i: int| 1 <= i < s.len() ==> s[i] == t[i - 1]);
                    }
                    Err(e)
                },
            }
        }
    }
}

} // verus!

//! Length-prefixed protocol strings.
//!
//! A protocol string is a VarInt byte length followed by that many
//! bytes of UTF-8. The length may not exceed `i16::MAX`. The string is
//! held here as its UTF-8 bytes, validated on construction and on
//! decode.

use vstd::prelude::*;
use vstd::seq_lib::*;
use crate::decoder::Decoder;
use crate::encoder::Encoder;
use crate::error::DecodeError;
use crate::wire::{
    lemma_parse_var_int_of_encoding, lemma_parse_var_int_len, lemma_var_int_bytes_len,
    parse_var_int, var_int_bytes,
};

verus! {

/// Longest allowed protocol string, in bytes.
pub const MAX_STRING_LENGTH: usize = 32767;

/// Whether a byte sequence is valid UTF-8.
pub uninterp spec fn utf8_ok(s: Seq<u8>) -> bool;

/// Relies on `core::str::from_utf8` for UTF-8 validation; whether the
/// bytes are valid depends on the bytes alone.
#[verifier::external_body]
fn check_utf8(bytes: &[u8]) -> (r: bool)
    ensures
        r == utf8_ok(bytes@),
{
    core::str::from_utf8(bytes).is_ok()
}

/// A validated protocol string: UTF-8 bytes, at most
/// [`MAX_STRING_LENGTH`] of them.
#[derive(Debug)]
pub struct McString {
    bytes: Vec<u8>,
}

impl View for McString {
    type V = Seq<u8>;

    /// The bytes of the string.
    closed spec fn view(&self) -> Seq<u8> {
        self.bytes@
    }
}

impl McString {
    /// Valid strings are UTF-8 and fit the length bound.
    pub open spec fn wf(&self) -> bool {
        self@.len() <= MAX_STRING_LENGTH && utf8_ok(self@)
    }

    /// Every string this module hands out is valid.
    #[verifier::type_invariant]
    pub open spec fn type_inv(self) -> bool {
        self.wf()
    }

    /// Wraps UTF-8 bytes as a protocol string; refuses bytes that are
    /// too long or not valid UTF-8.
    pub fn new(bytes: Vec<u8>) -> (r: Option<McString>)
        ensures
            match r {
                Some(s) => s@ == bytes@ && s.wf(),
                None => bytes@.len() > MAX_STRING_LENGTH || !utf8_ok(bytes@),
            },
    {
        if bytes.len() > MAX_STRING_LENGTH {
            return None;
        }
        if !check_utf8(bytes.as_slice()) {
            return None;
        }
        Some(McString { bytes })
    }

    /// The string's UTF-8 bytes.
    pub fn as_bytes(&self) -> (r: &Vec<u8>)
        ensures
            r@ == self@,
    {
        &self.bytes
    }

    /// The string's length in bytes.
    pub fn byte_len(&self) -> (r: usize)
        ensures
            r == self@.len(),
    {
        self.bytes.len()
    }
}

impl PartialEq for McString {
    fn eq(&self, other: &McString) -> (r: bool) {
        let r = self.bytes == other.bytes;
        proof {
            if r {
                assert_seqs_equal!(self.bytes@ == other.bytes@);
            }
        }
        r
    }
}

impl vstd::std_specs::cmp::PartialEqSpecImpl for McString {
    open spec fn obeys_eq_spec() -> bool {
        true
    }

    open spec fn eq_spec(&self, other: &McString) -> bool {
        self@ == other@
    }
}

/// The wire form of a protocol string with bytes `b`: a VarInt length
/// prefix, then the bytes themselves.
pub open spec fn string_wire(b: Seq<u8>) -> Seq<u8> {
    var_int_bytes(b.len() as u32) + b
}

impl Encoder {
    /// Writes a VarInt-length-prefixed string to the stream.
    pub fn write_string(&mut self, s: &McString)
        ensures
            final(self).bytes() == old(self).bytes() + string_wire(s@),
    {
        proof {
            use_type_invariant(s);
        }
        self.write_var_int(s.byte_len() as i32);
        self.write_slice(s.as_bytes().as_slice());
        proof {
            assert(s@.len() as u32 == (s@.len() as i32) as u32);
            assert_seqs_equal!(self.bytes() == old(self).bytes() + string_wire(s@));
        }
    }
}

/// Parses a length-prefixed string field: a VarInt byte count, then
/// that many bytes of UTF-8. Oversized counts, counts past the end of
/// the input, and bytes that are not UTF-8 all fail.
pub open spec fn parse_string_field(s: Seq<u8>) -> Option<(Seq<u8>, int)> {
    match parse_var_int(s, 4) {
        None => None,
        Some((l, n)) => if l > MAX_STRING_LENGTH {
            None
        } else if s.skip(n).len() < l {
            None
        } else if !utf8_ok(s.skip(n).take(l as int)) {
            None
        } else {
            Some((s.skip(n).take(l as int), n + l))
        },
    }
}

impl<'a> Decoder<'a> {
    /// Reads a VarInt-length-prefixed UTF-8 string from the stream.
    pub fn read_string(&mut self) -> (r: Result<McString, DecodeError>)
        ensures
            match r {
                Ok(s) => {
                    let p = parse_string_field(old(self).remaining());
                    &&& s.wf()
                    &&& p is Some
                    &&& (p->0).0 == s@
                    &&& final(self).remaining() == old(self).remaining().skip((p->0).1)
                },
                Err(e) => {
                    let q = parse_var_int(old(self).remaining(), 4);
                    &&& parse_string_field(old(self).remaining()) is None
                    &&& match e {
                        DecodeError::VarIntTooLong => crate::wire::var_int_runs_long(
                            old(self).remaining(),
                        ),
                        DecodeError::IntConversion => q is Some && (q->0).0 > 0x7fffffff,
                        DecodeError::StringTooLong => q is Some && MAX_STRING_LENGTH < (q->0).0
                            <= 0x7fffffff,
                        DecodeError::EndOfStream(_) => crate::wire::var_int_needs_more(
                            old(self).remaining(),
                        ) || (q is Some && (q->0).0 <= MAX_STRING_LENGTH && old(
                            self,
                        ).remaining().skip((q->0).1).len() < (q->0).0),
                        DecodeError::Utf8 => q is Some && (q->0).0 <= MAX_STRING_LENGTH && old(
                            self,
                        ).remaining().skip((q->0).1).len() >= (q->0).0 && !utf8_ok(
                            old(self).remaining().skip((q->0).1).take((q->0).0 as int),
                        ),
                        _ => false,
                    }
                },
            },
    {
        let length = self.read_var_int()?;
        if length < 0 {
            proof {
                let l = length;
                assert(l < 0 ==> (l as u32) > 0x7fffffffu32) by (bit_vector);
            }
            return Err(DecodeError::IntConversion);
        }
        let length = length as usize;
        if length > MAX_STRING_LENGTH {
            return Err(DecodeError::StringTooLong);
        }
        let bytes = self.consume_slice(length)?;
        if !check_utf8(bytes) {
            return Err(DecodeError::Utf8);
        }
        let vec = vstd::slice::slice_to_vec(bytes);
        proof {
            let sfull = old(self).remaining();
            let p = parse_var_int(sfull, 4);
            lemma_parse_var_int_len(sfull, 4);
            let n = (p->0).1;
            assert_seqs_equal!(
                sfull.skip(n).skip(length as int) == sfull.skip(n + length as int)
            );
        }
        Ok(McString { bytes: vec })
    }
}

/// Encoding then decoding recovers the string: the string wire format
/// round-trips on every valid string.
pub proof fn lemma_string_field(b: Seq<u8>, rest: Seq<u8>)
    requires
        b.len() <= MAX_STRING_LENGTH,
        utf8_ok(b),
    ensures
        parse_string_field(string_wire(b) + rest) == Some(
            (b, string_wire(b).len() as int),
        ),
{
    let prefix = var_int_bytes(b.len() as u32);
    lemma_var_int_bytes_len(b.len() as u32);
    assert_seqs_equal!(string_wire(b) + rest == prefix + (b + rest));
    lemma_parse_var_int_of_encoding(b.len() as u32, b + rest, 4);
    assert_seqs_equal!(
        (string_wire(b) + rest).skip(prefix.len() as int).take(b.len() as int) == b
    );
}

} // verus!

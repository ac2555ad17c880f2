//! Error values shared by the framing primitives and the codecs.

use vstd::prelude::*;

verus! {

/// An error while decoding wire data.
#[derive(Clone, Copy, Debug, PartialEq, Eq, Structural)]
pub enum DecodeError {
    /// The buffer ended before the value did; holds how many more bytes
    /// were needed.
    EndOfStream(usize),
    /// A boolean byte that is neither 0 nor 1.
    InvalidBool(u8),
    /// A VarInt continued past its five-byte limit.
    VarIntTooLong,
    /// A string length prefix above the allowed maximum.
    StringTooLong,
    /// String bytes that are not valid UTF-8.
    Utf8,
    /// An integer field whose wire value does not fit its typed range.
    IntConversion,
    /// A packet discriminant that names no variant; holds the discriminant.
    UnknownDiscriminant(i64),
}

/// An error while framing or deframing whole packets.
#[derive(Clone, Copy, Debug, PartialEq, Eq, Structural)]
pub enum CodecError {
    /// A packet failed to decode.
    Decode(DecodeError),
    /// A declared frame or payload length above the one-mebibyte bound;
    /// holds the declared length.
    TooLarge(usize),
    /// A frame length that is negative.
    NegativeLength(i32),
    /// A flag byte with bits outside the defined set.
    InvalidFlags(u8),
    /// Compressed contents that the decompressor rejected.
    BadCompressedData,
    /// A payload too large to frame.
    Unframeable,
}

} // verus!

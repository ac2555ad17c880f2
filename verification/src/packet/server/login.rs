//! Server-to-client packets of the Login state.

use vstd::prelude::*;
use vstd::seq_lib::*;
use crate::decoder::Decoder;
use crate::encoder::Encoder;
use crate::error::DecodeError;
use crate::wire::{lemma_concat_assoc, lemma_concat_skip, lemma_parse_var_int_of_encoding,
    lemma_var_int_bytes_len, parse_var_int, var_int_bytes};
use crate::fields::{lemma_varint_field, parse_varint_field, varint_wire};

verus! {

/// `Disconnect` packet; its payload is carried through opaquely.
#[derive(Debug)]
pub struct Disconnect {
    pub ignored_data: Vec<u8>,
}

impl Disconnect {
    /// The payload bytes this packet writes.
    pub open spec fn payload_spec(&self) -> Seq<u8> {
        self.ignored_data@
    }

    /// Whether this packet is what a reader makes of `s`.
    pub open spec fn payload_matches(&self, s: Seq<u8>) -> bool {
        self.ignored_data@ == s
    }

    /// Writes the payload fields in wire order.
    pub fn encode(&self, enc: &mut Encoder)
        ensures
            final(enc).bytes() == old(enc).bytes() + self.payload_spec(),
    {
        enc.write_slice(self.ignored_data.as_slice());
    }

    /// Reads the payload: the rest of the frame.
    pub fn decode(dec: &mut Decoder<'_>) -> (r: Disconnect)
        ensures
            r.payload_matches(old(dec).remaining()),
        {
        Disconnect { ignored_data: dec.read_rest() }
    }
}

/// `EncryptionRequest` packet; its payload is carried through opaquely.
#[derive(Debug)]
pub struct EncryptionRequest {
    pub ignored_data: Vec<u8>,
}

impl EncryptionRequest {
    /// The payload bytes this packet writes.
    pub open spec fn payload_spec(&self) -> Seq<u8> {
        self.ignored_data@
    }

    /// Whether this packet is what a reader makes of `s`.
    pub open spec fn payload_matches(&self, s: Seq<u8>) -> bool {
        self.ignored_data@ == s
    }

    /// Writes the payload fields in wire order.
    pub fn encode(&self, enc: &mut Encoder)
        ensures
            final(enc).bytes() == old(enc).bytes() + self.payload_spec(),
    {
        enc.write_slice(self.ignored_data.as_slice());
    }

    /// Reads the payload: the rest of the frame.
    pub fn decode(dec: &mut Decoder<'_>) -> (r: EncryptionRequest)
        ensures
            r.payload_matches(old(dec).remaining()),
        {
        EncryptionRequest { ignored_data: dec.read_rest() }
    }
}

/// `LoginSuccess` packet; its payload is carried through opaquely.
#[derive(Debug)]
pub struct LoginSuccess {
    pub ignored_data: Vec<u8>,
}

impl LoginSuccess {
    /// The payload bytes this packet writes.
    pub open spec fn payload_spec(&self) -> Seq<u8> {
        self.ignored_data@
    }

    /// Whether this packet is what a reader makes of `s`.
    pub open spec fn payload_matches(&self, s: Seq<u8>) -> bool {
        self.ignored_data@ == s
    }

    /// Writes the payload fields in wire order.
    pub fn encode(&self, enc: &mut Encoder)
        ensures
            final(enc).bytes() == old(enc).bytes() + self.payload_spec(),
    {
        enc.write_slice(self.ignored_data.as_slice());
    }

    /// Reads the payload: the rest of the frame.
    pub fn decode(dec: &mut Decoder<'_>) -> (r: LoginSuccess)
        ensures
            r.payload_matches(old(dec).remaining()),
        {
        LoginSuccess { ignored_data: dec.read_rest() }
    }
}

/// `SetCompression` packet, with the fields the multiplexer inspects.
#[derive(Debug)]
pub struct SetCompression {
    pub threshold: i32,
}

impl SetCompression {
    /// The payload bytes this packet writes.
    pub open spec fn payload_spec(&self) -> Seq<u8> {
        varint_wire(self.threshold)
    }

    /// Whether this packet is what a reader makes of `s`.
    pub open spec fn payload_matches(&self, s: Seq<u8>) -> bool {
        match parse_varint_field(s) {
            None => false,
            Some((f_threshold, n0)) => {
                let s1 = s.skip(n0);
            self.threshold == f_threshold
            },
        }
    }

    /// Whether a reader can make any packet of this kind of `s`.
    pub open spec fn payload_parses(s: Seq<u8>) -> bool {
        match parse_varint_field(s) {
            None => false,
            Some((f_threshold, n0)) => {
                let s1 = s.skip(n0);
            true
            },
        }
    }

    /// Writes the payload fields in wire order.
    pub fn encode(&self, enc: &mut Encoder)
        ensures
            final(enc).bytes() == old(enc).bytes() + self.payload_spec(),
    {
        enc.write_var_int(self.threshold);
    }

    /// Reads the payload fields in wire order.
    pub fn decode(dec: &mut Decoder<'_>) -> (r: Result<SetCompression, DecodeError>)
        ensures
            match r {
                Ok(x) => {
                    &&& x.payload_matches(old(dec).remaining())
                },
                Err(_) => !Self::payload_parses(old(dec).remaining()),
            },
    {
        let threshold = dec.read_var_int()?;
        Ok(SetCompression { threshold })
    }
}

/// The payload of `SetCompression` parses back to the packet itself.
pub proof fn lemma_set_compression_round_trip(x: SetCompression)
    ensures
        x.payload_matches(x.payload_spec()),
{
    let s = x.payload_spec();
    let e0 = varint_wire(x.threshold);
    assert_seqs_equal!(e0 + Seq::<u8>::empty() == e0);
    lemma_varint_field(x.threshold, Seq::<u8>::empty());
}

/// `LoginPluginRequest` packet; its payload is carried through opaquely.
#[derive(Debug)]
pub struct LoginPluginRequest {
    pub ignored_data: Vec<u8>,
}

impl LoginPluginRequest {
    /// The payload bytes this packet writes.
    pub open spec fn payload_spec(&self) -> Seq<u8> {
        self.ignored_data@
    }

    /// Whether this packet is what a reader makes of `s`.
    pub open spec fn payload_matches(&self, s: Seq<u8>) -> bool {
        self.ignored_data@ == s
    }

    /// Writes the payload fields in wire order.
    pub fn encode(&self, enc: &mut Encoder)
        ensures
            final(enc).bytes() == old(enc).bytes() + self.payload_spec(),
    {
        enc.write_slice(self.ignored_data.as_slice());
    }

    /// Reads the payload: the rest of the frame.
    pub fn decode(dec: &mut Decoder<'_>) -> (r: LoginPluginRequest)
        ensures
            r.payload_matches(old(dec).remaining()),
        {
        LoginPluginRequest { ignored_data: dec.read_rest() }
    }
}

/// Server-to-client packets of the Login state.
#[derive(Debug)]
pub enum Packet {
    Disconnect(Disconnect),
    EncryptionRequest(EncryptionRequest),
    LoginSuccess(LoginSuccess),
    SetCompression(SetCompression),
    LoginPluginRequest(LoginPluginRequest),
}

impl Packet {
    /// The VarInt discriminant of this packet on the wire.
    pub open spec fn wire_id(&self) -> u32 {
        match self {
            Packet::Disconnect(_) => 0x0,
            Packet::EncryptionRequest(_) => 0x1,
            Packet::LoginSuccess(_) => 0x2,
            Packet::SetCompression(_) => 0x3,
            Packet::LoginPluginRequest(_) => 0x4,
        }
    }

    /// The payload bytes after the discriminant.
    pub open spec fn payload_spec(&self) -> Seq<u8> {
        match self {
            Packet::Disconnect(x) => x.payload_spec(),
            Packet::EncryptionRequest(x) => x.payload_spec(),
            Packet::LoginSuccess(x) => x.payload_spec(),
            Packet::SetCompression(x) => x.payload_spec(),
            Packet::LoginPluginRequest(x) => x.payload_spec(),
        }
    }

    /// The whole wire form: discriminant, then payload.
    pub open spec fn wire_spec(&self) -> Seq<u8> {
        var_int_bytes(self.wire_id()) + self.payload_spec()
    }

    /// Whether this packet is what a reader makes of `s`.
    pub open spec fn matches_wire(&self, s: Seq<u8>) -> bool {
        match parse_var_int(s, 4) {
            None => false,
            Some((id, n)) => id == self.wire_id() && match self {
                Packet::Disconnect(x) => x.payload_matches(s.skip(n)),
                Packet::EncryptionRequest(x) => x.payload_matches(s.skip(n)),
                Packet::LoginSuccess(x) => x.payload_matches(s.skip(n)),
                Packet::SetCompression(x) => x.payload_matches(s.skip(n)),
                Packet::LoginPluginRequest(x) => x.payload_matches(s.skip(n)),
            },
        }
    }

    /// Whether a reader can make any packet of `s`.
    pub open spec fn wire_parses(s: Seq<u8>) -> bool {
        match parse_var_int(s, 4) {
            None => false,
            Some((id, n)) => {
                let body = s.skip(n);
                if id == 0x0 {
                    true
                } else if id == 0x1 {
                    true
                } else if id == 0x2 {
                    true
                } else if id == 0x3 {
                    SetCompression::payload_parses(body)
                } else if id == 0x4 {
                    true
                } else {
                    false
                }
            },
        }
    }

    /// Writes the discriminant, then the payload.
    pub fn encode(&self, enc: &mut Encoder)
        ensures
            final(enc).bytes() == old(enc).bytes() + self.wire_spec(),
    {
        match self {
            Packet::Disconnect(x) => {
                enc.write_var_int(0x0);
                x.encode(enc);
                proof {
                    assert_seqs_equal!(
                        enc.bytes() == old(enc).bytes() + self.wire_spec()
                    );
                }
            },
            Packet::EncryptionRequest(x) => {
                enc.write_var_int(0x1);
                x.encode(enc);
                proof {
                    assert_seqs_equal!(
                        enc.bytes() == old(enc).bytes() + self.wire_spec()
                    );
                }
            },
            Packet::LoginSuccess(x) => {
                enc.write_var_int(0x2);
                x.encode(enc);
                proof {
                    assert_seqs_equal!(
                        enc.bytes() == old(enc).bytes() + self.wire_spec()
                    );
                }
            },
            Packet::SetCompression(x) => {
                enc.write_var_int(0x3);
                x.encode(enc);
                proof {
                    assert_seqs_equal!(
                        enc.bytes() == old(enc).bytes() + self.wire_spec()
                    );
                }
            },
            Packet::LoginPluginRequest(x) => {
                enc.write_var_int(0x4);
                x.encode(enc);
                proof {
                    assert_seqs_equal!(
                        enc.bytes() == old(enc).bytes() + self.wire_spec()
                    );
                }
            },
        }
    }

    /// Reads the discriminant and dispatches to the variant.
    pub fn decode(dec: &mut Decoder<'_>) -> (r: Result<Packet, DecodeError>)
        ensures
            match r {
                Ok(p) => {
                    &&& p.matches_wire(old(dec).remaining())
                },
                Err(_) => !Packet::wire_parses(old(dec).remaining()),
            },
    {
        let id = dec.read_var_int()?;
        let uid = id as u32;
        match uid {
            0x0u32 => Ok(Packet::Disconnect(Disconnect::decode(dec))),
            0x1u32 => Ok(Packet::EncryptionRequest(EncryptionRequest::decode(dec))),
            0x2u32 => Ok(Packet::LoginSuccess(LoginSuccess::decode(dec))),
            0x3u32 => Ok(Packet::SetCompression(SetCompression::decode(dec)?)),
            0x4u32 => Ok(Packet::LoginPluginRequest(LoginPluginRequest::decode(dec))),
            _ => Err(DecodeError::UnknownDiscriminant(id as i64)),
        }
    }
}

/// Parsing the wire form of a packet yields that packet back.
pub proof fn lemma_wire_round_trip(p: Packet)
    ensures
        p.matches_wire(p.wire_spec()),
{
    lemma_var_int_bytes_len(p.wire_id());
    lemma_parse_var_int_of_encoding(p.wire_id(), p.payload_spec(), 4);
    assert_seqs_equal!(
        p.wire_spec().skip(var_int_bytes(p.wire_id()).len() as int)
            == p.payload_spec()
    );
    match p {
        Packet::Disconnect(_) => {},
        Packet::EncryptionRequest(_) => {},
        Packet::LoginSuccess(_) => {},
        Packet::SetCompression(x) => lemma_set_compression_round_trip(x),
        Packet::LoginPluginRequest(_) => {},
    }
}

} // verus!

//! Client-to-server packets of the Login state.

use vstd::prelude::*;
use vstd::seq_lib::*;
use crate::decoder::Decoder;
use crate::encoder::Encoder;
use crate::error::DecodeError;
use crate::wire::{lemma_concat_assoc, lemma_concat_skip, lemma_parse_var_int_of_encoding,
    lemma_var_int_bytes_len, parse_var_int, var_int_bytes};

verus! {

/// `LoginStart` packet; its payload is carried through opaquely.
#[derive(Debug)]
pub struct LoginStart {
    pub ignored_data: Vec<u8>,
}

impl LoginStart {
    /// The payload bytes this packet writes.
    pub open spec fn payload_spec(&self) -> Seq<u8> {
        self.ignored_data@
    }

    /// Whether this packet is what a reader makes of `s`.
    pub open spec fn payload_matches(&self, s: Seq<u8>) -> bool {
        self.ignored_data@ == s
    }

    /// Writes the payload fields in wire order.
    pub fn encode(&self, enc: &mut Encoder)
        ensures
            final(enc).bytes() == old(enc).bytes() + self.payload_spec(),
    {
        enc.write_slice(self.ignored_data.as_slice());
    }

    /// Reads the payload: the rest of the frame.
    pub fn decode(dec: &mut Decoder<'_>) -> (r: LoginStart)
        ensures
            r.payload_matches(old(dec).remaining()),
        {
        LoginStart { ignored_data: dec.read_rest() }
    }
}

/// `EncryptionResponse` packet; its payload is carried through opaquely.
#[derive(Debug)]
pub struct EncryptionResponse {
    pub ignored_data: Vec<u8>,
}

impl EncryptionResponse {
    /// The payload bytes this packet writes.
    pub open spec fn payload_spec(&self) -> Seq<u8> {
        self.ignored_data@
    }

    /// Whether this packet is what a reader makes of `s`.
    pub open spec fn payload_matches(&self, s: Seq<u8>) -> bool {
        self.ignored_data@ == s
    }

    /// Writes the payload fields in wire order.
    pub fn encode(&self, enc: &mut Encoder)
        ensures
            final(enc).bytes() == old(enc).bytes() + self.payload_spec(),
    {
        enc.write_slice(self.ignored_data.as_slice());
    }

    /// Reads the payload: the rest of the frame.
    pub fn decode(dec: &mut Decoder<'_>) -> (r: EncryptionResponse)
        ensures
            r.payload_matches(old(dec).remaining()),
        {
        EncryptionResponse { ignored_data: dec.read_rest() }
    }
}

/// `LoginPluginResponse` packet; its payload is carried through opaquely.
#[derive(Debug)]
pub struct LoginPluginResponse {
    pub ignored_data: Vec<u8>,
}

impl LoginPluginResponse {
    /// The payload bytes this packet writes.
    pub open spec fn payload_spec(&self) -> Seq<u8> {
        self.ignored_data@
    }

    /// Whether this packet is what a reader makes of `s`.
    pub open spec fn payload_matches(&self, s: Seq<u8>) -> bool {
        self.ignored_data@ == s
    }

    /// Writes the payload fields in wire order.
    pub fn encode(&self, enc: &mut Encoder)
        ensures
            final(enc).bytes() == old(enc).bytes() + self.payload_spec(),
    {
        enc.write_slice(self.ignored_data.as_slice());
    }

    /// Reads the payload: the rest of the frame.
    pub fn decode(dec: &mut Decoder<'_>) -> (r: LoginPluginResponse)
        ensures
            r.payload_matches(old(dec).remaining()),
        {
        LoginPluginResponse { ignored_data: dec.read_rest() }
    }
}

/// `LoginAcknowledged` packet; its payload is carried through opaquely.
#[derive(Debug)]
pub struct LoginAcknowledged {
    pub ignored_data: Vec<u8>,
}

impl LoginAcknowledged {
    /// The payload bytes this packet writes.
    pub open spec fn payload_spec(&self) -> Seq<u8> {
        self.ignored_data@
    }

    /// Whether this packet is what a reader makes of `s`.
    pub open spec fn payload_matches(&self, s: Seq<u8>) -> bool {
        self.ignored_data@ == s
    }

    /// Writes the payload fields in wire order.
    pub fn encode(&self, enc: &mut Encoder)
        ensures
            final(enc).bytes() == old(enc).bytes() + self.payload_spec(),
    {
        enc.write_slice(self.ignored_data.as_slice());
    }

    /// Reads the payload: the rest of the frame.
    pub fn decode(dec: &mut Decoder<'_>) -> (r: LoginAcknowledged)
        ensures
            r.payload_matches(old(dec).remaining()),
        {
        LoginAcknowledged { ignored_data: dec.read_rest() }
    }
}

/// Client-to-server packets of the Login state.
#[derive(Debug)]
pub enum Packet {
    LoginStart(LoginStart),
    EncryptionResponse(EncryptionResponse),
    LoginPluginResponse(LoginPluginResponse),
    LoginAcknowledged(LoginAcknowledged),
}

impl Packet {
    /// The VarInt discriminant of this packet on the wire.
    pub open spec fn wire_id(&self) -> u32 {
        match self {
            Packet::LoginStart(_) => 0x0,
            Packet::EncryptionResponse(_) => 0x1,
            Packet::LoginPluginResponse(_) => 0x2,
            Packet::LoginAcknowledged(_) => 0x3,
        }
    }

    /// The payload bytes after the discriminant.
    pub open spec fn payload_spec(&self) -> Seq<u8> {
        match self {
            Packet::LoginStart(x) => x.payload_spec(),
            Packet::EncryptionResponse(x) => x.payload_spec(),
            Packet::LoginPluginResponse(x) => x.payload_spec(),
            Packet::LoginAcknowledged(x) => x.payload_spec(),
        }
    }

    /// The whole wire form: discriminant, then payload.
    pub open spec fn wire_spec(&self) -> Seq<u8> {
        var_int_bytes(self.wire_id()) + self.payload_spec()
    }

    /// Whether this packet is what a reader makes of `s`.
    pub open spec fn matches_wire(&self, s: Seq<u8>) -> bool {
        match parse_var_int(s, 4) {
            None => false,
            Some((id, n)) => id == self.wire_id() && match self {
                Packet::LoginStart(x) => x.payload_matches(s.skip(n)),
                Packet::EncryptionResponse(x) => x.payload_matches(s.skip(n)),
                Packet::LoginPluginResponse(x) => x.payload_matches(s.skip(n)),
                Packet::LoginAcknowledged(x) => x.payload_matches(s.skip(n)),
            },
        }
    }

    /// Whether a reader can make any packet of `s`.
    pub open spec fn wire_parses(s: Seq<u8>) -> bool {
        match parse_var_int(s, 4) {
            None => false,
            Some((id, n)) => {
                let body = s.skip(n);
                if id == 0x0 {
                    true
                } else if id == 0x1 {
                    true
                } else if id == 0x2 {
                    true
                } else if id == 0x3 {
                    true
                } else {
                    false
                }
            },
        }
    }

    /// Writes the discriminant, then the payload.
    pub fn encode(&self, enc: &mut Encoder)
        ensures
            final(enc).bytes() == old(enc).bytes() + self.wire_spec(),
    {
        match self {
            Packet::LoginStart(x) => {
                enc.write_var_int(0x0);
                x.encode(enc);
                proof {
                    assert_seqs_equal!(
                        enc.bytes() == old(enc).bytes() + self.wire_spec()
                    );
                }
            },
            Packet::EncryptionResponse(x) => {
                enc.write_var_int(0x1);
                x.encode(enc);
                proof {
                    assert_seqs_equal!(
                        enc.bytes() == old(enc).bytes() + self.wire_spec()
                    );
                }
            },
            Packet::LoginPluginResponse(x) => {
                enc.write_var_int(0x2);
                x.encode(enc);
                proof {
                    assert_seqs_equal!(
                        enc.bytes() == old(enc).bytes() + self.wire_spec()
                    );
                }
            },
            Packet::LoginAcknowledged(x) => {
                enc.write_var_int(0x3);
                x.encode(enc);
                proof {
                    assert_seqs_equal!(
                        enc.bytes() == old(enc).bytes() + self.wire_spec()
                    );
                }
            },
        }
    }

    /// Reads the discriminant and dispatches to the variant.
    pub fn decode(dec: &mut Decoder<'_>) -> (r: Result<Packet, DecodeError>)
        ensures
            match r {
                Ok(p) => {
                    &&& p.matches_wire(old(dec).remaining())
                },
                Err(_) => !Packet::wire_parses(old(dec).remaining()),
            },
    {
        let id = dec.read_var_int()?;
        let uid = id as u32;
        match uid {
            0x0u32 => Ok(Packet::LoginStart(LoginStart::decode(dec))),
            0x1u32 => Ok(Packet::EncryptionResponse(EncryptionResponse::decode(dec))),
            0x2u32 => Ok(Packet::LoginPluginResponse(LoginPluginResponse::decode(dec))),
            0x3u32 => Ok(Packet::LoginAcknowledged(LoginAcknowledged::decode(dec))),
            _ => Err(DecodeError::UnknownDiscriminant(id as i64)),
        }
    }
}

/// Parsing the wire form of a packet yields that packet back.
pub proof fn lemma_wire_round_trip(p: Packet)
    ensures
        p.matches_wire(p.wire_spec()),
{
    lemma_var_int_bytes_len(p.wire_id());
    lemma_parse_var_int_of_encoding(p.wire_id(), p.payload_spec(), 4);
    assert_seqs_equal!(
        p.wire_spec().skip(var_int_bytes(p.wire_id()).len() as int)
            == p.payload_spec()
    );
    match p {
        Packet::LoginStart(_) => {},
        Packet::EncryptionResponse(_) => {},
        Packet::LoginPluginResponse(_) => {},
        Packet::LoginAcknowledged(_) => {},
    }
}

} // verus!

//! Client-to-server packets of the Status state.

use vstd::prelude::*;
use vstd::seq_lib::*;
use crate::decoder::Decoder;
use crate::encoder::Encoder;
use crate::error::DecodeError;
use crate::wire::{lemma_concat_assoc, lemma_concat_skip, lemma_parse_var_int_of_encoding,
    lemma_var_int_bytes_len, parse_var_int, var_int_bytes};

verus! {

/// `StatusRequest` packet; its payload is carried through opaquely.
#[derive(Debug)]
pub struct StatusRequest {
    pub ignored_data: Vec<u8>,
}

impl StatusRequest {
    /// The payload bytes this packet writes.
    pub open spec fn payload_spec(&self) -> Seq<u8> {
        self.ignored_data@
    }

    /// Whether this packet is what a reader makes of `s`.
    pub open spec fn payload_matches(&self, s: Seq<u8>) -> bool {
        self.ignored_data@ == s
    }

    /// Writes the payload fields in wire order.
    pub fn encode(&self, enc: &mut Encoder)
        ensures
            final(enc).bytes() == old(enc).bytes() + self.payload_spec(),
    {
        enc.write_slice(self.ignored_data.as_slice());
    }

    /// Reads the payload: the rest of the frame.
    pub fn decode(dec: &mut Decoder<'_>) -> (r: StatusRequest)
        ensures
            r.payload_matches(old(dec).remaining()),
        {
        StatusRequest { ignored_data: dec.read_rest() }
    }
}

/// `PingRequest` packet; its payload is carried through opaquely.
#[derive(Debug)]
pub struct PingRequest {
    pub ignored_data: Vec<u8>,
}

impl PingRequest {
    /// The payload bytes this packet writes.
    pub open spec fn payload_spec(&self) -> Seq<u8> {
        self.ignored_data@
    }

    /// Whether this packet is what a reader makes of `s`.
    pub open spec fn payload_matches(&self, s: Seq<u8>) -> bool {
        self.ignored_data@ == s
    }

    /// Writes the payload fields in wire order.
    pub fn encode(&self, enc: &mut Encoder)
        ensures
            final(enc).bytes() == old(enc).bytes() + self.payload_spec(),
    {
        enc.write_slice(self.ignored_data.as_slice());
    }

    /// Reads the payload: the rest of the frame.
    pub fn decode(dec: &mut Decoder<'_>) -> (r: PingRequest)
        ensures
            r.payload_matches(old(dec).remaining()),
        {
        PingRequest { ignored_data: dec.read_rest() }
    }
}

/// Client-to-server packets of the Status state.
#[derive(Debug)]
pub enum Packet {
    StatusRequest(StatusRequest),
    PingRequest(PingRequest),
}

impl Packet {
    /// The VarInt discriminant of this packet on the wire.
    pub open spec fn wire_id(&self) -> u32 {
        match self {
            Packet::StatusRequest(_) => 0x0,
            Packet::PingRequest(_) => 0x1,
        }
    }

    /// The payload bytes after the discriminant.
    pub open spec fn payload_spec(&self) -> Seq<u8> {
        match self {
            Packet::StatusRequest(x) => x.payload_spec(),
            Packet::PingRequest(x) => x.payload_spec(),
        }
    }

    /// The whole wire form: discriminant, then payload.
    pub open spec fn wire_spec(&self) -> Seq<u8> {
        var_int_bytes(self.wire_id()) + self.payload_spec()
    }

    /// Whether this packet is what a reader makes of `s`.
    pub open spec fn matches_wire(&self, s: Seq<u8>) -> bool {
        match parse_var_int(s, 4) {
            None => false,
            Some((id, n)) => id == self.wire_id() && match self {
                Packet::StatusRequest(x) => x.payload_matches(s.skip(n)),
                Packet::PingRequest(x) => x.payload_matches(s.skip(n)),
            },
        }
    }

    /// Whether a reader can make any packet of `s`.
    pub open spec fn wire_parses(s: Seq<u8>) -> bool {
        match parse_var_int(s, 4) {
            None => false,
            Some((id, n)) => {
                let body = s.skip(n);
                if id == 0x0 {
                    true
                } else if id == 0x1 {
                    true
                } else {
                    false
                }
            },
        }
    }

    /// Writes the discriminant, then the payload.
    pub fn encode(&self, enc: &mut Encoder)
        ensures
            final(enc).bytes() == old(enc).bytes() + self.wire_spec(),
    {
        match self {
            Packet::StatusRequest(x) => {
                enc.write_var_int(0x0);
                x.encode(enc);
                proof {
                    assert_seqs_equal!(
                        enc.bytes() == old(enc).bytes() + self.wire_spec()
                    );
                }
            },
            Packet::PingRequest(x) => {
                enc.write_var_int(0x1);
                x.encode(enc);
                proof {
                    assert_seqs_equal!(
                        enc.bytes() == old(enc).bytes() + self.wire_spec()
                    );
                }
            },
        }
    }

    /// Reads the discriminant and dispatches to the variant.
    pub fn decode(dec: &mut Decoder<'_>) -> (r: Result<Packet, DecodeError>)
        ensures
            match r {
                Ok(p) => {
                    &&& p.matches_wire(old(dec).remaining())
                },
                Err(_) => !Packet::wire_parses(old(dec).remaining()),
            },
    {
        let id = dec.read_var_int()?;
        let uid = id as u32;
        match uid {
            0x0u32 => Ok(Packet::StatusRequest(StatusRequest::decode(dec))),
            0x1u32 => Ok(Packet::PingRequest(PingRequest::decode(dec))),
            _ => Err(DecodeError::UnknownDiscriminant(id as i64)),
        }
    }
}

/// Parsing the wire form of a packet yields that packet back.
pub proof fn lemma_wire_round_trip(p: Packet)
    ensures
        p.matches_wire(p.wire_spec()),
{
    lemma_var_int_bytes_len(p.wire_id());
    lemma_parse_var_int_of_encoding(p.wire_id(), p.payload_spec(), 4);
    assert_seqs_equal!(
        p.wire_spec().skip(var_int_bytes(p.wire_id()).len() as int)
            == p.payload_spec()
    );
    match p {
        Packet::StatusRequest(_) => {},
        Packet::PingRequest(_) => {},
    }
}

} // verus!

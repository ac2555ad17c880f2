//! Client-to-server packets of the Handshake state.

use vstd::prelude::*;
use vstd::seq_lib::*;
use crate::decoder::Decoder;
use crate::encoder::Encoder;
use crate::error::DecodeError;
use crate::wire::{lemma_concat_assoc, lemma_concat_skip, lemma_parse_var_int_of_encoding,
    lemma_var_int_bytes_len, parse_var_int, var_int_bytes};
use crate::fields::{lemma_u16_field, lemma_varint_field, lemma_varuint_field, parse_u16_field, parse_varint_field, parse_varuint_field, varint_wire, varuint_wire};
use crate::wire::{be_u16, lemma_u32_i32_cast};
use crate::text::{lemma_string_field, parse_string_field, string_wire, McString};

verus! {

/// The state a Handshake asks to move to next.
#[derive(Copy, Clone, Debug, PartialEq, Eq, Hash, Structural)]
pub enum NextState {
    Status,
    Login,
}

/// The VarInt encoding of a next-state selector: 1 for Status, 2 for
/// Login.
pub open spec fn next_state_wire(ns: NextState) -> Seq<u8> {
    match ns {
        NextState::Status => varint_wire(1),
        NextState::Login => varint_wire(2),
    }
}

/// Parses a next-state selector; any value but 1 or 2 fails.
pub open spec fn parse_next_state_field(s: Seq<u8>) -> Option<(NextState, int)> {
    match parse_varint_field(s) {
        None => None,
        Some((v, n)) => if v == 1 {
            Some((NextState::Status, n))
        } else if v == 2 {
            Some((NextState::Login, n))
        } else {
            None
        },
    }
}

pub proof fn lemma_next_state_field(ns: NextState, rest: Seq<u8>)
    ensures
        parse_next_state_field(next_state_wire(ns) + rest) == Some(
            (ns, next_state_wire(ns).len() as int),
        ),
{
    match ns {
        NextState::Status => lemma_varint_field(1, rest),
        NextState::Login => lemma_varint_field(2, rest),
    }
}

/// `Handshake` packet, with the fields the multiplexer inspects.
#[derive(Debug)]
pub struct Handshake {
    pub protocol_version: u32,
    pub server_address: McString,
    pub server_port: u16,
    pub next_state: NextState,
}

impl Handshake {
    /// The payload bytes this packet writes.
    pub open spec fn payload_spec(&self) -> Seq<u8> {
        varuint_wire(self.protocol_version) + string_wire(self.server_address@) + be_u16(self.server_port) + next_state_wire(self.next_state)
    }

    /// Whether this packet is what a reader makes of `s`.
    pub open spec fn payload_matches(&self, s: Seq<u8>) -> bool {
        match parse_varuint_field(s) {
            None => false,
            Some((f_protocol_version, n0)) => {
                let s1 = s.skip(n0);
            match parse_string_field(s1) {
                None => false,
                Some((f_server_address, n1)) => {
                    let s2 = s1.skip(n1);
                match parse_u16_field(s2) {
                    None => false,
                    Some((f_server_port, n2)) => {
                        let s3 = s2.skip(n2);
                    match parse_next_state_field(s3) {
                        None => false,
                        Some((f_next_state, n3)) => {
                            let s4 = s3.skip(n3);
                        self.protocol_version == f_protocol_version && self.server_address@ == f_server_address && self.server_port == f_server_port && self.next_state == f_next_state
                        },
                    }
                    },
                }
                },
            }
            },
        }
    }

    /// Whether a reader can make any packet of this kind of `s`.
    pub open spec fn payload_parses(s: Seq<u8>) -> bool {
        match parse_varuint_field(s) {
            None => false,
            Some((f_protocol_version, n0)) => {
                let s1 = s.skip(n0);
            match parse_string_field(s1) {
                None => false,
                Some((f_server_address, n1)) => {
                    let s2 = s1.skip(n1);
                match parse_u16_field(s2) {
                    None => false,
                    Some((f_server_port, n2)) => {
                        let s3 = s2.skip(n2);
                    match parse_next_state_field(s3) {
                        None => false,
                        Some((f_next_state, n3)) => {
                            let s4 = s3.skip(n3);
                        true
                        },
                    }
                    },
                }
                },
            }
            },
        }
    }

    /// Writes the payload fields in wire order.
    pub fn encode(&self, enc: &mut Encoder)
        ensures
            final(enc).bytes() == old(enc).bytes() + self.payload_spec(),
    {
        let clamped: u32 = if self.protocol_version > 0x7fffffff {
            0x7fffffff
        } else {
            self.protocol_version
        };
        enc.write_var_int(clamped as i32);
        proof {
            lemma_u32_i32_cast(clamped);
        }
        enc.write_string(&self.server_address);
        enc.write_u16(self.server_port);
        let ns: i32 = match self.next_state {
            NextState::Status => 1,
            NextState::Login => 2,
        };
        enc.write_var_int(ns);
        proof {
            assert_seqs_equal!(enc.bytes() == old(enc).bytes() + self.payload_spec());
        }
    }

    /// Reads the payload fields in wire order.
    pub fn decode(dec: &mut Decoder<'_>) -> (r: Result<Handshake, DecodeError>)
        ensures
            match r {
                Ok(x) => {
                    &&& x.payload_matches(old(dec).remaining())
                },
                Err(_) => !Self::payload_parses(old(dec).remaining()),
            },
    {
        let raw = dec.read_var_int()?;
        if raw < 0 {
            proof {
                let l = raw;
                assert(l < 0 ==> (l as u32) > 0x7fffffffu32) by (bit_vector);
            }
            return Err(DecodeError::IntConversion);
        }
        let protocol_version = raw as u32;
        let server_address = dec.read_string()?;
        let server_port = dec.read_u16()?;
        let raw = dec.read_var_int()?;
        let next_state = if raw == 1 {
            NextState::Status
        } else if raw == 2 {
            NextState::Login
        } else {
            return Err(DecodeError::UnknownDiscriminant(raw as i64));
        };
        Ok(Handshake { protocol_version, server_address, server_port, next_state })
    }
}

/// The payload of `Handshake` parses back to the packet itself.
#[verifier::rlimit(100)]
#[verifier::spinoff_prover]
pub proof fn lemma_handshake_round_trip(x: Handshake)
    requires
        x.protocol_version <= 0x7fffffff,
        x.server_address.wf(),
    ensures
        x.payload_matches(x.payload_spec()),
{
    let s = x.payload_spec();
    let e0 = varuint_wire(x.protocol_version);
    let e1 = string_wire(x.server_address@);
    let e2 = be_u16(x.server_port);
    let e3 = next_state_wire(x.next_state);
    let p1 = e0 + e1;
    let p2 = p1 + e2;
    let p3 = p2 + e3;
    let t3 = e3;
    let t2 = e2 + t3;
    let t1 = e1 + t2;
    lemma_concat_assoc(p1, e2, t3);
    lemma_concat_assoc(e0, e1, t2);
    assert(s == e0 + t1);
    let s0 = s;
    lemma_varuint_field(x.protocol_version, t1);
    assert(parse_varuint_field(s0) == Some((x.protocol_version, e0.len() as int)));
    lemma_concat_skip(e0, t1);
    let s1 = s0.skip(e0.len() as int);
    assert(s1 == t1);
    lemma_string_field(x.server_address@, t2);
    assert(parse_string_field(s1) == Some((x.server_address@, e1.len() as int)));
    lemma_concat_skip(e1, t2);
    let s2 = s1.skip(e1.len() as int);
    assert(s2 == t2);
    lemma_u16_field(x.server_port, t3);
    assert(parse_u16_field(s2) == Some((x.server_port, e2.len() as int)));
    lemma_concat_skip(e2, t3);
    let s3 = s2.skip(e2.len() as int);
    assert(s3 == t3);
    assert_seqs_equal!(e3 + Seq::<u8>::empty() == e3);
    lemma_next_state_field(x.next_state, Seq::<u8>::empty());
    assert(parse_next_state_field(s3) == Some((x.next_state, e3.len() as int)));
}

/// Client-to-server packets of the Handshake state.
#[derive(Debug)]
pub enum Packet {
    Handshake(Handshake),
}

impl Packet {
    /// The VarInt discriminant of this packet on the wire.
    pub open spec fn wire_id(&self) -> u32 {
        match self {
            Packet::Handshake(_) => 0x0,
        }
    }

    /// The payload bytes after the discriminant.
    pub open spec fn payload_spec(&self) -> Seq<u8> {
        match self {
            Packet::Handshake(x) => x.payload_spec(),
        }
    }

    /// The whole wire form: discriminant, then payload.
    pub open spec fn wire_spec(&self) -> Seq<u8> {
        var_int_bytes(self.wire_id()) + self.payload_spec()
    }

    /// Whether this packet is what a reader makes of `s`.
    pub open spec fn matches_wire(&self, s: Seq<u8>) -> bool {
        match parse_var_int(s, 4) {
            None => false,
            Some((id, n)) => id == self.wire_id() && match self {
                Packet::Handshake(x) => x.payload_matches(s.skip(n)),
            },
        }
    }

    /// Whether a reader can make any packet of `s`.
    pub open spec fn wire_parses(s: Seq<u8>) -> bool {
        match parse_var_int(s, 4) {
            None => false,
            Some((id, n)) => {
                let body = s.skip(n);
                if id == 0x0 {
                    Handshake::payload_parses(body)
                } else {
                    false
                }
            },
        }
    }

    /// Values whose encoding is total and parses back to the
    /// value itself.
    pub open spec fn wf(&self) -> bool {
        match self {
            Packet::Handshake(x) => x.protocol_version <= 0x7fffffff && x.server_address.wf(),
        }
    }

    /// Writes the discriminant, then the payload.
    pub fn encode(&self, enc: &mut Encoder)
        ensures
            final(enc).bytes() == old(enc).bytes() + self.wire_spec(),
    {
        match self {
            Packet::Handshake(x) => {
                enc.write_var_int(0x0);
                x.encode(enc);
                proof {
                    assert_seqs_equal!(
                        enc.bytes() == old(enc).bytes() + self.wire_spec()
                    );
                }
            },
        }
    }

    /// Reads the discriminant and dispatches to the variant.
    pub fn decode(dec: &mut Decoder<'_>) -> (r: Result<Packet, DecodeError>)
        ensures
            match r {
                Ok(p) => {
                    &&& p.matches_wire(old(dec).remaining())
                    &&& p.wf()
                },
                Err(_) => !Packet::wire_parses(old(dec).remaining()),
            },
    {
        let id = dec.read_var_int()?;
        let uid = id as u32;
        match uid {
            0x0u32 => Ok(Packet::Handshake(Handshake::decode(dec)?)),
            _ => Err(DecodeError::UnknownDiscriminant(id as i64)),
        }
    }
}

/// Parsing the wire form of a packet yields that packet back.
pub proof fn lemma_wire_round_trip(p: Packet)
    requires
        p.wf(),
    ensures
        p.matches_wire(p.wire_spec()),
{
    lemma_var_int_bytes_len(p.wire_id());
    lemma_parse_var_int_of_encoding(p.wire_id(), p.payload_spec(), 4);
    assert_seqs_equal!(
        p.wire_spec().skip(var_int_bytes(p.wire_id()).len() as int)
            == p.payload_spec()
    );
    match p {
        Packet::Handshake(x) => lemma_handshake_round_trip(x),
    }
}

} // verus!

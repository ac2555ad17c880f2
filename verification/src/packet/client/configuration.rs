//! Client-to-server packets of the Configuration state.

use vstd::prelude::*;
use vstd::seq_lib::*;
use crate::decoder::Decoder;
use crate::encoder::Encoder;
use crate::error::DecodeError;
use crate::wire::{lemma_concat_assoc, lemma_concat_skip, lemma_parse_var_int_of_encoding,
    lemma_var_int_bytes_len, parse_var_int, var_int_bytes};

verus! {

/// `ClientInformation` packet; its payload is carried through opaquely.
#[derive(Debug)]
pub struct ClientInformation {
    pub ignored_data: Vec<u8>,
}

impl ClientInformation {
    /// The payload bytes this packet writes.
    pub open spec fn payload_spec(&self) -> Seq<u8> {
        self.ignored_data@
    }

    /// Whether this packet is what a reader makes of `s`.
    pub open spec fn payload_matches(&self, s: Seq<u8>) -> bool {
        self.ignored_data@ == s
    }

    /// Writes the payload fields in wire order.
    pub fn encode(&self, enc: &mut Encoder)
        ensures
            final(enc).bytes() == old(enc).bytes() + self.payload_spec(),
    {
        enc.write_slice(self.ignored_data.as_slice());
    }

    /// Reads the payload: the rest of the frame.
    pub fn decode(dec: &mut Decoder<'_>) -> (r: ClientInformation)
        ensures
            r.payload_matches(old(dec).remaining()),
        {
        ClientInformation { ignored_data: dec.read_rest() }
    }
}

/// `PluginMessage` packet; its payload is carried through opaquely.
#[derive(Debug)]
pub struct PluginMessage {
    pub ignored_data: Vec<u8>,
}

impl PluginMessage {
    /// The payload bytes this packet writes.
    pub open spec fn payload_spec(&self) -> Seq<u8> {
        self.ignored_data@
    }

    /// Whether this packet is what a reader makes of `s`.
    pub open spec fn payload_matches(&self, s: Seq<u8>) -> bool {
        self.ignored_data@ == s
    }

    /// Writes the payload fields in wire order.
    pub fn encode(&self, enc: &mut Encoder)
        ensures
            final(enc).bytes() == old(enc).bytes() + self.payload_spec(),
    {
        enc.write_slice(self.ignored_data.as_slice());
    }

    /// Reads the payload: the rest of the frame.
    pub fn decode(dec: &mut Decoder<'_>) -> (r: PluginMessage)
        ensures
            r.payload_matches(old(dec).remaining()),
        {
        PluginMessage { ignored_data: dec.read_rest() }
    }
}

/// `FinishConfiguration` packet; its payload is carried through opaquely.
#[derive(Debug)]
pub struct FinishConfiguration {
    pub ignored_data: Vec<u8>,
}

impl FinishConfiguration {
    /// The payload bytes this packet writes.
    pub open spec fn payload_spec(&self) -> Seq<u8> {
        self.ignored_data@
    }

    /// Whether this packet is what a reader makes of `s`.
    pub open spec fn payload_matches(&self, s: Seq<u8>) -> bool {
        self.ignored_data@ == s
    }

    /// Writes the payload fields in wire order.
    pub fn encode(&self, enc: &mut Encoder)
        ensures
            final(enc).bytes() == old(enc).bytes() + self.payload_spec(),
    {
        enc.write_slice(self.ignored_data.as_slice());
    }

    /// Reads the payload: the rest of the frame.
    pub fn decode(dec: &mut Decoder<'_>) -> (r: FinishConfiguration)
        ensures
            r.payload_matches(old(dec).remaining()),
        {
        FinishConfiguration { ignored_data: dec.read_rest() }
    }
}

/// `KeepAlive` packet; its payload is carried through opaquely.
#[derive(Debug)]
pub struct KeepAlive {
    pub ignored_data: Vec<u8>,
}

impl KeepAlive {
    /// The payload bytes this packet writes.
    pub open spec fn payload_spec(&self) -> Seq<u8> {
        self.ignored_data@
    }

    /// Whether this packet is what a reader makes of `s`.
    pub open spec fn payload_matches(&self, s: Seq<u8>) -> bool {
        self.ignored_data@ == s
    }

    /// Writes the payload fields in wire order.
    pub fn encode(&self, enc: &mut Encoder)
        ensures
            final(enc).bytes() == old(enc).bytes() + self.payload_spec(),
    {
        enc.write_slice(self.ignored_data.as_slice());
    }

    /// Reads the payload: the rest of the frame.
    pub fn decode(dec: &mut Decoder<'_>) -> (r: KeepAlive)
        ensures
            r.payload_matches(old(dec).remaining()),
        {
        KeepAlive { ignored_data: dec.read_rest() }
    }
}

/// `Pong` packet; its payload is carried through opaquely.
#[derive(Debug)]
pub struct Pong {
    pub ignored_data: Vec<u8>,
}

impl Pong {
    /// The payload bytes this packet writes.
    pub open spec fn payload_spec(&self) -> Seq<u8> {
        self.ignored_data@
    }

    /// Whether this packet is what a reader makes of `s`.
    pub open spec fn payload_matches(&self, s: Seq<u8>) -> bool {
        self.ignored_data@ == s
    }

    /// Writes the payload fields in wire order.
    pub fn encode(&self, enc: &mut Encoder)
        ensures
            final(enc).bytes() == old(enc).bytes() + self.payload_spec(),
    {
        enc.write_slice(self.ignored_data.as_slice());
    }

    /// Reads the payload: the rest of the frame.
    pub fn decode(dec: &mut Decoder<'_>) -> (r: Pong)
        ensures
            r.payload_matches(old(dec).remaining()),
        {
        Pong { ignored_data: dec.read_rest() }
    }
}

/// `ResourcePackResponse` packet; its payload is carried through opaquely.
#[derive(Debug)]
pub struct ResourcePackResponse {
    pub ignored_data: Vec<u8>,
}

impl ResourcePackResponse {
    /// The payload bytes this packet writes.
    pub open spec fn payload_spec(&self) -> Seq<u8> {
        self.ignored_data@
    }

    /// Whether this packet is what a reader makes of `s`.
    pub open spec fn payload_matches(&self, s: Seq<u8>) -> bool {
        self.ignored_data@ == s
    }

    /// Writes the payload fields in wire order.
    pub fn encode(&self, enc: &mut Encoder)
        ensures
            final(enc).bytes() == old(enc).bytes() + self.payload_spec(),
    {
        enc.write_slice(self.ignored_data.as_slice());
    }

    /// Reads the payload: the rest of the frame.
    pub fn decode(dec: &mut Decoder<'_>) -> (r: ResourcePackResponse)
        ensures
            r.payload_matches(old(dec).remaining()),
        {
        ResourcePackResponse { ignored_data: dec.read_rest() }
    }
}

/// Client-to-server packets of the Configuration state.
#[derive(Debug)]
pub enum Packet {
    ClientInformation(ClientInformation),
    PluginMessage(PluginMessage),
    FinishConfiguration(FinishConfiguration),
    KeepAlive(KeepAlive),
    Pong(Pong),
    ResourcePackResponse(ResourcePackResponse),
}

impl Packet {
    /// The VarInt discriminant of this packet on the wire.
    pub open spec fn wire_id(&self) -> u32 {
        match self {
            Packet::ClientInformation(_) => 0x0,
            Packet::PluginMessage(_) => 0x1,
            Packet::FinishConfiguration(_) => 0x2,
            Packet::KeepAlive(_) => 0x3,
            Packet::Pong(_) => 0x4,
            Packet::ResourcePackResponse(_) => 0x5,
        }
    }

    /// The payload bytes after the discriminant.
    pub open spec fn payload_spec(&self) -> Seq<u8> {
        match self {
            Packet::ClientInformation(x) => x.payload_spec(),
            Packet::PluginMessage(x) => x.payload_spec(),
            Packet::FinishConfiguration(x) => x.payload_spec(),
            Packet::KeepAlive(x) => x.payload_spec(),
            Packet::Pong(x) => x.payload_spec(),
            Packet::ResourcePackResponse(x) => x.payload_spec(),
        }
    }

    /// The whole wire form: discriminant, then payload.
    pub open spec fn wire_spec(&self) -> Seq<u8> {
        var_int_bytes(self.wire_id()) + self.payload_spec()
    }

    /// Whether this packet is what a reader makes of `s`.
    pub open spec fn matches_wire(&self, s: Seq<u8>) -> bool {
        match parse_var_int(s, 4) {
            None => false,
            Some((id, n)) => id == self.wire_id() && match self {
                Packet::ClientInformation(x) => x.payload_matches(s.skip(n)),
                Packet::PluginMessage(x) => x.payload_matches(s.skip(n)),
                Packet::FinishConfiguration(x) => x.payload_matches(s.skip(n)),
                Packet::KeepAlive(x) => x.payload_matches(s.skip(n)),
                Packet::Pong(x) => x.payload_matches(s.skip(n)),
                Packet::ResourcePackResponse(x) => x.payload_matches(s.skip(n)),
            },
        }
    }

    /// Whether a reader can make any packet of `s`.
    pub open spec fn wire_parses(s: Seq<u8>) -> bool {
        match parse_var_int(s, 4) {
            None => false,
            Some((id, n)) => {
                let body = s.skip(n);
                if id == 0x0 {
                    true
                } else if id == 0x1 {
                    true
                } else if id == 0x2 {
                    true
                } else if id == 0x3 {
                    true
                } else if id == 0x4 {
                    true
                } else if id == 0x5 {
                    true
                } else {
                    false
                }
            },
        }
    }

    /// Writes the discriminant, then the payload.
    pub fn encode(&self, enc: &mut Encoder)
        ensures
            final(enc).bytes() == old(enc).bytes() + self.wire_spec(),
    {
        match self {
            Packet::ClientInformation(x) => {
                enc.write_var_int(0x0);
                x.encode(enc);
                proof {
                    assert_seqs_equal!(
                        enc.bytes() == old(enc).bytes() + self.wire_spec()
                    );
                }
            },
            Packet::PluginMessage(x) => {
                enc.write_var_int(0x1);
                x.encode(enc);
                proof {
                    assert_seqs_equal!(
                        enc.bytes() == old(enc).bytes() + self.wire_spec()
                    );
                }
            },
            Packet::FinishConfiguration(x) => {
                enc.write_var_int(0x2);
                x.encode(enc);
                proof {
                    assert_seqs_equal!(
                        enc.bytes() == old(enc).bytes() + self.wire_spec()
                    );
                }
            },
            Packet::KeepAlive(x) => {
                enc.write_var_int(0x3);
                x.encode(enc);
                proof {
                    assert_seqs_equal!(
                        enc.bytes() == old(enc).bytes() + self.wire_spec()
                    );
                }
            },
            Packet::Pong(x) => {
                enc.write_var_int(0x4);
                x.encode(enc);
                proof {
                    assert_seqs_equal!(
                        enc.bytes() == old(enc).bytes() + self.wire_spec()
                    );
                }
            },
            Packet::ResourcePackResponse(x) => {
                enc.write_var_int(0x5);
                x.encode(enc);
                proof {
                    assert_seqs_equal!(
                        enc.bytes() == old(enc).bytes() + self.wire_spec()
                    );
                }
            },
        }
    }

    /// Reads the discriminant and dispatches to the variant.
    pub fn decode(dec: &mut Decoder<'_>) -> (r: Result<Packet, DecodeError>)
        ensures
            match r {
                Ok(p) => {
                    &&& p.matches_wire(old(dec).remaining())
                },
                Err(_) => !Packet::wire_parses(old(dec).remaining()),
            },
    {
        let id = dec.read_var_int()?;
        let uid = id as u32;
        match uid {
            0x0u32 => Ok(Packet::ClientInformation(ClientInformation::decode(dec))),
            0x1u32 => Ok(Packet::PluginMessage(PluginMessage::decode(dec))),
            0x2u32 => Ok(Packet::FinishConfiguration(FinishConfiguration::decode(dec))),
            0x3u32 => Ok(Packet::KeepAlive(KeepAlive::decode(dec))),
            0x4u32 => Ok(Packet::Pong(Pong::decode(dec))),
            0x5u32 => Ok(Packet::ResourcePackResponse(ResourcePackResponse::decode(dec))),
            _ => Err(DecodeError::UnknownDiscriminant(id as i64)),
        }
    }
}

/// Parsing the wire form of a packet yields that packet back.
pub proof fn lemma_wire_round_trip(p: Packet)
    ensures
        p.matches_wire(p.wire_spec()),
{
    lemma_var_int_bytes_len(p.wire_id());
    lemma_parse_var_int_of_encoding(p.wire_id(), p.payload_spec(), 4);
    assert_seqs_equal!(
        p.wire_spec().skip(var_int_bytes(p.wire_id()).len() as int)
            == p.payload_spec()
    );
    match p {
        Packet::ClientInformation(_) => {},
        Packet::PluginMessage(_) => {},
        Packet::FinishConfiguration(_) => {},
        Packet::KeepAlive(_) => {},
        Packet::Pong(_) => {},
        Packet::ResourcePackResponse(_) => {},
    }
}

} // verus!

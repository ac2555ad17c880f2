//! Server-to-client packets of the Play state.

use vstd::prelude::*;
use vstd::seq_lib::*;
use crate::decoder::Decoder;
use crate::encoder::Encoder;
use crate::error::DecodeError;
use crate::wire::{lemma_concat_assoc, lemma_concat_skip, lemma_parse_var_int_of_encoding,
    lemma_var_int_bytes_len, parse_var_int, var_int_bytes};
use crate::fields::{blockpos_wire, bool_wire, entity_ids_wire, entity_list_wire, lemma_blockpos_field, lemma_bool_field, lemma_entity_ids_wire_concat, lemma_entity_list_field, lemma_i16_field, lemma_i32_field, lemma_i64_field, lemma_u128_field, lemma_u16_field, lemma_u64_field, lemma_u8_field, lemma_varint_field, parse_blockpos_field, parse_bool_field, parse_entity_ids, parse_entity_list_field, parse_i16_field, parse_i32_field, parse_i64_field, parse_u128_field, parse_u16_field, parse_u64_field, parse_u8_field, parse_varint_field, varint_wire};
use crate::wire::{be_u128, be_u16, be_u32, be_u64};
use crate::position::{block_position_in_range, pack_block_position, unpack_block_position,
    unpack_section_chunk, BlockPosition, ChunkPosition};

verus! {

/// `BundleDelimiter` packet; its payload is carried through opaquely.
#[derive(Debug)]
pub struct BundleDelimiter {
    pub ignored_data: Vec<u8>,
}

impl BundleDelimiter {
    /// The payload bytes this packet writes.
    pub open spec fn payload_spec(&self) -> Seq<u8> {
        self.ignored_data@
    }

    /// Whether this packet is what a reader makes of `s`.
    pub open spec fn payload_matches(&self, s: Seq<u8>) -> bool {
        self.ignored_data@ == s
    }

    /// Writes the payload fields in wire order.
    pub fn encode(&self, enc: &mut Encoder)
        ensures
            final(enc).bytes() == old(enc).bytes() + self.payload_spec(),
    {
        enc.write_slice(self.ignored_data.as_slice());
    }

    /// Reads the payload: the rest of the frame.
    pub fn decode(dec: &mut Decoder<'_>) -> (r: BundleDelimiter)
        ensures
            r.payload_matches(old(dec).remaining()),
        {
        BundleDelimiter { ignored_data: dec.read_rest() }
    }
}

/// `SpawnEntity` packet, with the fields the multiplexer inspects.
#[derive(Debug)]
pub struct SpawnEntity {
    pub entity_id: i32,
    pub uuid: u128,
    pub kind: i32,
    pub x_bits: u64,
    pub y_bits: u64,
    pub z_bits: u64,
    pub pitch: u8,
    pub yaw: u8,
    pub head_yaw: u8,
    pub data: i32,
    pub velocity_x: i16,
    pub velocity_y: i16,
    pub velocity_z: i16,
}

impl SpawnEntity {
    /// The payload bytes this packet writes.
    pub open spec fn payload_spec(&self) -> Seq<u8> {
        varint_wire(self.entity_id) + be_u128(self.uuid) + varint_wire(self.kind) + be_u64(self.x_bits) + be_u64(self.y_bits) + be_u64(self.z_bits) + seq![self.pitch] + seq![self.yaw] + seq![self.head_yaw] + varint_wire(self.data) + be_u16(self.velocity_x as u16) + be_u16(self.velocity_y as u16) + be_u16(self.velocity_z as u16)
    }

    /// Whether this packet is what a reader makes of `s`.
    pub open spec fn payload_matches(&self, s: Seq<u8>) -> bool {
        match parse_varint_field(s) {
            None => false,
            Some((f_entity_id, n0)) => {
                let s1 = s.skip(n0);
            match parse_u128_field(s1) {
                None => false,
                Some((f_uuid, n1)) => {
                    let s2 = s1.skip(n1);
                match parse_varint_field(s2) {
                    None => false,
                    Some((f_kind, n2)) => {
                        let s3 = s2.skip(n2);
                    match parse_u64_field(s3) {
                        None => false,
                        Some((f_x_bits, n3)) => {
                            let s4 = s3.skip(n3);
                        match parse_u64_field(s4) {
                            None => false,
                            Some((f_y_bits, n4)) => {
                                let s5 = s4.skip(n4);
                            match parse_u64_field(s5) {
                                None => false,
                                Some((f_z_bits, n5)) => {
                                    let s6 = s5.skip(n5);
                                self.entity_id == f_entity_id && self.uuid == f_uuid && self.kind == f_kind && self.x_bits == f_x_bits && self.y_bits == f_y_bits && self.z_bits == f_z_bits && self.tail_matches(s6)
                                },
                            }
                            },
                        }
                        },
                    }
                    },
                }
                },
            }
            },
        }
    }

    /// Whether the later fields are what a reader makes of the
    /// rest of the payload.
    pub open spec fn tail_matches(&self, s: Seq<u8>) -> bool {
        match parse_u8_field(s) {
            None => false,
            Some((f_pitch, n0)) => {
                let s1 = s.skip(n0);
            match parse_u8_field(s1) {
                None => false,
                Some((f_yaw, n1)) => {
                    let s2 = s1.skip(n1);
                match parse_u8_field(s2) {
                    None => false,
                    Some((f_head_yaw, n2)) => {
                        let s3 = s2.skip(n2);
                    match parse_varint_field(s3) {
                        None => false,
                        Some((f_data, n3)) => {
                            let s4 = s3.skip(n3);
                        match parse_i16_field(s4) {
                            None => false,
                            Some((f_velocity_x, n4)) => {
                                let s5 = s4.skip(n4);
                            match parse_i16_field(s5) {
                                None => false,
                                Some((f_velocity_y, n5)) => {
                                    let s6 = s5.skip(n5);
                                match parse_i16_field(s6) {
                                    None => false,
                                    Some((f_velocity_z, n6)) => {
                                        let s7 = s6.skip(n6);
                                    self.pitch == f_pitch && self.yaw == f_yaw && self.head_yaw == f_head_yaw && self.data == f_data && self.velocity_x == f_velocity_x && self.velocity_y == f_velocity_y && self.velocity_z == f_velocity_z
                                    },
                                }
                                },
                            }
                            },
                        }
                        },
                    }
                    },
                }
                },
            }
            },
        }
    }

    /// Whether a reader can make any packet of this kind of `s`.
    pub open spec fn payload_parses(s: Seq<u8>) -> bool {
        match parse_varint_field(s) {
            None => false,
            Some((f_entity_id, n0)) => {
                let s1 = s.skip(n0);
            match parse_u128_field(s1) {
                None => false,
                Some((f_uuid, n1)) => {
                    let s2 = s1.skip(n1);
                match parse_varint_field(s2) {
                    None => false,
                    Some((f_kind, n2)) => {
                        let s3 = s2.skip(n2);
                    match parse_u64_field(s3) {
                        None => false,
                        Some((f_x_bits, n3)) => {
                            let s4 = s3.skip(n3);
                        match parse_u64_field(s4) {
                            None => false,
                            Some((f_y_bits, n4)) => {
                                let s5 = s4.skip(n4);
                            match parse_u64_field(s5) {
                                None => false,
                                Some((f_z_bits, n5)) => {
                                    let s6 = s5.skip(n5);
                                Self::tail_parses(s6)
                                },
                            }
                            },
                        }
                        },
                    }
                    },
                }
                },
            }
            },
        }
    }

    /// Whether the later fields can be read from the rest of
    /// the payload.
    pub open spec fn tail_parses(s: Seq<u8>) -> bool {
        match parse_u8_field(s) {
            None => false,
            Some((f_pitch, n0)) => {
                let s1 = s.skip(n0);
            match parse_u8_field(s1) {
                None => false,
                Some((f_yaw, n1)) => {
                    let s2 = s1.skip(n1);
                match parse_u8_field(s2) {
                    None => false,
                    Some((f_head_yaw, n2)) => {
                        let s3 = s2.skip(n2);
                    match parse_varint_field(s3) {
                        None => false,
                        Some((f_data, n3)) => {
                            let s4 = s3.skip(n3);
                        match parse_i16_field(s4) {
                            None => false,
                            Some((f_velocity_x, n4)) => {
                                let s5 = s4.skip(n4);
                            match parse_i16_field(s5) {
                                None => false,
                                Some((f_velocity_y, n5)) => {
                                    let s6 = s5.skip(n5);
                                match parse_i16_field(s6) {
                                    None => false,
                                    Some((f_velocity_z, n6)) => {
                                        let s7 = s6.skip(n6);
                                    true
                                    },
                                }
                                },
                            }
                            },
                        }
                        },
                    }
                    },
                }
                },
            }
            },
        }
    }

    /// Writes the payload fields in wire order.
    pub fn encode(&self, enc: &mut Encoder)
        ensures
            final(enc).bytes() == old(enc).bytes() + self.payload_spec(),
    {
        enc.write_var_int(self.entity_id);
        enc.write_u128(self.uuid);
        enc.write_var_int(self.kind);
        enc.write_u64(self.x_bits);
        enc.write_u64(self.y_bits);
        enc.write_u64(self.z_bits);
        enc.write_u8(self.pitch);
        enc.write_u8(self.yaw);
        enc.write_u8(self.head_yaw);
        enc.write_var_int(self.data);
        enc.write_i16(self.velocity_x);
        enc.write_i16(self.velocity_y);
        enc.write_i16(self.velocity_z);
        proof {
            assert_seqs_equal!(enc.bytes() == old(enc).bytes() + self.payload_spec());
        }
    }

    /// Reads the payload fields in wire order.
    pub fn decode(dec: &mut Decoder<'_>) -> (r: Result<SpawnEntity, DecodeError>)
        ensures
            match r {
                Ok(x) => {
                    &&& x.payload_matches(old(dec).remaining())
                },
                Err(_) => !Self::payload_parses(old(dec).remaining()),
            },
    {
        let entity_id = dec.read_var_int()?;
        let uuid = dec.read_u128()?;
        let kind = dec.read_var_int()?;
        let x_bits = dec.read_u64()?;
        let y_bits = dec.read_u64()?;
        let z_bits = dec.read_u64()?;
        let pitch = dec.read_u8()?;
        let yaw = dec.read_u8()?;
        let head_yaw = dec.read_u8()?;
        let data = dec.read_var_int()?;
        let velocity_x = dec.read_i16()?;
        let velocity_y = dec.read_i16()?;
        let velocity_z = dec.read_i16()?;
        Ok(SpawnEntity { entity_id, uuid, kind, x_bits, y_bits, z_bits, pitch, yaw, head_yaw, data, velocity_x, velocity_y, velocity_z })
    }
}

/// The later fields of `SpawnEntity` parse back from their encoding.
#[verifier::rlimit(100)]
#[verifier::spinoff_prover]
pub proof fn lemma_spawn_entity_tail_round_trip(x: SpawnEntity)
    ensures
        x.tail_matches(seq![x.pitch] + (seq![x.yaw] + (seq![x.head_yaw] + (varint_wire(x.data) + (be_u16(x.velocity_x as u16) + (be_u16(x.velocity_y as u16) + (be_u16(x.velocity_z as u16)))))))),
{
    let e0 = seq![x.pitch];
    let e1 = seq![x.yaw];
    let e2 = seq![x.head_yaw];
    let e3 = varint_wire(x.data);
    let e4 = be_u16(x.velocity_x as u16);
    let e5 = be_u16(x.velocity_y as u16);
    let e6 = be_u16(x.velocity_z as u16);
    let s = e0 + (e1 + (e2 + (e3 + (e4 + (e5 + (e6))))));
    let t6 = e6;
    let t5 = e5 + t6;
    let t4 = e4 + t5;
    let t3 = e3 + t4;
    let t2 = e2 + t3;
    let t1 = e1 + t2;
    let s0 = s;
    lemma_u8_field(x.pitch, t1);
    assert(parse_u8_field(s0) == Some((x.pitch, e0.len() as int)));
    lemma_concat_skip(e0, t1);
    let s1 = s0.skip(e0.len() as int);
    assert(s1 == t1);
    lemma_u8_field(x.yaw, t2);
    assert(parse_u8_field(s1) == Some((x.yaw, e1.len() as int)));
    lemma_concat_skip(e1, t2);
    let s2 = s1.skip(e1.len() as int);
    assert(s2 == t2);
    lemma_u8_field(x.head_yaw, t3);
    assert(parse_u8_field(s2) == Some((x.head_yaw, e2.len() as int)));
    lemma_concat_skip(e2, t3);
    let s3 = s2.skip(e2.len() as int);
    assert(s3 == t3);
    lemma_varint_field(x.data, t4);
    assert(parse_varint_field(s3) == Some((x.data, e3.len() as int)));
    lemma_concat_skip(e3, t4);
    let s4 = s3.skip(e3.len() as int);
    assert(s4 == t4);
    lemma_i16_field(x.velocity_x, t5);
    assert(parse_i16_field(s4) == Some((x.velocity_x, e4.len() as int)));
    lemma_concat_skip(e4, t5);
    let s5 = s4.skip(e4.len() as int);
    assert(s5 == t5);
    lemma_i16_field(x.velocity_y, t6);
    assert(parse_i16_field(s5) == Some((x.velocity_y, e5.len() as int)));
    lemma_concat_skip(e5, t6);
    let s6 = s5.skip(e5.len() as int);
    assert(s6 == t6);
    assert_seqs_equal!(e6 + Seq::<u8>::empty() == e6);
    lemma_i16_field(x.velocity_z, Seq::<u8>::empty());
    assert(parse_i16_field(s6) == Some((x.velocity_z, e6.len() as int)));
}

/// The payload of `SpawnEntity` parses back to the packet itself.
#[verifier::rlimit(100)]
#[verifier::spinoff_prover]
pub proof fn lemma_spawn_entity_round_trip(x: SpawnEntity)
    ensures
        x.payload_matches(x.payload_spec()),
{
    let s = x.payload_spec();
    let e0 = varint_wire(x.entity_id);
    let e1 = be_u128(x.uuid);
    let e2 = varint_wire(x.kind);
    let e3 = be_u64(x.x_bits);
    let e4 = be_u64(x.y_bits);
    let e5 = be_u64(x.z_bits);
    let e6 = seq![x.pitch];
    let e7 = seq![x.yaw];
    let e8 = seq![x.head_yaw];
    let e9 = varint_wire(x.data);
    let e10 = be_u16(x.velocity_x as u16);
    let e11 = be_u16(x.velocity_y as u16);
    let e12 = be_u16(x.velocity_z as u16);
    let p1 = e0 + e1;
    let p2 = p1 + e2;
    let p3 = p2 + e3;
    let p4 = p3 + e4;
    let p5 = p4 + e5;
    let p6 = p5 + e6;
    let p7 = p6 + e7;
    let p8 = p7 + e8;
    let p9 = p8 + e9;
    let p10 = p9 + e10;
    let p11 = p10 + e11;
    let p12 = p11 + e12;
    let t12 = e12;
    let t11 = e11 + t12;
    let t10 = e10 + t11;
    let t9 = e9 + t10;
    let t8 = e8 + t9;
    let t7 = e7 + t8;
    let t6 = e6 + t7;
    let t5 = e5 + t6;
    let t4 = e4 + t5;
    let t3 = e3 + t4;
    let t2 = e2 + t3;
    let t1 = e1 + t2;
    lemma_concat_assoc(p10, e11, t12);
    lemma_concat_assoc(p9, e10, t11);
    lemma_concat_assoc(p8, e9, t10);
    lemma_concat_assoc(p7, e8, t9);
    lemma_concat_assoc(p6, e7, t8);
    lemma_concat_assoc(p5, e6, t7);
    lemma_concat_assoc(p4, e5, t6);
    lemma_concat_assoc(p3, e4, t5);
    lemma_concat_assoc(p2, e3, t4);
    lemma_concat_assoc(p1, e2, t3);
    lemma_concat_assoc(e0, e1, t2);
    assert(s == e0 + t1);
    let s0 = s;
    lemma_varint_field(x.entity_id, t1);
    assert(parse_varint_field(s0) == Some((x.entity_id, e0.len() as int)));
    lemma_concat_skip(e0, t1);
    let s1 = s0.skip(e0.len() as int);
    assert(s1 == t1);
    lemma_u128_field(x.uuid, t2);
    assert(parse_u128_field(s1) == Some((x.uuid, e1.len() as int)));
    lemma_concat_skip(e1, t2);
    let s2 = s1.skip(e1.len() as int);
    assert(s2 == t2);
    lemma_varint_field(x.kind, t3);
    assert(parse_varint_field(s2) == Some((x.kind, e2.len() as int)));
    lemma_concat_skip(e2, t3);
    let s3 = s2.skip(e2.len() as int);
    assert(s3 == t3);
    lemma_u64_field(x.x_bits, t4);
    assert(parse_u64_field(s3) == Some((x.x_bits, e3.len() as int)));
    lemma_concat_skip(e3, t4);
    let s4 = s3.skip(e3.len() as int);
    assert(s4 == t4);
    lemma_u64_field(x.y_bits, t5);
    assert(parse_u64_field(s4) == Some((x.y_bits, e4.len() as int)));
    lemma_concat_skip(e4, t5);
    let s5 = s4.skip(e4.len() as int);
    assert(s5 == t5);
    lemma_u64_field(x.z_bits, t6);
    assert(parse_u64_field(s5) == Some((x.z_bits, e5.len() as int)));
    lemma_concat_skip(e5, t6);
    let s6 = s5.skip(e5.len() as int);
    assert(s6 == t6);
    lemma_spawn_entity_tail_round_trip(x);
    assert(x.tail_matches(s6));
}

/// `SpawnExperienceOrb` packet, with the fields the multiplexer inspects.
#[derive(Debug)]
pub struct SpawnExperienceOrb {
    pub entity_id: i32,
    pub x_bits: u64,
    pub y_bits: u64,
    pub z_bits: u64,
    pub amount: u16,
}

impl SpawnExperienceOrb {
    /// The payload bytes this packet writes.
    pub open spec fn payload_spec(&self) -> Seq<u8> {
        varint_wire(self.entity_id) + be_u64(self.x_bits) + be_u64(self.y_bits) + be_u64(self.z_bits) + be_u16(self.amount)
    }

    /// Whether this packet is what a reader makes of `s`.
    pub open spec fn payload_matches(&self, s: Seq<u8>) -> bool {
        match parse_varint_field(s) {
            None => false,
            Some((f_entity_id, n0)) => {
                let s1 = s.skip(n0);
            match parse_u64_field(s1) {
                None => false,
                Some((f_x_bits, n1)) => {
                    let s2 = s1.skip(n1);
                match parse_u64_field(s2) {
                    None => false,
                    Some((f_y_bits, n2)) => {
                        let s3 = s2.skip(n2);
                    match parse_u64_field(s3) {
                        None => false,
                        Some((f_z_bits, n3)) => {
                            let s4 = s3.skip(n3);
                        match parse_u16_field(s4) {
                            None => false,
                            Some((f_amount, n4)) => {
                                let s5 = s4.skip(n4);
                            self.entity_id == f_entity_id && self.x_bits == f_x_bits && self.y_bits == f_y_bits && self.z_bits == f_z_bits && self.amount == f_amount
                            },
                        }
                        },
                    }
                    },
                }
                },
            }
            },
        }
    }

    /// Whether a reader can make any packet of this kind of `s`.
    pub open spec fn payload_parses(s: Seq<u8>) -> bool {
        match parse_varint_field(s) {
            None => false,
            Some((f_entity_id, n0)) => {
                let s1 = s.skip(n0);
            match parse_u64_field(s1) {
                None => false,
                Some((f_x_bits, n1)) => {
                    let s2 = s1.skip(n1);
                match parse_u64_field(s2) {
                    None => false,
                    Some((f_y_bits, n2)) => {
                        let s3 = s2.skip(n2);
                    match parse_u64_field(s3) {
                        None => false,
                        Some((f_z_bits, n3)) => {
                            let s4 = s3.skip(n3);
                        match parse_u16_field(s4) {
                            None => false,
                            Some((f_amount, n4)) => {
                                let s5 = s4.skip(n4);
                            true
                            },
                        }
                        },
                    }
                    },
                }
                },
            }
            },
        }
    }

    /// Writes the payload fields in wire order.
    pub fn encode(&self, enc: &mut Encoder)
        ensures
            final(enc).bytes() == old(enc).bytes() + self.payload_spec(),
    {
        enc.write_var_int(self.entity_id);
        enc.write_u64(self.x_bits);
        enc.write_u64(self.y_bits);
        enc.write_u64(self.z_bits);
        enc.write_u16(self.amount);
        proof {
            assert_seqs_equal!(enc.bytes() == old(enc).bytes() + self.payload_spec());
        }
    }

    /// Reads the payload fields in wire order.
    pub fn decode(dec: &mut Decoder<'_>) -> (r: Result<SpawnExperienceOrb, DecodeError>)
        ensures
            match r {
                Ok(x) => {
                    &&& x.payload_matches(old(dec).remaining())
                },
                Err(_) => !Self::payload_parses(old(dec).remaining()),
            },
    {
        let entity_id = dec.read_var_int()?;
        let x_bits = dec.read_u64()?;
        let y_bits = dec.read_u64()?;
        let z_bits = dec.read_u64()?;
        let amount = dec.read_u16()?;
        Ok(SpawnExperienceOrb { entity_id, x_bits, y_bits, z_bits, amount })
    }
}

/// The payload of `SpawnExperienceOrb` parses back to the packet itself.
#[verifier::rlimit(100)]
#[verifier::spinoff_prover]
pub proof fn lemma_spawn_experience_orb_round_trip(x: SpawnExperienceOrb)
    ensures
        x.payload_matches(x.payload_spec()),
{
    let s = x.payload_spec();
    let e0 = varint_wire(x.entity_id);
    let e1 = be_u64(x.x_bits);
    let e2 = be_u64(x.y_bits);
    let e3 = be_u64(x.z_bits);
    let e4 = be_u16(x.amount);
    let p1 = e0 + e1;
    let p2 = p1 + e2;
    let p3 = p2 + e3;
    let p4 = p3 + e4;
    let t4 = e4;
    let t3 = e3 + t4;
    let t2 = e2 + t3;
    let t1 = e1 + t2;
    lemma_concat_assoc(p2, e3, t4);
    lemma_concat_assoc(p1, e2, t3);
    lemma_concat_assoc(e0, e1, t2);
    assert(s == e0 + t1);
    let s0 = s;
    lemma_varint_field(x.entity_id, t1);
    assert(parse_varint_field(s0) == Some((x.entity_id, e0.len() as int)));
    lemma_concat_skip(e0, t1);
    let s1 = s0.skip(e0.len() as int);
    assert(s1 == t1);
    lemma_u64_field(x.x_bits, t2);
    assert(parse_u64_field(s1) == Some((x.x_bits, e1.len() as int)));
    lemma_concat_skip(e1, t2);
    let s2 = s1.skip(e1.len() as int);
    assert(s2 == t2);
    lemma_u64_field(x.y_bits, t3);
    assert(parse_u64_field(s2) == Some((x.y_bits, e2.len() as int)));
    lemma_concat_skip(e2, t3);
    let s3 = s2.skip(e2.len() as int);
    assert(s3 == t3);
    lemma_u64_field(x.z_bits, t4);
    assert(parse_u64_field(s3) == Some((x.z_bits, e3.len() as int)));
    lemma_concat_skip(e3, t4);
    let s4 = s3.skip(e3.len() as int);
    assert(s4 == t4);
    assert_seqs_equal!(e4 + Seq::<u8>::empty() == e4);
    lemma_u16_field(x.amount, Seq::<u8>::empty());
    assert(parse_u16_field(s4) == Some((x.amount, e4.len() as int)));
}

/// `EntityAnimation` packet, with the fields the multiplexer inspects.
#[derive(Debug)]
pub struct EntityAnimation {
    pub entity_id: i32,
    pub ignored_data: Vec<u8>,
}

impl EntityAnimation {
    /// The payload bytes this packet writes.
    pub open spec fn payload_spec(&self) -> Seq<u8> {
        varint_wire(self.entity_id) + self.ignored_data@
    }

    /// Whether this packet is what a reader makes of `s`.
    pub open spec fn payload_matches(&self, s: Seq<u8>) -> bool {
        match parse_varint_field(s) {
            None => false,
            Some((f_entity_id, n0)) => {
                let s1 = s.skip(n0);
            self.entity_id == f_entity_id && self.ignored_data@ == s1
            },
        }
    }

    /// Whether a reader can make any packet of this kind of `s`.
    pub open spec fn payload_parses(s: Seq<u8>) -> bool {
        match parse_varint_field(s) {
            None => false,
            Some((f_entity_id, n0)) => {
                let s1 = s.skip(n0);
            true
            },
        }
    }

    /// Writes the payload fields in wire order.
    pub fn encode(&self, enc: &mut Encoder)
        ensures
            final(enc).bytes() == old(enc).bytes() + self.payload_spec(),
    {
        enc.write_var_int(self.entity_id);
        enc.write_slice(self.ignored_data.as_slice());
        proof {
            assert_seqs_equal!(enc.bytes() == old(enc).bytes() + self.payload_spec());
        }
    }

    /// Reads the payload fields in wire order.
    pub fn decode(dec: &mut Decoder<'_>) -> (r: Result<EntityAnimation, DecodeError>)
        ensures
            match r {
                Ok(x) => {
                    &&& x.payload_matches(old(dec).remaining())
                },
                Err(_) => !Self::payload_parses(old(dec).remaining()),
            },
    {
        let entity_id = dec.read_var_int()?;
        let ignored_data = dec.read_rest();
        Ok(EntityAnimation { entity_id, ignored_data })
    }
}

/// The payload of `EntityAnimation` parses back to the packet itself.
pub proof fn lemma_entity_animation_round_trip(x: EntityAnimation)
    ensures
        x.payload_matches(x.payload_spec()),
{
    let s = x.payload_spec();
    let e0 = varint_wire(x.entity_id);
    let e1 = x.ignored_data@;
    let p1 = e0 + e1;
    let t1 = e1;
    assert(s == e0 + t1);
    let s0 = s;
    lemma_varint_field(x.entity_id, t1);
    assert(parse_varint_field(s0) == Some((x.entity_id, e0.len() as int)));
    lemma_concat_skip(e0, t1);
    let s1 = s0.skip(e0.len() as int);
    assert(s1 == t1);
    assert(s1 == x.ignored_data@);
}

/// `AwardStatistics` packet; its payload is carried through opaquely.
#[derive(Debug)]
pub struct AwardStatistics {
    pub ignored_data: Vec<u8>,
}

impl AwardStatistics {
    /// The payload bytes this packet writes.
    pub open spec fn payload_spec(&self) -> Seq<u8> {
        self.ignored_data@
    }

    /// Whether this packet is what a reader makes of `s`.
    pub open spec fn payload_matches(&self, s: Seq<u8>) -> bool {
        self.ignored_data@ == s
    }

    /// Writes the payload fields in wire order.
    pub fn encode(&self, enc: &mut Encoder)
        ensures
            final(enc).bytes() == old(enc).bytes() + self.payload_spec(),
    {
        enc.write_slice(self.ignored_data.as_slice());
    }

    /// Reads the payload: the rest of the frame.
    pub fn decode(dec: &mut Decoder<'_>) -> (r: AwardStatistics)
        ensures
            r.payload_matches(old(dec).remaining()),
        {
        AwardStatistics { ignored_data: dec.read_rest() }
    }
}

/// `AcknowledgeBlockChange` packet; its payload is carried through opaquely.
#[derive(Debug)]
pub struct AcknowledgeBlockChange {
    pub ignored_data: Vec<u8>,
}

impl AcknowledgeBlockChange {
    /// The payload bytes this packet writes.
    pub open spec fn payload_spec(&self) -> Seq<u8> {
        self.ignored_data@
    }

    /// Whether this packet is what a reader makes of `s`.
    pub open spec fn payload_matches(&self, s: Seq<u8>) -> bool {
        self.ignored_data@ == s
    }

    /// Writes the payload fields in wire order.
    pub fn encode(&self, enc: &mut Encoder)
        ensures
            final(enc).bytes() == old(enc).bytes() + self.payload_spec(),
    {
        enc.write_slice(self.ignored_data.as_slice());
    }

    /// Reads the payload: the rest of the frame.
    pub fn decode(dec: &mut Decoder<'_>) -> (r: AcknowledgeBlockChange)
        ensures
            r.payload_matches(old(dec).remaining()),
        {
        AcknowledgeBlockChange { ignored_data: dec.read_rest() }
    }
}

/// `SetBlockDestroyStage` packet; its payload is carried through opaquely.
#[derive(Debug)]
pub struct SetBlockDestroyStage {
    pub ignored_data: Vec<u8>,
}

impl SetBlockDestroyStage {
    /// The payload bytes this packet writes.
    pub open spec fn payload_spec(&self) -> Seq<u8> {
        self.ignored_data@
    }

    /// Whether this packet is what a reader makes of `s`.
    pub open spec fn payload_matches(&self, s: Seq<u8>) -> bool {
        self.ignored_data@ == s
    }

    /// Writes the payload fields in wire order.
    pub fn encode(&self, enc: &mut Encoder)
        ensures
            final(enc).bytes() == old(enc).bytes() + self.payload_spec(),
    {
        enc.write_slice(self.ignored_data.as_slice());
    }

    /// Reads the payload: the rest of the frame.
    pub fn decode(dec: &mut Decoder<'_>) -> (r: SetBlockDestroyStage)
        ensures
            r.payload_matches(old(dec).remaining()),
        {
        SetBlockDestroyStage { ignored_data: dec.read_rest() }
    }
}

/// `BlockEntityData` packet; its payload is carried through opaquely.
#[derive(Debug)]
pub struct BlockEntityData {
    pub ignored_data: Vec<u8>,
}

impl BlockEntityData {
    /// The payload bytes this packet writes.
    pub open spec fn payload_spec(&self) -> Seq<u8> {
        self.ignored_data@
    }

    /// Whether this packet is what a reader makes of `s`.
    pub open spec fn payload_matches(&self, s: Seq<u8>) -> bool {
        self.ignored_data@ == s
    }

    /// Writes the payload fields in wire order.
    pub fn encode(&self, enc: &mut Encoder)
        ensures
            final(enc).bytes() == old(enc).bytes() + self.payload_spec(),
    {
        enc.write_slice(self.ignored_data.as_slice());
    }

    /// Reads the payload: the rest of the frame.
    pub fn decode(dec: &mut Decoder<'_>) -> (r: BlockEntityData)
        ensures
            r.payload_matches(old(dec).remaining()),
        {
        BlockEntityData { ignored_data: dec.read_rest() }
    }
}

/// `BlockAction` packet; its payload is carried through opaquely.
#[derive(Debug)]
pub struct BlockAction {
    pub ignored_data: Vec<u8>,
}

impl BlockAction {
    /// The payload bytes this packet writes.
    pub open spec fn payload_spec(&self) -> Seq<u8> {
        self.ignored_data@
    }

    /// Whether this packet is what a reader makes of `s`.
    pub open spec fn payload_matches(&self, s: Seq<u8>) -> bool {
        self.ignored_data@ == s
    }

    /// Writes the payload fields in wire order.
    pub fn encode(&self, enc: &mut Encoder)
        ensures
            final(enc).bytes() == old(enc).bytes() + self.payload_spec(),
    {
        enc.write_slice(self.ignored_data.as_slice());
    }

    /// Reads the payload: the rest of the frame.
    pub fn decode(dec: &mut Decoder<'_>) -> (r: BlockAction)
        ensures
            r.payload_matches(old(dec).remaining()),
        {
        BlockAction { ignored_data: dec.read_rest() }
    }
}

/// `BlockUpdate` packet, with the fields the multiplexer inspects.
#[derive(Debug)]
pub struct BlockUpdate {
    pub position: BlockPosition,
    pub ignored_data: Vec<u8>,
}

impl BlockUpdate {
    /// The payload bytes this packet writes.
    pub open spec fn payload_spec(&self) -> Seq<u8> {
        blockpos_wire(self.position) + self.ignored_data@
    }

    /// Whether this packet is what a reader makes of `s`.
    pub open spec fn payload_matches(&self, s: Seq<u8>) -> bool {
        match parse_blockpos_field(s) {
            None => false,
            Some((f_position, n0)) => {
                let s1 = s.skip(n0);
            self.position == f_position && self.ignored_data@ == s1
            },
        }
    }

    /// Whether a reader can make any packet of this kind of `s`.
    pub open spec fn payload_parses(s: Seq<u8>) -> bool {
        match parse_blockpos_field(s) {
            None => false,
            Some((f_position, n0)) => {
                let s1 = s.skip(n0);
            true
            },
        }
    }

    /// Writes the payload fields in wire order.
    pub fn encode(&self, enc: &mut Encoder)
        ensures
            final(enc).bytes() == old(enc).bytes() + self.payload_spec(),
    {
        enc.write_i64(pack_block_position(self.position));
        enc.write_slice(self.ignored_data.as_slice());
        proof {
            assert_seqs_equal!(enc.bytes() == old(enc).bytes() + self.payload_spec());
        }
    }

    /// Reads the payload fields in wire order.
    pub fn decode(dec: &mut Decoder<'_>) -> (r: Result<BlockUpdate, DecodeError>)
        ensures
            match r {
                Ok(x) => {
                    &&& x.payload_matches(old(dec).remaining())
                    &&& block_position_in_range(x.position)
                },
                Err(_) => !Self::payload_parses(old(dec).remaining()),
            },
    {
        let raw = dec.read_i64()?;
        let position = unpack_block_position(raw);
        let ignored_data = dec.read_rest();
        Ok(BlockUpdate { position, ignored_data })
    }
}

/// The payload of `BlockUpdate` parses back to the packet itself.
pub proof fn lemma_block_update_round_trip(x: BlockUpdate)
    requires
        block_position_in_range(x.position),
    ensures
        x.payload_matches(x.payload_spec()),
{
    let s = x.payload_spec();
    let e0 = blockpos_wire(x.position);
    let e1 = x.ignored_data@;
    let p1 = e0 + e1;
    let t1 = e1;
    assert(s == e0 + t1);
    let s0 = s;
    lemma_blockpos_field(x.position, t1);
    assert(parse_blockpos_field(s0) == Some((x.position, e0.len() as int)));
    lemma_concat_skip(e0, t1);
    let s1 = s0.skip(e0.len() as int);
    assert(s1 == t1);
    assert(s1 == x.ignored_data@);
}

/// `BossBar` packet; its payload is carried through opaquely.
#[derive(Debug)]
pub struct BossBar {
    pub ignored_data: Vec<u8>,
}

impl BossBar {
    /// The payload bytes this packet writes.
    pub open spec fn payload_spec(&self) -> Seq<u8> {
        self.ignored_data@
    }

    /// Whether this packet is what a reader makes of `s`.
    pub open spec fn payload_matches(&self, s: Seq<u8>) -> bool {
        self.ignored_data@ == s
    }

    /// Writes the payload fields in wire order.
    pub fn encode(&self, enc: &mut Encoder)
        ensures
            final(enc).bytes() == old(enc).bytes() + self.payload_spec(),
    {
        enc.write_slice(self.ignored_data.as_slice());
    }

    /// Reads the payload: the rest of the frame.
    pub fn decode(dec: &mut Decoder<'_>) -> (r: BossBar)
        ensures
            r.payload_matches(old(dec).remaining()),
        {
        BossBar { ignored_data: dec.read_rest() }
    }
}

/// `ChangeDifficulty` packet; its payload is carried through opaquely.
#[derive(Debug)]
pub struct ChangeDifficulty {
    pub ignored_data: Vec<u8>,
}

impl ChangeDifficulty {
    /// The payload bytes this packet writes.
    pub open spec fn payload_spec(&self) -> Seq<u8> {
        self.ignored_data@
    }

    /// Whether this packet is what a reader makes of `s`.
    pub open spec fn payload_matches(&self, s: Seq<u8>) -> bool {
        self.ignored_data@ == s
    }

    /// Writes the payload fields in wire order.
    pub fn encode(&self, enc: &mut Encoder)
        ensures
            final(enc).bytes() == old(enc).bytes() + self.payload_spec(),
    {
        enc.write_slice(self.ignored_data.as_slice());
    }

    /// Reads the payload: the rest of the frame.
    pub fn decode(dec: &mut Decoder<'_>) -> (r: ChangeDifficulty)
        ensures
            r.payload_matches(old(dec).remaining()),
        {
        ChangeDifficulty { ignored_data: dec.read_rest() }
    }
}

/// `ChunkBatchFinished` packet; its payload is carried through opaquely.
#[derive(Debug)]
pub struct ChunkBatchFinished {
    pub ignored_data: Vec<u8>,
}

impl ChunkBatchFinished {
    /// The payload bytes this packet writes.
    pub open spec fn payload_spec(&self) -> Seq<u8> {
        self.ignored_data@
    }

    /// Whether this packet is what a reader makes of `s`.
    pub open spec fn payload_matches(&self, s: Seq<u8>) -> bool {
        self.ignored_data@ == s
    }

    /// Writes the payload fields in wire order.
    pub fn encode(&self, enc: &mut Encoder)
        ensures
            final(enc).bytes() == old(enc).bytes() + self.payload_spec(),
    {
        enc.write_slice(self.ignored_data.as_slice());
    }

    /// Reads the payload: the rest of the frame.
    pub fn decode(dec: &mut Decoder<'_>) -> (r: ChunkBatchFinished)
        ensures
            r.payload_matches(old(dec).remaining()),
        {
        ChunkBatchFinished { ignored_data: dec.read_rest() }
    }
}

/// `ChunkBatchStart` packet; its payload is carried through opaquely.
#[derive(Debug)]
pub struct ChunkBatchStart {
    pub ignored_data: Vec<u8>,
}

impl ChunkBatchStart {
    /// The payload bytes this packet writes.
    pub open spec fn payload_spec(&self) -> Seq<u8> {
        self.ignored_data@
    }

    /// Whether this packet is what a reader makes of `s`.
    pub open spec fn payload_matches(&self, s: Seq<u8>) -> bool {
        self.ignored_data@ == s
    }

    /// Writes the payload fields in wire order.
    pub fn encode(&self, enc: &mut Encoder)
        ensures
            final(enc).bytes() == old(enc).bytes() + self.payload_spec(),
    {
        enc.write_slice(self.ignored_data.as_slice());
    }

    /// Reads the payload: the rest of the frame.
    pub fn decode(dec: &mut Decoder<'_>) -> (r: ChunkBatchStart)
        ensures
            r.payload_matches(old(dec).remaining()),
        {
        ChunkBatchStart { ignored_data: dec.read_rest() }
    }
}

/// `ChunkBiomes` packet; its payload is carried through opaquely.
#[derive(Debug)]
pub struct ChunkBiomes {
    pub ignored_data: Vec<u8>,
}

impl ChunkBiomes {
    /// The payload bytes this packet writes.
    pub open spec fn payload_spec(&self) -> Seq<u8> {
        self.ignored_data@
    }

    /// Whether this packet is what a reader makes of `s`.
    pub open spec fn payload_matches(&self, s: Seq<u8>) -> bool {
        self.ignored_data@ == s
    }

    /// Writes the payload fields in wire order.
    pub fn encode(&self, enc: &mut Encoder)
        ensures
            final(enc).bytes() == old(enc).bytes() + self.payload_spec(),
    {
        enc.write_slice(self.ignored_data.as_slice());
    }

    /// Reads the payload: the rest of the frame.
    pub fn decode(dec: &mut Decoder<'_>) -> (r: ChunkBiomes)
        ensures
            r.payload_matches(old(dec).remaining()),
        {
        ChunkBiomes { ignored_data: dec.read_rest() }
    }
}

/// `ClearTitles` packet; its payload is carried through opaquely.
#[derive(Debug)]
pub struct ClearTitles {
    pub ignored_data: Vec<u8>,
}

impl ClearTitles {
    /// The payload bytes this packet writes.
    pub open spec fn payload_spec(&self) -> Seq<u8> {
        self.ignored_data@
    }

    /// Whether this packet is what a reader makes of `s`.
    pub open spec fn payload_matches(&self, s: Seq<u8>) -> bool {
        self.ignored_data@ == s
    }

    /// Writes the payload fields in wire order.
    pub fn encode(&self, enc: &mut Encoder)
        ensures
            final(enc).bytes() == old(enc).bytes() + self.payload_spec(),
    {
        enc.write_slice(self.ignored_data.as_slice());
    }

    /// Reads the payload: the rest of the frame.
    pub fn decode(dec: &mut Decoder<'_>) -> (r: ClearTitles)
        ensures
            r.payload_matches(old(dec).remaining()),
        {
        ClearTitles { ignored_data: dec.read_rest() }
    }
}

/// `CommandSuggestions` packet; its payload is carried through opaquely.
#[derive(Debug)]
pub struct CommandSuggestions {
    pub ignored_data: Vec<u8>,
}

impl CommandSuggestions {
    /// The payload bytes this packet writes.
    pub open spec fn payload_spec(&self) -> Seq<u8> {
        self.ignored_data@
    }

    /// Whether this packet is what a reader makes of `s`.
    pub open spec fn payload_matches(&self, s: Seq<u8>) -> bool {
        self.ignored_data@ == s
    }

    /// Writes the payload fields in wire order.
    pub fn encode(&self, enc: &mut Encoder)
        ensures
            final(enc).bytes() == old(enc).bytes() + self.payload_spec(),
    {
        enc.write_slice(self.ignored_data.as_slice());
    }

    /// Reads the payload: the rest of the frame.
    pub fn decode(dec: &mut Decoder<'_>) -> (r: CommandSuggestions)
        ensures
            r.payload_matches(old(dec).remaining()),
        {
        CommandSuggestions { ignored_data: dec.read_rest() }
    }
}

/// `Commands` packet; its payload is carried through opaquely.
#[derive(Debug)]
pub struct Commands {
    pub ignored_data: Vec<u8>,
}

impl Commands {
    /// The payload bytes this packet writes.
    pub open spec fn payload_spec(&self) -> Seq<u8> {
        self.ignored_data@
    }

    /// Whether this packet is what a reader makes of `s`.
    pub open spec fn payload_matches(&self, s: Seq<u8>) -> bool {
        self.ignored_data@ == s
    }

    /// Writes the payload fields in wire order.
    pub fn encode(&self, enc: &mut Encoder)
        ensures
            final(enc).bytes() == old(enc).bytes() + self.payload_spec(),
    {
        enc.write_slice(self.ignored_data.as_slice());
    }

    /// Reads the payload: the rest of the frame.
    pub fn decode(dec: &mut Decoder<'_>) -> (r: Commands)
        ensures
            r.payload_matches(old(dec).remaining()),
        {
        Commands { ignored_data: dec.read_rest() }
    }
}

/// `CloseContainer` packet; its payload is carried through opaquely.
#[derive(Debug)]
pub struct CloseContainer {
    pub ignored_data: Vec<u8>,
}

impl CloseContainer {
    /// The payload bytes this packet writes.
    pub open spec fn payload_spec(&self) -> Seq<u8> {
        self.ignored_data@
    }

    /// Whether this packet is what a reader makes of `s`.
    pub open spec fn payload_matches(&self, s: Seq<u8>) -> bool {
        self.ignored_data@ == s
    }

    /// Writes the payload fields in wire order.
    pub fn encode(&self, enc: &mut Encoder)
        ensures
            final(enc).bytes() == old(enc).bytes() + self.payload_spec(),
    {
        enc.write_slice(self.ignored_data.as_slice());
    }

    /// Reads the payload: the rest of the frame.
    pub fn decode(dec: &mut Decoder<'_>) -> (r: CloseContainer)
        ensures
            r.payload_matches(old(dec).remaining()),
        {
        CloseContainer { ignored_data: dec.read_rest() }
    }
}

/// `SetContainerContents` packet; its payload is carried through opaquely.
#[derive(Debug)]
pub struct SetContainerContents {
    pub ignored_data: Vec<u8>,
}

impl SetContainerContents {
    /// The payload bytes this packet writes.
    pub open spec fn payload_spec(&self) -> Seq<u8> {
        self.ignored_data@
    }

    /// Whether this packet is what a reader makes of `s`.
    pub open spec fn payload_matches(&self, s: Seq<u8>) -> bool {
        self.ignored_data@ == s
    }

    /// Writes the payload fields in wire order.
    pub fn encode(&self, enc: &mut Encoder)
        ensures
            final(enc).bytes() == old(enc).bytes() + self.payload_spec(),
    {
        enc.write_slice(self.ignored_data.as_slice());
    }

    /// Reads the payload: the rest of the frame.
    pub fn decode(dec: &mut Decoder<'_>) -> (r: SetContainerContents)
        ensures
            r.payload_matches(old(dec).remaining()),
        {
        SetContainerContents { ignored_data: dec.read_rest() }
    }
}

/// `SetContainerProperty` packet; its payload is carried through opaquely.
#[derive(Debug)]
pub struct SetContainerProperty {
    pub ignored_data: Vec<u8>,
}

impl SetContainerProperty {
    /// The payload bytes this packet writes.
    pub open spec fn payload_spec(&self) -> Seq<u8> {
        self.ignored_data@
    }

    /// Whether this packet is what a reader makes of `s`.
    pub open spec fn payload_matches(&self, s: Seq<u8>) -> bool {
        self.ignored_data@ == s
    }

    /// Writes the payload fields in wire order.
    pub fn encode(&self, enc: &mut Encoder)
        ensures
            final(enc).bytes() == old(enc).bytes() + self.payload_spec(),
    {
        enc.write_slice(self.ignored_data.as_slice());
    }

    /// Reads the payload: the rest of the frame.
    pub fn decode(dec: &mut Decoder<'_>) -> (r: SetContainerProperty)
        ensures
            r.payload_matches(old(dec).remaining()),
        {
        SetContainerProperty { ignored_data: dec.read_rest() }
    }
}

/// `SetContainerSlot` packet; its payload is carried through opaquely.
#[derive(Debug)]
pub struct SetContainerSlot {
    pub ignored_data: Vec<u8>,
}

impl SetContainerSlot {
    /// The payload bytes this packet writes.
    pub open spec fn payload_spec(&self) -> Seq<u8> {
        self.ignored_data@
    }

    /// Whether this packet is what a reader makes of `s`.
    pub open spec fn payload_matches(&self, s: Seq<u8>) -> bool {
        self.ignored_data@ == s
    }

    /// Writes the payload fields in wire order.
    pub fn encode(&self, enc: &mut Encoder)
        ensures
            final(enc).bytes() == old(enc).bytes() + self.payload_spec(),
    {
        enc.write_slice(self.ignored_data.as_slice());
    }

    /// Reads the payload: the rest of the frame.
    pub fn decode(dec: &mut Decoder<'_>) -> (r: SetContainerSlot)
        ensures
            r.payload_matches(old(dec).remaining()),
        {
        SetContainerSlot { ignored_data: dec.read_rest() }
    }
}

/// `SetCooldown` packet; its payload is carried through opaquely.
#[derive(Debug)]
pub struct SetCooldown {
    pub ignored_data: Vec<u8>,
}

impl SetCooldown {
    /// The payload bytes this packet writes.
    pub open spec fn payload_spec(&self) -> Seq<u8> {
        self.ignored_data@
    }

    /// Whether this packet is what a reader makes of `s`.
    pub open spec fn payload_matches(&self, s: Seq<u8>) -> bool {
        self.ignored_data@ == s
    }

    /// Writes the payload fields in wire order.
    pub fn encode(&self, enc: &mut Encoder)
        ensures
            final(enc).bytes() == old(enc).bytes() + self.payload_spec(),
    {
        enc.write_slice(self.ignored_data.as_slice());
    }

    /// Reads the payload: the rest of the frame.
    pub fn decode(dec: &mut Decoder<'_>) -> (r: SetCooldown)
        ensures
            r.payload_matches(old(dec).remaining()),
        {
        SetCooldown { ignored_data: dec.read_rest() }
    }
}

/// `ChatSuggestions` packet; its payload is carried through opaquely.
#[derive(Debug)]
pub struct ChatSuggestions {
    pub ignored_data: Vec<u8>,
}

impl ChatSuggestions {
    /// The payload bytes this packet writes.
    pub open spec fn payload_spec(&self) -> Seq<u8> {
        self.ignored_data@
    }

    /// Whether this packet is what a reader makes of `s`.
    pub open spec fn payload_matches(&self, s: Seq<u8>) -> bool {
        self.ignored_data@ == s
    }

    /// Writes the payload fields in wire order.
    pub fn encode(&self, enc: &mut Encoder)
        ensures
            final(enc).bytes() == old(enc).bytes() + self.payload_spec(),
    {
        enc.write_slice(self.ignored_data.as_slice());
    }

    /// Reads the payload: the rest of the frame.
    pub fn decode(dec: &mut Decoder<'_>) -> (r: ChatSuggestions)
        ensures
            r.payload_matches(old(dec).remaining()),
        {
        ChatSuggestions { ignored_data: dec.read_rest() }
    }
}

/// `PluginMessage` packet; its payload is carried through opaquely.
#[derive(Debug)]
pub struct PluginMessage {
    pub ignored_data: Vec<u8>,
}

impl PluginMessage {
    /// The payload bytes this packet writes.
    pub open spec fn payload_spec(&self) -> Seq<u8> {
        self.ignored_data@
    }

    /// Whether this packet is what a reader makes of `s`.
    pub open spec fn payload_matches(&self, s: Seq<u8>) -> bool {
        self.ignored_data@ == s
    }

    /// Writes the payload fields in wire order.
    pub fn encode(&self, enc: &mut Encoder)
        ensures
            final(enc).bytes() == old(enc).bytes() + self.payload_spec(),
    {
        enc.write_slice(self.ignored_data.as_slice());
    }

    /// Reads the payload: the rest of the frame.
    pub fn decode(dec: &mut Decoder<'_>) -> (r: PluginMessage)
        ensures
            r.payload_matches(old(dec).remaining()),
        {
        PluginMessage { ignored_data: dec.read_rest() }
    }
}

/// `DamageEvent` packet, with the fields the multiplexer inspects.
#[derive(Debug)]
pub struct DamageEvent {
    pub entity_id: i32,
    pub ignored_data: Vec<u8>,
}

impl DamageEvent {
    /// The payload bytes this packet writes.
    pub open spec fn payload_spec(&self) -> Seq<u8> {
        varint_wire(self.entity_id) + self.ignored_data@
    }

    /// Whether this packet is what a reader makes of `s`.
    pub open spec fn payload_matches(&self, s: Seq<u8>) -> bool {
        match parse_varint_field(s) {
            None => false,
            Some((f_entity_id, n0)) => {
                let s1 = s.skip(n0);
            self.entity_id == f_entity_id && self.ignored_data@ == s1
            },
        }
    }

    /// Whether a reader can make any packet of this kind of `s`.
    pub open spec fn payload_parses(s: Seq<u8>) -> bool {
        match parse_varint_field(s) {
            None => false,
            Some((f_entity_id, n0)) => {
                let s1 = s.skip(n0);
            true
            },
        }
    }

    /// Writes the payload fields in wire order.
    pub fn encode(&self, enc: &mut Encoder)
        ensures
            final(enc).bytes() == old(enc).bytes() + self.payload_spec(),
    {
        enc.write_var_int(self.entity_id);
        enc.write_slice(self.ignored_data.as_slice());
        proof {
            assert_seqs_equal!(enc.bytes() == old(enc).bytes() + self.payload_spec());
        }
    }

    /// Reads the payload fields in wire order.
    pub fn decode(dec: &mut Decoder<'_>) -> (r: Result<DamageEvent, DecodeError>)
        ensures
            match r {
                Ok(x) => {
                    &&& x.payload_matches(old(dec).remaining())
                },
                Err(_) => !Self::payload_parses(old(dec).remaining()),
            },
    {
        let entity_id = dec.read_var_int()?;
        let ignored_data = dec.read_rest();
        Ok(DamageEvent { entity_id, ignored_data })
    }
}

/// The payload of `DamageEvent` parses back to the packet itself.
pub proof fn lemma_damage_event_round_trip(x: DamageEvent)
    ensures
        x.payload_matches(x.payload_spec()),
{
    let s = x.payload_spec();
    let e0 = varint_wire(x.entity_id);
    let e1 = x.ignored_data@;
    let p1 = e0 + e1;
    let t1 = e1;
    assert(s == e0 + t1);
    let s0 = s;
    lemma_varint_field(x.entity_id, t1);
    assert(parse_varint_field(s0) == Some((x.entity_id, e0.len() as int)));
    lemma_concat_skip(e0, t1);
    let s1 = s0.skip(e0.len() as int);
    assert(s1 == t1);
    assert(s1 == x.ignored_data@);
}

/// `DeleteMessage` packet; its payload is carried through opaquely.
#[derive(Debug)]
pub struct DeleteMessage {
    pub ignored_data: Vec<u8>,
}

impl DeleteMessage {
    /// The payload bytes this packet writes.
    pub open spec fn payload_spec(&self) -> Seq<u8> {
        self.ignored_data@
    }

    /// Whether this packet is what a reader makes of `s`.
    pub open spec fn payload_matches(&self, s: Seq<u8>) -> bool {
        self.ignored_data@ == s
    }

    /// Writes the payload fields in wire order.
    pub fn encode(&self, enc: &mut Encoder)
        ensures
            final(enc).bytes() == old(enc).bytes() + self.payload_spec(),
    {
        enc.write_slice(self.ignored_data.as_slice());
    }

    /// Reads the payload: the rest of the frame.
    pub fn decode(dec: &mut Decoder<'_>) -> (r: DeleteMessage)
        ensures
            r.payload_matches(old(dec).remaining()),
        {
        DeleteMessage { ignored_data: dec.read_rest() }
    }
}

/// `Disconnect` packet; its payload is carried through opaquely.
#[derive(Debug)]
pub struct Disconnect {
    pub ignored_data: Vec<u8>,
}

impl Disconnect {
    /// The payload bytes this packet writes.
    pub open spec fn payload_spec(&self) -> Seq<u8> {
        self.ignored_data@
    }

    /// Whether this packet is what a reader makes of `s`.
    pub open spec fn payload_matches(&self, s: Seq<u8>) -> bool {
        self.ignored_data@ == s
    }

    /// Writes the payload fields in wire order.
    pub fn encode(&self, enc: &mut Encoder)
        ensures
            final(enc).bytes() == old(enc).bytes() + self.payload_spec(),
    {
        enc.write_slice(self.ignored_data.as_slice());
    }

    /// Reads the payload: the rest of the frame.
    pub fn decode(dec: &mut Decoder<'_>) -> (r: Disconnect)
        ensures
            r.payload_matches(old(dec).remaining()),
        {
        Disconnect { ignored_data: dec.read_rest() }
    }
}

/// `DisguisedChatMessage` packet; its payload is carried through opaquely.
#[derive(Debug)]
pub struct DisguisedChatMessage {
    pub ignored_data: Vec<u8>,
}

impl DisguisedChatMessage {
    /// The payload bytes this packet writes.
    pub open spec fn payload_spec(&self) -> Seq<u8> {
        self.ignored_data@
    }

    /// Whether this packet is what a reader makes of `s`.
    pub open spec fn payload_matches(&self, s: Seq<u8>) -> bool {
        self.ignored_data@ == s
    }

    /// Writes the payload fields in wire order.
    pub fn encode(&self, enc: &mut Encoder)
        ensures
            final(enc).bytes() == old(enc).bytes() + self.payload_spec(),
    {
        enc.write_slice(self.ignored_data.as_slice());
    }

    /// Reads the payload: the rest of the frame.
    pub fn decode(dec: &mut Decoder<'_>) -> (r: DisguisedChatMessage)
        ensures
            r.payload_matches(old(dec).remaining()),
        {
        DisguisedChatMessage { ignored_data: dec.read_rest() }
    }
}

/// `EntityEvent` packet, with the fields the multiplexer inspects.
#[derive(Debug)]
pub struct EntityEvent {
    pub entity_id: i32,
    pub ignored_data: Vec<u8>,
}

impl EntityEvent {
    /// The payload bytes this packet writes.
    pub open spec fn payload_spec(&self) -> Seq<u8> {
        be_u32(self.entity_id as u32) + self.ignored_data@
    }

    /// Whether this packet is what a reader makes of `s`.
    pub open spec fn payload_matches(&self, s: Seq<u8>) -> bool {
        match parse_i32_field(s) {
            None => false,
            Some((f_entity_id, n0)) => {
                let s1 = s.skip(n0);
            self.entity_id == f_entity_id && self.ignored_data@ == s1
            },
        }
    }

    /// Whether a reader can make any packet of this kind of `s`.
    pub open spec fn payload_parses(s: Seq<u8>) -> bool {
        match parse_i32_field(s) {
            None => false,
            Some((f_entity_id, n0)) => {
                let s1 = s.skip(n0);
            true
            },
        }
    }

    /// Writes the payload fields in wire order.
    pub fn encode(&self, enc: &mut Encoder)
        ensures
            final(enc).bytes() == old(enc).bytes() + self.payload_spec(),
    {
        enc.write_i32(self.entity_id);
        enc.write_slice(self.ignored_data.as_slice());
        proof {
            assert_seqs_equal!(enc.bytes() == old(enc).bytes() + self.payload_spec());
        }
    }

    /// Reads the payload fields in wire order.
    pub fn decode(dec: &mut Decoder<'_>) -> (r: Result<EntityEvent, DecodeError>)
        ensures
            match r {
                Ok(x) => {
                    &&& x.payload_matches(old(dec).remaining())
                },
                Err(_) => !Self::payload_parses(old(dec).remaining()),
            },
    {
        let entity_id = dec.read_i32()?;
        let ignored_data = dec.read_rest();
        Ok(EntityEvent { entity_id, ignored_data })
    }
}

/// The payload of `EntityEvent` parses back to the packet itself.
pub proof fn lemma_entity_event_round_trip(x: EntityEvent)
    ensures
        x.payload_matches(x.payload_spec()),
{
    let s = x.payload_spec();
    let e0 = be_u32(x.entity_id as u32);
    let e1 = x.ignored_data@;
    let p1 = e0 + e1;
    let t1 = e1;
    assert(s == e0 + t1);
    let s0 = s;
    lemma_i32_field(x.entity_id, t1);
    assert(parse_i32_field(s0) == Some((x.entity_id, e0.len() as int)));
    lemma_concat_skip(e0, t1);
    let s1 = s0.skip(e0.len() as int);
    assert(s1 == t1);
    assert(s1 == x.ignored_data@);
}

/// `Explosion` packet; its payload is carried through opaquely.
#[derive(Debug)]
pub struct Explosion {
    pub ignored_data: Vec<u8>,
}

impl Explosion {
    /// The payload bytes this packet writes.
    pub open spec fn payload_spec(&self) -> Seq<u8> {
        self.ignored_data@
    }

    /// Whether this packet is what a reader makes of `s`.
    pub open spec fn payload_matches(&self, s: Seq<u8>) -> bool {
        self.ignored_data@ == s
    }

    /// Writes the payload fields in wire order.
    pub fn encode(&self, enc: &mut Encoder)
        ensures
            final(enc).bytes() == old(enc).bytes() + self.payload_spec(),
    {
        enc.write_slice(self.ignored_data.as_slice());
    }

    /// Reads the payload: the rest of the frame.
    pub fn decode(dec: &mut Decoder<'_>) -> (r: Explosion)
        ensures
            r.payload_matches(old(dec).remaining()),
        {
        Explosion { ignored_data: dec.read_rest() }
    }
}

/// `UnloadChunk` packet, with the fields the multiplexer inspects.
#[derive(Debug)]
pub struct UnloadChunk {
    pub chunk_z: i32,
    pub chunk_x: i32,
}

impl UnloadChunk {
    /// The payload bytes this packet writes.
    pub open spec fn payload_spec(&self) -> Seq<u8> {
        be_u32(self.chunk_z as u32) + be_u32(self.chunk_x as u32)
    }

    /// Whether this packet is what a reader makes of `s`.
    pub open spec fn payload_matches(&self, s: Seq<u8>) -> bool {
        match parse_i32_field(s) {
            None => false,
            Some((f_chunk_z, n0)) => {
                let s1 = s.skip(n0);
            match parse_i32_field(s1) {
                None => false,
                Some((f_chunk_x, n1)) => {
                    let s2 = s1.skip(n1);
                self.chunk_z == f_chunk_z && self.chunk_x == f_chunk_x
                },
            }
            },
        }
    }

    /// Whether a reader can make any packet of this kind of `s`.
    pub open spec fn payload_parses(s: Seq<u8>) -> bool {
        match parse_i32_field(s) {
            None => false,
            Some((f_chunk_z, n0)) => {
                let s1 = s.skip(n0);
            match parse_i32_field(s1) {
                None => false,
                Some((f_chunk_x, n1)) => {
                    let s2 = s1.skip(n1);
                true
                },
            }
            },
        }
    }

    /// Writes the payload fields in wire order.
    pub fn encode(&self, enc: &mut Encoder)
        ensures
            final(enc).bytes() == old(enc).bytes() + self.payload_spec(),
    {
        enc.write_i32(self.chunk_z);
        enc.write_i32(self.chunk_x);
        proof {
            assert_seqs_equal!(enc.bytes() == old(enc).bytes() + self.payload_spec());
        }
    }

    /// Reads the payload fields in wire order.
    pub fn decode(dec: &mut Decoder<'_>) -> (r: Result<UnloadChunk, DecodeError>)
        ensures
            match r {
                Ok(x) => {
                    &&& x.payload_matches(old(dec).remaining())
                },
                Err(_) => !Self::payload_parses(old(dec).remaining()),
            },
    {
        let chunk_z = dec.read_i32()?;
        let chunk_x = dec.read_i32()?;
        Ok(UnloadChunk { chunk_z, chunk_x })
    }
}

/// The payload of `UnloadChunk` parses back to the packet itself.
pub proof fn lemma_unload_chunk_round_trip(x: UnloadChunk)
    ensures
        x.payload_matches(x.payload_spec()),
{
    let s = x.payload_spec();
    let e0 = be_u32(x.chunk_z as u32);
    let e1 = be_u32(x.chunk_x as u32);
    let p1 = e0 + e1;
    let t1 = e1;
    assert(s == e0 + t1);
    let s0 = s;
    lemma_i32_field(x.chunk_z, t1);
    assert(parse_i32_field(s0) == Some((x.chunk_z, e0.len() as int)));
    lemma_concat_skip(e0, t1);
    let s1 = s0.skip(e0.len() as int);
    assert(s1 == t1);
    assert_seqs_equal!(e1 + Seq::<u8>::empty() == e1);
    lemma_i32_field(x.chunk_x, Seq::<u8>::empty());
    assert(parse_i32_field(s1) == Some((x.chunk_x, e1.len() as int)));
}

/// `GameEvent` packet; its payload is carried through opaquely.
#[derive(Debug)]
pub struct GameEvent {
    pub ignored_data: Vec<u8>,
}

impl GameEvent {
    /// The payload bytes this packet writes.
    pub open spec fn payload_spec(&self) -> Seq<u8> {
        self.ignored_data@
    }

    /// Whether this packet is what a reader makes of `s`.
    pub open spec fn payload_matches(&self, s: Seq<u8>) -> bool {
        self.ignored_data@ == s
    }

    /// Writes the payload fields in wire order.
    pub fn encode(&self, enc: &mut Encoder)
        ensures
            final(enc).bytes() == old(enc).bytes() + self.payload_spec(),
    {
        enc.write_slice(self.ignored_data.as_slice());
    }

    /// Reads the payload: the rest of the frame.
    pub fn decode(dec: &mut Decoder<'_>) -> (r: GameEvent)
        ensures
            r.payload_matches(old(dec).remaining()),
        {
        GameEvent { ignored_data: dec.read_rest() }
    }
}

/// `OpenHorseScreen` packet; its payload is carried through opaquely.
#[derive(Debug)]
pub struct OpenHorseScreen {
    pub ignored_data: Vec<u8>,
}

impl OpenHorseScreen {
    /// The payload bytes this packet writes.
    pub open spec fn payload_spec(&self) -> Seq<u8> {
        self.ignored_data@
    }

    /// Whether this packet is what a reader makes of `s`.
    pub open spec fn payload_matches(&self, s: Seq<u8>) -> bool {
        self.ignored_data@ == s
    }

    /// Writes the payload fields in wire order.
    pub fn encode(&self, enc: &mut Encoder)
        ensures
            final(enc).bytes() == old(enc).bytes() + self.payload_spec(),
    {
        enc.write_slice(self.ignored_data.as_slice());
    }

    /// Reads the payload: the rest of the frame.
    pub fn decode(dec: &mut Decoder<'_>) -> (r: OpenHorseScreen)
        ensures
            r.payload_matches(old(dec).remaining()),
        {
        OpenHorseScreen { ignored_data: dec.read_rest() }
    }
}

/// `HurtAnimation` packet, with the fields the multiplexer inspects.
#[derive(Debug)]
pub struct HurtAnimation {
    pub entity_id: i32,
    pub ignored_data: Vec<u8>,
}

impl HurtAnimation {
    /// The payload bytes this packet writes.
    pub open spec fn payload_spec(&self) -> Seq<u8> {
        varint_wire(self.entity_id) + self.ignored_data@
    }

    /// Whether this packet is what a reader makes of `s`.
    pub open spec fn payload_matches(&self, s: Seq<u8>) -> bool {
        match parse_varint_field(s) {
            None => false,
            Some((f_entity_id, n0)) => {
                let s1 = s.skip(n0);
            self.entity_id == f_entity_id && self.ignored_data@ == s1
            },
        }
    }

    /// Whether a reader can make any packet of this kind of `s`.
    pub open spec fn payload_parses(s: Seq<u8>) -> bool {
        match parse_varint_field(s) {
            None => false,
            Some((f_entity_id, n0)) => {
                let s1 = s.skip(n0);
            true
            },
        }
    }

    /// Writes the payload fields in wire order.
    pub fn encode(&self, enc: &mut Encoder)
        ensures
            final(enc).bytes() == old(enc).bytes() + self.payload_spec(),
    {
        enc.write_var_int(self.entity_id);
        enc.write_slice(self.ignored_data.as_slice());
        proof {
            assert_seqs_equal!(enc.bytes() == old(enc).bytes() + self.payload_spec());
        }
    }

    /// Reads the payload fields in wire order.
    pub fn decode(dec: &mut Decoder<'_>) -> (r: Result<HurtAnimation, DecodeError>)
        ensures
            match r {
                Ok(x) => {
                    &&& x.payload_matches(old(dec).remaining())
                },
                Err(_) => !Self::payload_parses(old(dec).remaining()),
            },
    {
        let entity_id = dec.read_var_int()?;
        let ignored_data = dec.read_rest();
        Ok(HurtAnimation { entity_id, ignored_data })
    }
}

/// The payload of `HurtAnimation` parses back to the packet itself.
pub proof fn lemma_hurt_animation_round_trip(x: HurtAnimation)
    ensures
        x.payload_matches(x.payload_spec()),
{
    let s = x.payload_spec();
    let e0 = varint_wire(x.entity_id);
    let e1 = x.ignored_data@;
    let p1 = e0 + e1;
    let t1 = e1;
    assert(s == e0 + t1);
    let s0 = s;
    lemma_varint_field(x.entity_id, t1);
    assert(parse_varint_field(s0) == Some((x.entity_id, e0.len() as int)));
    lemma_concat_skip(e0, t1);
    let s1 = s0.skip(e0.len() as int);
    assert(s1 == t1);
    assert(s1 == x.ignored_data@);
}

/// `InitializeWorldBorder` packet; its payload is carried through opaquely.
#[derive(Debug)]
pub struct InitializeWorldBorder {
    pub ignored_data: Vec<u8>,
}

impl InitializeWorldBorder {
    /// The payload bytes this packet writes.
    pub open spec fn payload_spec(&self) -> Seq<u8> {
        self.ignored_data@
    }

    /// Whether this packet is what a reader makes of `s`.
    pub open spec fn payload_matches(&self, s: Seq<u8>) -> bool {
        self.ignored_data@ == s
    }

    /// Writes the payload fields in wire order.
    pub fn encode(&self, enc: &mut Encoder)
        ensures
            final(enc).bytes() == old(enc).bytes() + self.payload_spec(),
    {
        enc.write_slice(self.ignored_data.as_slice());
    }

    /// Reads the payload: the rest of the frame.
    pub fn decode(dec: &mut Decoder<'_>) -> (r: InitializeWorldBorder)
        ensures
            r.payload_matches(old(dec).remaining()),
        {
        InitializeWorldBorder { ignored_data: dec.read_rest() }
    }
}

/// `KeepAlive` packet; its payload is carried through opaquely.
#[derive(Debug)]
pub struct KeepAlive {
    pub ignored_data: Vec<u8>,
}

impl KeepAlive {
    /// The payload bytes this packet writes.
    pub open spec fn payload_spec(&self) -> Seq<u8> {
        self.ignored_data@
    }

    /// Whether this packet is what a reader makes of `s`.
    pub open spec fn payload_matches(&self, s: Seq<u8>) -> bool {
        self.ignored_data@ == s
    }

    /// Writes the payload fields in wire order.
    pub fn encode(&self, enc: &mut Encoder)
        ensures
            final(enc).bytes() == old(enc).bytes() + self.payload_spec(),
    {
        enc.write_slice(self.ignored_data.as_slice());
    }

    /// Reads the payload: the rest of the frame.
    pub fn decode(dec: &mut Decoder<'_>) -> (r: KeepAlive)
        ensures
            r.payload_matches(old(dec).remaining()),
        {
        KeepAlive { ignored_data: dec.read_rest() }
    }
}

/// `ChunkAndLightData` packet, with the fields the multiplexer inspects.
#[derive(Debug)]
pub struct ChunkAndLightData {
    pub chunk_x: i32,
    pub chunk_z: i32,
    pub ignored_data: Vec<u8>,
}

impl ChunkAndLightData {
    /// The payload bytes this packet writes.
    pub open spec fn payload_spec(&self) -> Seq<u8> {
        be_u32(self.chunk_x as u32) + be_u32(self.chunk_z as u32) + self.ignored_data@
    }

    /// Whether this packet is what a reader makes of `s`.
    pub open spec fn payload_matches(&self, s: Seq<u8>) -> bool {
        match parse_i32_field(s) {
            None => false,
            Some((f_chunk_x, n0)) => {
                let s1 = s.skip(n0);
            match parse_i32_field(s1) {
                None => false,
                Some((f_chunk_z, n1)) => {
                    let s2 = s1.skip(n1);
                self.chunk_x == f_chunk_x && self.chunk_z == f_chunk_z && self.ignored_data@ == s2
                },
            }
            },
        }
    }

    /// Whether a reader can make any packet of this kind of `s`.
    pub open spec fn payload_parses(s: Seq<u8>) -> bool {
        match parse_i32_field(s) {
            None => false,
            Some((f_chunk_x, n0)) => {
                let s1 = s.skip(n0);
            match parse_i32_field(s1) {
                None => false,
                Some((f_chunk_z, n1)) => {
                    let s2 = s1.skip(n1);
                true
                },
            }
            },
        }
    }

    /// Writes the payload fields in wire order.
    pub fn encode(&self, enc: &mut Encoder)
        ensures
            final(enc).bytes() == old(enc).bytes() + self.payload_spec(),
    {
        enc.write_i32(self.chunk_x);
        enc.write_i32(self.chunk_z);
        enc.write_slice(self.ignored_data.as_slice());
        proof {
            assert_seqs_equal!(enc.bytes() == old(enc).bytes() + self.payload_spec());
        }
    }

    /// Reads the payload fields in wire order.
    pub fn decode(dec: &mut Decoder<'_>) -> (r: Result<ChunkAndLightData, DecodeError>)
        ensures
            match r {
                Ok(x) => {
                    &&& x.payload_matches(old(dec).remaining())
                },
                Err(_) => !Self::payload_parses(old(dec).remaining()),
            },
    {
        let chunk_x = dec.read_i32()?;
        let chunk_z = dec.read_i32()?;
        let ignored_data = dec.read_rest();
        Ok(ChunkAndLightData { chunk_x, chunk_z, ignored_data })
    }
}

/// The payload of `ChunkAndLightData` parses back to the packet itself.
pub proof fn lemma_chunk_and_light_data_round_trip(x: ChunkAndLightData)
    ensures
        x.payload_matches(x.payload_spec()),
{
    let s = x.payload_spec();
    let e0 = be_u32(x.chunk_x as u32);
    let e1 = be_u32(x.chunk_z as u32);
    let e2 = x.ignored_data@;
    let p1 = e0 + e1;
    let p2 = p1 + e2;
    let t2 = e2;
    let t1 = e1 + t2;
    lemma_concat_assoc(e0, e1, t2);
    assert(s == e0 + t1);
    let s0 = s;
    lemma_i32_field(x.chunk_x, t1);
    assert(parse_i32_field(s0) == Some((x.chunk_x, e0.len() as int)));
    lemma_concat_skip(e0, t1);
    let s1 = s0.skip(e0.len() as int);
    assert(s1 == t1);
    lemma_i32_field(x.chunk_z, t2);
    assert(parse_i32_field(s1) == Some((x.chunk_z, e1.len() as int)));
    lemma_concat_skip(e1, t2);
    let s2 = s1.skip(e1.len() as int);
    assert(s2 == t2);
    assert(s2 == x.ignored_data@);
}

/// `WorldEvent` packet; its payload is carried through opaquely.
#[derive(Debug)]
pub struct WorldEvent {
    pub ignored_data: Vec<u8>,
}

impl WorldEvent {
    /// The payload bytes this packet writes.
    pub open spec fn payload_spec(&self) -> Seq<u8> {
        self.ignored_data@
    }

    /// Whether this packet is what a reader makes of `s`.
    pub open spec fn payload_matches(&self, s: Seq<u8>) -> bool {
        self.ignored_data@ == s
    }

    /// Writes the payload fields in wire order.
    pub fn encode(&self, enc: &mut Encoder)
        ensures
            final(enc).bytes() == old(enc).bytes() + self.payload_spec(),
    {
        enc.write_slice(self.ignored_data.as_slice());
    }

    /// Reads the payload: the rest of the frame.
    pub fn decode(dec: &mut Decoder<'_>) -> (r: WorldEvent)
        ensures
            r.payload_matches(old(dec).remaining()),
        {
        WorldEvent { ignored_data: dec.read_rest() }
    }
}

/// `Particle` packet; its payload is carried through opaquely.
#[derive(Debug)]
pub struct Particle {
    pub ignored_data: Vec<u8>,
}

impl Particle {
    /// The payload bytes this packet writes.
    pub open spec fn payload_spec(&self) -> Seq<u8> {
        self.ignored_data@
    }

    /// Whether this packet is what a reader makes of `s`.
    pub open spec fn payload_matches(&self, s: Seq<u8>) -> bool {
        self.ignored_data@ == s
    }

    /// Writes the payload fields in wire order.
    pub fn encode(&self, enc: &mut Encoder)
        ensures
            final(enc).bytes() == old(enc).bytes() + self.payload_spec(),
    {
        enc.write_slice(self.ignored_data.as_slice());
    }

    /// Reads the payload: the rest of the frame.
    pub fn decode(dec: &mut Decoder<'_>) -> (r: Particle)
        ensures
            r.payload_matches(old(dec).remaining()),
        {
        Particle { ignored_data: dec.read_rest() }
    }
}

/// `UpdateLight` packet, with the fields the multiplexer inspects.
#[derive(Debug)]
pub struct UpdateLight {
    pub chunk_x: i32,
    pub chunk_z: i32,
    pub ignored_data: Vec<u8>,
}

impl UpdateLight {
    /// The payload bytes this packet writes.
    pub open spec fn payload_spec(&self) -> Seq<u8> {
        varint_wire(self.chunk_x) + varint_wire(self.chunk_z) + self.ignored_data@
    }

    /// Whether this packet is what a reader makes of `s`.
    pub open spec fn payload_matches(&self, s: Seq<u8>) -> bool {
        match parse_varint_field(s) {
            None => false,
            Some((f_chunk_x, n0)) => {
                let s1 = s.skip(n0);
            match parse_varint_field(s1) {
                None => false,
                Some((f_chunk_z, n1)) => {
                    let s2 = s1.skip(n1);
                self.chunk_x == f_chunk_x && self.chunk_z == f_chunk_z && self.ignored_data@ == s2
                },
            }
            },
        }
    }

    /// Whether a reader can make any packet of this kind of `s`.
    pub open spec fn payload_parses(s: Seq<u8>) -> bool {
        match parse_varint_field(s) {
            None => false,
            Some((f_chunk_x, n0)) => {
                let s1 = s.skip(n0);
            match parse_varint_field(s1) {
                None => false,
                Some((f_chunk_z, n1)) => {
                    let s2 = s1.skip(n1);
                true
                },
            }
            },
        }
    }

    /// Writes the payload fields in wire order.
    pub fn encode(&self, enc: &mut Encoder)
        ensures
            final(enc).bytes() == old(enc).bytes() + self.payload_spec(),
    {
        enc.write_var_int(self.chunk_x);
        enc.write_var_int(self.chunk_z);
        enc.write_slice(self.ignored_data.as_slice());
        proof {
            assert_seqs_equal!(enc.bytes() == old(enc).bytes() + self.payload_spec());
        }
    }

    /// Reads the payload fields in wire order.
    pub fn decode(dec: &mut Decoder<'_>) -> (r: Result<UpdateLight, DecodeError>)
        ensures
            match r {
                Ok(x) => {
                    &&& x.payload_matches(old(dec).remaining())
                },
                Err(_) => !Self::payload_parses(old(dec).remaining()),
            },
    {
        let chunk_x = dec.read_var_int()?;
        let chunk_z = dec.read_var_int()?;
        let ignored_data = dec.read_rest();
        Ok(UpdateLight { chunk_x, chunk_z, ignored_data })
    }
}

/// The payload of `UpdateLight` parses back to the packet itself.
pub proof fn lemma_update_light_round_trip(x: UpdateLight)
    ensures
        x.payload_matches(x.payload_spec()),
{
    let s = x.payload_spec();
    let e0 = varint_wire(x.chunk_x);
    let e1 = varint_wire(x.chunk_z);
    let e2 = x.ignored_data@;
    let p1 = e0 + e1;
    let p2 = p1 + e2;
    let t2 = e2;
    let t1 = e1 + t2;
    lemma_concat_assoc(e0, e1, t2);
    assert(s == e0 + t1);
    let s0 = s;
    lemma_varint_field(x.chunk_x, t1);
    assert(parse_varint_field(s0) == Some((x.chunk_x, e0.len() as int)));
    lemma_concat_skip(e0, t1);
    let s1 = s0.skip(e0.len() as int);
    assert(s1 == t1);
    lemma_varint_field(x.chunk_z, t2);
    assert(parse_varint_field(s1) == Some((x.chunk_z, e1.len() as int)));
    lemma_concat_skip(e1, t2);
    let s2 = s1.skip(e1.len() as int);
    assert(s2 == t2);
    assert(s2 == x.ignored_data@);
}

/// `Login` packet; its payload is carried through opaquely.
#[derive(Debug)]
pub struct Login {
    pub ignored_data: Vec<u8>,
}

impl Login {
    /// The payload bytes this packet writes.
    pub open spec fn payload_spec(&self) -> Seq<u8> {
        self.ignored_data@
    }

    /// Whether this packet is what a reader makes of `s`.
    pub open spec fn payload_matches(&self, s: Seq<u8>) -> bool {
        self.ignored_data@ == s
    }

    /// Writes the payload fields in wire order.
    pub fn encode(&self, enc: &mut Encoder)
        ensures
            final(enc).bytes() == old(enc).bytes() + self.payload_spec(),
    {
        enc.write_slice(self.ignored_data.as_slice());
    }

    /// Reads the payload: the rest of the frame.
    pub fn decode(dec: &mut Decoder<'_>) -> (r: Login)
        ensures
            r.payload_matches(old(dec).remaining()),
        {
        Login { ignored_data: dec.read_rest() }
    }
}

/// `MapData` packet; its payload is carried through opaquely.
#[derive(Debug)]
pub struct MapData {
    pub ignored_data: Vec<u8>,
}

impl MapData {
    /// The payload bytes this packet writes.
    pub open spec fn payload_spec(&self) -> Seq<u8> {
        self.ignored_data@
    }

    /// Whether this packet is what a reader makes of `s`.
    pub open spec fn payload_matches(&self, s: Seq<u8>) -> bool {
        self.ignored_data@ == s
    }

    /// Writes the payload fields in wire order.
    pub fn encode(&self, enc: &mut Encoder)
        ensures
            final(enc).bytes() == old(enc).bytes() + self.payload_spec(),
    {
        enc.write_slice(self.ignored_data.as_slice());
    }

    /// Reads the payload: the rest of the frame.
    pub fn decode(dec: &mut Decoder<'_>) -> (r: MapData)
        ensures
            r.payload_matches(old(dec).remaining()),
        {
        MapData { ignored_data: dec.read_rest() }
    }
}

/// `MerchantOffers` packet; its payload is carried through opaquely.
#[derive(Debug)]
pub struct MerchantOffers {
    pub ignored_data: Vec<u8>,
}

impl MerchantOffers {
    /// The payload bytes this packet writes.
    pub open spec fn payload_spec(&self) -> Seq<u8> {
        self.ignored_data@
    }

    /// Whether this packet is what a reader makes of `s`.
    pub open spec fn payload_matches(&self, s: Seq<u8>) -> bool {
        self.ignored_data@ == s
    }

    /// Writes the payload fields in wire order.
    pub fn encode(&self, enc: &mut Encoder)
        ensures
            final(enc).bytes() == old(enc).bytes() + self.payload_spec(),
    {
        enc.write_slice(self.ignored_data.as_slice());
    }

    /// Reads the payload: the rest of the frame.
    pub fn decode(dec: &mut Decoder<'_>) -> (r: MerchantOffers)
        ensures
            r.payload_matches(old(dec).remaining()),
        {
        MerchantOffers { ignored_data: dec.read_rest() }
    }
}

/// `UpdateEntityPosition` packet, with the fields the multiplexer inspects.
#[derive(Debug)]
pub struct UpdateEntityPosition {
    pub entity_id: i32,
    pub delta_x: i16,
    pub delta_y: i16,
    pub delta_z: i16,
    pub on_ground: bool,
}

impl UpdateEntityPosition {
    /// The payload bytes this packet writes.
    pub open spec fn payload_spec(&self) -> Seq<u8> {
        varint_wire(self.entity_id) + be_u16(self.delta_x as u16) + be_u16(self.delta_y as u16) + be_u16(self.delta_z as u16) + bool_wire(self.on_ground)
    }

    /// Whether this packet is what a reader makes of `s`.
    pub open spec fn payload_matches(&self, s: Seq<u8>) -> bool {
        match parse_varint_field(s) {
            None => false,
            Some((f_entity_id, n0)) => {
                let s1 = s.skip(n0);
            match parse_i16_field(s1) {
                None => false,
                Some((f_delta_x, n1)) => {
                    let s2 = s1.skip(n1);
                match parse_i16_field(s2) {
                    None => false,
                    Some((f_delta_y, n2)) => {
                        let s3 = s2.skip(n2);
                    match parse_i16_field(s3) {
                        None => false,
                        Some((f_delta_z, n3)) => {
                            let s4 = s3.skip(n3);
                        match parse_bool_field(s4) {
                            None => false,
                            Some((f_on_ground, n4)) => {
                                let s5 = s4.skip(n4);
                            self.entity_id == f_entity_id && self.delta_x == f_delta_x && self.delta_y == f_delta_y && self.delta_z == f_delta_z && self.on_ground == f_on_ground
                            },
                        }
                        },
                    }
                    },
                }
                },
            }
            },
        }
    }

    /// Whether a reader can make any packet of this kind of `s`.
    pub open spec fn payload_parses(s: Seq<u8>) -> bool {
        match parse_varint_field(s) {
            None => false,
            Some((f_entity_id, n0)) => {
                let s1 = s.skip(n0);
            match parse_i16_field(s1) {
                None => false,
                Some((f_delta_x, n1)) => {
                    let s2 = s1.skip(n1);
                match parse_i16_field(s2) {
                    None => false,
                    Some((f_delta_y, n2)) => {
                        let s3 = s2.skip(n2);
                    match parse_i16_field(s3) {
                        None => false,
                        Some((f_delta_z, n3)) => {
                            let s4 = s3.skip(n3);
                        match parse_bool_field(s4) {
                            None => false,
                            Some((f_on_ground, n4)) => {
                                let s5 = s4.skip(n4);
                            true
                            },
                        }
                        },
                    }
                    },
                }
                },
            }
            },
        }
    }

    /// Writes the payload fields in wire order.
    pub fn encode(&self, enc: &mut Encoder)
        ensures
            final(enc).bytes() == old(enc).bytes() + self.payload_spec(),
    {
        enc.write_var_int(self.entity_id);
        enc.write_i16(self.delta_x);
        enc.write_i16(self.delta_y);
        enc.write_i16(self.delta_z);
        enc.write_bool(self.on_ground);
        proof {
            assert_seqs_equal!(enc.bytes() == old(enc).bytes() + self.payload_spec());
        }
    }

    /// Reads the payload fields in wire order.
    pub fn decode(dec: &mut Decoder<'_>) -> (r: Result<UpdateEntityPosition, DecodeError>)
        ensures
            match r {
                Ok(x) => {
                    &&& x.payload_matches(old(dec).remaining())
                },
                Err(_) => !Self::payload_parses(old(dec).remaining()),
            },
    {
        let entity_id = dec.read_var_int()?;
        let delta_x = dec.read_i16()?;
        let delta_y = dec.read_i16()?;
        let delta_z = dec.read_i16()?;
        let on_ground = dec.read_bool()?;
        Ok(UpdateEntityPosition { entity_id, delta_x, delta_y, delta_z, on_ground })
    }
}

/// The payload of `UpdateEntityPosition` parses back to the packet itself.
#[verifier::rlimit(100)]
#[verifier::spinoff_prover]
pub proof fn lemma_update_entity_position_round_trip(x: UpdateEntityPosition)
    ensures
        x.payload_matches(x.payload_spec()),
{
    let s = x.payload_spec();
    let e0 = varint_wire(x.entity_id);
    let e1 = be_u16(x.delta_x as u16);
    let e2 = be_u16(x.delta_y as u16);
    let e3 = be_u16(x.delta_z as u16);
    let e4 = bool_wire(x.on_ground);
    let p1 = e0 + e1;
    let p2 = p1 + e2;
    let p3 = p2 + e3;
    let p4 = p3 + e4;
    let t4 = e4;
    let t3 = e3 + t4;
    let t2 = e2 + t3;
    let t1 = e1 + t2;
    lemma_concat_assoc(p2, e3, t4);
    lemma_concat_assoc(p1, e2, t3);
    lemma_concat_assoc(e0, e1, t2);
    assert(s == e0 + t1);
    let s0 = s;
    lemma_varint_field(x.entity_id, t1);
    assert(parse_varint_field(s0) == Some((x.entity_id, e0.len() as int)));
    lemma_concat_skip(e0, t1);
    let s1 = s0.skip(e0.len() as int);
    assert(s1 == t1);
    lemma_i16_field(x.delta_x, t2);
    assert(parse_i16_field(s1) == Some((x.delta_x, e1.len() as int)));
    lemma_concat_skip(e1, t2);
    let s2 = s1.skip(e1.len() as int);
    assert(s2 == t2);
    lemma_i16_field(x.delta_y, t3);
    assert(parse_i16_field(s2) == Some((x.delta_y, e2.len() as int)));
    lemma_concat_skip(e2, t3);
    let s3 = s2.skip(e2.len() as int);
    assert(s3 == t3);
    lemma_i16_field(x.delta_z, t4);
    assert(parse_i16_field(s3) == Some((x.delta_z, e3.len() as int)));
    lemma_concat_skip(e3, t4);
    let s4 = s3.skip(e3.len() as int);
    assert(s4 == t4);
    assert_seqs_equal!(e4 + Seq::<u8>::empty() == e4);
    lemma_bool_field(x.on_ground, Seq::<u8>::empty());
    assert(parse_bool_field(s4) == Some((x.on_ground, e4.len() as int)));
}

/// `UpdateEntityPositionAndRotation` packet, with the fields the multiplexer inspects.
#[derive(Debug)]
pub struct UpdateEntityPositionAndRotation {
    pub entity_id: i32,
    pub delta_x: i16,
    pub delta_y: i16,
    pub delta_z: i16,
    pub yaw: u8,
    pub pitch: u8,
    pub on_ground: bool,
}

impl UpdateEntityPositionAndRotation {
    /// The payload bytes this packet writes.
    pub open spec fn payload_spec(&self) -> Seq<u8> {
        varint_wire(self.entity_id) + be_u16(self.delta_x as u16) + be_u16(self.delta_y as u16) + be_u16(self.delta_z as u16) + seq![self.yaw] + seq![self.pitch] + bool_wire(self.on_ground)
    }

    /// Whether this packet is what a reader makes of `s`.
    pub open spec fn payload_matches(&self, s: Seq<u8>) -> bool {
        match parse_varint_field(s) {
            None => false,
            Some((f_entity_id, n0)) => {
                let s1 = s.skip(n0);
            match parse_i16_field(s1) {
                None => false,
                Some((f_delta_x, n1)) => {
                    let s2 = s1.skip(n1);
                match parse_i16_field(s2) {
                    None => false,
                    Some((f_delta_y, n2)) => {
                        let s3 = s2.skip(n2);
                    match parse_i16_field(s3) {
                        None => false,
                        Some((f_delta_z, n3)) => {
                            let s4 = s3.skip(n3);
                        match parse_u8_field(s4) {
                            None => false,
                            Some((f_yaw, n4)) => {
                                let s5 = s4.skip(n4);
                            match parse_u8_field(s5) {
                                None => false,
                                Some((f_pitch, n5)) => {
                                    let s6 = s5.skip(n5);
                                match parse_bool_field(s6) {
                                    None => false,
                                    Some((f_on_ground, n6)) => {
                                        let s7 = s6.skip(n6);
                                    self.entity_id == f_entity_id && self.delta_x == f_delta_x && self.delta_y == f_delta_y && self.delta_z == f_delta_z && self.yaw == f_yaw && self.pitch == f_pitch && self.on_ground == f_on_ground
                                    },
                                }
                                },
                            }
                            },
                        }
                        },
                    }
                    },
                }
                },
            }
            },
        }
    }

    /// Whether a reader can make any packet of this kind of `s`.
    pub open spec fn payload_parses(s: Seq<u8>) -> bool {
        match parse_varint_field(s) {
            None => false,
            Some((f_entity_id, n0)) => {
                let s1 = s.skip(n0);
            match parse_i16_field(s1) {
                None => false,
                Some((f_delta_x, n1)) => {
                    let s2 = s1.skip(n1);
                match parse_i16_field(s2) {
                    None => false,
                    Some((f_delta_y, n2)) => {
                        let s3 = s2.skip(n2);
                    match parse_i16_field(s3) {
                        None => false,
                        Some((f_delta_z, n3)) => {
                            let s4 = s3.skip(n3);
                        match parse_u8_field(s4) {
                            None => false,
                            Some((f_yaw, n4)) => {
                                let s5 = s4.skip(n4);
                            match parse_u8_field(s5) {
                                None => false,
                                Some((f_pitch, n5)) => {
                                    let s6 = s5.skip(n5);
                                match parse_bool_field(s6) {
                                    None => false,
                                    Some((f_on_ground, n6)) => {
                                        let s7 = s6.skip(n6);
                                    true
                                    },
                                }
                                },
                            }
                            },
                        }
                        },
                    }
                    },
                }
                },
            }
            },
        }
    }

    /// Writes the payload fields in wire order.
    pub fn encode(&self, enc: &mut Encoder)
        ensures
            final(enc).bytes() == old(enc).bytes() + self.payload_spec(),
    {
        enc.write_var_int(self.entity_id);
        enc.write_i16(self.delta_x);
        enc.write_i16(self.delta_y);
        enc.write_i16(self.delta_z);
        enc.write_u8(self.yaw);
        enc.write_u8(self.pitch);
        enc.write_bool(self.on_ground);
        proof {
            assert_seqs_equal!(enc.bytes() == old(enc).bytes() + self.payload_spec());
        }
    }

    /// Reads the payload fields in wire order.
    pub fn decode(dec: &mut Decoder<'_>) -> (r: Result<UpdateEntityPositionAndRotation, DecodeError>)
        ensures
            match r {
                Ok(x) => {
                    &&& x.payload_matches(old(dec).remaining())
                },
                Err(_) => !Self::payload_parses(old(dec).remaining()),
            },
    {
        let entity_id = dec.read_var_int()?;
        let delta_x = dec.read_i16()?;
        let delta_y = dec.read_i16()?;
        let delta_z = dec.read_i16()?;
        let yaw = dec.read_u8()?;
        let pitch = dec.read_u8()?;
        let on_ground = dec.read_bool()?;
        Ok(UpdateEntityPositionAndRotation { entity_id, delta_x, delta_y, delta_z, yaw, pitch, on_ground })
    }
}

/// The payload of `UpdateEntityPositionAndRotation` parses back to the packet itself.
#[verifier::rlimit(100)]
#[verifier::spinoff_prover]
pub proof fn lemma_update_entity_position_and_rotation_round_trip(x: UpdateEntityPositionAndRotation)
    ensures
        x.payload_matches(x.payload_spec()),
{
    let s = x.payload_spec();
    let e0 = varint_wire(x.entity_id);
    let e1 = be_u16(x.delta_x as u16);
    let e2 = be_u16(x.delta_y as u16);
    let e3 = be_u16(x.delta_z as u16);
    let e4 = seq![x.yaw];
    let e5 = seq![x.pitch];
    let e6 = bool_wire(x.on_ground);
    let p1 = e0 + e1;
    let p2 = p1 + e2;
    let p3 = p2 + e3;
    let p4 = p3 + e4;
    let p5 = p4 + e5;
    let p6 = p5 + e6;
    let t6 = e6;
    let t5 = e5 + t6;
    let t4 = e4 + t5;
    let t3 = e3 + t4;
    let t2 = e2 + t3;
    let t1 = e1 + t2;
    lemma_concat_assoc(p4, e5, t6);
    lemma_concat_assoc(p3, e4, t5);
    lemma_concat_assoc(p2, e3, t4);
    lemma_concat_assoc(p1, e2, t3);
    lemma_concat_assoc(e0, e1, t2);
    assert(s == e0 + t1);
    let s0 = s;
    lemma_varint_field(x.entity_id, t1);
    assert(parse_varint_field(s0) == Some((x.entity_id, e0.len() as int)));
    lemma_concat_skip(e0, t1);
    let s1 = s0.skip(e0.len() as int);
    assert(s1 == t1);
    lemma_i16_field(x.delta_x, t2);
    assert(parse_i16_field(s1) == Some((x.delta_x, e1.len() as int)));
    lemma_concat_skip(e1, t2);
    let s2 = s1.skip(e1.len() as int);
    assert(s2 == t2);
    lemma_i16_field(x.delta_y, t3);
    assert(parse_i16_field(s2) == Some((x.delta_y, e2.len() as int)));
    lemma_concat_skip(e2, t3);
    let s3 = s2.skip(e2.len() as int);
    assert(s3 == t3);
    lemma_i16_field(x.delta_z, t4);
    assert(parse_i16_field(s3) == Some((x.delta_z, e3.len() as int)));
    lemma_concat_skip(e3, t4);
    let s4 = s3.skip(e3.len() as int);
    assert(s4 == t4);
    lemma_u8_field(x.yaw, t5);
    assert(parse_u8_field(s4) == Some((x.yaw, e4.len() as int)));
    lemma_concat_skip(e4, t5);
    let s5 = s4.skip(e4.len() as int);
    assert(s5 == t5);
    lemma_u8_field(x.pitch, t6);
    assert(parse_u8_field(s5) == Some((x.pitch, e5.len() as int)));
    lemma_concat_skip(e5, t6);
    let s6 = s5.skip(e5.len() as int);
    assert(s6 == t6);
    assert_seqs_equal!(e6 + Seq::<u8>::empty() == e6);
    lemma_bool_field(x.on_ground, Seq::<u8>::empty());
    assert(parse_bool_field(s6) == Some((x.on_ground, e6.len() as int)));
}

/// `UpdateEntityRotation` packet, with the fields the multiplexer inspects.
#[derive(Debug)]
pub struct UpdateEntityRotation {
    pub entity_id: i32,
    pub yaw: u8,
    pub pitch: u8,
    pub on_ground: bool,
}

impl UpdateEntityRotation {
    /// The payload bytes this packet writes.
    pub open spec fn payload_spec(&self) -> Seq<u8> {
        varint_wire(self.entity_id) + seq![self.yaw] + seq![self.pitch] + bool_wire(self.on_ground)
    }

    /// Whether this packet is what a reader makes of `s`.
    pub open spec fn payload_matches(&self, s: Seq<u8>) -> bool {
        match parse_varint_field(s) {
            None => false,
            Some((f_entity_id, n0)) => {
                let s1 = s.skip(n0);
            match parse_u8_field(s1) {
                None => false,
                Some((f_yaw, n1)) => {
                    let s2 = s1.skip(n1);
                match parse_u8_field(s2) {
                    None => false,
                    Some((f_pitch, n2)) => {
                        let s3 = s2.skip(n2);
                    match parse_bool_field(s3) {
                        None => false,
                        Some((f_on_ground, n3)) => {
                            let s4 = s3.skip(n3);
                        self.entity_id == f_entity_id && self.yaw == f_yaw && self.pitch == f_pitch && self.on_ground == f_on_ground
                        },
                    }
                    },
                }
                },
            }
            },
        }
    }

    /// Whether a reader can make any packet of this kind of `s`.
    pub open spec fn payload_parses(s: Seq<u8>) -> bool {
        match parse_varint_field(s) {
            None => false,
            Some((f_entity_id, n0)) => {
                let s1 = s.skip(n0);
            match parse_u8_field(s1) {
                None => false,
                Some((f_yaw, n1)) => {
                    let s2 = s1.skip(n1);
                match parse_u8_field(s2) {
                    None => false,
                    Some((f_pitch, n2)) => {
                        let s3 = s2.skip(n2);
                    match parse_bool_field(s3) {
                        None => false,
                        Some((f_on_ground, n3)) => {
                            let s4 = s3.skip(n3);
                        true
                        },
                    }
                    },
                }
                },
            }
            },
        }
    }

    /// Writes the payload fields in wire order.
    pub fn encode(&self, enc: &mut Encoder)
        ensures
            final(enc).bytes() == old(enc).bytes() + self.payload_spec(),
    {
        enc.write_var_int(self.entity_id);
        enc.write_u8(self.yaw);
        enc.write_u8(self.pitch);
        enc.write_bool(self.on_ground);
        proof {
            assert_seqs_equal!(enc.bytes() == old(enc).bytes() + self.payload_spec());
        }
    }

    /// Reads the payload fields in wire order.
    pub fn decode(dec: &mut Decoder<'_>) -> (r: Result<UpdateEntityRotation, DecodeError>)
        ensures
            match r {
                Ok(x) => {
                    &&& x.payload_matches(old(dec).remaining())
                },
                Err(_) => !Self::payload_parses(old(dec).remaining()),
            },
    {
        let entity_id = dec.read_var_int()?;
        let yaw = dec.read_u8()?;
        let pitch = dec.read_u8()?;
        let on_ground = dec.read_bool()?;
        Ok(UpdateEntityRotation { entity_id, yaw, pitch, on_ground })
    }
}

/// The payload of `UpdateEntityRotation` parses back to the packet itself.
#[verifier::rlimit(100)]
#[verifier::spinoff_prover]
pub proof fn lemma_update_entity_rotation_round_trip(x: UpdateEntityRotation)
    ensures
        x.payload_matches(x.payload_spec()),
{
    let s = x.payload_spec();
    let e0 = varint_wire(x.entity_id);
    let e1 = seq![x.yaw];
    let e2 = seq![x.pitch];
    let e3 = bool_wire(x.on_ground);
    let p1 = e0 + e1;
    let p2 = p1 + e2;
    let p3 = p2 + e3;
    let t3 = e3;
    let t2 = e2 + t3;
    let t1 = e1 + t2;
    lemma_concat_assoc(p1, e2, t3);
    lemma_concat_assoc(e0, e1, t2);
    assert(s == e0 + t1);
    let s0 = s;
    lemma_varint_field(x.entity_id, t1);
    assert(parse_varint_field(s0) == Some((x.entity_id, e0.len() as int)));
    lemma_concat_skip(e0, t1);
    let s1 = s0.skip(e0.len() as int);
    assert(s1 == t1);
    lemma_u8_field(x.yaw, t2);
    assert(parse_u8_field(s1) == Some((x.yaw, e1.len() as int)));
    lemma_concat_skip(e1, t2);
    let s2 = s1.skip(e1.len() as int);
    assert(s2 == t2);
    lemma_u8_field(x.pitch, t3);
    assert(parse_u8_field(s2) == Some((x.pitch, e2.len() as int)));
    lemma_concat_skip(e2, t3);
    let s3 = s2.skip(e2.len() as int);
    assert(s3 == t3);
    assert_seqs_equal!(e3 + Seq::<u8>::empty() == e3);
    lemma_bool_field(x.on_ground, Seq::<u8>::empty());
    assert(parse_bool_field(s3) == Some((x.on_ground, e3.len() as int)));
}

/// `MoveVehicle` packet; its payload is carried through opaquely.
#[derive(Debug)]
pub struct MoveVehicle {
    pub ignored_data: Vec<u8>,
}

impl MoveVehicle {
    /// The payload bytes this packet writes.
    pub open spec fn payload_spec(&self) -> Seq<u8> {
        self.ignored_data@
    }

    /// Whether this packet is what a reader makes of `s`.
    pub open spec fn payload_matches(&self, s: Seq<u8>) -> bool {
        self.ignored_data@ == s
    }

    /// Writes the payload fields in wire order.
    pub fn encode(&self, enc: &mut Encoder)
        ensures
            final(enc).bytes() == old(enc).bytes() + self.payload_spec(),
    {
        enc.write_slice(self.ignored_data.as_slice());
    }

    /// Reads the payload: the rest of the frame.
    pub fn decode(dec: &mut Decoder<'_>) -> (r: MoveVehicle)
        ensures
            r.payload_matches(old(dec).remaining()),
        {
        MoveVehicle { ignored_data: dec.read_rest() }
    }
}

/// `OpenBook` packet; its payload is carried through opaquely.
#[derive(Debug)]
pub struct OpenBook {
    pub ignored_data: Vec<u8>,
}

impl OpenBook {
    /// The payload bytes this packet writes.
    pub open spec fn payload_spec(&self) -> Seq<u8> {
        self.ignored_data@
    }

    /// Whether this packet is what a reader makes of `s`.
    pub open spec fn payload_matches(&self, s: Seq<u8>) -> bool {
        self.ignored_data@ == s
    }

    /// Writes the payload fields in wire order.
    pub fn encode(&self, enc: &mut Encoder)
        ensures
            final(enc).bytes() == old(enc).bytes() + self.payload_spec(),
    {
        enc.write_slice(self.ignored_data.as_slice());
    }

    /// Reads the payload: the rest of the frame.
    pub fn decode(dec: &mut Decoder<'_>) -> (r: OpenBook)
        ensures
            r.payload_matches(old(dec).remaining()),
        {
        OpenBook { ignored_data: dec.read_rest() }
    }
}

/// `OpenScreen` packet; its payload is carried through opaquely.
#[derive(Debug)]
pub struct OpenScreen {
    pub ignored_data: Vec<u8>,
}

impl OpenScreen {
    /// The payload bytes this packet writes.
    pub open spec fn payload_spec(&self) -> Seq<u8> {
        self.ignored_data@
    }

    /// Whether this packet is what a reader makes of `s`.
    pub open spec fn payload_matches(&self, s: Seq<u8>) -> bool {
        self.ignored_data@ == s
    }

    /// Writes the payload fields in wire order.
    pub fn encode(&self, enc: &mut Encoder)
        ensures
            final(enc).bytes() == old(enc).bytes() + self.payload_spec(),
    {
        enc.write_slice(self.ignored_data.as_slice());
    }

    /// Reads the payload: the rest of the frame.
    pub fn decode(dec: &mut Decoder<'_>) -> (r: OpenScreen)
        ensures
            r.payload_matches(old(dec).remaining()),
        {
        OpenScreen { ignored_data: dec.read_rest() }
    }
}

/// `OpenSignEditor` packet; its payload is carried through opaquely.
#[derive(Debug)]
pub struct OpenSignEditor {
    pub ignored_data: Vec<u8>,
}

impl OpenSignEditor {
    /// The payload bytes this packet writes.
    pub open spec fn payload_spec(&self) -> Seq<u8> {
        self.ignored_data@
    }

    /// Whether this packet is what a reader makes of `s`.
    pub open spec fn payload_matches(&self, s: Seq<u8>) -> bool {
        self.ignored_data@ == s
    }

    /// Writes the payload fields in wire order.
    pub fn encode(&self, enc: &mut Encoder)
        ensures
            final(enc).bytes() == old(enc).bytes() + self.payload_spec(),
    {
        enc.write_slice(self.ignored_data.as_slice());
    }

    /// Reads the payload: the rest of the frame.
    pub fn decode(dec: &mut Decoder<'_>) -> (r: OpenSignEditor)
        ensures
            r.payload_matches(old(dec).remaining()),
        {
        OpenSignEditor { ignored_data: dec.read_rest() }
    }
}

/// `Ping` packet; its payload is carried through opaquely.
#[derive(Debug)]
pub struct Ping {
    pub ignored_data: Vec<u8>,
}

impl Ping {
    /// The payload bytes this packet writes.
    pub open spec fn payload_spec(&self) -> Seq<u8> {
        self.ignored_data@
    }

    /// Whether this packet is what a reader makes of `s`.
    pub open spec fn payload_matches(&self, s: Seq<u8>) -> bool {
        self.ignored_data@ == s
    }

    /// Writes the payload fields in wire order.
    pub fn encode(&self, enc: &mut Encoder)
        ensures
            final(enc).bytes() == old(enc).bytes() + self.payload_spec(),
    {
        enc.write_slice(self.ignored_data.as_slice());
    }

    /// Reads the payload: the rest of the frame.
    pub fn decode(dec: &mut Decoder<'_>) -> (r: Ping)
        ensures
            r.payload_matches(old(dec).remaining()),
        {
        Ping { ignored_data: dec.read_rest() }
    }
}

/// `PingResponse` packet; its payload is carried through opaquely.
#[derive(Debug)]
pub struct PingResponse {
    pub ignored_data: Vec<u8>,
}

impl PingResponse {
    /// The payload bytes this packet writes.
    pub open spec fn payload_spec(&self) -> Seq<u8> {
        self.ignored_data@
    }

    /// Whether this packet is what a reader makes of `s`.
    pub open spec fn payload_matches(&self, s: Seq<u8>) -> bool {
        self.ignored_data@ == s
    }

    /// Writes the payload fields in wire order.
    pub fn encode(&self, enc: &mut Encoder)
        ensures
            final(enc).bytes() == old(enc).bytes() + self.payload_spec(),
    {
        enc.write_slice(self.ignored_data.as_slice());
    }

    /// Reads the payload: the rest of the frame.
    pub fn decode(dec: &mut Decoder<'_>) -> (r: PingResponse)
        ensures
            r.payload_matches(old(dec).remaining()),
        {
        PingResponse { ignored_data: dec.read_rest() }
    }
}

/// `PlaceGhostRecipe` packet; its payload is carried through opaquely.
#[derive(Debug)]
pub struct PlaceGhostRecipe {
    pub ignored_data: Vec<u8>,
}

impl PlaceGhostRecipe {
    /// The payload bytes this packet writes.
    pub open spec fn payload_spec(&self) -> Seq<u8> {
        self.ignored_data@
    }

    /// Whether this packet is what a reader makes of `s`.
    pub open spec fn payload_matches(&self, s: Seq<u8>) -> bool {
        self.ignored_data@ == s
    }

    /// Writes the payload fields in wire order.
    pub fn encode(&self, enc: &mut Encoder)
        ensures
            final(enc).bytes() == old(enc).bytes() + self.payload_spec(),
    {
        enc.write_slice(self.ignored_data.as_slice());
    }

    /// Reads the payload: the rest of the frame.
    pub fn decode(dec: &mut Decoder<'_>) -> (r: PlaceGhostRecipe)
        ensures
            r.payload_matches(old(dec).remaining()),
        {
        PlaceGhostRecipe { ignored_data: dec.read_rest() }
    }
}

/// `PlayerAbilities` packet; its payload is carried through opaquely.
#[derive(Debug)]
pub struct PlayerAbilities {
    pub ignored_data: Vec<u8>,
}

impl PlayerAbilities {
    /// The payload bytes this packet writes.
    pub open spec fn payload_spec(&self) -> Seq<u8> {
        self.ignored_data@
    }

    /// Whether this packet is what a reader makes of `s`.
    pub open spec fn payload_matches(&self, s: Seq<u8>) -> bool {
        self.ignored_data@ == s
    }

    /// Writes the payload fields in wire order.
    pub fn encode(&self, enc: &mut Encoder)
        ensures
            final(enc).bytes() == old(enc).bytes() + self.payload_spec(),
    {
        enc.write_slice(self.ignored_data.as_slice());
    }

    /// Reads the payload: the rest of the frame.
    pub fn decode(dec: &mut Decoder<'_>) -> (r: PlayerAbilities)
        ensures
            r.payload_matches(old(dec).remaining()),
        {
        PlayerAbilities { ignored_data: dec.read_rest() }
    }
}

/// `PlayerChatMessage` packet; its payload is carried through opaquely.
#[derive(Debug)]
pub struct PlayerChatMessage {
    pub ignored_data: Vec<u8>,
}

impl PlayerChatMessage {
    /// The payload bytes this packet writes.
    pub open spec fn payload_spec(&self) -> Seq<u8> {
        self.ignored_data@
    }

    /// Whether this packet is what a reader makes of `s`.
    pub open spec fn payload_matches(&self, s: Seq<u8>) -> bool {
        self.ignored_data@ == s
    }

    /// Writes the payload fields in wire order.
    pub fn encode(&self, enc: &mut Encoder)
        ensures
            final(enc).bytes() == old(enc).bytes() + self.payload_spec(),
    {
        enc.write_slice(self.ignored_data.as_slice());
    }

    /// Reads the payload: the rest of the frame.
    pub fn decode(dec: &mut Decoder<'_>) -> (r: PlayerChatMessage)
        ensures
            r.payload_matches(old(dec).remaining()),
        {
        PlayerChatMessage { ignored_data: dec.read_rest() }
    }
}

/// `EndCombat` packet; its payload is carried through opaquely.
#[derive(Debug)]
pub struct EndCombat {
    pub ignored_data: Vec<u8>,
}

impl EndCombat {
    /// The payload bytes this packet writes.
    pub open spec fn payload_spec(&self) -> Seq<u8> {
        self.ignored_data@
    }

    /// Whether this packet is what a reader makes of `s`.
    pub open spec fn payload_matches(&self, s: Seq<u8>) -> bool {
        self.ignored_data@ == s
    }

    /// Writes the payload fields in wire order.
    pub fn encode(&self, enc: &mut Encoder)
        ensures
            final(enc).bytes() == old(enc).bytes() + self.payload_spec(),
    {
        enc.write_slice(self.ignored_data.as_slice());
    }

    /// Reads the payload: the rest of the frame.
    pub fn decode(dec: &mut Decoder<'_>) -> (r: EndCombat)
        ensures
            r.payload_matches(old(dec).remaining()),
        {
        EndCombat { ignored_data: dec.read_rest() }
    }
}

/// `EnterCombat` packet; its payload is carried through opaquely.
#[derive(Debug)]
pub struct EnterCombat {
    pub ignored_data: Vec<u8>,
}

impl EnterCombat {
    /// The payload bytes this packet writes.
    pub open spec fn payload_spec(&self) -> Seq<u8> {
        self.ignored_data@
    }

    /// Whether this packet is what a reader makes of `s`.
    pub open spec fn payload_matches(&self, s: Seq<u8>) -> bool {
        self.ignored_data@ == s
    }

    /// Writes the payload fields in wire order.
    pub fn encode(&self, enc: &mut Encoder)
        ensures
            final(enc).bytes() == old(enc).bytes() + self.payload_spec(),
    {
        enc.write_slice(self.ignored_data.as_slice());
    }

    /// Reads the payload: the rest of the frame.
    pub fn decode(dec: &mut Decoder<'_>) -> (r: EnterCombat)
        ensures
            r.payload_matches(old(dec).remaining()),
        {
        EnterCombat { ignored_data: dec.read_rest() }
    }
}

/// `CombatDeath` packet; its payload is carried through opaquely.
#[derive(Debug)]
pub struct CombatDeath {
    pub ignored_data: Vec<u8>,
}

impl CombatDeath {
    /// The payload bytes this packet writes.
    pub open spec fn payload_spec(&self) -> Seq<u8> {
        self.ignored_data@
    }

    /// Whether this packet is what a reader makes of `s`.
    pub open spec fn payload_matches(&self, s: Seq<u8>) -> bool {
        self.ignored_data@ == s
    }

    /// Writes the payload fields in wire order.
    pub fn encode(&self, enc: &mut Encoder)
        ensures
            final(enc).bytes() == old(enc).bytes() + self.payload_spec(),
    {
        enc.write_slice(self.ignored_data.as_slice());
    }

    /// Reads the payload: the rest of the frame.
    pub fn decode(dec: &mut Decoder<'_>) -> (r: CombatDeath)
        ensures
            r.payload_matches(old(dec).remaining()),
        {
        CombatDeath { ignored_data: dec.read_rest() }
    }
}

/// `PlayerInfoRemove` packet; its payload is carried through opaquely.
#[derive(Debug)]
pub struct PlayerInfoRemove {
    pub ignored_data: Vec<u8>,
}

impl PlayerInfoRemove {
    /// The payload bytes this packet writes.
    pub open spec fn payload_spec(&self) -> Seq<u8> {
        self.ignored_data@
    }

    /// Whether this packet is what a reader makes of `s`.
    pub open spec fn payload_matches(&self, s: Seq<u8>) -> bool {
        self.ignored_data@ == s
    }

    /// Writes the payload fields in wire order.
    pub fn encode(&self, enc: &mut Encoder)
        ensures
            final(enc).bytes() == old(enc).bytes() + self.payload_spec(),
    {
        enc.write_slice(self.ignored_data.as_slice());
    }

    /// Reads the payload: the rest of the frame.
    pub fn decode(dec: &mut Decoder<'_>) -> (r: PlayerInfoRemove)
        ensures
            r.payload_matches(old(dec).remaining()),
        {
        PlayerInfoRemove { ignored_data: dec.read_rest() }
    }
}

/// `PlayerInfoUpdate` packet; its payload is carried through opaquely.
#[derive(Debug)]
pub struct PlayerInfoUpdate {
    pub ignored_data: Vec<u8>,
}

impl PlayerInfoUpdate {
    /// The payload bytes this packet writes.
    pub open spec fn payload_spec(&self) -> Seq<u8> {
        self.ignored_data@
    }

    /// Whether this packet is what a reader makes of `s`.
    pub open spec fn payload_matches(&self, s: Seq<u8>) -> bool {
        self.ignored_data@ == s
    }

    /// Writes the payload fields in wire order.
    pub fn encode(&self, enc: &mut Encoder)
        ensures
            final(enc).bytes() == old(enc).bytes() + self.payload_spec(),
    {
        enc.write_slice(self.ignored_data.as_slice());
    }

    /// Reads the payload: the rest of the frame.
    pub fn decode(dec: &mut Decoder<'_>) -> (r: PlayerInfoUpdate)
        ensures
            r.payload_matches(old(dec).remaining()),
        {
        PlayerInfoUpdate { ignored_data: dec.read_rest() }
    }
}

/// `LookAt` packet; its payload is carried through opaquely.
#[derive(Debug)]
pub struct LookAt {
    pub ignored_data: Vec<u8>,
}

impl LookAt {
    /// The payload bytes this packet writes.
    pub open spec fn payload_spec(&self) -> Seq<u8> {
        self.ignored_data@
    }

    /// Whether this packet is what a reader makes of `s`.
    pub open spec fn payload_matches(&self, s: Seq<u8>) -> bool {
        self.ignored_data@ == s
    }

    /// Writes the payload fields in wire order.
    pub fn encode(&self, enc: &mut Encoder)
        ensures
            final(enc).bytes() == old(enc).bytes() + self.payload_spec(),
    {
        enc.write_slice(self.ignored_data.as_slice());
    }

    /// Reads the payload: the rest of the frame.
    pub fn decode(dec: &mut Decoder<'_>) -> (r: LookAt)
        ensures
            r.payload_matches(old(dec).remaining()),
        {
        LookAt { ignored_data: dec.read_rest() }
    }
}

/// `SynchronizePlayerPosition` packet; its payload is carried through opaquely.
#[derive(Debug)]
pub struct SynchronizePlayerPosition {
    pub ignored_data: Vec<u8>,
}

impl SynchronizePlayerPosition {
    /// The payload bytes this packet writes.
    pub open spec fn payload_spec(&self) -> Seq<u8> {
        self.ignored_data@
    }

    /// Whether this packet is what a reader makes of `s`.
    pub open spec fn payload_matches(&self, s: Seq<u8>) -> bool {
        self.ignored_data@ == s
    }

    /// Writes the payload fields in wire order.
    pub fn encode(&self, enc: &mut Encoder)
        ensures
            final(enc).bytes() == old(enc).bytes() + self.payload_spec(),
    {
        enc.write_slice(self.ignored_data.as_slice());
    }

    /// Reads the payload: the rest of the frame.
    pub fn decode(dec: &mut Decoder<'_>) -> (r: SynchronizePlayerPosition)
        ensures
            r.payload_matches(old(dec).remaining()),
        {
        SynchronizePlayerPosition { ignored_data: dec.read_rest() }
    }
}

/// `UpdateRecipeBook` packet; its payload is carried through opaquely.
#[derive(Debug)]
pub struct UpdateRecipeBook {
    pub ignored_data: Vec<u8>,
}

impl UpdateRecipeBook {
    /// The payload bytes this packet writes.
    pub open spec fn payload_spec(&self) -> Seq<u8> {
        self.ignored_data@
    }

    /// Whether this packet is what a reader makes of `s`.
    pub open spec fn payload_matches(&self, s: Seq<u8>) -> bool {
        self.ignored_data@ == s
    }

    /// Writes the payload fields in wire order.
    pub fn encode(&self, enc: &mut Encoder)
        ensures
            final(enc).bytes() == old(enc).bytes() + self.payload_spec(),
    {
        enc.write_slice(self.ignored_data.as_slice());
    }

    /// Reads the payload: the rest of the frame.
    pub fn decode(dec: &mut Decoder<'_>) -> (r: UpdateRecipeBook)
        ensures
            r.payload_matches(old(dec).remaining()),
        {
        UpdateRecipeBook { ignored_data: dec.read_rest() }
    }
}

/// `RemoveEntities` packet: the VarInt-counted list of entity ids to
/// remove.
#[derive(Debug)]
pub struct RemoveEntities {
    pub entities: Vec<i32>,
}

impl RemoveEntities {
    /// The payload bytes this packet writes.
    pub open spec fn payload_spec(&self) -> Seq<u8> {
        entity_list_wire(self.entities@)
    }

    /// Whether this packet is what a reader makes of `s`.
    pub open spec fn payload_matches(&self, s: Seq<u8>) -> bool {
        match parse_entity_list_field(s) {
            None => false,
            Some((ids, n)) => self.entities@ == ids,
        }
    }

    /// Whether a reader can make any packet of this kind of `s`.
    pub open spec fn payload_parses(s: Seq<u8>) -> bool {
        parse_entity_list_field(s) is Some
    }

    /// Writes the count, then each id.
    pub fn encode(&self, enc: &mut Encoder)
        requires
            self.entities@.len() <= 0x7fffffff,
        ensures
            final(enc).bytes() == old(enc).bytes() + self.payload_spec(),
    {
        let count = self.entities.len();
        enc.write_var_int(count as i32);
        proof {
            assert(self.entities@.len() as i32 == count as i32);
        }
        let mut i: usize = 0;
        while i < count
            invariant
                i <= count,
                count == self.entities@.len(),
                count <= 0x7fffffff,
                enc.bytes() == old(enc).bytes() + varint_wire(count as i32) + entity_ids_wire(
                    self.entities@.take(i as int),
                ),
            decreases count - i,
        {
            let ghost before = enc.bytes();
            enc.write_var_int(self.entities[i]);
            proof {
                let pre = self.entities@.take(i as int);
                let one = seq![self.entities@[i as int]];
                assert_seqs_equal!(self.entities@.take(i as int + 1) == pre + one);
                lemma_entity_ids_wire_concat(pre, one);
                assert(entity_ids_wire(one) == varint_wire(one[0]) + entity_ids_wire(
                    one.skip(1),
                ));
                assert_seqs_equal!(one.skip(1) == Seq::<i32>::empty());
                assert_seqs_equal!(
                    entity_ids_wire(one) == varint_wire(self.entities@[i as int])
                );
                assert_seqs_equal!(
                    enc.bytes() == old(enc).bytes() + varint_wire(count as i32)
                        + entity_ids_wire(self.entities@.take(i as int + 1))
                );
            }
            i = i + 1;
        }
        proof {
            assert_seqs_equal!(self.entities@.take(count as int) == self.entities@);
            assert_seqs_equal!(enc.bytes() == old(enc).bytes() + self.payload_spec());
        }
    }

    /// Reads the count, then each id; a non-positive count reads as
    /// the empty list.
    #[verifier::loop_isolation(false)]
    pub fn decode(dec: &mut Decoder<'_>) -> (r: Result<RemoveEntities, DecodeError>)
        ensures
            match r {
                Ok(x) => {
                    &&& x.payload_matches(old(dec).remaining())
                    &&& x.entities@.len() <= 0x7fffffff
                },
                Err(_) => !Self::payload_parses(old(dec).remaining()),
            },
    {
        let count = dec.read_var_int()?;
        let k: usize = if count <= 0 {
            0
        } else {
            count as usize
        };
        let ghost mid: Seq<u8> = dec.remaining();
        let mut entities: Vec<i32> = Vec::new();
        let mut i: usize = 0;
        proof {
            if parse_entity_ids(mid, k as nat) is Some {
                let full = parse_entity_ids(mid, k as nat)->0;
                assert_seqs_equal!(Seq::<i32>::empty() + full.0 == full.0);
            }
        }
        while i < k
            invariant
                i <= k,
                entities@.len() == i,
                parse_entity_ids(mid, k as nat) is Some <==> parse_entity_ids(
                    dec.remaining(),
                    (k - i) as nat,
                ) is Some,
                parse_entity_ids(mid, k as nat) is Some ==> {
                    let full = parse_entity_ids(mid, k as nat)->0;
                    let part = parse_entity_ids(dec.remaining(), (k - i) as nat)->0;
                    full.0 == entities@ + part.0
                },
            decreases k - i,
        {
            let ghost cur = dec.remaining();
            let ghost rem = (k - i) as nat;
            let id = match dec.read_var_int() {
                Ok(v) => v,
                Err(e) => {
                    return Err(e);
                },
            };
            entities.push(id);
            i = i + 1;
            proof {
                if parse_entity_ids(cur, rem) is Some {
                    let step = parse_entity_ids(cur, rem)->0;
                    let tail = parse_entity_ids(dec.remaining(), (rem - 1) as nat)->0;
                    assert(step.0 == seq![id] + tail.0);
                    assert_seqs_equal!(
                        (entities@.take(i as int - 1) + (seq![id] + tail.0)).take(i as int)
                            == entities@
                    );
                    assert_seqs_equal!(
                        entities@.take(i as int - 1) + (seq![id] + tail.0)
                            == entities@ + tail.0
                    );
                }
            }
        }
        proof {
            assert(parse_entity_ids(dec.remaining(), 0) is Some);
            if parse_entity_ids(mid, k as nat) is Some {
                let full = parse_entity_ids(mid, k as nat)->0;
                assert_seqs_equal!(entities@ + Seq::<i32>::empty() == entities@);
            }
        }
        Ok(RemoveEntities { entities })
    }
}

/// The payload of `RemoveEntities` parses back to the packet itself.
pub proof fn lemma_remove_entities_round_trip(x: RemoveEntities)
    requires
        x.entities@.len() <= 0x7fffffff,
    ensures
        x.payload_matches(x.payload_spec()),
{
    lemma_entity_list_field(x.entities@, Seq::<u8>::empty());
    assert_seqs_equal!(
        entity_list_wire(x.entities@) + Seq::<u8>::empty() == entity_list_wire(x.entities@)
    );
}

/// `RemoveEntityEffect` packet; its payload is carried through opaquely.
#[derive(Debug)]
pub struct RemoveEntityEffect {
    pub ignored_data: Vec<u8>,
}

impl RemoveEntityEffect {
    /// The payload bytes this packet writes.
    pub open spec fn payload_spec(&self) -> Seq<u8> {
        self.ignored_data@
    }

    /// Whether this packet is what a reader makes of `s`.
    pub open spec fn payload_matches(&self, s: Seq<u8>) -> bool {
        self.ignored_data@ == s
    }

    /// Writes the payload fields in wire order.
    pub fn encode(&self, enc: &mut Encoder)
        ensures
            final(enc).bytes() == old(enc).bytes() + self.payload_spec(),
    {
        enc.write_slice(self.ignored_data.as_slice());
    }

    /// Reads the payload: the rest of the frame.
    pub fn decode(dec: &mut Decoder<'_>) -> (r: RemoveEntityEffect)
        ensures
            r.payload_matches(old(dec).remaining()),
        {
        RemoveEntityEffect { ignored_data: dec.read_rest() }
    }
}

/// `ResetScore` packet; its payload is carried through opaquely.
#[derive(Debug)]
pub struct ResetScore {
    pub ignored_data: Vec<u8>,
}

impl ResetScore {
    /// The payload bytes this packet writes.
    pub open spec fn payload_spec(&self) -> Seq<u8> {
        self.ignored_data@
    }

    /// Whether this packet is what a reader makes of `s`.
    pub open spec fn payload_matches(&self, s: Seq<u8>) -> bool {
        self.ignored_data@ == s
    }

    /// Writes the payload fields in wire order.
    pub fn encode(&self, enc: &mut Encoder)
        ensures
            final(enc).bytes() == old(enc).bytes() + self.payload_spec(),
    {
        enc.write_slice(self.ignored_data.as_slice());
    }

    /// Reads the payload: the rest of the frame.
    pub fn decode(dec: &mut Decoder<'_>) -> (r: ResetScore)
        ensures
            r.payload_matches(old(dec).remaining()),
        {
        ResetScore { ignored_data: dec.read_rest() }
    }
}

/// `RemoveResourcePack` packet; its payload is carried through opaquely.
#[derive(Debug)]
pub struct RemoveResourcePack {
    pub ignored_data: Vec<u8>,
}

impl RemoveResourcePack {
    /// The payload bytes this packet writes.
    pub open spec fn payload_spec(&self) -> Seq<u8> {
        self.ignored_data@
    }

    /// Whether this packet is what a reader makes of `s`.
    pub open spec fn payload_matches(&self, s: Seq<u8>) -> bool {
        self.ignored_data@ == s
    }

    /// Writes the payload fields in wire order.
    pub fn encode(&self, enc: &mut Encoder)
        ensures
            final(enc).bytes() == old(enc).bytes() + self.payload_spec(),
    {
        enc.write_slice(self.ignored_data.as_slice());
    }

    /// Reads the payload: the rest of the frame.
    pub fn decode(dec: &mut Decoder<'_>) -> (r: RemoveResourcePack)
        ensures
            r.payload_matches(old(dec).remaining()),
        {
        RemoveResourcePack { ignored_data: dec.read_rest() }
    }
}

/// `AddResourcePack` packet; its payload is carried through opaquely.
#[derive(Debug)]
pub struct AddResourcePack {
    pub ignored_data: Vec<u8>,
}

impl AddResourcePack {
    /// The payload bytes this packet writes.
    pub open spec fn payload_spec(&self) -> Seq<u8> {
        self.ignored_data@
    }

    /// Whether this packet is what a reader makes of `s`.
    pub open spec fn payload_matches(&self, s: Seq<u8>) -> bool {
        self.ignored_data@ == s
    }

    /// Writes the payload fields in wire order.
    pub fn encode(&self, enc: &mut Encoder)
        ensures
            final(enc).bytes() == old(enc).bytes() + self.payload_spec(),
    {
        enc.write_slice(self.ignored_data.as_slice());
    }

    /// Reads the payload: the rest of the frame.
    pub fn decode(dec: &mut Decoder<'_>) -> (r: AddResourcePack)
        ensures
            r.payload_matches(old(dec).remaining()),
        {
        AddResourcePack { ignored_data: dec.read_rest() }
    }
}

/// `Respawn` packet; its payload is carried through opaquely.
#[derive(Debug)]
pub struct Respawn {
    pub ignored_data: Vec<u8>,
}

impl Respawn {
    /// The payload bytes this packet writes.
    pub open spec fn payload_spec(&self) -> Seq<u8> {
        self.ignored_data@
    }

    /// Whether this packet is what a reader makes of `s`.
    pub open spec fn payload_matches(&self, s: Seq<u8>) -> bool {
        self.ignored_data@ == s
    }

    /// Writes the payload fields in wire order.
    pub fn encode(&self, enc: &mut Encoder)
        ensures
            final(enc).bytes() == old(enc).bytes() + self.payload_spec(),
    {
        enc.write_slice(self.ignored_data.as_slice());
    }

    /// Reads the payload: the rest of the frame.
    pub fn decode(dec: &mut Decoder<'_>) -> (r: Respawn)
        ensures
            r.payload_matches(old(dec).remaining()),
        {
        Respawn { ignored_data: dec.read_rest() }
    }
}

/// `SetHeadRotation` packet, with the fields the multiplexer inspects.
#[derive(Debug)]
pub struct SetHeadRotation {
    pub entity_id: i32,
    pub ignored_data: Vec<u8>,
}

impl SetHeadRotation {
    /// The payload bytes this packet writes.
    pub open spec fn payload_spec(&self) -> Seq<u8> {
        varint_wire(self.entity_id) + self.ignored_data@
    }

    /// Whether this packet is what a reader makes of `s`.
    pub open spec fn payload_matches(&self, s: Seq<u8>) -> bool {
        match parse_varint_field(s) {
            None => false,
            Some((f_entity_id, n0)) => {
                let s1 = s.skip(n0);
            self.entity_id == f_entity_id && self.ignored_data@ == s1
            },
        }
    }

    /// Whether a reader can make any packet of this kind of `s`.
    pub open spec fn payload_parses(s: Seq<u8>) -> bool {
        match parse_varint_field(s) {
            None => false,
            Some((f_entity_id, n0)) => {
                let s1 = s.skip(n0);
            true
            },
        }
    }

    /// Writes the payload fields in wire order.
    pub fn encode(&self, enc: &mut Encoder)
        ensures
            final(enc).bytes() == old(enc).bytes() + self.payload_spec(),
    {
        enc.write_var_int(self.entity_id);
        enc.write_slice(self.ignored_data.as_slice());
        proof {
            assert_seqs_equal!(enc.bytes() == old(enc).bytes() + self.payload_spec());
        }
    }

    /// Reads the payload fields in wire order.
    pub fn decode(dec: &mut Decoder<'_>) -> (r: Result<SetHeadRotation, DecodeError>)
        ensures
            match r {
                Ok(x) => {
                    &&& x.payload_matches(old(dec).remaining())
                },
                Err(_) => !Self::payload_parses(old(dec).remaining()),
            },
    {
        let entity_id = dec.read_var_int()?;
        let ignored_data = dec.read_rest();
        Ok(SetHeadRotation { entity_id, ignored_data })
    }
}

/// The payload of `SetHeadRotation` parses back to the packet itself.
pub proof fn lemma_set_head_rotation_round_trip(x: SetHeadRotation)
    ensures
        x.payload_matches(x.payload_spec()),
{
    let s = x.payload_spec();
    let e0 = varint_wire(x.entity_id);
    let e1 = x.ignored_data@;
    let p1 = e0 + e1;
    let t1 = e1;
    assert(s == e0 + t1);
    let s0 = s;
    lemma_varint_field(x.entity_id, t1);
    assert(parse_varint_field(s0) == Some((x.entity_id, e0.len() as int)));
    lemma_concat_skip(e0, t1);
    let s1 = s0.skip(e0.len() as int);
    assert(s1 == t1);
    assert(s1 == x.ignored_data@);
}

/// `UpdateSectionBlocks` packet, with the fields the multiplexer inspects.
#[derive(Debug)]
pub struct UpdateSectionBlocks {
    pub chunk_section_position: i64,
    pub ignored_data: Vec<u8>,
}

impl UpdateSectionBlocks {
    /// The chunk this section update belongs to, read out of the
    /// packed section position.
    pub fn chunk_position(&self) -> (r: ChunkPosition)
        ensures
            r.x == (self.chunk_section_position >> 42) as i32,
            r.z == ((self.chunk_section_position << 22) >> 42) as i32,
    {
        unpack_section_chunk(self.chunk_section_position)
    }

    /// The payload bytes this packet writes.
    pub open spec fn payload_spec(&self) -> Seq<u8> {
        be_u64(self.chunk_section_position as u64) + self.ignored_data@
    }

    /// Whether this packet is what a reader makes of `s`.
    pub open spec fn payload_matches(&self, s: Seq<u8>) -> bool {
        match parse_i64_field(s) {
            None => false,
            Some((f_chunk_section_position, n0)) => {
                let s1 = s.skip(n0);
            self.chunk_section_position == f_chunk_section_position && self.ignored_data@ == s1
            },
        }
    }

    /// Whether a reader can make any packet of this kind of `s`.
    pub open spec fn payload_parses(s: Seq<u8>) -> bool {
        match parse_i64_field(s) {
            None => false,
            Some((f_chunk_section_position, n0)) => {
                let s1 = s.skip(n0);
            true
            },
        }
    }

    /// Writes the payload fields in wire order.
    pub fn encode(&self, enc: &mut Encoder)
        ensures
            final(enc).bytes() == old(enc).bytes() + self.payload_spec(),
    {
        enc.write_i64(self.chunk_section_position);
        enc.write_slice(self.ignored_data.as_slice());
        proof {
            assert_seqs_equal!(enc.bytes() == old(enc).bytes() + self.payload_spec());
        }
    }

    /// Reads the payload fields in wire order.
    pub fn decode(dec: &mut Decoder<'_>) -> (r: Result<UpdateSectionBlocks, DecodeError>)
        ensures
            match r {
                Ok(x) => {
                    &&& x.payload_matches(old(dec).remaining())
                },
                Err(_) => !Self::payload_parses(old(dec).remaining()),
            },
    {
        let chunk_section_position = dec.read_i64()?;
        let ignored_data = dec.read_rest();
        Ok(UpdateSectionBlocks { chunk_section_position, ignored_data })
    }
}

/// The payload of `UpdateSectionBlocks` parses back to the packet itself.
pub proof fn lemma_update_section_blocks_round_trip(x: UpdateSectionBlocks)
    ensures
        x.payload_matches(x.payload_spec()),
{
    let s = x.payload_spec();
    let e0 = be_u64(x.chunk_section_position as u64);
    let e1 = x.ignored_data@;
    let p1 = e0 + e1;
    let t1 = e1;
    assert(s == e0 + t1);
    let s0 = s;
    lemma_i64_field(x.chunk_section_position, t1);
    assert(parse_i64_field(s0) == Some((x.chunk_section_position, e0.len() as int)));
    lemma_concat_skip(e0, t1);
    let s1 = s0.skip(e0.len() as int);
    assert(s1 == t1);
    assert(s1 == x.ignored_data@);
}

/// `SelectAdvancementsTab` packet; its payload is carried through opaquely.
#[derive(Debug)]
pub struct SelectAdvancementsTab {
    pub ignored_data: Vec<u8>,
}

impl SelectAdvancementsTab {
    /// The payload bytes this packet writes.
    pub open spec fn payload_spec(&self) -> Seq<u8> {
        self.ignored_data@
    }

    /// Whether this packet is what a reader makes of `s`.
    pub open spec fn payload_matches(&self, s: Seq<u8>) -> bool {
        self.ignored_data@ == s
    }

    /// Writes the payload fields in wire order.
    pub fn encode(&self, enc: &mut Encoder)
        ensures
            final(enc).bytes() == old(enc).bytes() + self.payload_spec(),
    {
        enc.write_slice(self.ignored_data.as_slice());
    }

    /// Reads the payload: the rest of the frame.
    pub fn decode(dec: &mut Decoder<'_>) -> (r: SelectAdvancementsTab)
        ensures
            r.payload_matches(old(dec).remaining()),
        {
        SelectAdvancementsTab { ignored_data: dec.read_rest() }
    }
}

/// `ServerData` packet; its payload is carried through opaquely.
#[derive(Debug)]
pub struct ServerData {
    pub ignored_data: Vec<u8>,
}

impl ServerData {
    /// The payload bytes this packet writes.
    pub open spec fn payload_spec(&self) -> Seq<u8> {
        self.ignored_data@
    }

    /// Whether this packet is what a reader makes of `s`.
    pub open spec fn payload_matches(&self, s: Seq<u8>) -> bool {
        self.ignored_data@ == s
    }

    /// Writes the payload fields in wire order.
    pub fn encode(&self, enc: &mut Encoder)
        ensures
            final(enc).bytes() == old(enc).bytes() + self.payload_spec(),
    {
        enc.write_slice(self.ignored_data.as_slice());
    }

    /// Reads the payload: the rest of the frame.
    pub fn decode(dec: &mut Decoder<'_>) -> (r: ServerData)
        ensures
            r.payload_matches(old(dec).remaining()),
        {
        ServerData { ignored_data: dec.read_rest() }
    }
}

/// `SetActionBarText` packet; its payload is carried through opaquely.
#[derive(Debug)]
pub struct SetActionBarText {
    pub ignored_data: Vec<u8>,
}

impl SetActionBarText {
    /// The payload bytes this packet writes.
    pub open spec fn payload_spec(&self) -> Seq<u8> {
        self.ignored_data@
    }

    /// Whether this packet is what a reader makes of `s`.
    pub open spec fn payload_matches(&self, s: Seq<u8>) -> bool {
        self.ignored_data@ == s
    }

    /// Writes the payload fields in wire order.
    pub fn encode(&self, enc: &mut Encoder)
        ensures
            final(enc).bytes() == old(enc).bytes() + self.payload_spec(),
    {
        enc.write_slice(self.ignored_data.as_slice());
    }

    /// Reads the payload: the rest of the frame.
    pub fn decode(dec: &mut Decoder<'_>) -> (r: SetActionBarText)
        ensures
            r.payload_matches(old(dec).remaining()),
        {
        SetActionBarText { ignored_data: dec.read_rest() }
    }
}

/// `SetWorldBorderCenter` packet; its payload is carried through opaquely.
#[derive(Debug)]
pub struct SetWorldBorderCenter {
    pub ignored_data: Vec<u8>,
}

impl SetWorldBorderCenter {
    /// The payload bytes this packet writes.
    pub open spec fn payload_spec(&self) -> Seq<u8> {
        self.ignored_data@
    }

    /// Whether this packet is what a reader makes of `s`.
    pub open spec fn payload_matches(&self, s: Seq<u8>) -> bool {
        self.ignored_data@ == s
    }

    /// Writes the payload fields in wire order.
    pub fn encode(&self, enc: &mut Encoder)
        ensures
            final(enc).bytes() == old(enc).bytes() + self.payload_spec(),
    {
        enc.write_slice(self.ignored_data.as_slice());
    }

    /// Reads the payload: the rest of the frame.
    pub fn decode(dec: &mut Decoder<'_>) -> (r: SetWorldBorderCenter)
        ensures
            r.payload_matches(old(dec).remaining()),
        {
        SetWorldBorderCenter { ignored_data: dec.read_rest() }
    }
}

/// `SetWorldBorderLerpSize` packet; its payload is carried through opaquely.
#[derive(Debug)]
pub struct SetWorldBorderLerpSize {
    pub ignored_data: Vec<u8>,
}

impl SetWorldBorderLerpSize {
    /// The payload bytes this packet writes.
    pub open spec fn payload_spec(&self) -> Seq<u8> {
        self.ignored_data@
    }

    /// Whether this packet is what a reader makes of `s`.
    pub open spec fn payload_matches(&self, s: Seq<u8>) -> bool {
        self.ignored_data@ == s
    }

    /// Writes the payload fields in wire order.
    pub fn encode(&self, enc: &mut Encoder)
        ensures
            final(enc).bytes() == old(enc).bytes() + self.payload_spec(),
    {
        enc.write_slice(self.ignored_data.as_slice());
    }

    /// Reads the payload: the rest of the frame.
    pub fn decode(dec: &mut Decoder<'_>) -> (r: SetWorldBorderLerpSize)
        ensures
            r.payload_matches(old(dec).remaining()),
        {
        SetWorldBorderLerpSize { ignored_data: dec.read_rest() }
    }
}

/// `SetWorldBorderSize` packet; its payload is carried through opaquely.
#[derive(Debug)]
pub struct SetWorldBorderSize {
    pub ignored_data: Vec<u8>,
}

impl SetWorldBorderSize {
    /// The payload bytes this packet writes.
    pub open spec fn payload_spec(&self) -> Seq<u8> {
        self.ignored_data@
    }

    /// Whether this packet is what a reader makes of `s`.
    pub open spec fn payload_matches(&self, s: Seq<u8>) -> bool {
        self.ignored_data@ == s
    }

    /// Writes the payload fields in wire order.
    pub fn encode(&self, enc: &mut Encoder)
        ensures
            final(enc).bytes() == old(enc).bytes() + self.payload_spec(),
    {
        enc.write_slice(self.ignored_data.as_slice());
    }

    /// Reads the payload: the rest of the frame.
    pub fn decode(dec: &mut Decoder<'_>) -> (r: SetWorldBorderSize)
        ensures
            r.payload_matches(old(dec).remaining()),
        {
        SetWorldBorderSize { ignored_data: dec.read_rest() }
    }
}

/// `SetWorldBorderWarningDelay` packet; its payload is carried through opaquely.
#[derive(Debug)]
pub struct SetWorldBorderWarningDelay {
    pub ignored_data: Vec<u8>,
}

impl SetWorldBorderWarningDelay {
    /// The payload bytes this packet writes.
    pub open spec fn payload_spec(&self) -> Seq<u8> {
        self.ignored_data@
    }

    /// Whether this packet is what a reader makes of `s`.
    pub open spec fn payload_matches(&self, s: Seq<u8>) -> bool {
        self.ignored_data@ == s
    }

    /// Writes the payload fields in wire order.
    pub fn encode(&self, enc: &mut Encoder)
        ensures
            final(enc).bytes() == old(enc).bytes() + self.payload_spec(),
    {
        enc.write_slice(self.ignored_data.as_slice());
    }

    /// Reads the payload: the rest of the frame.
    pub fn decode(dec: &mut Decoder<'_>) -> (r: SetWorldBorderWarningDelay)
        ensures
            r.payload_matches(old(dec).remaining()),
        {
        SetWorldBorderWarningDelay { ignored_data: dec.read_rest() }
    }
}

/// `SetWorldBorderWarningDistance` packet; its payload is carried through opaquely.
#[derive(Debug)]
pub struct SetWorldBorderWarningDistance {
    pub ignored_data: Vec<u8>,
}

impl SetWorldBorderWarningDistance {
    /// The payload bytes this packet writes.
    pub open spec fn payload_spec(&self) -> Seq<u8> {
        self.ignored_data@
    }

    /// Whether this packet is what a reader makes of `s`.
    pub open spec fn payload_matches(&self, s: Seq<u8>) -> bool {
        self.ignored_data@ == s
    }

    /// Writes the payload fields in wire order.
    pub fn encode(&self, enc: &mut Encoder)
        ensures
            final(enc).bytes() == old(enc).bytes() + self.payload_spec(),
    {
        enc.write_slice(self.ignored_data.as_slice());
    }

    /// Reads the payload: the rest of the frame.
    pub fn decode(dec: &mut Decoder<'_>) -> (r: SetWorldBorderWarningDistance)
        ensures
            r.payload_matches(old(dec).remaining()),
        {
        SetWorldBorderWarningDistance { ignored_data: dec.read_rest() }
    }
}

/// `SetCamera` packet; its payload is carried through opaquely.
#[derive(Debug)]
pub struct SetCamera {
    pub ignored_data: Vec<u8>,
}

impl SetCamera {
    /// The payload bytes this packet writes.
    pub open spec fn payload_spec(&self) -> Seq<u8> {
        self.ignored_data@
    }

    /// Whether this packet is what a reader makes of `s`.
    pub open spec fn payload_matches(&self, s: Seq<u8>) -> bool {
        self.ignored_data@ == s
    }

    /// Writes the payload fields in wire order.
    pub fn encode(&self, enc: &mut Encoder)
        ensures
            final(enc).bytes() == old(enc).bytes() + self.payload_spec(),
    {
        enc.write_slice(self.ignored_data.as_slice());
    }

    /// Reads the payload: the rest of the frame.
    pub fn decode(dec: &mut Decoder<'_>) -> (r: SetCamera)
        ensures
            r.payload_matches(old(dec).remaining()),
        {
        SetCamera { ignored_data: dec.read_rest() }
    }
}

/// `SetHeldItem` packet; its payload is carried through opaquely.
#[derive(Debug)]
pub struct SetHeldItem {
    pub ignored_data: Vec<u8>,
}

impl SetHeldItem {
    /// The payload bytes this packet writes.
    pub open spec fn payload_spec(&self) -> Seq<u8> {
        self.ignored_data@
    }

    /// Whether this packet is what a reader makes of `s`.
    pub open spec fn payload_matches(&self, s: Seq<u8>) -> bool {
        self.ignored_data@ == s
    }

    /// Writes the payload fields in wire order.
    pub fn encode(&self, enc: &mut Encoder)
        ensures
            final(enc).bytes() == old(enc).bytes() + self.payload_spec(),
    {
        enc.write_slice(self.ignored_data.as_slice());
    }

    /// Reads the payload: the rest of the frame.
    pub fn decode(dec: &mut Decoder<'_>) -> (r: SetHeldItem)
        ensures
            r.payload_matches(old(dec).remaining()),
        {
        SetHeldItem { ignored_data: dec.read_rest() }
    }
}

/// `SetCenterChunk` packet; its payload is carried through opaquely.
#[derive(Debug)]
pub struct SetCenterChunk {
    pub ignored_data: Vec<u8>,
}

impl SetCenterChunk {
    /// The payload bytes this packet writes.
    pub open spec fn payload_spec(&self) -> Seq<u8> {
        self.ignored_data@
    }

    /// Whether this packet is what a reader makes of `s`.
    pub open spec fn payload_matches(&self, s: Seq<u8>) -> bool {
        self.ignored_data@ == s
    }

    /// Writes the payload fields in wire order.
    pub fn encode(&self, enc: &mut Encoder)
        ensures
            final(enc).bytes() == old(enc).bytes() + self.payload_spec(),
    {
        enc.write_slice(self.ignored_data.as_slice());
    }

    /// Reads the payload: the rest of the frame.
    pub fn decode(dec: &mut Decoder<'_>) -> (r: SetCenterChunk)
        ensures
            r.payload_matches(old(dec).remaining()),
        {
        SetCenterChunk { ignored_data: dec.read_rest() }
    }
}

/// `SetViewDistance` packet; its payload is carried through opaquely.
#[derive(Debug)]
pub struct SetViewDistance {
    pub ignored_data: Vec<u8>,
}

impl SetViewDistance {
    /// The payload bytes this packet writes.
    pub open spec fn payload_spec(&self) -> Seq<u8> {
        self.ignored_data@
    }

    /// Whether this packet is what a reader makes of `s`.
    pub open spec fn payload_matches(&self, s: Seq<u8>) -> bool {
        self.ignored_data@ == s
    }

    /// Writes the payload fields in wire order.
    pub fn encode(&self, enc: &mut Encoder)
        ensures
            final(enc).bytes() == old(enc).bytes() + self.payload_spec(),
    {
        enc.write_slice(self.ignored_data.as_slice());
    }

    /// Reads the payload: the rest of the frame.
    pub fn decode(dec: &mut Decoder<'_>) -> (r: SetViewDistance)
        ensures
            r.payload_matches(old(dec).remaining()),
        {
        SetViewDistance { ignored_data: dec.read_rest() }
    }
}

/// `SetDefaultSpawnPosition` packet; its payload is carried through opaquely.
#[derive(Debug)]
pub struct SetDefaultSpawnPosition {
    pub ignored_data: Vec<u8>,
}

impl SetDefaultSpawnPosition {
    /// The payload bytes this packet writes.
    pub open spec fn payload_spec(&self) -> Seq<u8> {
        self.ignored_data@
    }

    /// Whether this packet is what a reader makes of `s`.
    pub open spec fn payload_matches(&self, s: Seq<u8>) -> bool {
        self.ignored_data@ == s
    }

    /// Writes the payload fields in wire order.
    pub fn encode(&self, enc: &mut Encoder)
        ensures
            final(enc).bytes() == old(enc).bytes() + self.payload_spec(),
    {
        enc.write_slice(self.ignored_data.as_slice());
    }

    /// Reads the payload: the rest of the frame.
    pub fn decode(dec: &mut Decoder<'_>) -> (r: SetDefaultSpawnPosition)
        ensures
            r.payload_matches(old(dec).remaining()),
        {
        SetDefaultSpawnPosition { ignored_data: dec.read_rest() }
    }
}

/// `DisplayObjective` packet; its payload is carried through opaquely.
#[derive(Debug)]
pub struct DisplayObjective {
    pub ignored_data: Vec<u8>,
}

impl DisplayObjective {
    /// The payload bytes this packet writes.
    pub open spec fn payload_spec(&self) -> Seq<u8> {
        self.ignored_data@
    }

    /// Whether this packet is what a reader makes of `s`.
    pub open spec fn payload_matches(&self, s: Seq<u8>) -> bool {
        self.ignored_data@ == s
    }

    /// Writes the payload fields in wire order.
    pub fn encode(&self, enc: &mut Encoder)
        ensures
            final(enc).bytes() == old(enc).bytes() + self.payload_spec(),
    {
        enc.write_slice(self.ignored_data.as_slice());
    }

    /// Reads the payload: the rest of the frame.
    pub fn decode(dec: &mut Decoder<'_>) -> (r: DisplayObjective)
        ensures
            r.payload_matches(old(dec).remaining()),
        {
        DisplayObjective { ignored_data: dec.read_rest() }
    }
}

/// `SetEntityMetadata` packet; its payload is carried through opaquely.
#[derive(Debug)]
pub struct SetEntityMetadata {
    pub ignored_data: Vec<u8>,
}

impl SetEntityMetadata {
    /// The payload bytes this packet writes.
    pub open spec fn payload_spec(&self) -> Seq<u8> {
        self.ignored_data@
    }

    /// Whether this packet is what a reader makes of `s`.
    pub open spec fn payload_matches(&self, s: Seq<u8>) -> bool {
        self.ignored_data@ == s
    }

    /// Writes the payload fields in wire order.
    pub fn encode(&self, enc: &mut Encoder)
        ensures
            final(enc).bytes() == old(enc).bytes() + self.payload_spec(),
    {
        enc.write_slice(self.ignored_data.as_slice());
    }

    /// Reads the payload: the rest of the frame.
    pub fn decode(dec: &mut Decoder<'_>) -> (r: SetEntityMetadata)
        ensures
            r.payload_matches(old(dec).remaining()),
        {
        SetEntityMetadata { ignored_data: dec.read_rest() }
    }
}

/// `LinkEntities` packet; its payload is carried through opaquely.
#[derive(Debug)]
pub struct LinkEntities {
    pub ignored_data: Vec<u8>,
}

impl LinkEntities {
    /// The payload bytes this packet writes.
    pub open spec fn payload_spec(&self) -> Seq<u8> {
        self.ignored_data@
    }

    /// Whether this packet is what a reader makes of `s`.
    pub open spec fn payload_matches(&self, s: Seq<u8>) -> bool {
        self.ignored_data@ == s
    }

    /// Writes the payload fields in wire order.
    pub fn encode(&self, enc: &mut Encoder)
        ensures
            final(enc).bytes() == old(enc).bytes() + self.payload_spec(),
    {
        enc.write_slice(self.ignored_data.as_slice());
    }

    /// Reads the payload: the rest of the frame.
    pub fn decode(dec: &mut Decoder<'_>) -> (r: LinkEntities)
        ensures
            r.payload_matches(old(dec).remaining()),
        {
        LinkEntities { ignored_data: dec.read_rest() }
    }
}

/// `SetEntityVelocity` packet, with the fields the multiplexer inspects.
#[derive(Debug)]
pub struct SetEntityVelocity {
    pub entity_id: i32,
    pub velocity_x: i16,
    pub velocity_y: i16,
    pub velocity_z: i16,
}

impl SetEntityVelocity {
    /// The payload bytes this packet writes.
    pub open spec fn payload_spec(&self) -> Seq<u8> {
        varint_wire(self.entity_id) + be_u16(self.velocity_x as u16) + be_u16(self.velocity_y as u16) + be_u16(self.velocity_z as u16)
    }

    /// Whether this packet is what a reader makes of `s`.
    pub open spec fn payload_matches(&self, s: Seq<u8>) -> bool {
        match parse_varint_field(s) {
            None => false,
            Some((f_entity_id, n0)) => {
                let s1 = s.skip(n0);
            match parse_i16_field(s1) {
                None => false,
                Some((f_velocity_x, n1)) => {
                    let s2 = s1.skip(n1);
                match parse_i16_field(s2) {
                    None => false,
                    Some((f_velocity_y, n2)) => {
                        let s3 = s2.skip(n2);
                    match parse_i16_field(s3) {
                        None => false,
                        Some((f_velocity_z, n3)) => {
                            let s4 = s3.skip(n3);
                        self.entity_id == f_entity_id && self.velocity_x == f_velocity_x && self.velocity_y == f_velocity_y && self.velocity_z == f_velocity_z
                        },
                    }
                    },
                }
                },
            }
            },
        }
    }

    /// Whether a reader can make any packet of this kind of `s`.
    pub open spec fn payload_parses(s: Seq<u8>) -> bool {
        match parse_varint_field(s) {
            None => false,
            Some((f_entity_id, n0)) => {
                let s1 = s.skip(n0);
            match parse_i16_field(s1) {
                None => false,
                Some((f_velocity_x, n1)) => {
                    let s2 = s1.skip(n1);
                match parse_i16_field(s2) {
                    None => false,
                    Some((f_velocity_y, n2)) => {
                        let s3 = s2.skip(n2);
                    match parse_i16_field(s3) {
                        None => false,
                        Some((f_velocity_z, n3)) => {
                            let s4 = s3.skip(n3);
                        true
                        },
                    }
                    },
                }
                },
            }
            },
        }
    }

    /// Writes the payload fields in wire order.
    pub fn encode(&self, enc: &mut Encoder)
        ensures
            final(enc).bytes() == old(enc).bytes() + self.payload_spec(),
    {
        enc.write_var_int(self.entity_id);
        enc.write_i16(self.velocity_x);
        enc.write_i16(self.velocity_y);
        enc.write_i16(self.velocity_z);
        proof {
            assert_seqs_equal!(enc.bytes() == old(enc).bytes() + self.payload_spec());
        }
    }

    /// Reads the payload fields in wire order.
    pub fn decode(dec: &mut Decoder<'_>) -> (r: Result<SetEntityVelocity, DecodeError>)
        ensures
            match r {
                Ok(x) => {
                    &&& x.payload_matches(old(dec).remaining())
                },
                Err(_) => !Self::payload_parses(old(dec).remaining()),
            },
    {
        let entity_id = dec.read_var_int()?;
        let velocity_x = dec.read_i16()?;
        let velocity_y = dec.read_i16()?;
        let velocity_z = dec.read_i16()?;
        Ok(SetEntityVelocity { entity_id, velocity_x, velocity_y, velocity_z })
    }
}

/// The payload of `SetEntityVelocity` parses back to the packet itself.
#[verifier::rlimit(100)]
#[verifier::spinoff_prover]
pub proof fn lemma_set_entity_velocity_round_trip(x: SetEntityVelocity)
    ensures
        x.payload_matches(x.payload_spec()),
{
    let s = x.payload_spec();
    let e0 = varint_wire(x.entity_id);
    let e1 = be_u16(x.velocity_x as u16);
    let e2 = be_u16(x.velocity_y as u16);
    let e3 = be_u16(x.velocity_z as u16);
    let p1 = e0 + e1;
    let p2 = p1 + e2;
    let p3 = p2 + e3;
    let t3 = e3;
    let t2 = e2 + t3;
    let t1 = e1 + t2;
    lemma_concat_assoc(p1, e2, t3);
    lemma_concat_assoc(e0, e1, t2);
    assert(s == e0 + t1);
    let s0 = s;
    lemma_varint_field(x.entity_id, t1);
    assert(parse_varint_field(s0) == Some((x.entity_id, e0.len() as int)));
    lemma_concat_skip(e0, t1);
    let s1 = s0.skip(e0.len() as int);
    assert(s1 == t1);
    lemma_i16_field(x.velocity_x, t2);
    assert(parse_i16_field(s1) == Some((x.velocity_x, e1.len() as int)));
    lemma_concat_skip(e1, t2);
    let s2 = s1.skip(e1.len() as int);
    assert(s2 == t2);
    lemma_i16_field(x.velocity_y, t3);
    assert(parse_i16_field(s2) == Some((x.velocity_y, e2.len() as int)));
    lemma_concat_skip(e2, t3);
    let s3 = s2.skip(e2.len() as int);
    assert(s3 == t3);
    assert_seqs_equal!(e3 + Seq::<u8>::empty() == e3);
    lemma_i16_field(x.velocity_z, Seq::<u8>::empty());
    assert(parse_i16_field(s3) == Some((x.velocity_z, e3.len() as int)));
}

/// `SetEquipment` packet; its payload is carried through opaquely.
#[derive(Debug)]
pub struct SetEquipment {
    pub ignored_data: Vec<u8>,
}

impl SetEquipment {
    /// The payload bytes this packet writes.
    pub open spec fn payload_spec(&self) -> Seq<u8> {
        self.ignored_data@
    }

    /// Whether this packet is what a reader makes of `s`.
    pub open spec fn payload_matches(&self, s: Seq<u8>) -> bool {
        self.ignored_data@ == s
    }

    /// Writes the payload fields in wire order.
    pub fn encode(&self, enc: &mut Encoder)
        ensures
            final(enc).bytes() == old(enc).bytes() + self.payload_spec(),
    {
        enc.write_slice(self.ignored_data.as_slice());
    }

    /// Reads the payload: the rest of the frame.
    pub fn decode(dec: &mut Decoder<'_>) -> (r: SetEquipment)
        ensures
            r.payload_matches(old(dec).remaining()),
        {
        SetEquipment { ignored_data: dec.read_rest() }
    }
}

/// `SetExperience` packet; its payload is carried through opaquely.
#[derive(Debug)]
pub struct SetExperience {
    pub ignored_data: Vec<u8>,
}

impl SetExperience {
    /// The payload bytes this packet writes.
    pub open spec fn payload_spec(&self) -> Seq<u8> {
        self.ignored_data@
    }

    /// Whether this packet is what a reader makes of `s`.
    pub open spec fn payload_matches(&self, s: Seq<u8>) -> bool {
        self.ignored_data@ == s
    }

    /// Writes the payload fields in wire order.
    pub fn encode(&self, enc: &mut Encoder)
        ensures
            final(enc).bytes() == old(enc).bytes() + self.payload_spec(),
    {
        enc.write_slice(self.ignored_data.as_slice());
    }

    /// Reads the payload: the rest of the frame.
    pub fn decode(dec: &mut Decoder<'_>) -> (r: SetExperience)
        ensures
            r.payload_matches(old(dec).remaining()),
        {
        SetExperience { ignored_data: dec.read_rest() }
    }
}

/// `SetHealth` packet; its payload is carried through opaquely.
#[derive(Debug)]
pub struct SetHealth {
    pub ignored_data: Vec<u8>,
}

impl SetHealth {
    /// The payload bytes this packet writes.
    pub open spec fn payload_spec(&self) -> Seq<u8> {
        self.ignored_data@
    }

    /// Whether this packet is what a reader makes of `s`.
    pub open spec fn payload_matches(&self, s: Seq<u8>) -> bool {
        self.ignored_data@ == s
    }

    /// Writes the payload fields in wire order.
    pub fn encode(&self, enc: &mut Encoder)
        ensures
            final(enc).bytes() == old(enc).bytes() + self.payload_spec(),
    {
        enc.write_slice(self.ignored_data.as_slice());
    }

    /// Reads the payload: the rest of the frame.
    pub fn decode(dec: &mut Decoder<'_>) -> (r: SetHealth)
        ensures
            r.payload_matches(old(dec).remaining()),
        {
        SetHealth { ignored_data: dec.read_rest() }
    }
}

/// `UpdateObjectives` packet; its payload is carried through opaquely.
#[derive(Debug)]
pub struct UpdateObjectives {
    pub ignored_data: Vec<u8>,
}

impl UpdateObjectives {
    /// The payload bytes this packet writes.
    pub open spec fn payload_spec(&self) -> Seq<u8> {
        self.ignored_data@
    }

    /// Whether this packet is what a reader makes of `s`.
    pub open spec fn payload_matches(&self, s: Seq<u8>) -> bool {
        self.ignored_data@ == s
    }

    /// Writes the payload fields in wire order.
    pub fn encode(&self, enc: &mut Encoder)
        ensures
            final(enc).bytes() == old(enc).bytes() + self.payload_spec(),
    {
        enc.write_slice(self.ignored_data.as_slice());
    }

    /// Reads the payload: the rest of the frame.
    pub fn decode(dec: &mut Decoder<'_>) -> (r: UpdateObjectives)
        ensures
            r.payload_matches(old(dec).remaining()),
        {
        UpdateObjectives { ignored_data: dec.read_rest() }
    }
}

/// `SetPassengers` packet; its payload is carried through opaquely.
#[derive(Debug)]
pub struct SetPassengers {
    pub ignored_data: Vec<u8>,
}

impl SetPassengers {
    /// The payload bytes this packet writes.
    pub open spec fn payload_spec(&self) -> Seq<u8> {
        self.ignored_data@
    }

    /// Whether this packet is what a reader makes of `s`.
    pub open spec fn payload_matches(&self, s: Seq<u8>) -> bool {
        self.ignored_data@ == s
    }

    /// Writes the payload fields in wire order.
    pub fn encode(&self, enc: &mut Encoder)
        ensures
            final(enc).bytes() == old(enc).bytes() + self.payload_spec(),
    {
        enc.write_slice(self.ignored_data.as_slice());
    }

    /// Reads the payload: the rest of the frame.
    pub fn decode(dec: &mut Decoder<'_>) -> (r: SetPassengers)
        ensures
            r.payload_matches(old(dec).remaining()),
        {
        SetPassengers { ignored_data: dec.read_rest() }
    }
}

/// `UpdateTeams` packet; its payload is carried through opaquely.
#[derive(Debug)]
pub struct UpdateTeams {
    pub ignored_data: Vec<u8>,
}

impl UpdateTeams {
    /// The payload bytes this packet writes.
    pub open spec fn payload_spec(&self) -> Seq<u8> {
        self.ignored_data@
    }

    /// Whether this packet is what a reader makes of `s`.
    pub open spec fn payload_matches(&self, s: Seq<u8>) -> bool {
        self.ignored_data@ == s
    }

    /// Writes the payload fields in wire order.
    pub fn encode(&self, enc: &mut Encoder)
        ensures
            final(enc).bytes() == old(enc).bytes() + self.payload_spec(),
    {
        enc.write_slice(self.ignored_data.as_slice());
    }

    /// Reads the payload: the rest of the frame.
    pub fn decode(dec: &mut Decoder<'_>) -> (r: UpdateTeams)
        ensures
            r.payload_matches(old(dec).remaining()),
        {
        UpdateTeams { ignored_data: dec.read_rest() }
    }
}

/// `UpdateScore` packet; its payload is carried through opaquely.
#[derive(Debug)]
pub struct UpdateScore {
    pub ignored_data: Vec<u8>,
}

impl UpdateScore {
    /// The payload bytes this packet writes.
    pub open spec fn payload_spec(&self) -> Seq<u8> {
        self.ignored_data@
    }

    /// Whether this packet is what a reader makes of `s`.
    pub open spec fn payload_matches(&self, s: Seq<u8>) -> bool {
        self.ignored_data@ == s
    }

    /// Writes the payload fields in wire order.
    pub fn encode(&self, enc: &mut Encoder)
        ensures
            final(enc).bytes() == old(enc).bytes() + self.payload_spec(),
    {
        enc.write_slice(self.ignored_data.as_slice());
    }

    /// Reads the payload: the rest of the frame.
    pub fn decode(dec: &mut Decoder<'_>) -> (r: UpdateScore)
        ensures
            r.payload_matches(old(dec).remaining()),
        {
        UpdateScore { ignored_data: dec.read_rest() }
    }
}

/// `SetSimulationDistance` packet; its payload is carried through opaquely.
#[derive(Debug)]
pub struct SetSimulationDistance {
    pub ignored_data: Vec<u8>,
}

impl SetSimulationDistance {
    /// The payload bytes this packet writes.
    pub open spec fn payload_spec(&self) -> Seq<u8> {
        self.ignored_data@
    }

    /// Whether this packet is what a reader makes of `s`.
    pub open spec fn payload_matches(&self, s: Seq<u8>) -> bool {
        self.ignored_data@ == s
    }

    /// Writes the payload fields in wire order.
    pub fn encode(&self, enc: &mut Encoder)
        ensures
            final(enc).bytes() == old(enc).bytes() + self.payload_spec(),
    {
        enc.write_slice(self.ignored_data.as_slice());
    }

    /// Reads the payload: the rest of the frame.
    pub fn decode(dec: &mut Decoder<'_>) -> (r: SetSimulationDistance)
        ensures
            r.payload_matches(old(dec).remaining()),
        {
        SetSimulationDistance { ignored_data: dec.read_rest() }
    }
}

/// `SetSubtitleText` packet; its payload is carried through opaquely.
#[derive(Debug)]
pub struct SetSubtitleText {
    pub ignored_data: Vec<u8>,
}

impl SetSubtitleText {
    /// The payload bytes this packet writes.
    pub open spec fn payload_spec(&self) -> Seq<u8> {
        self.ignored_data@
    }

    /// Whether this packet is what a reader makes of `s`.
    pub open spec fn payload_matches(&self, s: Seq<u8>) -> bool {
        self.ignored_data@ == s
    }

    /// Writes the payload fields in wire order.
    pub fn encode(&self, enc: &mut Encoder)
        ensures
            final(enc).bytes() == old(enc).bytes() + self.payload_spec(),
    {
        enc.write_slice(self.ignored_data.as_slice());
    }

    /// Reads the payload: the rest of the frame.
    pub fn decode(dec: &mut Decoder<'_>) -> (r: SetSubtitleText)
        ensures
            r.payload_matches(old(dec).remaining()),
        {
        SetSubtitleText { ignored_data: dec.read_rest() }
    }
}

/// `UpdateTime` packet; its payload is carried through opaquely.
#[derive(Debug)]
pub struct UpdateTime {
    pub ignored_data: Vec<u8>,
}

impl UpdateTime {
    /// The payload bytes this packet writes.
    pub open spec fn payload_spec(&self) -> Seq<u8> {
        self.ignored_data@
    }

    /// Whether this packet is what a reader makes of `s`.
    pub open spec fn payload_matches(&self, s: Seq<u8>) -> bool {
        self.ignored_data@ == s
    }

    /// Writes the payload fields in wire order.
    pub fn encode(&self, enc: &mut Encoder)
        ensures
            final(enc).bytes() == old(enc).bytes() + self.payload_spec(),
    {
        enc.write_slice(self.ignored_data.as_slice());
    }

    /// Reads the payload: the rest of the frame.
    pub fn decode(dec: &mut Decoder<'_>) -> (r: UpdateTime)
        ensures
            r.payload_matches(old(dec).remaining()),
        {
        UpdateTime { ignored_data: dec.read_rest() }
    }
}

/// `SetTitleText` packet; its payload is carried through opaquely.
#[derive(Debug)]
pub struct SetTitleText {
    pub ignored_data: Vec<u8>,
}

impl SetTitleText {
    /// The payload bytes this packet writes.
    pub open spec fn payload_spec(&self) -> Seq<u8> {
        self.ignored_data@
    }

    /// Whether this packet is what a reader makes of `s`.
    pub open spec fn payload_matches(&self, s: Seq<u8>) -> bool {
        self.ignored_data@ == s
    }

    /// Writes the payload fields in wire order.
    pub fn encode(&self, enc: &mut Encoder)
        ensures
            final(enc).bytes() == old(enc).bytes() + self.payload_spec(),
    {
        enc.write_slice(self.ignored_data.as_slice());
    }

    /// Reads the payload: the rest of the frame.
    pub fn decode(dec: &mut Decoder<'_>) -> (r: SetTitleText)
        ensures
            r.payload_matches(old(dec).remaining()),
        {
        SetTitleText { ignored_data: dec.read_rest() }
    }
}

/// `SetTitleAnimationTimes` packet; its payload is carried through opaquely.
#[derive(Debug)]
pub struct SetTitleAnimationTimes {
    pub ignored_data: Vec<u8>,
}

impl SetTitleAnimationTimes {
    /// The payload bytes this packet writes.
    pub open spec fn payload_spec(&self) -> Seq<u8> {
        self.ignored_data@
    }

    /// Whether this packet is what a reader makes of `s`.
    pub open spec fn payload_matches(&self, s: Seq<u8>) -> bool {
        self.ignored_data@ == s
    }

    /// Writes the payload fields in wire order.
    pub fn encode(&self, enc: &mut Encoder)
        ensures
            final(enc).bytes() == old(enc).bytes() + self.payload_spec(),
    {
        enc.write_slice(self.ignored_data.as_slice());
    }

    /// Reads the payload: the rest of the frame.
    pub fn decode(dec: &mut Decoder<'_>) -> (r: SetTitleAnimationTimes)
        ensures
            r.payload_matches(old(dec).remaining()),
        {
        SetTitleAnimationTimes { ignored_data: dec.read_rest() }
    }
}

/// `EntitySoundEffect` packet; its payload is carried through opaquely.
#[derive(Debug)]
pub struct EntitySoundEffect {
    pub ignored_data: Vec<u8>,
}

impl EntitySoundEffect {
    /// The payload bytes this packet writes.
    pub open spec fn payload_spec(&self) -> Seq<u8> {
        self.ignored_data@
    }

    /// Whether this packet is what a reader makes of `s`.
    pub open spec fn payload_matches(&self, s: Seq<u8>) -> bool {
        self.ignored_data@ == s
    }

    /// Writes the payload fields in wire order.
    pub fn encode(&self, enc: &mut Encoder)
        ensures
            final(enc).bytes() == old(enc).bytes() + self.payload_spec(),
    {
        enc.write_slice(self.ignored_data.as_slice());
    }

    /// Reads the payload: the rest of the frame.
    pub fn decode(dec: &mut Decoder<'_>) -> (r: EntitySoundEffect)
        ensures
            r.payload_matches(old(dec).remaining()),
        {
        EntitySoundEffect { ignored_data: dec.read_rest() }
    }
}

/// `SoundEffect` packet; its payload is carried through opaquely.
#[derive(Debug)]
pub struct SoundEffect {
    pub ignored_data: Vec<u8>,
}

impl SoundEffect {
    /// The payload bytes this packet writes.
    pub open spec fn payload_spec(&self) -> Seq<u8> {
        self.ignored_data@
    }

    /// Whether this packet is what a reader makes of `s`.
    pub open spec fn payload_matches(&self, s: Seq<u8>) -> bool {
        self.ignored_data@ == s
    }

    /// Writes the payload fields in wire order.
    pub fn encode(&self, enc: &mut Encoder)
        ensures
            final(enc).bytes() == old(enc).bytes() + self.payload_spec(),
    {
        enc.write_slice(self.ignored_data.as_slice());
    }

    /// Reads the payload: the rest of the frame.
    pub fn decode(dec: &mut Decoder<'_>) -> (r: SoundEffect)
        ensures
            r.payload_matches(old(dec).remaining()),
        {
        SoundEffect { ignored_data: dec.read_rest() }
    }
}

/// `StartConfiguration` packet; its payload is carried through opaquely.
#[derive(Debug)]
pub struct StartConfiguration {
    pub ignored_data: Vec<u8>,
}

impl StartConfiguration {
    /// The payload bytes this packet writes.
    pub open spec fn payload_spec(&self) -> Seq<u8> {
        self.ignored_data@
    }

    /// Whether this packet is what a reader makes of `s`.
    pub open spec fn payload_matches(&self, s: Seq<u8>) -> bool {
        self.ignored_data@ == s
    }

    /// Writes the payload fields in wire order.
    pub fn encode(&self, enc: &mut Encoder)
        ensures
            final(enc).bytes() == old(enc).bytes() + self.payload_spec(),
    {
        enc.write_slice(self.ignored_data.as_slice());
    }

    /// Reads the payload: the rest of the frame.
    pub fn decode(dec: &mut Decoder<'_>) -> (r: StartConfiguration)
        ensures
            r.payload_matches(old(dec).remaining()),
        {
        StartConfiguration { ignored_data: dec.read_rest() }
    }
}

/// `StopSound` packet; its payload is carried through opaquely.
#[derive(Debug)]
pub struct StopSound {
    pub ignored_data: Vec<u8>,
}

impl StopSound {
    /// The payload bytes this packet writes.
    pub open spec fn payload_spec(&self) -> Seq<u8> {
        self.ignored_data@
    }

    /// Whether this packet is what a reader makes of `s`.
    pub open spec fn payload_matches(&self, s: Seq<u8>) -> bool {
        self.ignored_data@ == s
    }

    /// Writes the payload fields in wire order.
    pub fn encode(&self, enc: &mut Encoder)
        ensures
            final(enc).bytes() == old(enc).bytes() + self.payload_spec(),
    {
        enc.write_slice(self.ignored_data.as_slice());
    }

    /// Reads the payload: the rest of the frame.
    pub fn decode(dec: &mut Decoder<'_>) -> (r: StopSound)
        ensures
            r.payload_matches(old(dec).remaining()),
        {
        StopSound { ignored_data: dec.read_rest() }
    }
}

/// `SystemChatMessage` packet; its payload is carried through opaquely.
#[derive(Debug)]
pub struct SystemChatMessage {
    pub ignored_data: Vec<u8>,
}

impl SystemChatMessage {
    /// The payload bytes this packet writes.
    pub open spec fn payload_spec(&self) -> Seq<u8> {
        self.ignored_data@
    }

    /// Whether this packet is what a reader makes of `s`.
    pub open spec fn payload_matches(&self, s: Seq<u8>) -> bool {
        self.ignored_data@ == s
    }

    /// Writes the payload fields in wire order.
    pub fn encode(&self, enc: &mut Encoder)
        ensures
            final(enc).bytes() == old(enc).bytes() + self.payload_spec(),
    {
        enc.write_slice(self.ignored_data.as_slice());
    }

    /// Reads the payload: the rest of the frame.
    pub fn decode(dec: &mut Decoder<'_>) -> (r: SystemChatMessage)
        ensures
            r.payload_matches(old(dec).remaining()),
        {
        SystemChatMessage { ignored_data: dec.read_rest() }
    }
}

/// `SetTabListHeaderAndFooter` packet; its payload is carried through opaquely.
#[derive(Debug)]
pub struct SetTabListHeaderAndFooter {
    pub ignored_data: Vec<u8>,
}

impl SetTabListHeaderAndFooter {
    /// The payload bytes this packet writes.
    pub open spec fn payload_spec(&self) -> Seq<u8> {
        self.ignored_data@
    }

    /// Whether this packet is what a reader makes of `s`.
    pub open spec fn payload_matches(&self, s: Seq<u8>) -> bool {
        self.ignored_data@ == s
    }

    /// Writes the payload fields in wire order.
    pub fn encode(&self, enc: &mut Encoder)
        ensures
            final(enc).bytes() == old(enc).bytes() + self.payload_spec(),
    {
        enc.write_slice(self.ignored_data.as_slice());
    }

    /// Reads the payload: the rest of the frame.
    pub fn decode(dec: &mut Decoder<'_>) -> (r: SetTabListHeaderAndFooter)
        ensures
            r.payload_matches(old(dec).remaining()),
        {
        SetTabListHeaderAndFooter { ignored_data: dec.read_rest() }
    }
}

/// `TagQueryResponse` packet; its payload is carried through opaquely.
#[derive(Debug)]
pub struct TagQueryResponse {
    pub ignored_data: Vec<u8>,
}

impl TagQueryResponse {
    /// The payload bytes this packet writes.
    pub open spec fn payload_spec(&self) -> Seq<u8> {
        self.ignored_data@
    }

    /// Whether this packet is what a reader makes of `s`.
    pub open spec fn payload_matches(&self, s: Seq<u8>) -> bool {
        self.ignored_data@ == s
    }

    /// Writes the payload fields in wire order.
    pub fn encode(&self, enc: &mut Encoder)
        ensures
            final(enc).bytes() == old(enc).bytes() + self.payload_spec(),
    {
        enc.write_slice(self.ignored_data.as_slice());
    }

    /// Reads the payload: the rest of the frame.
    pub fn decode(dec: &mut Decoder<'_>) -> (r: TagQueryResponse)
        ensures
            r.payload_matches(old(dec).remaining()),
        {
        TagQueryResponse { ignored_data: dec.read_rest() }
    }
}

/// `PickUpItem` packet; its payload is carried through opaquely.
#[derive(Debug)]
pub struct PickUpItem {
    pub ignored_data: Vec<u8>,
}

impl PickUpItem {
    /// The payload bytes this packet writes.
    pub open spec fn payload_spec(&self) -> Seq<u8> {
        self.ignored_data@
    }

    /// Whether this packet is what a reader makes of `s`.
    pub open spec fn payload_matches(&self, s: Seq<u8>) -> bool {
        self.ignored_data@ == s
    }

    /// Writes the payload fields in wire order.
    pub fn encode(&self, enc: &mut Encoder)
        ensures
            final(enc).bytes() == old(enc).bytes() + self.payload_spec(),
    {
        enc.write_slice(self.ignored_data.as_slice());
    }

    /// Reads the payload: the rest of the frame.
    pub fn decode(dec: &mut Decoder<'_>) -> (r: PickUpItem)
        ensures
            r.payload_matches(old(dec).remaining()),
        {
        PickUpItem { ignored_data: dec.read_rest() }
    }
}

/// `TeleportEntity` packet, with the fields the multiplexer inspects.
#[derive(Debug)]
pub struct TeleportEntity {
    pub entity_id: i32,
    pub x_bits: u64,
    pub y_bits: u64,
    pub z_bits: u64,
    pub yaw: u8,
    pub pitch: u8,
    pub on_ground: bool,
}

impl TeleportEntity {
    /// The payload bytes this packet writes.
    pub open spec fn payload_spec(&self) -> Seq<u8> {
        varint_wire(self.entity_id) + be_u64(self.x_bits) + be_u64(self.y_bits) + be_u64(self.z_bits) + seq![self.yaw] + seq![self.pitch] + bool_wire(self.on_ground)
    }

    /// Whether this packet is what a reader makes of `s`.
    pub open spec fn payload_matches(&self, s: Seq<u8>) -> bool {
        match parse_varint_field(s) {
            None => false,
            Some((f_entity_id, n0)) => {
                let s1 = s.skip(n0);
            match parse_u64_field(s1) {
                None => false,
                Some((f_x_bits, n1)) => {
                    let s2 = s1.skip(n1);
                match parse_u64_field(s2) {
                    None => false,
                    Some((f_y_bits, n2)) => {
                        let s3 = s2.skip(n2);
                    match parse_u64_field(s3) {
                        None => false,
                        Some((f_z_bits, n3)) => {
                            let s4 = s3.skip(n3);
                        match parse_u8_field(s4) {
                            None => false,
                            Some((f_yaw, n4)) => {
                                let s5 = s4.skip(n4);
                            match parse_u8_field(s5) {
                                None => false,
                                Some((f_pitch, n5)) => {
                                    let s6 = s5.skip(n5);
                                match parse_bool_field(s6) {
                                    None => false,
                                    Some((f_on_ground, n6)) => {
                                        let s7 = s6.skip(n6);
                                    self.entity_id == f_entity_id && self.x_bits == f_x_bits && self.y_bits == f_y_bits && self.z_bits == f_z_bits && self.yaw == f_yaw && self.pitch == f_pitch && self.on_ground == f_on_ground
                                    },
                                }
                                },
                            }
                            },
                        }
                        },
                    }
                    },
                }
                },
            }
            },
        }
    }

    /// Whether a reader can make any packet of this kind of `s`.
    pub open spec fn payload_parses(s: Seq<u8>) -> bool {
        match parse_varint_field(s) {
            None => false,
            Some((f_entity_id, n0)) => {
                let s1 = s.skip(n0);
            match parse_u64_field(s1) {
                None => false,
                Some((f_x_bits, n1)) => {
                    let s2 = s1.skip(n1);
                match parse_u64_field(s2) {
                    None => false,
                    Some((f_y_bits, n2)) => {
                        let s3 = s2.skip(n2);
                    match parse_u64_field(s3) {
                        None => false,
                        Some((f_z_bits, n3)) => {
                            let s4 = s3.skip(n3);
                        match parse_u8_field(s4) {
                            None => false,
                            Some((f_yaw, n4)) => {
                                let s5 = s4.skip(n4);
                            match parse_u8_field(s5) {
                                None => false,
                                Some((f_pitch, n5)) => {
                                    let s6 = s5.skip(n5);
                                match parse_bool_field(s6) {
                                    None => false,
                                    Some((f_on_ground, n6)) => {
                                        let s7 = s6.skip(n6);
                                    true
                                    },
                                }
                                },
                            }
                            },
                        }
                        },
                    }
                    },
                }
                },
            }
            },
        }
    }

    /// Writes the payload fields in wire order.
    pub fn encode(&self, enc: &mut Encoder)
        ensures
            final(enc).bytes() == old(enc).bytes() + self.payload_spec(),
    {
        enc.write_var_int(self.entity_id);
        enc.write_u64(self.x_bits);
        enc.write_u64(self.y_bits);
        enc.write_u64(self.z_bits);
        enc.write_u8(self.yaw);
        enc.write_u8(self.pitch);
        enc.write_bool(self.on_ground);
        proof {
            assert_seqs_equal!(enc.bytes() == old(enc).bytes() + self.payload_spec());
        }
    }

    /// Reads the payload fields in wire order.
    pub fn decode(dec: &mut Decoder<'_>) -> (r: Result<TeleportEntity, DecodeError>)
        ensures
            match r {
                Ok(x) => {
                    &&& x.payload_matches(old(dec).remaining())
                },
                Err(_) => !Self::payload_parses(old(dec).remaining()),
            },
    {
        let entity_id = dec.read_var_int()?;
        let x_bits = dec.read_u64()?;
        let y_bits = dec.read_u64()?;
        let z_bits = dec.read_u64()?;
        let yaw = dec.read_u8()?;
        let pitch = dec.read_u8()?;
        let on_ground = dec.read_bool()?;
        Ok(TeleportEntity { entity_id, x_bits, y_bits, z_bits, yaw, pitch, on_ground })
    }
}

/// The payload of `TeleportEntity` parses back to the packet itself.
#[verifier::rlimit(100)]
#[verifier::spinoff_prover]
pub proof fn lemma_teleport_entity_round_trip(x: TeleportEntity)
    ensures
        x.payload_matches(x.payload_spec()),
{
    let s = x.payload_spec();
    let e0 = varint_wire(x.entity_id);
    let e1 = be_u64(x.x_bits);
    let e2 = be_u64(x.y_bits);
    let e3 = be_u64(x.z_bits);
    let e4 = seq![x.yaw];
    let e5 = seq![x.pitch];
    let e6 = bool_wire(x.on_ground);
    let p1 = e0 + e1;
    let p2 = p1 + e2;
    let p3 = p2 + e3;
    let p4 = p3 + e4;
    let p5 = p4 + e5;
    let p6 = p5 + e6;
    let t6 = e6;
    let t5 = e5 + t6;
    let t4 = e4 + t5;
    let t3 = e3 + t4;
    let t2 = e2 + t3;
    let t1 = e1 + t2;
    lemma_concat_assoc(p4, e5, t6);
    lemma_concat_assoc(p3, e4, t5);
    lemma_concat_assoc(p2, e3, t4);
    lemma_concat_assoc(p1, e2, t3);
    lemma_concat_assoc(e0, e1, t2);
    assert(s == e0 + t1);
    let s0 = s;
    lemma_varint_field(x.entity_id, t1);
    assert(parse_varint_field(s0) == Some((x.entity_id, e0.len() as int)));
    lemma_concat_skip(e0, t1);
    let s1 = s0.skip(e0.len() as int);
    assert(s1 == t1);
    lemma_u64_field(x.x_bits, t2);
    assert(parse_u64_field(s1) == Some((x.x_bits, e1.len() as int)));
    lemma_concat_skip(e1, t2);
    let s2 = s1.skip(e1.len() as int);
    assert(s2 == t2);
    lemma_u64_field(x.y_bits, t3);
    assert(parse_u64_field(s2) == Some((x.y_bits, e2.len() as int)));
    lemma_concat_skip(e2, t3);
    let s3 = s2.skip(e2.len() as int);
    assert(s3 == t3);
    lemma_u64_field(x.z_bits, t4);
    assert(parse_u64_field(s3) == Some((x.z_bits, e3.len() as int)));
    lemma_concat_skip(e3, t4);
    let s4 = s3.skip(e3.len() as int);
    assert(s4 == t4);
    lemma_u8_field(x.yaw, t5);
    assert(parse_u8_field(s4) == Some((x.yaw, e4.len() as int)));
    lemma_concat_skip(e4, t5);
    let s5 = s4.skip(e4.len() as int);
    assert(s5 == t5);
    lemma_u8_field(x.pitch, t6);
    assert(parse_u8_field(s5) == Some((x.pitch, e5.len() as int)));
    lemma_concat_skip(e5, t6);
    let s6 = s5.skip(e5.len() as int);
    assert(s6 == t6);
    assert_seqs_equal!(e6 + Seq::<u8>::empty() == e6);
    lemma_bool_field(x.on_ground, Seq::<u8>::empty());
    assert(parse_bool_field(s6) == Some((x.on_ground, e6.len() as int)));
}

/// `SetTickingState` packet; its payload is carried through opaquely.
#[derive(Debug)]
pub struct SetTickingState {
    pub ignored_data: Vec<u8>,
}

impl SetTickingState {
    /// The payload bytes this packet writes.
    pub open spec fn payload_spec(&self) -> Seq<u8> {
        self.ignored_data@
    }

    /// Whether this packet is what a reader makes of `s`.
    pub open spec fn payload_matches(&self, s: Seq<u8>) -> bool {
        self.ignored_data@ == s
    }

    /// Writes the payload fields in wire order.
    pub fn encode(&self, enc: &mut Encoder)
        ensures
            final(enc).bytes() == old(enc).bytes() + self.payload_spec(),
    {
        enc.write_slice(self.ignored_data.as_slice());
    }

    /// Reads the payload: the rest of the frame.
    pub fn decode(dec: &mut Decoder<'_>) -> (r: SetTickingState)
        ensures
            r.payload_matches(old(dec).remaining()),
        {
        SetTickingState { ignored_data: dec.read_rest() }
    }
}

/// `StepTick` packet; its payload is carried through opaquely.
#[derive(Debug)]
pub struct StepTick {
    pub ignored_data: Vec<u8>,
}

impl StepTick {
    /// The payload bytes this packet writes.
    pub open spec fn payload_spec(&self) -> Seq<u8> {
        self.ignored_data@
    }

    /// Whether this packet is what a reader makes of `s`.
    pub open spec fn payload_matches(&self, s: Seq<u8>) -> bool {
        self.ignored_data@ == s
    }

    /// Writes the payload fields in wire order.
    pub fn encode(&self, enc: &mut Encoder)
        ensures
            final(enc).bytes() == old(enc).bytes() + self.payload_spec(),
    {
        enc.write_slice(self.ignored_data.as_slice());
    }

    /// Reads the payload: the rest of the frame.
    pub fn decode(dec: &mut Decoder<'_>) -> (r: StepTick)
        ensures
            r.payload_matches(old(dec).remaining()),
        {
        StepTick { ignored_data: dec.read_rest() }
    }
}

/// `UpdateAdvancements` packet; its payload is carried through opaquely.
#[derive(Debug)]
pub struct UpdateAdvancements {
    pub ignored_data: Vec<u8>,
}

impl UpdateAdvancements {
    /// The payload bytes this packet writes.
    pub open spec fn payload_spec(&self) -> Seq<u8> {
        self.ignored_data@
    }

    /// Whether this packet is what a reader makes of `s`.
    pub open spec fn payload_matches(&self, s: Seq<u8>) -> bool {
        self.ignored_data@ == s
    }

    /// Writes the payload fields in wire order.
    pub fn encode(&self, enc: &mut Encoder)
        ensures
            final(enc).bytes() == old(enc).bytes() + self.payload_spec(),
    {
        enc.write_slice(self.ignored_data.as_slice());
    }

    /// Reads the payload: the rest of the frame.
    pub fn decode(dec: &mut Decoder<'_>) -> (r: UpdateAdvancements)
        ensures
            r.payload_matches(old(dec).remaining()),
        {
        UpdateAdvancements { ignored_data: dec.read_rest() }
    }
}

/// `UpdateAttributes` packet; its payload is carried through opaquely.
#[derive(Debug)]
pub struct UpdateAttributes {
    pub ignored_data: Vec<u8>,
}

impl UpdateAttributes {
    /// The payload bytes this packet writes.
    pub open spec fn payload_spec(&self) -> Seq<u8> {
        self.ignored_data@
    }

    /// Whether this packet is what a reader makes of `s`.
    pub open spec fn payload_matches(&self, s: Seq<u8>) -> bool {
        self.ignored_data@ == s
    }

    /// Writes the payload fields in wire order.
    pub fn encode(&self, enc: &mut Encoder)
        ensures
            final(enc).bytes() == old(enc).bytes() + self.payload_spec(),
    {
        enc.write_slice(self.ignored_data.as_slice());
    }

    /// Reads the payload: the rest of the frame.
    pub fn decode(dec: &mut Decoder<'_>) -> (r: UpdateAttributes)
        ensures
            r.payload_matches(old(dec).remaining()),
        {
        UpdateAttributes { ignored_data: dec.read_rest() }
    }
}

/// `EntityEffect` packet, with the fields the multiplexer inspects.
#[derive(Debug)]
pub struct EntityEffect {
    pub entity_id: i32,
    pub ignored_data: Vec<u8>,
}

impl EntityEffect {
    /// The payload bytes this packet writes.
    pub open spec fn payload_spec(&self) -> Seq<u8> {
        varint_wire(self.entity_id) + self.ignored_data@
    }

    /// Whether this packet is what a reader makes of `s`.
    pub open spec fn payload_matches(&self, s: Seq<u8>) -> bool {
        match parse_varint_field(s) {
            None => false,
            Some((f_entity_id, n0)) => {
                let s1 = s.skip(n0);
            self.entity_id == f_entity_id && self.ignored_data@ == s1
            },
        }
    }

    /// Whether a reader can make any packet of this kind of `s`.
    pub open spec fn payload_parses(s: Seq<u8>) -> bool {
        match parse_varint_field(s) {
            None => false,
            Some((f_entity_id, n0)) => {
                let s1 = s.skip(n0);
            true
            },
        }
    }

    /// Writes the payload fields in wire order.
    pub fn encode(&self, enc: &mut Encoder)
        ensures
            final(enc).bytes() == old(enc).bytes() + self.payload_spec(),
    {
        enc.write_var_int(self.entity_id);
        enc.write_slice(self.ignored_data.as_slice());
        proof {
            assert_seqs_equal!(enc.bytes() == old(enc).bytes() + self.payload_spec());
        }
    }

    /// Reads the payload fields in wire order.
    pub fn decode(dec: &mut Decoder<'_>) -> (r: Result<EntityEffect, DecodeError>)
        ensures
            match r {
                Ok(x) => {
                    &&& x.payload_matches(old(dec).remaining())
                },
                Err(_) => !Self::payload_parses(old(dec).remaining()),
            },
    {
        let entity_id = dec.read_var_int()?;
        let ignored_data = dec.read_rest();
        Ok(EntityEffect { entity_id, ignored_data })
    }
}

/// The payload of `EntityEffect` parses back to the packet itself.
pub proof fn lemma_entity_effect_round_trip(x: EntityEffect)
    ensures
        x.payload_matches(x.payload_spec()),
{
    let s = x.payload_spec();
    let e0 = varint_wire(x.entity_id);
    let e1 = x.ignored_data@;
    let p1 = e0 + e1;
    let t1 = e1;
    assert(s == e0 + t1);
    let s0 = s;
    lemma_varint_field(x.entity_id, t1);
    assert(parse_varint_field(s0) == Some((x.entity_id, e0.len() as int)));
    lemma_concat_skip(e0, t1);
    let s1 = s0.skip(e0.len() as int);
    assert(s1 == t1);
    assert(s1 == x.ignored_data@);
}

/// `UpdateRecipes` packet; its payload is carried through opaquely.
#[derive(Debug)]
pub struct UpdateRecipes {
    pub ignored_data: Vec<u8>,
}

impl UpdateRecipes {
    /// The payload bytes this packet writes.
    pub open spec fn payload_spec(&self) -> Seq<u8> {
        self.ignored_data@
    }

    /// Whether this packet is what a reader makes of `s`.
    pub open spec fn payload_matches(&self, s: Seq<u8>) -> bool {
        self.ignored_data@ == s
    }

    /// Writes the payload fields in wire order.
    pub fn encode(&self, enc: &mut Encoder)
        ensures
            final(enc).bytes() == old(enc).bytes() + self.payload_spec(),
    {
        enc.write_slice(self.ignored_data.as_slice());
    }

    /// Reads the payload: the rest of the frame.
    pub fn decode(dec: &mut Decoder<'_>) -> (r: UpdateRecipes)
        ensures
            r.payload_matches(old(dec).remaining()),
        {
        UpdateRecipes { ignored_data: dec.read_rest() }
    }
}

/// `UpdateTags` packet; its payload is carried through opaquely.
#[derive(Debug)]
pub struct UpdateTags {
    pub ignored_data: Vec<u8>,
}

impl UpdateTags {
    /// The payload bytes this packet writes.
    pub open spec fn payload_spec(&self) -> Seq<u8> {
        self.ignored_data@
    }

    /// Whether this packet is what a reader makes of `s`.
    pub open spec fn payload_matches(&self, s: Seq<u8>) -> bool {
        self.ignored_data@ == s
    }

    /// Writes the payload fields in wire order.
    pub fn encode(&self, enc: &mut Encoder)
        ensures
            final(enc).bytes() == old(enc).bytes() + self.payload_spec(),
    {
        enc.write_slice(self.ignored_data.as_slice());
    }

    /// Reads the payload: the rest of the frame.
    pub fn decode(dec: &mut Decoder<'_>) -> (r: UpdateTags)
        ensures
            r.payload_matches(old(dec).remaining()),
        {
        UpdateTags { ignored_data: dec.read_rest() }
    }
}

/// Server-to-client packets of the Play state.
#[derive(Debug)]
pub enum Packet {
    BundleDelimiter(BundleDelimiter),
    SpawnEntity(SpawnEntity),
    SpawnExperienceOrb(SpawnExperienceOrb),
    EntityAnimation(EntityAnimation),
    AwardStatistics(AwardStatistics),
    AcknowledgeBlockChange(AcknowledgeBlockChange),
    SetBlockDestroyStage(SetBlockDestroyStage),
    BlockEntityData(BlockEntityData),
    BlockAction(BlockAction),
    BlockUpdate(BlockUpdate),
    BossBar(BossBar),
    ChangeDifficulty(ChangeDifficulty),
    ChunkBatchFinished(ChunkBatchFinished),
    ChunkBatchStart(ChunkBatchStart),
    ChunkBiomes(ChunkBiomes),
    ClearTitles(ClearTitles),
    CommandSuggestions(CommandSuggestions),
    Commands(Commands),
    CloseContainer(CloseContainer),
    SetContainerContents(SetContainerContents),
    SetContainerProperty(SetContainerProperty),
    SetContainerSlot(SetContainerSlot),
    SetCooldown(SetCooldown),
    ChatSuggestions(ChatSuggestions),
    PluginMessage(PluginMessage),
    DamageEvent(DamageEvent),
    DeleteMessage(DeleteMessage),
    Disconnect(Disconnect),
    DisguisedChatMessage(DisguisedChatMessage),
    EntityEvent(EntityEvent),
    Explosion(Explosion),
    UnloadChunk(UnloadChunk),
    GameEvent(GameEvent),
    OpenHorseScreen(OpenHorseScreen),
    HurtAnimation(HurtAnimation),
    InitializeWorldBorder(InitializeWorldBorder),
    KeepAlive(KeepAlive),
    ChunkAndLightData(ChunkAndLightData),
    WorldEvent(WorldEvent),
    Particle(Particle),
    UpdateLight(UpdateLight),
    Login(Login),
    MapData(MapData),
    MerchantOffers(MerchantOffers),
    UpdateEntityPosition(UpdateEntityPosition),
    UpdateEntityPositionAndRotation(UpdateEntityPositionAndRotation),
    UpdateEntityRotation(UpdateEntityRotation),
    MoveVehicle(MoveVehicle),
    OpenBook(OpenBook),
    OpenScreen(OpenScreen),
    OpenSignEditor(OpenSignEditor),
    Ping(Ping),
    PingResponse(PingResponse),
    PlaceGhostRecipe(PlaceGhostRecipe),
    PlayerAbilities(PlayerAbilities),
    PlayerChatMessage(PlayerChatMessage),
    EndCombat(EndCombat),
    EnterCombat(EnterCombat),
    CombatDeath(CombatDeath),
    PlayerInfoRemove(PlayerInfoRemove),
    PlayerInfoUpdate(PlayerInfoUpdate),
    LookAt(LookAt),
    SynchronizePlayerPosition(SynchronizePlayerPosition),
    UpdateRecipeBook(UpdateRecipeBook),
    RemoveEntities(RemoveEntities),
    RemoveEntityEffect(RemoveEntityEffect),
    ResetScore(ResetScore),
    RemoveResourcePack(RemoveResourcePack),
    AddResourcePack(AddResourcePack),
    Respawn(Respawn),
    SetHeadRotation(SetHeadRotation),
    UpdateSectionBlocks(UpdateSectionBlocks),
    SelectAdvancementsTab(SelectAdvancementsTab),
    ServerData(ServerData),
    SetActionBarText(SetActionBarText),
    SetWorldBorderCenter(SetWorldBorderCenter),
    SetWorldBorderLerpSize(SetWorldBorderLerpSize),
    SetWorldBorderSize(SetWorldBorderSize),
    SetWorldBorderWarningDelay(SetWorldBorderWarningDelay),
    SetWorldBorderWarningDistance(SetWorldBorderWarningDistance),
    SetCamera(SetCamera),
    SetHeldItem(SetHeldItem),
    SetCenterChunk(SetCenterChunk),
    SetViewDistance(SetViewDistance),
    SetDefaultSpawnPosition(SetDefaultSpawnPosition),
    DisplayObjective(DisplayObjective),
    SetEntityMetadata(SetEntityMetadata),
    LinkEntities(LinkEntities),
    SetEntityVelocity(SetEntityVelocity),
    SetEquipment(SetEquipment),
    SetExperience(SetExperience),
    SetHealth(SetHealth),
    UpdateObjectives(UpdateObjectives),
    SetPassengers(SetPassengers),
    UpdateTeams(UpdateTeams),
    UpdateScore(UpdateScore),
    SetSimulationDistance(SetSimulationDistance),
    SetSubtitleText(SetSubtitleText),
    UpdateTime(UpdateTime),
    SetTitleText(SetTitleText),
    SetTitleAnimationTimes(SetTitleAnimationTimes),
    EntitySoundEffect(EntitySoundEffect),
    SoundEffect(SoundEffect),
    StartConfiguration(StartConfiguration),
    StopSound(StopSound),
    SystemChatMessage(SystemChatMessage),
    SetTabListHeaderAndFooter(SetTabListHeaderAndFooter),
    TagQueryResponse(TagQueryResponse),
    PickUpItem(PickUpItem),
    TeleportEntity(TeleportEntity),
    SetTickingState(SetTickingState),
    StepTick(StepTick),
    UpdateAdvancements(UpdateAdvancements),
    UpdateAttributes(UpdateAttributes),
    EntityEffect(EntityEffect),
    UpdateRecipes(UpdateRecipes),
    UpdateTags(UpdateTags),
}

impl Packet {
    /// The VarInt discriminant of this packet on the wire.
    pub open spec fn wire_id(&self) -> u32 {
        match self {
            Packet::BundleDelimiter(_) => 0x0,
            Packet::SpawnEntity(_) => 0x1,
            Packet::SpawnExperienceOrb(_) => 0x2,
            Packet::EntityAnimation(_) => 0x3,
            Packet::AwardStatistics(_) => 0x4,
            Packet::AcknowledgeBlockChange(_) => 0x5,
            Packet::SetBlockDestroyStage(_) => 0x6,
            Packet::BlockEntityData(_) => 0x7,
            Packet::BlockAction(_) => 0x8,
            Packet::BlockUpdate(_) => 0x9,
            Packet::BossBar(_) => 0xa,
            Packet::ChangeDifficulty(_) => 0xb,
            Packet::ChunkBatchFinished(_) => 0xc,
            Packet::ChunkBatchStart(_) => 0xd,
            Packet::ChunkBiomes(_) => 0xe,
            Packet::ClearTitles(_) => 0xf,
            Packet::CommandSuggestions(_) => 0x10,
            Packet::Commands(_) => 0x11,
            Packet::CloseContainer(_) => 0x12,
            Packet::SetContainerContents(_) => 0x13,
            Packet::SetContainerProperty(_) => 0x14,
            Packet::SetContainerSlot(_) => 0x15,
            Packet::SetCooldown(_) => 0x16,
            Packet::ChatSuggestions(_) => 0x17,
            Packet::PluginMessage(_) => 0x18,
            Packet::DamageEvent(_) => 0x19,
            Packet::DeleteMessage(_) => 0x1a,
            Packet::Disconnect(_) => 0x1b,
            Packet::DisguisedChatMessage(_) => 0x1c,
            Packet::EntityEvent(_) => 0x1d,
            Packet::Explosion(_) => 0x1e,
            Packet::UnloadChunk(_) => 0x1f,
            Packet::GameEvent(_) => 0x20,
            Packet::OpenHorseScreen(_) => 0x21,
            Packet::HurtAnimation(_) => 0x22,
            Packet::InitializeWorldBorder(_) => 0x23,
            Packet::KeepAlive(_) => 0x24,
            Packet::ChunkAndLightData(_) => 0x25,
            Packet::WorldEvent(_) => 0x26,
            Packet::Particle(_) => 0x27,
            Packet::UpdateLight(_) => 0x28,
            Packet::Login(_) => 0x29,
            Packet::MapData(_) => 0x2a,
            Packet::MerchantOffers(_) => 0x2b,
            Packet::UpdateEntityPosition(_) => 0x2c,
            Packet::UpdateEntityPositionAndRotation(_) => 0x2d,
            Packet::UpdateEntityRotation(_) => 0x2e,
            Packet::MoveVehicle(_) => 0x2f,
            Packet::OpenBook(_) => 0x30,
            Packet::OpenScreen(_) => 0x31,
            Packet::OpenSignEditor(_) => 0x32,
            Packet::Ping(_) => 0x33,
            Packet::PingResponse(_) => 0x34,
            Packet::PlaceGhostRecipe(_) => 0x35,
            Packet::PlayerAbilities(_) => 0x36,
            Packet::PlayerChatMessage(_) => 0x37,
            Packet::EndCombat(_) => 0x38,
            Packet::EnterCombat(_) => 0x39,
            Packet::CombatDeath(_) => 0x3a,
            Packet::PlayerInfoRemove(_) => 0x3b,
            Packet::PlayerInfoUpdate(_) => 0x3c,
            Packet::LookAt(_) => 0x3d,
            Packet::SynchronizePlayerPosition(_) => 0x3e,
            Packet::UpdateRecipeBook(_) => 0x3f,
            Packet::RemoveEntities(_) => 0x40,
            Packet::RemoveEntityEffect(_) => 0x41,
            Packet::ResetScore(_) => 0x42,
            Packet::RemoveResourcePack(_) => 0x43,
            Packet::AddResourcePack(_) => 0x44,
            Packet::Respawn(_) => 0x45,
            Packet::SetHeadRotation(_) => 0x46,
            Packet::UpdateSectionBlocks(_) => 0x47,
            Packet::SelectAdvancementsTab(_) => 0x48,
            Packet::ServerData(_) => 0x49,
            Packet::SetActionBarText(_) => 0x4a,
            Packet::SetWorldBorderCenter(_) => 0x4b,
            Packet::SetWorldBorderLerpSize(_) => 0x4c,
            Packet::SetWorldBorderSize(_) => 0x4d,
            Packet::SetWorldBorderWarningDelay(_) => 0x4e,
            Packet::SetWorldBorderWarningDistance(_) => 0x4f,
            Packet::SetCamera(_) => 0x50,
            Packet::SetHeldItem(_) => 0x51,
            Packet::SetCenterChunk(_) => 0x52,
            Packet::SetViewDistance(_) => 0x53,
            Packet::SetDefaultSpawnPosition(_) => 0x54,
            Packet::DisplayObjective(_) => 0x55,
            Packet::SetEntityMetadata(_) => 0x56,
            Packet::LinkEntities(_) => 0x57,
            Packet::SetEntityVelocity(_) => 0x58,
            Packet::SetEquipment(_) => 0x59,
            Packet::SetExperience(_) => 0x5a,
            Packet::SetHealth(_) => 0x5b,
            Packet::UpdateObjectives(_) => 0x5c,
            Packet::SetPassengers(_) => 0x5d,
            Packet::UpdateTeams(_) => 0x5e,
            Packet::UpdateScore(_) => 0x5f,
            Packet::SetSimulationDistance(_) => 0x60,
            Packet::SetSubtitleText(_) => 0x61,
            Packet::UpdateTime(_) => 0x62,
            Packet::SetTitleText(_) => 0x63,
            Packet::SetTitleAnimationTimes(_) => 0x64,
            Packet::EntitySoundEffect(_) => 0x65,
            Packet::SoundEffect(_) => 0x66,
            Packet::StartConfiguration(_) => 0x67,
            Packet::StopSound(_) => 0x68,
            Packet::SystemChatMessage(_) => 0x69,
            Packet::SetTabListHeaderAndFooter(_) => 0x6a,
            Packet::TagQueryResponse(_) => 0x6b,
            Packet::PickUpItem(_) => 0x6c,
            Packet::TeleportEntity(_) => 0x6d,
            Packet::SetTickingState(_) => 0x6e,
            Packet::StepTick(_) => 0x6f,
            Packet::UpdateAdvancements(_) => 0x70,
            Packet::UpdateAttributes(_) => 0x71,
            Packet::EntityEffect(_) => 0x72,
            Packet::UpdateRecipes(_) => 0x73,
            Packet::UpdateTags(_) => 0x74,
        }
    }

    /// The payload bytes after the discriminant.
    pub open spec fn payload_spec(&self) -> Seq<u8> {
        match self {
            Packet::BundleDelimiter(x) => x.payload_spec(),
            Packet::SpawnEntity(x) => x.payload_spec(),
            Packet::SpawnExperienceOrb(x) => x.payload_spec(),
            Packet::EntityAnimation(x) => x.payload_spec(),
            Packet::AwardStatistics(x) => x.payload_spec(),
            Packet::AcknowledgeBlockChange(x) => x.payload_spec(),
            Packet::SetBlockDestroyStage(x) => x.payload_spec(),
            Packet::BlockEntityData(x) => x.payload_spec(),
            Packet::BlockAction(x) => x.payload_spec(),
            Packet::BlockUpdate(x) => x.payload_spec(),
            Packet::BossBar(x) => x.payload_spec(),
            Packet::ChangeDifficulty(x) => x.payload_spec(),
            Packet::ChunkBatchFinished(x) => x.payload_spec(),
            Packet::ChunkBatchStart(x) => x.payload_spec(),
            Packet::ChunkBiomes(x) => x.payload_spec(),
            Packet::ClearTitles(x) => x.payload_spec(),
            Packet::CommandSuggestions(x) => x.payload_spec(),
            Packet::Commands(x) => x.payload_spec(),
            Packet::CloseContainer(x) => x.payload_spec(),
            Packet::SetContainerContents(x) => x.payload_spec(),
            Packet::SetContainerProperty(x) => x.payload_spec(),
            Packet::SetContainerSlot(x) => x.payload_spec(),
            Packet::SetCooldown(x) => x.payload_spec(),
            Packet::ChatSuggestions(x) => x.payload_spec(),
            Packet::PluginMessage(x) => x.payload_spec(),
            Packet::DamageEvent(x) => x.payload_spec(),
            Packet::DeleteMessage(x) => x.payload_spec(),
            Packet::Disconnect(x) => x.payload_spec(),
            Packet::DisguisedChatMessage(x) => x.payload_spec(),
            Packet::EntityEvent(x) => x.payload_spec(),
            Packet::Explosion(x) => x.payload_spec(),
            Packet::UnloadChunk(x) => x.payload_spec(),
            Packet::GameEvent(x) => x.payload_spec(),
            Packet::OpenHorseScreen(x) => x.payload_spec(),
            Packet::HurtAnimation(x) => x.payload_spec(),
            Packet::InitializeWorldBorder(x) => x.payload_spec(),
            Packet::KeepAlive(x) => x.payload_spec(),
            Packet::ChunkAndLightData(x) => x.payload_spec(),
            Packet::WorldEvent(x) => x.payload_spec(),
            Packet::Particle(x) => x.payload_spec(),
            Packet::UpdateLight(x) => x.payload_spec(),
            Packet::Login(x) => x.payload_spec(),
            Packet::MapData(x) => x.payload_spec(),
            Packet::MerchantOffers(x) => x.payload_spec(),
            Packet::UpdateEntityPosition(x) => x.payload_spec(),
            Packet::UpdateEntityPositionAndRotation(x) => x.payload_spec(),
            Packet::UpdateEntityRotation(x) => x.payload_spec(),
            Packet::MoveVehicle(x) => x.payload_spec(),
            Packet::OpenBook(x) => x.payload_spec(),
            Packet::OpenScreen(x) => x.payload_spec(),
            Packet::OpenSignEditor(x) => x.payload_spec(),
            Packet::Ping(x) => x.payload_spec(),
            Packet::PingResponse(x) => x.payload_spec(),
            Packet::PlaceGhostRecipe(x) => x.payload_spec(),
            Packet::PlayerAbilities(x) => x.payload_spec(),
            Packet::PlayerChatMessage(x) => x.payload_spec(),
            Packet::EndCombat(x) => x.payload_spec(),
            Packet::EnterCombat(x) => x.payload_spec(),
            Packet::CombatDeath(x) => x.payload_spec(),
            Packet::PlayerInfoRemove(x) => x.payload_spec(),
            Packet::PlayerInfoUpdate(x) => x.payload_spec(),
            Packet::LookAt(x) => x.payload_spec(),
            Packet::SynchronizePlayerPosition(x) => x.payload_spec(),
            Packet::UpdateRecipeBook(x) => x.payload_spec(),
            Packet::RemoveEntities(x) => x.payload_spec(),
            Packet::RemoveEntityEffect(x) => x.payload_spec(),
            Packet::ResetScore(x) => x.payload_spec(),
            Packet::RemoveResourcePack(x) => x.payload_spec(),
            Packet::AddResourcePack(x) => x.payload_spec(),
            Packet::Respawn(x) => x.payload_spec(),
            Packet::SetHeadRotation(x) => x.payload_spec(),
            Packet::UpdateSectionBlocks(x) => x.payload_spec(),
            Packet::SelectAdvancementsTab(x) => x.payload_spec(),
            Packet::ServerData(x) => x.payload_spec(),
            Packet::SetActionBarText(x) => x.payload_spec(),
            Packet::SetWorldBorderCenter(x) => x.payload_spec(),
            Packet::SetWorldBorderLerpSize(x) => x.payload_spec(),
            Packet::SetWorldBorderSize(x) => x.payload_spec(),
            Packet::SetWorldBorderWarningDelay(x) => x.payload_spec(),
            Packet::SetWorldBorderWarningDistance(x) => x.payload_spec(),
            Packet::SetCamera(x) => x.payload_spec(),
            Packet::SetHeldItem(x) => x.payload_spec(),
            Packet::SetCenterChunk(x) => x.payload_spec(),
            Packet::SetViewDistance(x) => x.payload_spec(),
            Packet::SetDefaultSpawnPosition(x) => x.payload_spec(),
            Packet::DisplayObjective(x) => x.payload_spec(),
            Packet::SetEntityMetadata(x) => x.payload_spec(),
            Packet::LinkEntities(x) => x.payload_spec(),
            Packet::SetEntityVelocity(x) => x.payload_spec(),
            Packet::SetEquipment(x) => x.payload_spec(),
            Packet::SetExperience(x) => x.payload_spec(),
            Packet::SetHealth(x) => x.payload_spec(),
            Packet::UpdateObjectives(x) => x.payload_spec(),
            Packet::SetPassengers(x) => x.payload_spec(),
            Packet::UpdateTeams(x) => x.payload_spec(),
            Packet::UpdateScore(x) => x.payload_spec(),
            Packet::SetSimulationDistance(x) => x.payload_spec(),
            Packet::SetSubtitleText(x) => x.payload_spec(),
            Packet::UpdateTime(x) => x.payload_spec(),
            Packet::SetTitleText(x) => x.payload_spec(),
            Packet::SetTitleAnimationTimes(x) => x.payload_spec(),
            Packet::EntitySoundEffect(x) => x.payload_spec(),
            Packet::SoundEffect(x) => x.payload_spec(),
            Packet::StartConfiguration(x) => x.payload_spec(),
            Packet::StopSound(x) => x.payload_spec(),
            Packet::SystemChatMessage(x) => x.payload_spec(),
            Packet::SetTabListHeaderAndFooter(x) => x.payload_spec(),
            Packet::TagQueryResponse(x) => x.payload_spec(),
            Packet::PickUpItem(x) => x.payload_spec(),
            Packet::TeleportEntity(x) => x.payload_spec(),
            Packet::SetTickingState(x) => x.payload_spec(),
            Packet::StepTick(x) => x.payload_spec(),
            Packet::UpdateAdvancements(x) => x.payload_spec(),
            Packet::UpdateAttributes(x) => x.payload_spec(),
            Packet::EntityEffect(x) => x.payload_spec(),
            Packet::UpdateRecipes(x) => x.payload_spec(),
            Packet::UpdateTags(x) => x.payload_spec(),
        }
    }

    /// The whole wire form: discriminant, then payload.
    pub open spec fn wire_spec(&self) -> Seq<u8> {
        var_int_bytes(self.wire_id()) + self.payload_spec()
    }

    /// Whether this packet is what a reader makes of `s`.
    pub open spec fn matches_wire(&self, s: Seq<u8>) -> bool {
        match parse_var_int(s, 4) {
            None => false,
            Some((id, n)) => id == self.wire_id() && match self {
                Packet::BundleDelimiter(x) => x.payload_matches(s.skip(n)),
                Packet::SpawnEntity(x) => x.payload_matches(s.skip(n)),
                Packet::SpawnExperienceOrb(x) => x.payload_matches(s.skip(n)),
                Packet::EntityAnimation(x) => x.payload_matches(s.skip(n)),
                Packet::AwardStatistics(x) => x.payload_matches(s.skip(n)),
                Packet::AcknowledgeBlockChange(x) => x.payload_matches(s.skip(n)),
                Packet::SetBlockDestroyStage(x) => x.payload_matches(s.skip(n)),
                Packet::BlockEntityData(x) => x.payload_matches(s.skip(n)),
                Packet::BlockAction(x) => x.payload_matches(s.skip(n)),
                Packet::BlockUpdate(x) => x.payload_matches(s.skip(n)),
                Packet::BossBar(x) => x.payload_matches(s.skip(n)),
                Packet::ChangeDifficulty(x) => x.payload_matches(s.skip(n)),
                Packet::ChunkBatchFinished(x) => x.payload_matches(s.skip(n)),
                Packet::ChunkBatchStart(x) => x.payload_matches(s.skip(n)),
                Packet::ChunkBiomes(x) => x.payload_matches(s.skip(n)),
                Packet::ClearTitles(x) => x.payload_matches(s.skip(n)),
                Packet::CommandSuggestions(x) => x.payload_matches(s.skip(n)),
                Packet::Commands(x) => x.payload_matches(s.skip(n)),
                Packet::CloseContainer(x) => x.payload_matches(s.skip(n)),
                Packet::SetContainerContents(x) => x.payload_matches(s.skip(n)),
                Packet::SetContainerProperty(x) => x.payload_matches(s.skip(n)),
                Packet::SetContainerSlot(x) => x.payload_matches(s.skip(n)),
                Packet::SetCooldown(x) => x.payload_matches(s.skip(n)),
                Packet::ChatSuggestions(x) => x.payload_matches(s.skip(n)),
                Packet::PluginMessage(x) => x.payload_matches(s.skip(n)),
                Packet::DamageEvent(x) => x.payload_matches(s.skip(n)),
                Packet::DeleteMessage(x) => x.payload_matches(s.skip(n)),
                Packet::Disconnect(x) => x.payload_matches(s.skip(n)),
                Packet::DisguisedChatMessage(x) => x.payload_matches(s.skip(n)),
                Packet::EntityEvent(x) => x.payload_matches(s.skip(n)),
                Packet::Explosion(x) => x.payload_matches(s.skip(n)),
                Packet::UnloadChunk(x) => x.payload_matches(s.skip(n)),
                Packet::GameEvent(x) => x.payload_matches(s.skip(n)),
                Packet::OpenHorseScreen(x) => x.payload_matches(s.skip(n)),
                Packet::HurtAnimation(x) => x.payload_matches(s.skip(n)),
                Packet::InitializeWorldBorder(x) => x.payload_matches(s.skip(n)),
                Packet::KeepAlive(x) => x.payload_matches(s.skip(n)),
                Packet::ChunkAndLightData(x) => x.payload_matches(s.skip(n)),
                Packet::WorldEvent(x) => x.payload_matches(s.skip(n)),
                Packet::Particle(x) => x.payload_matches(s.skip(n)),
                Packet::UpdateLight(x) => x.payload_matches(s.skip(n)),
                Packet::Login(x) => x.payload_matches(s.skip(n)),
                Packet::MapData(x) => x.payload_matches(s.skip(n)),
                Packet::MerchantOffers(x) => x.payload_matches(s.skip(n)),
                Packet::UpdateEntityPosition(x) => x.payload_matches(s.skip(n)),
                Packet::UpdateEntityPositionAndRotation(x) => x.payload_matches(s.skip(n)),
                Packet::UpdateEntityRotation(x) => x.payload_matches(s.skip(n)),
                Packet::MoveVehicle(x) => x.payload_matches(s.skip(n)),
                Packet::OpenBook(x) => x.payload_matches(s.skip(n)),
                Packet::OpenScreen(x) => x.payload_matches(s.skip(n)),
                Packet::OpenSignEditor(x) => x.payload_matches(s.skip(n)),
                Packet::Ping(x) => x.payload_matches(s.skip(n)),
                Packet::PingResponse(x) => x.payload_matches(s.skip(n)),
                Packet::PlaceGhostRecipe(x) => x.payload_matches(s.skip(n)),
                Packet::PlayerAbilities(x) => x.payload_matches(s.skip(n)),
                Packet::PlayerChatMessage(x) => x.payload_matches(s.skip(n)),
                Packet::EndCombat(x) => x.payload_matches(s.skip(n)),
                Packet::EnterCombat(x) => x.payload_matches(s.skip(n)),
                Packet::CombatDeath(x) => x.payload_matches(s.skip(n)),
                Packet::PlayerInfoRemove(x) => x.payload_matches(s.skip(n)),
                Packet::PlayerInfoUpdate(x) => x.payload_matches(s.skip(n)),
                Packet::LookAt(x) => x.payload_matches(s.skip(n)),
                Packet::SynchronizePlayerPosition(x) => x.payload_matches(s.skip(n)),
                Packet::UpdateRecipeBook(x) => x.payload_matches(s.skip(n)),
                Packet::RemoveEntities(x) => x.payload_matches(s.skip(n)),
                Packet::RemoveEntityEffect(x) => x.payload_matches(s.skip(n)),
                Packet::ResetScore(x) => x.payload_matches(s.skip(n)),
                Packet::RemoveResourcePack(x) => x.payload_matches(s.skip(n)),
                Packet::AddResourcePack(x) => x.payload_matches(s.skip(n)),
                Packet::Respawn(x) => x.payload_matches(s.skip(n)),
                Packet::SetHeadRotation(x) => x.payload_matches(s.skip(n)),
                Packet::UpdateSectionBlocks(x) => x.payload_matches(s.skip(n)),
                Packet::SelectAdvancementsTab(x) => x.payload_matches(s.skip(n)),
                Packet::ServerData(x) => x.payload_matches(s.skip(n)),
                Packet::SetActionBarText(x) => x.payload_matches(s.skip(n)),
                Packet::SetWorldBorderCenter(x) => x.payload_matches(s.skip(n)),
                Packet::SetWorldBorderLerpSize(x) => x.payload_matches(s.skip(n)),
                Packet::SetWorldBorderSize(x) => x.payload_matches(s.skip(n)),
                Packet::SetWorldBorderWarningDelay(x) => x.payload_matches(s.skip(n)),
                Packet::SetWorldBorderWarningDistance(x) => x.payload_matches(s.skip(n)),
                Packet::SetCamera(x) => x.payload_matches(s.skip(n)),
                Packet::SetHeldItem(x) => x.payload_matches(s.skip(n)),
                Packet::SetCenterChunk(x) => x.payload_matches(s.skip(n)),
                Packet::SetViewDistance(x) => x.payload_matches(s.skip(n)),
                Packet::SetDefaultSpawnPosition(x) => x.payload_matches(s.skip(n)),
                Packet::DisplayObjective(x) => x.payload_matches(s.skip(n)),
                Packet::SetEntityMetadata(x) => x.payload_matches(s.skip(n)),
                Packet::LinkEntities(x) => x.payload_matches(s.skip(n)),
                Packet::SetEntityVelocity(x) => x.payload_matches(s.skip(n)),
                Packet::SetEquipment(x) => x.payload_matches(s.skip(n)),
                Packet::SetExperience(x) => x.payload_matches(s.skip(n)),
                Packet::SetHealth(x) => x.payload_matches(s.skip(n)),
                Packet::UpdateObjectives(x) => x.payload_matches(s.skip(n)),
                Packet::SetPassengers(x) => x.payload_matches(s.skip(n)),
                Packet::UpdateTeams(x) => x.payload_matches(s.skip(n)),
                Packet::UpdateScore(x) => x.payload_matches(s.skip(n)),
                Packet::SetSimulationDistance(x) => x.payload_matches(s.skip(n)),
                Packet::SetSubtitleText(x) => x.payload_matches(s.skip(n)),
                Packet::UpdateTime(x) => x.payload_matches(s.skip(n)),
                Packet::SetTitleText(x) => x.payload_matches(s.skip(n)),
                Packet::SetTitleAnimationTimes(x) => x.payload_matches(s.skip(n)),
                Packet::EntitySoundEffect(x) => x.payload_matches(s.skip(n)),
                Packet::SoundEffect(x) => x.payload_matches(s.skip(n)),
                Packet::StartConfiguration(x) => x.payload_matches(s.skip(n)),
                Packet::StopSound(x) => x.payload_matches(s.skip(n)),
                Packet::SystemChatMessage(x) => x.payload_matches(s.skip(n)),
                Packet::SetTabListHeaderAndFooter(x) => x.payload_matches(s.skip(n)),
                Packet::TagQueryResponse(x) => x.payload_matches(s.skip(n)),
                Packet::PickUpItem(x) => x.payload_matches(s.skip(n)),
                Packet::TeleportEntity(x) => x.payload_matches(s.skip(n)),
                Packet::SetTickingState(x) => x.payload_matches(s.skip(n)),
                Packet::StepTick(x) => x.payload_matches(s.skip(n)),
                Packet::UpdateAdvancements(x) => x.payload_matches(s.skip(n)),
                Packet::UpdateAttributes(x) => x.payload_matches(s.skip(n)),
                Packet::EntityEffect(x) => x.payload_matches(s.skip(n)),
                Packet::UpdateRecipes(x) => x.payload_matches(s.skip(n)),
                Packet::UpdateTags(x) => x.payload_matches(s.skip(n)),
            },
        }
    }

    /// Whether a reader can make any packet of `s`.
    pub open spec fn wire_parses(s: Seq<u8>) -> bool {
        match parse_var_int(s, 4) {
            None => false,
            Some((id, n)) => {
                let body = s.skip(n);
                if id == 0x0 {
                    true
                } else if id == 0x1 {
                    SpawnEntity::payload_parses(body)
                } else if id == 0x2 {
                    SpawnExperienceOrb::payload_parses(body)
                } else if id == 0x3 {
                    EntityAnimation::payload_parses(body)
                } else if id == 0x4 {
                    true
                } else if id == 0x5 {
                    true
                } else if id == 0x6 {
                    true
                } else if id == 0x7 {
                    true
                } else if id == 0x8 {
                    true
                } else if id == 0x9 {
                    BlockUpdate::payload_parses(body)
                } else if id == 0xa {
                    true
                } else if id == 0xb {
                    true
                } else if id == 0xc {
                    true
                } else if id == 0xd {
                    true
                } else if id == 0xe {
                    true
                } else if id == 0xf {
                    true
                } else if id == 0x10 {
                    true
                } else if id == 0x11 {
                    true
                } else if id == 0x12 {
                    true
                } else if id == 0x13 {
                    true
                } else if id == 0x14 {
                    true
                } else if id == 0x15 {
                    true
                } else if id == 0x16 {
                    true
                } else if id == 0x17 {
                    true
                } else if id == 0x18 {
                    true
                } else if id == 0x19 {
                    DamageEvent::payload_parses(body)
                } else if id == 0x1a {
                    true
                } else if id == 0x1b {
                    true
                } else if id == 0x1c {
                    true
                } else if id == 0x1d {
                    EntityEvent::payload_parses(body)
                } else if id == 0x1e {
                    true
                } else if id == 0x1f {
                    UnloadChunk::payload_parses(body)
                } else if id == 0x20 {
                    true
                } else if id == 0x21 {
                    true
                } else if id == 0x22 {
                    HurtAnimation::payload_parses(body)
                } else if id == 0x23 {
                    true
                } else if id == 0x24 {
                    true
                } else if id == 0x25 {
                    ChunkAndLightData::payload_parses(body)
                } else if id == 0x26 {
                    true
                } else if id == 0x27 {
                    true
                } else if id == 0x28 {
                    UpdateLight::payload_parses(body)
                } else if id == 0x29 {
                    true
                } else if id == 0x2a {
                    true
                } else if id == 0x2b {
                    true
                } else if id == 0x2c {
                    UpdateEntityPosition::payload_parses(body)
                } else if id == 0x2d {
                    UpdateEntityPositionAndRotation::payload_parses(body)
                } else if id == 0x2e {
                    UpdateEntityRotation::payload_parses(body)
                } else if id == 0x2f {
                    true
                } else if id == 0x30 {
                    true
                } else if id == 0x31 {
                    true
                } else if id == 0x32 {
                    true
                } else if id == 0x33 {
                    true
                } else if id == 0x34 {
                    true
                } else if id == 0x35 {
                    true
                } else if id == 0x36 {
                    true
                } else if id == 0x37 {
                    true
                } else if id == 0x38 {
                    true
                } else if id == 0x39 {
                    true
                } else if id == 0x3a {
                    true
                } else if id == 0x3b {
                    true
                } else if id == 0x3c {
                    true
                } else if id == 0x3d {
                    true
                } else if id == 0x3e {
                    true
                } else if id == 0x3f {
                    true
                } else if id == 0x40 {
                    RemoveEntities::payload_parses(body)
                } else if id == 0x41 {
                    true
                } else if id == 0x42 {
                    true
                } else if id == 0x43 {
                    true
                } else if id == 0x44 {
                    true
                } else if id == 0x45 {
                    true
                } else if id == 0x46 {
                    SetHeadRotation::payload_parses(body)
                } else if id == 0x47 {
                    UpdateSectionBlocks::payload_parses(body)
                } else if id == 0x48 {
                    true
                } else if id == 0x49 {
                    true
                } else if id == 0x4a {
                    true
                } else if id == 0x4b {
                    true
                } else if id == 0x4c {
                    true
                } else if id == 0x4d {
                    true
                } else if id == 0x4e {
                    true
                } else if id == 0x4f {
                    true
                } else if id == 0x50 {
                    true
                } else if id == 0x51 {
                    true
                } else if id == 0x52 {
                    true
                } else if id == 0x53 {
                    true
                } else if id == 0x54 {
                    true
                } else if id == 0x55 {
                    true
                } else if id == 0x56 {
                    true
                } else if id == 0x57 {
                    true
                } else if id == 0x58 {
                    SetEntityVelocity::payload_parses(body)
                } else if id == 0x59 {
                    true
                } else if id == 0x5a {
                    true
                } else if id == 0x5b {
                    true
                } else if id == 0x5c {
                    true
                } else if id == 0x5d {
                    true
                } else if id == 0x5e {
                    true
                } else if id == 0x5f {
                    true
                } else if id == 0x60 {
                    true
                } else if id == 0x61 {
                    true
                } else if id == 0x62 {
                    true
                } else if id == 0x63 {
                    true
                } else if id == 0x64 {
                    true
                } else if id == 0x65 {
                    true
                } else if id == 0x66 {
                    true
                } else if id == 0x67 {
                    true
                } else if id == 0x68 {
                    true
                } else if id == 0x69 {
                    true
                } else if id == 0x6a {
                    true
                } else if id == 0x6b {
                    true
                } else if id == 0x6c {
                    true
                } else if id == 0x6d {
                    TeleportEntity::payload_parses(body)
                } else if id == 0x6e {
                    true
                } else if id == 0x6f {
                    true
                } else if id == 0x70 {
                    true
                } else if id == 0x71 {
                    true
                } else if id == 0x72 {
                    EntityEffect::payload_parses(body)
                } else if id == 0x73 {
                    true
                } else if id == 0x74 {
                    true
                } else {
                    false
                }
            },
        }
    }

    /// Values whose encoding is total and parses back to the
    /// value itself.
    pub open spec fn wf(&self) -> bool {
        match self {
            Packet::RemoveEntities(x) => x.entities@.len() <= 0x7fffffff,
            Packet::BlockUpdate(x) => block_position_in_range(x.position),
            _ => true,
        }
    }

    /// Writes the discriminant, then the payload.
    #[verifier::rlimit(60)]
    pub fn encode(&self, enc: &mut Encoder)
        requires
            self.wf(),
        ensures
            final(enc).bytes() == old(enc).bytes() + self.wire_spec(),
    {
        match self {
            Packet::BundleDelimiter(x) => {
                enc.write_var_int(0x0);
                x.encode(enc);
                proof {
                    assert_seqs_equal!(
                        enc.bytes() == old(enc).bytes() + self.wire_spec()
                    );
                }
            },
            Packet::SpawnEntity(x) => {
                enc.write_var_int(0x1);
                x.encode(enc);
                proof {
                    assert_seqs_equal!(
                        enc.bytes() == old(enc).bytes() + self.wire_spec()
                    );
                }
            },
            Packet::SpawnExperienceOrb(x) => {
                enc.write_var_int(0x2);
                x.encode(enc);
                proof {
                    assert_seqs_equal!(
                        enc.bytes() == old(enc).bytes() + self.wire_spec()
                    );
                }
            },
            Packet::EntityAnimation(x) => {
                enc.write_var_int(0x3);
                x.encode(enc);
                proof {
                    assert_seqs_equal!(
                        enc.bytes() == old(enc).bytes() + self.wire_spec()
                    );
                }
            },
            Packet::AwardStatistics(x) => {
                enc.write_var_int(0x4);
                x.encode(enc);
                proof {
                    assert_seqs_equal!(
                        enc.bytes() == old(enc).bytes() + self.wire_spec()
                    );
                }
            },
            Packet::AcknowledgeBlockChange(x) => {
                enc.write_var_int(0x5);
                x.encode(enc);
                proof {
                    assert_seqs_equal!(
                        enc.bytes() == old(enc).bytes() + self.wire_spec()
                    );
                }
            },
            Packet::SetBlockDestroyStage(x) => {
                enc.write_var_int(0x6);
                x.encode(enc);
                proof {
                    assert_seqs_equal!(
                        enc.bytes() == old(enc).bytes() + self.wire_spec()
                    );
                }
            },
            Packet::BlockEntityData(x) => {
                enc.write_var_int(0x7);
                x.encode(enc);
                proof {
                    assert_seqs_equal!(
                        enc.bytes() == old(enc).bytes() + self.wire_spec()
                    );
                }
            },
            Packet::BlockAction(x) => {
                enc.write_var_int(0x8);
                x.encode(enc);
                proof {
                    assert_seqs_equal!(
                        enc.bytes() == old(enc).bytes() + self.wire_spec()
                    );
                }
            },
            Packet::BlockUpdate(x) => {
                enc.write_var_int(0x9);
                x.encode(enc);
                proof {
                    assert_seqs_equal!(
                        enc.bytes() == old(enc).bytes() + self.wire_spec()
                    );
                }
            },
            Packet::BossBar(x) => {
                enc.write_var_int(0xa);
                x.encode(enc);
                proof {
                    assert_seqs_equal!(
                        enc.bytes() == old(enc).bytes() + self.wire_spec()
                    );
                }
            },
            Packet::ChangeDifficulty(x) => {
                enc.write_var_int(0xb);
                x.encode(enc);
                proof {
                    assert_seqs_equal!(
                        enc.bytes() == old(enc).bytes() + self.wire_spec()
                    );
                }
            },
            Packet::ChunkBatchFinished(x) => {
                enc.write_var_int(0xc);
                x.encode(enc);
                proof {
                    assert_seqs_equal!(
                        enc.bytes() == old(enc).bytes() + self.wire_spec()
                    );
                }
            },
            Packet::ChunkBatchStart(x) => {
                enc.write_var_int(0xd);
                x.encode(enc);
                proof {
                    assert_seqs_equal!(
                        enc.bytes() == old(enc).bytes() + self.wire_spec()
                    );
                }
            },
            Packet::ChunkBiomes(x) => {
                enc.write_var_int(0xe);
                x.encode(enc);
                proof {
                    assert_seqs_equal!(
                        enc.bytes() == old(enc).bytes() + self.wire_spec()
                    );
                }
            },
            Packet::ClearTitles(x) => {
                enc.write_var_int(0xf);
                x.encode(enc);
                proof {
                    assert_seqs_equal!(
                        enc.bytes() == old(enc).bytes() + self.wire_spec()
                    );
                }
            },
            Packet::CommandSuggestions(x) => {
                enc.write_var_int(0x10);
                x.encode(enc);
                proof {
                    assert_seqs_equal!(
                        enc.bytes() == old(enc).bytes() + self.wire_spec()
                    );
                }
            },
            Packet::Commands(x) => {
                enc.write_var_int(0x11);
                x.encode(enc);
                proof {
                    assert_seqs_equal!(
                        enc.bytes() == old(enc).bytes() + self.wire_spec()
                    );
                }
            },
            Packet::CloseContainer(x) => {
                enc.write_var_int(0x12);
                x.encode(enc);
                proof {
                    assert_seqs_equal!(
                        enc.bytes() == old(enc).bytes() + self.wire_spec()
                    );
                }
            },
            Packet::SetContainerContents(x) => {
                enc.write_var_int(0x13);
                x.encode(enc);
                proof {
                    assert_seqs_equal!(
                        enc.bytes() == old(enc).bytes() + self.wire_spec()
                    );
                }
            },
            Packet::SetContainerProperty(x) => {
                enc.write_var_int(0x14);
                x.encode(enc);
                proof {
                    assert_seqs_equal!(
                        enc.bytes() == old(enc).bytes() + self.wire_spec()
                    );
                }
            },
            Packet::SetContainerSlot(x) => {
                enc.write_var_int(0x15);
                x.encode(enc);
                proof {
                    assert_seqs_equal!(
                        enc.bytes() == old(enc).bytes() + self.wire_spec()
                    );
                }
            },
            Packet::SetCooldown(x) => {
                enc.write_var_int(0x16);
                x.encode(enc);
                proof {
                    assert_seqs_equal!(
                        enc.bytes() == old(enc).bytes() + self.wire_spec()
                    );
                }
            },
            Packet::ChatSuggestions(x) => {
                enc.write_var_int(0x17);
                x.encode(enc);
                proof {
                    assert_seqs_equal!(
                        enc.bytes() == old(enc).bytes() + self.wire_spec()
                    );
                }
            },
            Packet::PluginMessage(x) => {
                enc.write_var_int(0x18);
                x.encode(enc);
                proof {
                    assert_seqs_equal!(
                        enc.bytes() == old(enc).bytes() + self.wire_spec()
                    );
                }
            },
            Packet::DamageEvent(x) => {
                enc.write_var_int(0x19);
                x.encode(enc);
                proof {
                    assert_seqs_equal!(
                        enc.bytes() == old(enc).bytes() + self.wire_spec()
                    );
                }
            },
            Packet::DeleteMessage(x) => {
                enc.write_var_int(0x1a);
                x.encode(enc);
                proof {
                    assert_seqs_equal!(
                        enc.bytes() == old(enc).bytes() + self.wire_spec()
                    );
                }
            },
            Packet::Disconnect(x) => {
                enc.write_var_int(0x1b);
                x.encode(enc);
                proof {
                    assert_seqs_equal!(
                        enc.bytes() == old(enc).bytes() + self.wire_spec()
                    );
                }
            },
            Packet::DisguisedChatMessage(x) => {
                enc.write_var_int(0x1c);
                x.encode(enc);
                proof {
                    assert_seqs_equal!(
                        enc.bytes() == old(enc).bytes() + self.wire_spec()
                    );
                }
            },
            Packet::EntityEvent(x) => {
                enc.write_var_int(0x1d);
                x.encode(enc);
                proof {
                    assert_seqs_equal!(
                        enc.bytes() == old(enc).bytes() + self.wire_spec()
                    );
                }
            },
            Packet::Explosion(x) => {
                enc.write_var_int(0x1e);
                x.encode(enc);
                proof {
                    assert_seqs_equal!(
                        enc.bytes() == old(enc).bytes() + self.wire_spec()
                    );
                }
            },
            Packet::UnloadChunk(x) => {
                enc.write_var_int(0x1f);
                x.encode(enc);
                proof {
                    assert_seqs_equal!(
                        enc.bytes() == old(enc).bytes() + self.wire_spec()
                    );
                }
            },
            Packet::GameEvent(x) => {
                enc.write_var_int(0x20);
                x.encode(enc);
                proof {
                    assert_seqs_equal!(
                        enc.bytes() == old(enc).bytes() + self.wire_spec()
                    );
                }
            },
            Packet::OpenHorseScreen(x) => {
                enc.write_var_int(0x21);
                x.encode(enc);
                proof {
                    assert_seqs_equal!(
                        enc.bytes() == old(enc).bytes() + self.wire_spec()
                    );
                }
            },
            Packet::HurtAnimation(x) => {
                enc.write_var_int(0x22);
                x.encode(enc);
                proof {
                    assert_seqs_equal!(
                        enc.bytes() == old(enc).bytes() + self.wire_spec()
                    );
                }
            },
            Packet::InitializeWorldBorder(x) => {
                enc.write_var_int(0x23);
                x.encode(enc);
                proof {
                    assert_seqs_equal!(
                        enc.bytes() == old(enc).bytes() + self.wire_spec()
                    );
                }
            },
            Packet::KeepAlive(x) => {
                enc.write_var_int(0x24);
                x.encode(enc);
                proof {
                    assert_seqs_equal!(
                        enc.bytes() == old(enc).bytes() + self.wire_spec()
                    );
                }
            },
            Packet::ChunkAndLightData(x) => {
                enc.write_var_int(0x25);
                x.encode(enc);
                proof {
                    assert_seqs_equal!(
                        enc.bytes() == old(enc).bytes() + self.wire_spec()
                    );
                }
            },
            Packet::WorldEvent(x) => {
                enc.write_var_int(0x26);
                x.encode(enc);
                proof {
                    assert_seqs_equal!(
                        enc.bytes() == old(enc).bytes() + self.wire_spec()
                    );
                }
            },
            Packet::Particle(x) => {
                enc.write_var_int(0x27);
                x.encode(enc);
                proof {
                    assert_seqs_equal!(
                        enc.bytes() == old(enc).bytes() + self.wire_spec()
                    );
                }
            },
            Packet::UpdateLight(x) => {
                enc.write_var_int(0x28);
                x.encode(enc);
                proof {
                    assert_seqs_equal!(
                        enc.bytes() == old(enc).bytes() + self.wire_spec()
                    );
                }
            },
            Packet::Login(x) => {
                enc.write_var_int(0x29);
                x.encode(enc);
                proof {
                    assert_seqs_equal!(
                        enc.bytes() == old(enc).bytes() + self.wire_spec()
                    );
                }
            },
            Packet::MapData(x) => {
                enc.write_var_int(0x2a);
                x.encode(enc);
                proof {
                    assert_seqs_equal!(
                        enc.bytes() == old(enc).bytes() + self.wire_spec()
                    );
                }
            },
            Packet::MerchantOffers(x) => {
                enc.write_var_int(0x2b);
                x.encode(enc);
                proof {
                    assert_seqs_equal!(
                        enc.bytes() == old(enc).bytes() + self.wire_spec()
                    );
                }
            },
            Packet::UpdateEntityPosition(x) => {
                enc.write_var_int(0x2c);
                x.encode(enc);
                proof {
                    assert_seqs_equal!(
                        enc.bytes() == old(enc).bytes() + self.wire_spec()
                    );
                }
            },
            Packet::UpdateEntityPositionAndRotation(x) => {
                enc.write_var_int(0x2d);
                x.encode(enc);
                proof {
                    assert_seqs_equal!(
                        enc.bytes() == old(enc).bytes() + self.wire_spec()
                    );
                }
            },
            Packet::UpdateEntityRotation(x) => {
                enc.write_var_int(0x2e);
                x.encode(enc);
                proof {
                    assert_seqs_equal!(
                        enc.bytes() == old(enc).bytes() + self.wire_spec()
                    );
                }
            },
            Packet::MoveVehicle(x) => {
                enc.write_var_int(0x2f);
                x.encode(enc);
                proof {
                    assert_seqs_equal!(
                        enc.bytes() == old(enc).bytes() + self.wire_spec()
                    );
                }
            },
            Packet::OpenBook(x) => {
                enc.write_var_int(0x30);
                x.encode(enc);
                proof {
                    assert_seqs_equal!(
                        enc.bytes() == old(enc).bytes() + self.wire_spec()
                    );
                }
            },
            Packet::OpenScreen(x) => {
                enc.write_var_int(0x31);
                x.encode(enc);
                proof {
                    assert_seqs_equal!(
                        enc.bytes() == old(enc).bytes() + self.wire_spec()
                    );
                }
            },
            Packet::OpenSignEditor(x) => {
                enc.write_var_int(0x32);
                x.encode(enc);
                proof {
                    assert_seqs_equal!(
                        enc.bytes() == old(enc).bytes() + self.wire_spec()
                    );
                }
            },
            Packet::Ping(x) => {
                enc.write_var_int(0x33);
                x.encode(enc);
                proof {
                    assert_seqs_equal!(
                        enc.bytes() == old(enc).bytes() + self.wire_spec()
                    );
                }
            },
            Packet::PingResponse(x) => {
                enc.write_var_int(0x34);
                x.encode(enc);
                proof {
                    assert_seqs_equal!(
                        enc.bytes() == old(enc).bytes() + self.wire_spec()
                    );
                }
            },
            Packet::PlaceGhostRecipe(x) => {
                enc.write_var_int(0x35);
                x.encode(enc);
                proof {
                    assert_seqs_equal!(
                        enc.bytes() == old(enc).bytes() + self.wire_spec()
                    );
                }
            },
            Packet::PlayerAbilities(x) => {
                enc.write_var_int(0x36);
                x.encode(enc);
                proof {
                    assert_seqs_equal!(
                        enc.bytes() == old(enc).bytes() + self.wire_spec()
                    );
                }
            },
            Packet::PlayerChatMessage(x) => {
                enc.write_var_int(0x37);
                x.encode(enc);
                proof {
                    assert_seqs_equal!(
                        enc.bytes() == old(enc).bytes() + self.wire_spec()
                    );
                }
            },
            Packet::EndCombat(x) => {
                enc.write_var_int(0x38);
                x.encode(enc);
                proof {
                    assert_seqs_equal!(
                        enc.bytes() == old(enc).bytes() + self.wire_spec()
                    );
                }
            },
            Packet::EnterCombat(x) => {
                enc.write_var_int(0x39);
                x.encode(enc);
                proof {
                    assert_seqs_equal!(
                        enc.bytes() == old(enc).bytes() + self.wire_spec()
                    );
                }
            },
            Packet::CombatDeath(x) => {
                enc.write_var_int(0x3a);
                x.encode(enc);
                proof {
                    assert_seqs_equal!(
                        enc.bytes() == old(enc).bytes() + self.wire_spec()
                    );
                }
            },
            Packet::PlayerInfoRemove(x) => {
                enc.write_var_int(0x3b);
                x.encode(enc);
                proof {
                    assert_seqs_equal!(
                        enc.bytes() == old(enc).bytes() + self.wire_spec()
                    );
                }
            },
            Packet::PlayerInfoUpdate(x) => {
                enc.write_var_int(0x3c);
                x.encode(enc);
                proof {
                    assert_seqs_equal!(
                        enc.bytes() == old(enc).bytes() + self.wire_spec()
                    );
                }
            },
            Packet::LookAt(x) => {
                enc.write_var_int(0x3d);
                x.encode(enc);
                proof {
                    assert_seqs_equal!(
                        enc.bytes() == old(enc).bytes() + self.wire_spec()
                    );
                }
            },
            Packet::SynchronizePlayerPosition(x) => {
                enc.write_var_int(0x3e);
                x.encode(enc);
                proof {
                    assert_seqs_equal!(
                        enc.bytes() == old(enc).bytes() + self.wire_spec()
                    );
                }
            },
            Packet::UpdateRecipeBook(x) => {
                enc.write_var_int(0x3f);
                x.encode(enc);
                proof {
                    assert_seqs_equal!(
                        enc.bytes() == old(enc).bytes() + self.wire_spec()
                    );
                }
            },
            Packet::RemoveEntities(x) => {
                enc.write_var_int(0x40);
                x.encode(enc);
                proof {
                    assert_seqs_equal!(
                        enc.bytes() == old(enc).bytes() + self.wire_spec()
                    );
                }
            },
            Packet::RemoveEntityEffect(x) => {
                enc.write_var_int(0x41);
                x.encode(enc);
                proof {
                    assert_seqs_equal!(
                        enc.bytes() == old(enc).bytes() + self.wire_spec()
                    );
                }
            },
            Packet::ResetScore(x) => {
                enc.write_var_int(0x42);
                x.encode(enc);
                proof {
                    assert_seqs_equal!(
                        enc.bytes() == old(enc).bytes() + self.wire_spec()
                    );
                }
            },
            Packet::RemoveResourcePack(x) => {
                enc.write_var_int(0x43);
                x.encode(enc);
                proof {
                    assert_seqs_equal!(
                        enc.bytes() == old(enc).bytes() + self.wire_spec()
                    );
                }
            },
            Packet::AddResourcePack(x) => {
                enc.write_var_int(0x44);
                x.encode(enc);
                proof {
                    assert_seqs_equal!(
                        enc.bytes() == old(enc).bytes() + self.wire_spec()
                    );
                }
            },
            Packet::Respawn(x) => {
                enc.write_var_int(0x45);
                x.encode(enc);
                proof {
                    assert_seqs_equal!(
                        enc.bytes() == old(enc).bytes() + self.wire_spec()
                    );
                }
            },
            Packet::SetHeadRotation(x) => {
                enc.write_var_int(0x46);
                x.encode(enc);
                proof {
                    assert_seqs_equal!(
                        enc.bytes() == old(enc).bytes() + self.wire_spec()
                    );
                }
            },
            Packet::UpdateSectionBlocks(x) => {
                enc.write_var_int(0x47);
                x.encode(enc);
                proof {
                    assert_seqs_equal!(
                        enc.bytes() == old(enc).bytes() + self.wire_spec()
                    );
                }
            },
            Packet::SelectAdvancementsTab(x) => {
                enc.write_var_int(0x48);
                x.encode(enc);
                proof {
                    assert_seqs_equal!(
                        enc.bytes() == old(enc).bytes() + self.wire_spec()
                    );
                }
            },
            Packet::ServerData(x) => {
                enc.write_var_int(0x49);
                x.encode(enc);
                proof {
                    assert_seqs_equal!(
                        enc.bytes() == old(enc).bytes() + self.wire_spec()
                    );
                }
            },
            Packet::SetActionBarText(x) => {
                enc.write_var_int(0x4a);
                x.encode(enc);
                proof {
                    assert_seqs_equal!(
                        enc.bytes() == old(enc).bytes() + self.wire_spec()
                    );
                }
            },
            Packet::SetWorldBorderCenter(x) => {
                enc.write_var_int(0x4b);
                x.encode(enc);
                proof {
                    assert_seqs_equal!(
                        enc.bytes() == old(enc).bytes() + self.wire_spec()
                    );
                }
            },
            Packet::SetWorldBorderLerpSize(x) => {
                enc.write_var_int(0x4c);
                x.encode(enc);
                proof {
                    assert_seqs_equal!(
                        enc.bytes() == old(enc).bytes() + self.wire_spec()
                    );
                }
            },
            Packet::SetWorldBorderSize(x) => {
                enc.write_var_int(0x4d);
                x.encode(enc);
                proof {
                    assert_seqs_equal!(
                        enc.bytes() == old(enc).bytes() + self.wire_spec()
                    );
                }
            },
            Packet::SetWorldBorderWarningDelay(x) => {
                enc.write_var_int(0x4e);
                x.encode(enc);
                proof {
                    assert_seqs_equal!(
                        enc.bytes() == old(enc).bytes() + self.wire_spec()
                    );
                }
            },
            Packet::SetWorldBorderWarningDistance(x) => {
                enc.write_var_int(0x4f);
                x.encode(enc);
                proof {
                    assert_seqs_equal!(
                        enc.bytes() == old(enc).bytes() + self.wire_spec()
                    );
                }
            },
            Packet::SetCamera(x) => {
                enc.write_var_int(0x50);
                x.encode(enc);
                proof {
                    assert_seqs_equal!(
                        enc.bytes() == old(enc).bytes() + self.wire_spec()
                    );
                }
            },
            Packet::SetHeldItem(x) => {
                enc.write_var_int(0x51);
                x.encode(enc);
                proof {
                    assert_seqs_equal!(
                        enc.bytes() == old(enc).bytes() + self.wire_spec()
                    );
                }
            },
            Packet::SetCenterChunk(x) => {
                enc.write_var_int(0x52);
                x.encode(enc);
                proof {
                    assert_seqs_equal!(
                        enc.bytes() == old(enc).bytes() + self.wire_spec()
                    );
                }
            },
            Packet::SetViewDistance(x) => {
                enc.write_var_int(0x53);
                x.encode(enc);
                proof {
                    assert_seqs_equal!(
                        enc.bytes() == old(enc).bytes() + self.wire_spec()
                    );
                }
            },
            Packet::SetDefaultSpawnPosition(x) => {
                enc.write_var_int(0x54);
                x.encode(enc);
                proof {
                    assert_seqs_equal!(
                        enc.bytes() == old(enc).bytes() + self.wire_spec()
                    );
                }
            },
            Packet::DisplayObjective(x) => {
                enc.write_var_int(0x55);
                x.encode(enc);
                proof {
                    assert_seqs_equal!(
                        enc.bytes() == old(enc).bytes() + self.wire_spec()
                    );
                }
            },
            Packet::SetEntityMetadata(x) => {
                enc.write_var_int(0x56);
                x.encode(enc);
                proof {
                    assert_seqs_equal!(
                        enc.bytes() == old(enc).bytes() + self.wire_spec()
                    );
                }
            },
            Packet::LinkEntities(x) => {
                enc.write_var_int(0x57);
                x.encode(enc);
                proof {
                    assert_seqs_equal!(
                        enc.bytes() == old(enc).bytes() + self.wire_spec()
                    );
                }
            },
            Packet::SetEntityVelocity(x) => {
                enc.write_var_int(0x58);
                x.encode(enc);
                proof {
                    assert_seqs_equal!(
                        enc.bytes() == old(enc).bytes() + self.wire_spec()
                    );
                }
            },
            Packet::SetEquipment(x) => {
                enc.write_var_int(0x59);
                x.encode(enc);
                proof {
                    assert_seqs_equal!(
                        enc.bytes() == old(enc).bytes() + self.wire_spec()
                    );
                }
            },
            Packet::SetExperience(x) => {
                enc.write_var_int(0x5a);
                x.encode(enc);
                proof {
                    assert_seqs_equal!(
                        enc.bytes() == old(enc).bytes() + self.wire_spec()
                    );
                }
            },
            Packet::SetHealth(x) => {
                enc.write_var_int(0x5b);
                x.encode(enc);
                proof {
                    assert_seqs_equal!(
                        enc.bytes() == old(enc).bytes() + self.wire_spec()
                    );
                }
            },
            Packet::UpdateObjectives(x) => {
                enc.write_var_int(0x5c);
                x.encode(enc);
                proof {
                    assert_seqs_equal!(
                        enc.bytes() == old(enc).bytes() + self.wire_spec()
                    );
                }
            },
            Packet::SetPassengers(x) => {
                enc.write_var_int(0x5d);
                x.encode(enc);
                proof {
                    assert_seqs_equal!(
                        enc.bytes() == old(enc).bytes() + self.wire_spec()
                    );
                }
            },
            Packet::UpdateTeams(x) => {
                enc.write_var_int(0x5e);
                x.encode(enc);
                proof {
                    assert_seqs_equal!(
                        enc.bytes() == old(enc).bytes() + self.wire_spec()
                    );
                }
            },
            Packet::UpdateScore(x) => {
                enc.write_var_int(0x5f);
                x.encode(enc);
                proof {
                    assert_seqs_equal!(
                        enc.bytes() == old(enc).bytes() + self.wire_spec()
                    );
                }
            },
            Packet::SetSimulationDistance(x) => {
                enc.write_var_int(0x60);
                x.encode(enc);
                proof {
                    assert_seqs_equal!(
                        enc.bytes() == old(enc).bytes() + self.wire_spec()
                    );
                }
            },
            Packet::SetSubtitleText(x) => {
                enc.write_var_int(0x61);
                x.encode(enc);
                proof {
                    assert_seqs_equal!(
                        enc.bytes() == old(enc).bytes() + self.wire_spec()
                    );
                }
            },
            Packet::UpdateTime(x) => {
                enc.write_var_int(0x62);
                x.encode(enc);
                proof {
                    assert_seqs_equal!(
                        enc.bytes() == old(enc).bytes() + self.wire_spec()
                    );
                }
            },
            Packet::SetTitleText(x) => {
                enc.write_var_int(0x63);
                x.encode(enc);
                proof {
                    assert_seqs_equal!(
                        enc.bytes() == old(enc).bytes() + self.wire_spec()
                    );
                }
            },
            Packet::SetTitleAnimationTimes(x) => {
                enc.write_var_int(0x64);
                x.encode(enc);
                proof {
                    assert_seqs_equal!(
                        enc.bytes() == old(enc).bytes() + self.wire_spec()
                    );
                }
            },
            Packet::EntitySoundEffect(x) => {
                enc.write_var_int(0x65);
                x.encode(enc);
                proof {
                    assert_seqs_equal!(
                        enc.bytes() == old(enc).bytes() + self.wire_spec()
                    );
                }
            },
            Packet::SoundEffect(x) => {
                enc.write_var_int(0x66);
                x.encode(enc);
                proof {
                    assert_seqs_equal!(
                        enc.bytes() == old(enc).bytes() + self.wire_spec()
                    );
                }
            },
            Packet::StartConfiguration(x) => {
                enc.write_var_int(0x67);
                x.encode(enc);
                proof {
                    assert_seqs_equal!(
                        enc.bytes() == old(enc).bytes() + self.wire_spec()
                    );
                }
            },
            Packet::StopSound(x) => {
                enc.write_var_int(0x68);
                x.encode(enc);
                proof {
                    assert_seqs_equal!(
                        enc.bytes() == old(enc).bytes() + self.wire_spec()
                    );
                }
            },
            Packet::SystemChatMessage(x) => {
                enc.write_var_int(0x69);
                x.encode(enc);
                proof {
                    assert_seqs_equal!(
                        enc.bytes() == old(enc).bytes() + self.wire_spec()
                    );
                }
            },
            Packet::SetTabListHeaderAndFooter(x) => {
                enc.write_var_int(0x6a);
                x.encode(enc);
                proof {
                    assert_seqs_equal!(
                        enc.bytes() == old(enc).bytes() + self.wire_spec()
                    );
                }
            },
            Packet::TagQueryResponse(x) => {
                enc.write_var_int(0x6b);
                x.encode(enc);
                proof {
                    assert_seqs_equal!(
                        enc.bytes() == old(enc).bytes() + self.wire_spec()
                    );
                }
            },
            Packet::PickUpItem(x) => {
                enc.write_var_int(0x6c);
                x.encode(enc);
                proof {
                    assert_seqs_equal!(
                        enc.bytes() == old(enc).bytes() + self.wire_spec()
                    );
                }
            },
            Packet::TeleportEntity(x) => {
                enc.write_var_int(0x6d);
                x.encode(enc);
                proof {
                    assert_seqs_equal!(
                        enc.bytes() == old(enc).bytes() + self.wire_spec()
                    );
                }
            },
            Packet::SetTickingState(x) => {
                enc.write_var_int(0x6e);
                x.encode(enc);
                proof {
                    assert_seqs_equal!(
                        enc.bytes() == old(enc).bytes() + self.wire_spec()
                    );
                }
            },
            Packet::StepTick(x) => {
                enc.write_var_int(0x6f);
                x.encode(enc);
                proof {
                    assert_seqs_equal!(
                        enc.bytes() == old(enc).bytes() + self.wire_spec()
                    );
                }
            },
            Packet::UpdateAdvancements(x) => {
                enc.write_var_int(0x70);
                x.encode(enc);
                proof {
                    assert_seqs_equal!(
                        enc.bytes() == old(enc).bytes() + self.wire_spec()
                    );
                }
            },
            Packet::UpdateAttributes(x) => {
                enc.write_var_int(0x71);
                x.encode(enc);
                proof {
                    assert_seqs_equal!(
                        enc.bytes() == old(enc).bytes() + self.wire_spec()
                    );
                }
            },
            Packet::EntityEffect(x) => {
                enc.write_var_int(0x72);
                x.encode(enc);
                proof {
                    assert_seqs_equal!(
                        enc.bytes() == old(enc).bytes() + self.wire_spec()
                    );
                }
            },
            Packet::UpdateRecipes(x) => {
                enc.write_var_int(0x73);
                x.encode(enc);
                proof {
                    assert_seqs_equal!(
                        enc.bytes() == old(enc).bytes() + self.wire_spec()
                    );
                }
            },
            Packet::UpdateTags(x) => {
                enc.write_var_int(0x74);
                x.encode(enc);
                proof {
                    assert_seqs_equal!(
                        enc.bytes() == old(enc).bytes() + self.wire_spec()
                    );
                }
            },
        }
    }

    /// Reads the discriminant and dispatches to the variant.
    #[verifier::rlimit(60)]
    pub fn decode(dec: &mut Decoder<'_>) -> (r: Result<Packet, DecodeError>)
        ensures
            match r {
                Ok(p) => {
                    &&& p.matches_wire(old(dec).remaining())
                    &&& p.wf()
                },
                Err(_) => !Packet::wire_parses(old(dec).remaining()),
            },
    {
        let id = dec.read_var_int()?;
        let uid = id as u32;
        match uid {
            0x0u32 => Ok(Packet::BundleDelimiter(BundleDelimiter::decode(dec))),
            0x1u32 => Ok(Packet::SpawnEntity(SpawnEntity::decode(dec)?)),
            0x2u32 => Ok(Packet::SpawnExperienceOrb(SpawnExperienceOrb::decode(dec)?)),
            0x3u32 => Ok(Packet::EntityAnimation(EntityAnimation::decode(dec)?)),
            0x4u32 => Ok(Packet::AwardStatistics(AwardStatistics::decode(dec))),
            0x5u32 => Ok(Packet::AcknowledgeBlockChange(AcknowledgeBlockChange::decode(dec))),
            0x6u32 => Ok(Packet::SetBlockDestroyStage(SetBlockDestroyStage::decode(dec))),
            0x7u32 => Ok(Packet::BlockEntityData(BlockEntityData::decode(dec))),
            0x8u32 => Ok(Packet::BlockAction(BlockAction::decode(dec))),
            0x9u32 => Ok(Packet::BlockUpdate(BlockUpdate::decode(dec)?)),
            0xau32 => Ok(Packet::BossBar(BossBar::decode(dec))),
            0xbu32 => Ok(Packet::ChangeDifficulty(ChangeDifficulty::decode(dec))),
            0xcu32 => Ok(Packet::ChunkBatchFinished(ChunkBatchFinished::decode(dec))),
            0xdu32 => Ok(Packet::ChunkBatchStart(ChunkBatchStart::decode(dec))),
            0xeu32 => Ok(Packet::ChunkBiomes(ChunkBiomes::decode(dec))),
            0xfu32 => Ok(Packet::ClearTitles(ClearTitles::decode(dec))),
            0x10u32 => Ok(Packet::CommandSuggestions(CommandSuggestions::decode(dec))),
            0x11u32 => Ok(Packet::Commands(Commands::decode(dec))),
            0x12u32 => Ok(Packet::CloseContainer(CloseContainer::decode(dec))),
            0x13u32 => Ok(Packet::SetContainerContents(SetContainerContents::decode(dec))),
            0x14u32 => Ok(Packet::SetContainerProperty(SetContainerProperty::decode(dec))),
            0x15u32 => Ok(Packet::SetContainerSlot(SetContainerSlot::decode(dec))),
            0x16u32 => Ok(Packet::SetCooldown(SetCooldown::decode(dec))),
            0x17u32 => Ok(Packet::ChatSuggestions(ChatSuggestions::decode(dec))),
            0x18u32 => Ok(Packet::PluginMessage(PluginMessage::decode(dec))),
            0x19u32 => Ok(Packet::DamageEvent(DamageEvent::decode(dec)?)),
            0x1au32 => Ok(Packet::DeleteMessage(DeleteMessage::decode(dec))),
            0x1bu32 => Ok(Packet::Disconnect(Disconnect::decode(dec))),
            0x1cu32 => Ok(Packet::DisguisedChatMessage(DisguisedChatMessage::decode(dec))),
            0x1du32 => Ok(Packet::EntityEvent(EntityEvent::decode(dec)?)),
            0x1eu32 => Ok(Packet::Explosion(Explosion::decode(dec))),
            0x1fu32 => Ok(Packet::UnloadChunk(UnloadChunk::decode(dec)?)),
            0x20u32 => Ok(Packet::GameEvent(GameEvent::decode(dec))),
            0x21u32 => Ok(Packet::OpenHorseScreen(OpenHorseScreen::decode(dec))),
            0x22u32 => Ok(Packet::HurtAnimation(HurtAnimation::decode(dec)?)),
            0x23u32 => Ok(Packet::InitializeWorldBorder(InitializeWorldBorder::decode(dec))),
            0x24u32 => Ok(Packet::KeepAlive(KeepAlive::decode(dec))),
            0x25u32 => Ok(Packet::ChunkAndLightData(ChunkAndLightData::decode(dec)?)),
            0x26u32 => Ok(Packet::WorldEvent(WorldEvent::decode(dec))),
            0x27u32 => Ok(Packet::Particle(Particle::decode(dec))),
            0x28u32 => Ok(Packet::UpdateLight(UpdateLight::decode(dec)?)),
            0x29u32 => Ok(Packet::Login(Login::decode(dec))),
            0x2au32 => Ok(Packet::MapData(MapData::decode(dec))),
            0x2bu32 => Ok(Packet::MerchantOffers(MerchantOffers::decode(dec))),
            0x2cu32 => Ok(Packet::UpdateEntityPosition(UpdateEntityPosition::decode(dec)?)),
            0x2du32 => Ok(Packet::UpdateEntityPositionAndRotation(UpdateEntityPositionAndRotation::decode(dec)?)),
            0x2eu32 => Ok(Packet::UpdateEntityRotation(UpdateEntityRotation::decode(dec)?)),
            0x2fu32 => Ok(Packet::MoveVehicle(MoveVehicle::decode(dec))),
            0x30u32 => Ok(Packet::OpenBook(OpenBook::decode(dec))),
            0x31u32 => Ok(Packet::OpenScreen(OpenScreen::decode(dec))),
            0x32u32 => Ok(Packet::OpenSignEditor(OpenSignEditor::decode(dec))),
            0x33u32 => Ok(Packet::Ping(Ping::decode(dec))),
            0x34u32 => Ok(Packet::PingResponse(PingResponse::decode(dec))),
            0x35u32 => Ok(Packet::PlaceGhostRecipe(PlaceGhostRecipe::decode(dec))),
            0x36u32 => Ok(Packet::PlayerAbilities(PlayerAbilities::decode(dec))),
            0x37u32 => Ok(Packet::PlayerChatMessage(PlayerChatMessage::decode(dec))),
            0x38u32 => Ok(Packet::EndCombat(EndCombat::decode(dec))),
            0x39u32 => Ok(Packet::EnterCombat(EnterCombat::decode(dec))),
            0x3au32 => Ok(Packet::CombatDeath(CombatDeath::decode(dec))),
            0x3bu32 => Ok(Packet::PlayerInfoRemove(PlayerInfoRemove::decode(dec))),
            0x3cu32 => Ok(Packet::PlayerInfoUpdate(PlayerInfoUpdate::decode(dec))),
            0x3du32 => Ok(Packet::LookAt(LookAt::decode(dec))),
            0x3eu32 => Ok(Packet::SynchronizePlayerPosition(SynchronizePlayerPosition::decode(dec))),
            0x3fu32 => Ok(Packet::UpdateRecipeBook(UpdateRecipeBook::decode(dec))),
            0x40u32 => Ok(Packet::RemoveEntities(RemoveEntities::decode(dec)?)),
            0x41u32 => Ok(Packet::RemoveEntityEffect(RemoveEntityEffect::decode(dec))),
            0x42u32 => Ok(Packet::ResetScore(ResetScore::decode(dec))),
            0x43u32 => Ok(Packet::RemoveResourcePack(RemoveResourcePack::decode(dec))),
            0x44u32 => Ok(Packet::AddResourcePack(AddResourcePack::decode(dec))),
            0x45u32 => Ok(Packet::Respawn(Respawn::decode(dec))),
            0x46u32 => Ok(Packet::SetHeadRotation(SetHeadRotation::decode(dec)?)),
            0x47u32 => Ok(Packet::UpdateSectionBlocks(UpdateSectionBlocks::decode(dec)?)),
            0x48u32 => Ok(Packet::SelectAdvancementsTab(SelectAdvancementsTab::decode(dec))),
            0x49u32 => Ok(Packet::ServerData(ServerData::decode(dec))),
            0x4au32 => Ok(Packet::SetActionBarText(SetActionBarText::decode(dec))),
            0x4bu32 => Ok(Packet::SetWorldBorderCenter(SetWorldBorderCenter::decode(dec))),
            0x4cu32 => Ok(Packet::SetWorldBorderLerpSize(SetWorldBorderLerpSize::decode(dec))),
            0x4du32 => Ok(Packet::SetWorldBorderSize(SetWorldBorderSize::decode(dec))),
            0x4eu32 => Ok(Packet::SetWorldBorderWarningDelay(SetWorldBorderWarningDelay::decode(dec))),
            0x4fu32 => Ok(Packet::SetWorldBorderWarningDistance(SetWorldBorderWarningDistance::decode(dec))),
            0x50u32 => Ok(Packet::SetCamera(SetCamera::decode(dec))),
            0x51u32 => Ok(Packet::SetHeldItem(SetHeldItem::decode(dec))),
            0x52u32 => Ok(Packet::SetCenterChunk(SetCenterChunk::decode(dec))),
            0x53u32 => Ok(Packet::SetViewDistance(SetViewDistance::decode(dec))),
            0x54u32 => Ok(Packet::SetDefaultSpawnPosition(SetDefaultSpawnPosition::decode(dec))),
            0x55u32 => Ok(Packet::DisplayObjective(DisplayObjective::decode(dec))),
            0x56u32 => Ok(Packet::SetEntityMetadata(SetEntityMetadata::decode(dec))),
            0x57u32 => Ok(Packet::LinkEntities(LinkEntities::decode(dec))),
            0x58u32 => Ok(Packet::SetEntityVelocity(SetEntityVelocity::decode(dec)?)),
            0x59u32 => Ok(Packet::SetEquipment(SetEquipment::decode(dec))),
            0x5au32 => Ok(Packet::SetExperience(SetExperience::decode(dec))),
            0x5bu32 => Ok(Packet::SetHealth(SetHealth::decode(dec))),
            0x5cu32 => Ok(Packet::UpdateObjectives(UpdateObjectives::decode(dec))),
            0x5du32 => Ok(Packet::SetPassengers(SetPassengers::decode(dec))),
            0x5eu32 => Ok(Packet::UpdateTeams(UpdateTeams::decode(dec))),
            0x5fu32 => Ok(Packet::UpdateScore(UpdateScore::decode(dec))),
            0x60u32 => Ok(Packet::SetSimulationDistance(SetSimulationDistance::decode(dec))),
            0x61u32 => Ok(Packet::SetSubtitleText(SetSubtitleText::decode(dec))),
            0x62u32 => Ok(Packet::UpdateTime(UpdateTime::decode(dec))),
            0x63u32 => Ok(Packet::SetTitleText(SetTitleText::decode(dec))),
            0x64u32 => Ok(Packet::SetTitleAnimationTimes(SetTitleAnimationTimes::decode(dec))),
            0x65u32 => Ok(Packet::EntitySoundEffect(EntitySoundEffect::decode(dec))),
            0x66u32 => Ok(Packet::SoundEffect(SoundEffect::decode(dec))),
            0x67u32 => Ok(Packet::StartConfiguration(StartConfiguration::decode(dec))),
            0x68u32 => Ok(Packet::StopSound(StopSound::decode(dec))),
            0x69u32 => Ok(Packet::SystemChatMessage(SystemChatMessage::decode(dec))),
            0x6au32 => Ok(Packet::SetTabListHeaderAndFooter(SetTabListHeaderAndFooter::decode(dec))),
            0x6bu32 => Ok(Packet::TagQueryResponse(TagQueryResponse::decode(dec))),
            0x6cu32 => Ok(Packet::PickUpItem(PickUpItem::decode(dec))),
            0x6du32 => Ok(Packet::TeleportEntity(TeleportEntity::decode(dec)?)),
            0x6eu32 => Ok(Packet::SetTickingState(SetTickingState::decode(dec))),
            0x6fu32 => Ok(Packet::StepTick(StepTick::decode(dec))),
            0x70u32 => Ok(Packet::UpdateAdvancements(UpdateAdvancements::decode(dec))),
            0x71u32 => Ok(Packet::UpdateAttributes(UpdateAttributes::decode(dec))),
            0x72u32 => Ok(Packet::EntityEffect(EntityEffect::decode(dec)?)),
            0x73u32 => Ok(Packet::UpdateRecipes(UpdateRecipes::decode(dec))),
            0x74u32 => Ok(Packet::UpdateTags(UpdateTags::decode(dec))),
            _ => Err(DecodeError::UnknownDiscriminant(id as i64)),
        }
    }
}

/// Parsing the wire form of a packet yields that packet back.
#[verifier::rlimit(60)]
pub proof fn lemma_wire_round_trip(p: Packet)
    requires
        p.wf(),
    ensures
        p.matches_wire(p.wire_spec()),
{
    lemma_var_int_bytes_len(p.wire_id());
    lemma_parse_var_int_of_encoding(p.wire_id(), p.payload_spec(), 4);
    assert_seqs_equal!(
        p.wire_spec().skip(var_int_bytes(p.wire_id()).len() as int)
            == p.payload_spec()
    );
    match p {
        Packet::BundleDelimiter(_) => {},
        Packet::SpawnEntity(x) => lemma_spawn_entity_round_trip(x),
        Packet::SpawnExperienceOrb(x) => lemma_spawn_experience_orb_round_trip(x),
        Packet::EntityAnimation(x) => lemma_entity_animation_round_trip(x),
        Packet::AwardStatistics(_) => {},
        Packet::AcknowledgeBlockChange(_) => {},
        Packet::SetBlockDestroyStage(_) => {},
        Packet::BlockEntityData(_) => {},
        Packet::BlockAction(_) => {},
        Packet::BlockUpdate(x) => lemma_block_update_round_trip(x),
        Packet::BossBar(_) => {},
        Packet::ChangeDifficulty(_) => {},
        Packet::ChunkBatchFinished(_) => {},
        Packet::ChunkBatchStart(_) => {},
        Packet::ChunkBiomes(_) => {},
        Packet::ClearTitles(_) => {},
        Packet::CommandSuggestions(_) => {},
        Packet::Commands(_) => {},
        Packet::CloseContainer(_) => {},
        Packet::SetContainerContents(_) => {},
        Packet::SetContainerProperty(_) => {},
        Packet::SetContainerSlot(_) => {},
        Packet::SetCooldown(_) => {},
        Packet::ChatSuggestions(_) => {},
        Packet::PluginMessage(_) => {},
        Packet::DamageEvent(x) => lemma_damage_event_round_trip(x),
        Packet::DeleteMessage(_) => {},
        Packet::Disconnect(_) => {},
        Packet::DisguisedChatMessage(_) => {},
        Packet::EntityEvent(x) => lemma_entity_event_round_trip(x),
        Packet::Explosion(_) => {},
        Packet::UnloadChunk(x) => lemma_unload_chunk_round_trip(x),
        Packet::GameEvent(_) => {},
        Packet::OpenHorseScreen(_) => {},
        Packet::HurtAnimation(x) => lemma_hurt_animation_round_trip(x),
        Packet::InitializeWorldBorder(_) => {},
        Packet::KeepAlive(_) => {},
        Packet::ChunkAndLightData(x) => lemma_chunk_and_light_data_round_trip(x),
        Packet::WorldEvent(_) => {},
        Packet::Particle(_) => {},
        Packet::UpdateLight(x) => lemma_update_light_round_trip(x),
        Packet::Login(_) => {},
        Packet::MapData(_) => {},
        Packet::MerchantOffers(_) => {},
        Packet::UpdateEntityPosition(x) => lemma_update_entity_position_round_trip(x),
        Packet::UpdateEntityPositionAndRotation(x) => lemma_update_entity_position_and_rotation_round_trip(x),
        Packet::UpdateEntityRotation(x) => lemma_update_entity_rotation_round_trip(x),
        Packet::MoveVehicle(_) => {},
        Packet::OpenBook(_) => {},
        Packet::OpenScreen(_) => {},
        Packet::OpenSignEditor(_) => {},
        Packet::Ping(_) => {},
        Packet::PingResponse(_) => {},
        Packet::PlaceGhostRecipe(_) => {},
        Packet::PlayerAbilities(_) => {},
        Packet::PlayerChatMessage(_) => {},
        Packet::EndCombat(_) => {},
        Packet::EnterCombat(_) => {},
        Packet::CombatDeath(_) => {},
        Packet::PlayerInfoRemove(_) => {},
        Packet::PlayerInfoUpdate(_) => {},
        Packet::LookAt(_) => {},
        Packet::SynchronizePlayerPosition(_) => {},
        Packet::UpdateRecipeBook(_) => {},
        Packet::RemoveEntities(x) => lemma_remove_entities_round_trip(x),
        Packet::RemoveEntityEffect(_) => {},
        Packet::ResetScore(_) => {},
        Packet::RemoveResourcePack(_) => {},
        Packet::AddResourcePack(_) => {},
        Packet::Respawn(_) => {},
        Packet::SetHeadRotation(x) => lemma_set_head_rotation_round_trip(x),
        Packet::UpdateSectionBlocks(x) => lemma_update_section_blocks_round_trip(x),
        Packet::SelectAdvancementsTab(_) => {},
        Packet::ServerData(_) => {},
        Packet::SetActionBarText(_) => {},
        Packet::SetWorldBorderCenter(_) => {},
        Packet::SetWorldBorderLerpSize(_) => {},
        Packet::SetWorldBorderSize(_) => {},
        Packet::SetWorldBorderWarningDelay(_) => {},
        Packet::SetWorldBorderWarningDistance(_) => {},
        Packet::SetCamera(_) => {},
        Packet::SetHeldItem(_) => {},
        Packet::SetCenterChunk(_) => {},
        Packet::SetViewDistance(_) => {},
        Packet::SetDefaultSpawnPosition(_) => {},
        Packet::DisplayObjective(_) => {},
        Packet::SetEntityMetadata(_) => {},
        Packet::LinkEntities(_) => {},
        Packet::SetEntityVelocity(x) => lemma_set_entity_velocity_round_trip(x),
        Packet::SetEquipment(_) => {},
        Packet::SetExperience(_) => {},
        Packet::SetHealth(_) => {},
        Packet::UpdateObjectives(_) => {},
        Packet::SetPassengers(_) => {},
        Packet::UpdateTeams(_) => {},
        Packet::UpdateScore(_) => {},
        Packet::SetSimulationDistance(_) => {},
        Packet::SetSubtitleText(_) => {},
        Packet::UpdateTime(_) => {},
        Packet::SetTitleText(_) => {},
        Packet::SetTitleAnimationTimes(_) => {},
        Packet::EntitySoundEffect(_) => {},
        Packet::SoundEffect(_) => {},
        Packet::StartConfiguration(_) => {},
        Packet::StopSound(_) => {},
        Packet::SystemChatMessage(_) => {},
        Packet::SetTabListHeaderAndFooter(_) => {},
        Packet::TagQueryResponse(_) => {},
        Packet::PickUpItem(_) => {},
        Packet::TeleportEntity(x) => lemma_teleport_entity_round_trip(x),
        Packet::SetTickingState(_) => {},
        Packet::StepTick(_) => {},
        Packet::UpdateAdvancements(_) => {},
        Packet::UpdateAttributes(_) => {},
        Packet::EntityEffect(x) => lemma_entity_effect_round_trip(x),
        Packet::UpdateRecipes(_) => {},
        Packet::UpdateTags(_) => {},
    }
}

} // verus!

//! Field-level wire formats for the packet catalog.
//!
//! Each packet field is encoded in one of a small set of shapes. For
//! every shape there is a parse function over byte sequences, giving
//! the value and how many bytes it spans, and a round-trip lemma: the
//! parse of an encoding yields the encoded value. The catalog's
//! per-packet contracts are built from these.

use vstd::prelude::*;
use vstd::seq_lib::*;
use crate::position::{
    spec_pack_block_position, spec_unpack_block_position, block_position_in_range,
    lemma_block_position_round_trip, BlockPosition,
};
use crate::wire::{
    be_u128, be_u16, be_u32, be_u64, lemma_be_u128, lemma_be_u16, lemma_be_u32, lemma_be_u64,
    lemma_i16_u16_cast, lemma_i32_u32_cast, lemma_i64_u64_cast, lemma_parse_var_int_of_encoding,
    lemma_var_int_bytes_len, parse_var_int, var_int_bytes,
};

verus! {

/// Parses a VarInt field as a signed 32-bit value.
pub open spec fn parse_varint_field(s: Seq<u8>) -> Option<(i32, int)> {
    match parse_var_int(s, 4) {
        None => None,
        Some((v, n)) => Some((v as i32, n)),
    }
}

/// The VarInt encoding of a signed 32-bit field.
pub open spec fn varint_wire(v: i32) -> Seq<u8> {
    var_int_bytes(v as u32)
}

pub proof fn lemma_varint_field(v: i32, rest: Seq<u8>)
    ensures
        parse_varint_field(varint_wire(v) + rest) == Some((v, varint_wire(v).len() as int)),
{
    lemma_var_int_bytes_len(v as u32);
    lemma_parse_var_int_of_encoding(v as u32, rest, 4);
    lemma_i32_u32_cast(v);
}

/// Parses a VarInt field as an unsigned 32-bit value; wire values with
/// the top bit set are rejected, as a signed reader would reject them.
pub open spec fn parse_varuint_field(s: Seq<u8>) -> Option<(u32, int)> {
    match parse_var_int(s, 4) {
        None => None,
        Some((v, n)) => if v > 0x7fffffff {
            None
        } else {
            Some((v, n))
        },
    }
}

/// The VarInt encoding of an unsigned 32-bit field; values above
/// `i32::MAX` are clamped to it, as the writer clamps them.
pub open spec fn varuint_wire(v: u32) -> Seq<u8> {
    if v > 0x7fffffff {
        var_int_bytes(0x7fffffff)
    } else {
        var_int_bytes(v)
    }
}

pub proof fn lemma_varuint_field(v: u32, rest: Seq<u8>)
    requires
        v <= 0x7fffffff,
    ensures
        parse_varuint_field(varuint_wire(v) + rest) == Some((v, varuint_wire(v).len() as int)),
{
    lemma_var_int_bytes_len(v);
    lemma_parse_var_int_of_encoding(v, rest, 4);
}

/// Parses a single raw byte field.
pub open spec fn parse_u8_field(s: Seq<u8>) -> Option<(u8, int)> {
    if s.len() < 1 {
        None
    } else {
        Some((s[0], 1))
    }
}

pub proof fn lemma_u8_field(v: u8, rest: Seq<u8>)
    ensures
        parse_u8_field(seq![v] + rest) == Some((v, 1int)),
{
}

/// Parses a big-endian unsigned short field.
pub open spec fn parse_u16_field(s: Seq<u8>) -> Option<(u16, int)> {
    if s.len() < 2 {
        None
    } else {
        Some((u16_of_be_prefix(s), 2))
    }
}

/// The leading two bytes of `s`, read big-endian.
pub open spec fn u16_of_be_prefix(s: Seq<u8>) -> u16 {
    crate::wire::u16_of_be(s.take(2))
}

pub proof fn lemma_u16_field(v: u16, rest: Seq<u8>)
    ensures
        parse_u16_field(be_u16(v) + rest) == Some((v, 2int)),
{
    lemma_be_u16(v);
    assert_seqs_equal!((be_u16(v) + rest).take(2) == be_u16(v));
}

/// Parses a big-endian signed short field.
pub open spec fn parse_i16_field(s: Seq<u8>) -> Option<(i16, int)> {
    if s.len() < 2 {
        None
    } else {
        Some((u16_of_be_prefix(s) as i16, 2))
    }
}

pub proof fn lemma_i16_field(v: i16, rest: Seq<u8>)
    ensures
        parse_i16_field(be_u16(v as u16) + rest) == Some((v, 2int)),
{
    lemma_u16_field(v as u16, rest);
    lemma_i16_u16_cast(v);
}

/// Parses a big-endian signed int field.
pub open spec fn parse_i32_field(s: Seq<u8>) -> Option<(i32, int)> {
    if s.len() < 4 {
        None
    } else {
        Some((crate::wire::u32_of_be(s.take(4)) as i32, 4))
    }
}

pub proof fn lemma_i32_field(v: i32, rest: Seq<u8>)
    ensures
        parse_i32_field(be_u32(v as u32) + rest) == Some((v, 4int)),
{
    lemma_be_u32(v as u32);
    lemma_i32_u32_cast(v);
    assert_seqs_equal!((be_u32(v as u32) + rest).take(4) == be_u32(v as u32));
}

/// Parses a big-endian unsigned long field.
pub open spec fn parse_u64_field(s: Seq<u8>) -> Option<(u64, int)> {
    if s.len() < 8 {
        None
    } else {
        Some((crate::wire::u64_of_be(s.take(8)), 8))
    }
}

pub proof fn lemma_u64_field(v: u64, rest: Seq<u8>)
    ensures
        parse_u64_field(be_u64(v) + rest) == Some((v, 8int)),
{
    lemma_be_u64(v);
    assert_seqs_equal!((be_u64(v) + rest).take(8) == be_u64(v));
}

/// Parses a big-endian signed long field.
pub open spec fn parse_i64_field(s: Seq<u8>) -> Option<(i64, int)> {
    if s.len() < 8 {
        None
    } else {
        Some((crate::wire::u64_of_be(s.take(8)) as i64, 8))
    }
}

pub proof fn lemma_i64_field(v: i64, rest: Seq<u8>)
    ensures
        parse_i64_field(be_u64(v as u64) + rest) == Some((v, 8int)),
{
    lemma_u64_field(v as u64, rest);
    lemma_i64_u64_cast(v);
}

/// Parses a big-endian unsigned 128-bit field.
pub open spec fn parse_u128_field(s: Seq<u8>) -> Option<(u128, int)> {
    if s.len() < 16 {
        None
    } else {
        Some((crate::wire::u128_of_be(s.take(16)), 16))
    }
}

pub proof fn lemma_u128_field(v: u128, rest: Seq<u8>)
    ensures
        parse_u128_field(be_u128(v) + rest) == Some((v, 16int)),
{
    lemma_be_u128(v);
    assert_seqs_equal!((be_u128(v) + rest).take(16) == be_u128(v));
}

/// Parses a strict boolean field: 0x00 or 0x01, anything else fails.
pub open spec fn parse_bool_field(s: Seq<u8>) -> Option<(bool, int)> {
    if s.len() < 1 {
        None
    } else if s[0] == 0 {
        Some((false, 1))
    } else if s[0] == 1 {
        Some((true, 1))
    } else {
        None
    }
}

/// The single wire byte of a boolean.
pub open spec fn bool_wire(v: bool) -> Seq<u8> {
    seq![if v { 1u8 } else { 0u8 }]
}

pub proof fn lemma_bool_field(v: bool, rest: Seq<u8>)
    ensures
        parse_bool_field(bool_wire(v) + rest) == Some((v, 1int)),
{
}

/// Parses a packed block-position field. The coordinates read back
/// always lie in packing range.
pub open spec fn parse_blockpos_field(s: Seq<u8>) -> Option<(BlockPosition, int)> {
    if s.len() < 8 {
        None
    } else {
        Some((spec_unpack_block_position(crate::wire::u64_of_be(s.take(8)) as i64), 8))
    }
}

/// The eight wire bytes of a packed block position.
pub open spec fn blockpos_wire(p: BlockPosition) -> Seq<u8> {
    be_u64(spec_pack_block_position(p) as u64)
}

pub proof fn lemma_blockpos_field(p: BlockPosition, rest: Seq<u8>)
    requires
        block_position_in_range(p),
    ensures
        parse_blockpos_field(blockpos_wire(p) + rest) == Some((p, 8int)),
{
    let raw = spec_pack_block_position(p);
    lemma_u64_field(raw as u64, rest);
    lemma_i64_u64_cast(raw);
    lemma_block_position_round_trip(p);
}

/// Parses a VarInt-counted list of VarInt entity ids. A non-positive
/// count reads as the empty list.
pub open spec fn parse_entity_list_field(s: Seq<u8>) -> Option<(Seq<i32>, int)> {
    match parse_varint_field(s) {
        None => None,
        Some((count, n)) => {
            let k = if count <= 0 {
                0
            } else {
                count as nat
            };
            match parse_entity_ids(s.skip(n), k) {
                None => None,
                Some((ids, m)) => Some((ids, n + m)),
            }
        },
    }
}

/// Parses exactly `k` VarInt entity ids.
pub open spec fn parse_entity_ids(s: Seq<u8>, k: nat) -> Option<(Seq<i32>, int)>
    decreases k,
{
    if k == 0 {
        Some((Seq::empty(), 0))
    } else {
        match parse_varint_field(s) {
            None => None,
            Some((id, n)) => match parse_entity_ids(s.skip(n), (k - 1) as nat) {
                None => None,
                Some((ids, m)) => Some((seq![id] + ids, n + m)),
            },
        }
    }
}

/// The wire bytes of a list of entity ids, without the count prefix.
pub open spec fn entity_ids_wire(ids: Seq<i32>) -> Seq<u8>
    decreases ids.len(),
{
    if ids.len() == 0 {
        Seq::empty()
    } else {
        varint_wire(ids[0]) + entity_ids_wire(ids.skip(1))
    }
}

/// The wire bytes of a VarInt-counted entity id list.
pub open spec fn entity_list_wire(ids: Seq<i32>) -> Seq<u8> {
    varint_wire(ids.len() as i32) + entity_ids_wire(ids)
}

/// Encoding a concatenation of id lists concatenates the encodings.
pub proof fn lemma_entity_ids_wire_concat(a: Seq<i32>, b: Seq<i32>)
    ensures
        entity_ids_wire(a + b) == entity_ids_wire(a) + entity_ids_wire(b),
    decreases a.len(),
{
    if a.len() == 0 {
        assert_seqs_equal!(a + b == b);
        assert_seqs_equal!(entity_ids_wire(a) + entity_ids_wire(b) == entity_ids_wire(b));
    } else {
        assert((a + b)[0] == a[0]);
        assert_seqs_equal!((a + b).skip(1) == a.skip(1) + b);
        lemma_entity_ids_wire_concat(a.skip(1), b);
        assert(entity_ids_wire(a + b) == varint_wire(a[0]) + (entity_ids_wire(a.skip(1))
            + entity_ids_wire(b)));
        assert_seqs_equal!(
            varint_wire(a[0]) + (entity_ids_wire(a.skip(1)) + entity_ids_wire(b))
                == (varint_wire(a[0]) + entity_ids_wire(a.skip(1))) + entity_ids_wire(b)
        );
    }
}

pub proof fn lemma_entity_ids_field(ids: Seq<i32>, rest: Seq<u8>, k: nat)
    requires
        k == ids.len(),
    ensures
        parse_entity_ids(entity_ids_wire(ids) + rest, k) == Some(
            (ids, entity_ids_wire(ids).len() as int),
        ),
    decreases k,
{
    if k == 0 {
        assert(ids =~= Seq::<i32>::empty());
        assert_seqs_equal!(entity_ids_wire(ids) + rest == rest);
    } else {
        let head = varint_wire(ids[0]);
        let tail = entity_ids_wire(ids.skip(1));
        assert(entity_ids_wire(ids) == head + tail);
        assert_seqs_equal!(entity_ids_wire(ids) + rest == head + (tail + rest));
        lemma_varint_field(ids[0], tail + rest);
        assert_seqs_equal!((head + (tail + rest)).skip(head.len() as int) == tail + rest);
        lemma_entity_ids_field(ids.skip(1), rest, (k - 1) as nat);
        assert_seqs_equal!(seq![ids[0]] + ids.skip(1) == ids);
    }
}

pub proof fn lemma_entity_list_field(ids: Seq<i32>, rest: Seq<u8>)
    requires
        ids.len() <= 0x7fffffff,
    ensures
        parse_entity_list_field(entity_list_wire(ids) + rest) == Some(
            (ids, entity_list_wire(ids).len() as int),
        ),
{
    let count = ids.len() as i32;
    let prefix = varint_wire(count);
    let body = entity_ids_wire(ids);
    assert_seqs_equal!(entity_list_wire(ids) + rest == prefix + (body + rest));
    lemma_varint_field(count, body + rest);
    assert_seqs_equal!((prefix + (body + rest)).skip(prefix.len() as int) == body + rest);
    lemma_entity_ids_field(ids, rest, ids.len());
}

} // verus!

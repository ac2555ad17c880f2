//! Specification-level descriptions of the wire formats used by the
//! protocol: big-endian integers and the VarInt continuation encoding.
//!
//! Each executable reader and writer in this crate is pinned to one of
//! these functions, so round-trip laws can be stated and proved purely
//! over sequences of bytes.

use vstd::prelude::*;
use vstd::seq_lib::*;
use vstd::arithmetic::div_mod::lemma_fundamental_div_mod;

verus! {

/// The two big-endian bytes of `x`.
pub open spec fn be_u16(x: u16) -> Seq<u8> {
    seq![(x >> 8) as u8, x as u8]
}

/// The `u16` read from two big-endian bytes.
pub open spec fn u16_of_be(s: Seq<u8>) -> u16
    recommends
        s.len() == 2,
{
    (((s[0] as u16) << 8) | (s[1] as u16))
}

/// The four big-endian bytes of `x`.
pub open spec fn be_u32(x: u32) -> Seq<u8> {
    seq![(x >> 24) as u8, (x >> 16) as u8, (x >> 8) as u8, x as u8]
}

/// The `u32` read from four big-endian bytes.
pub open spec fn u32_of_be(s: Seq<u8>) -> u32
    recommends
        s.len() == 4,
{
    (((s[0] as u32) << 24) | ((s[1] as u32) << 16) | ((s[2] as u32) << 8) | (s[3] as u32))
}

/// The eight big-endian bytes of `x`.
pub open spec fn be_u64(x: u64) -> Seq<u8> {
    seq![
        (x >> 56) as u8,
        (x >> 48) as u8,
        (x >> 40) as u8,
        (x >> 32) as u8,
        (x >> 24) as u8,
        (x >> 16) as u8,
        (x >> 8) as u8,
        x as u8,
    ]
}

/// The `u64` read from eight big-endian bytes.
pub open spec fn u64_of_be(s: Seq<u8>) -> u64
    recommends
        s.len() == 8,
{
    (((s[0] as u64) << 56) | ((s[1] as u64) << 48) | ((s[2] as u64) << 40) | ((s[3] as u64) << 32)
        | ((s[4] as u64) << 24) | ((s[5] as u64) << 16) | ((s[6] as u64) << 8) | (s[7] as u64))
}

/// The sixteen big-endian bytes of `x`.
pub open spec fn be_u128(x: u128) -> Seq<u8> {
    be_u64((x >> 64) as u64) + be_u64(x as u64)
}

/// The `u128` read from sixteen big-endian bytes.
pub open spec fn u128_of_be(s: Seq<u8>) -> u128
    recommends
        s.len() == 16,
{
    (((u64_of_be(s.take(8)) as u128) << 64) | (u64_of_be(s.skip(8)) as u128))
}

pub proof fn lemma_be_u16(x: u16)
    ensures
        be_u16(x).len() == 2,
        u16_of_be(be_u16(x)) == x,
{
    assert(((((x >> 8) as u8) as u16) << 8 | ((x as u8) as u16)) == x) by (bit_vector);
}

pub proof fn lemma_be_u32(x: u32)
    ensures
        be_u32(x).len() == 4,
        u32_of_be(be_u32(x)) == x,
{
    assert(((((x >> 24) as u8) as u32) << 24 | (((x >> 16) as u8) as u32) << 16 | (((x >> 8)
        as u8) as u32) << 8 | ((x as u8) as u32)) == x) by (bit_vector);
}

pub proof fn lemma_be_u64(x: u64)
    ensures
        be_u64(x).len() == 8,
        u64_of_be(be_u64(x)) == x,
{
    assert(((((x >> 56) as u8) as u64) << 56 | (((x >> 48) as u8) as u64) << 48 | (((x >> 40)
        as u8) as u64) << 40 | (((x >> 32) as u8) as u64) << 32 | (((x >> 24) as u8) as u64) << 24
        | (((x >> 16) as u8) as u64) << 16 | (((x >> 8) as u8) as u64) << 8 | ((x as u8) as u64))
        == x) by (bit_vector);
}

pub proof fn lemma_be_u128(x: u128)
    ensures
        be_u128(x).len() == 16,
        u128_of_be(be_u128(x)) == x,
{
    lemma_be_u64((x >> 64) as u64);
    lemma_be_u64(x as u64);
    assert_seqs_equal!(be_u128(x).take(8) == be_u64((x >> 64) as u64));
    assert_seqs_equal!(be_u128(x).skip(8) == be_u64(x as u64));
    assert(((((x >> 64) as u64) as u128) << 64 | ((x as u64) as u128)) == x) by (bit_vector);
}

/// The VarInt bytes of `x`: seven payload bits per byte, least
/// significant group first, with the high bit of every byte but the
/// last set as a continuation marker.
pub open spec fn var_int_bytes(x: u32) -> Seq<u8>
    decreases x,
{
    if x < 0x80 {
        seq![x as u8]
    } else {
        seq![((x % 0x80 + 0x80) as u8)] + var_int_bytes(x / 0x80)
    }
}

/// What a reader makes of the VarInt at the head of `s`, allowed to
/// follow at most `k` continuation markers: the value (truncated to 32
/// bits as readers do) and how many bytes it spans, or nothing when the
/// bytes run out or run past the limit.
pub open spec fn parse_var_int(s: Seq<u8>, k: nat) -> Option<(u32, int)>
    decreases k,
{
    if s.len() == 0 {
        None
    } else if s[0] < 0x80 {
        Some((s[0] as u32, 1))
    } else if k == 0 {
        None
    } else {
        match parse_var_int(s.skip(1), (k - 1) as nat) {
            None => None,
            Some((v, n)) => Some(((((v as int) * 0x80 + (s[0] - 0x80)) as u32), n + 1)),
        }
    }
}

/// Five bytes in a row with the continuation marker set: the VarInt is
/// too long.
pub open spec fn var_int_runs_long(s: Seq<u8>) -> bool {
    s.len() >= 5 && forall|i: int| 0 <= i < 5 ==> s[i] >= 0x80
}

/// Every byte present has the continuation marker, and the five-byte
/// limit is not yet reached: the VarInt needs more input.
pub open spec fn var_int_needs_more(s: Seq<u8>) -> bool {
    s.len() < 5 && (forall|i: int| 0 <= i < s.len() ==> s[i] >= 0x80)
}

pub proof fn lemma_var_int_bytes_len(x: u32)
    ensures
        1 <= var_int_bytes(x).len() <= 5,
{
    let x1 = x / 0x80;
    let x2 = x1 / 0x80;
    let x3 = x2 / 0x80;
    let x4 = x3 / 0x80;
    assert(x1 <= 0x1ffffff && x2 <= 0x3ffff && x3 <= 0x7ff && x4 <= 0xf) by (nonlinear_arith)
        requires
            x1 == x / 0x80,
            x2 == x1 / 0x80,
            x3 == x2 / 0x80,
            x4 == x3 / 0x80,
            x <= 0xffffffffu32,
    ;
    if x >= 0x80 {
        assert(var_int_bytes(x).len() == 1 + var_int_bytes(x1).len());
        if x1 >= 0x80 {
            assert(var_int_bytes(x1).len() == 1 + var_int_bytes(x2).len());
            if x2 >= 0x80 {
                assert(var_int_bytes(x2).len() == 1 + var_int_bytes(x3).len());
                if x3 >= 0x80 {
                    assert(var_int_bytes(x3).len() == 1 + var_int_bytes(x4).len());
                    assert(var_int_bytes(x4).len() == 1);
                }
            }
        }
    }
}

/// A parse comes up empty exactly when the continuation markers run
/// past the limit or past the end of the input.
pub proof fn lemma_parse_var_int_none(s: Seq<u8>, k: nat)
    ensures
        parse_var_int(s, k) is None <==> {
            ||| (s.len() > k && (forall|i: int| 0 <= i <= k ==> s[i] >= 0x80))
            ||| (s.len() <= k && (forall|i: int| 0 <= i < s.len() ==> s[i] >= 0x80))
        },
    decreases k,
{
    if s.len() == 0 {
    } else if s[0] < 0x80 {
    } else if k > 0 {
        lemma_parse_var_int_none(s.skip(1), (k - 1) as nat);
        let t = s.skip(1);
        assert(forall|i: int| 1 <= i < s.len() ==> s[i] == t[i - 1]);
        assert(forall|i: int| 0 <= i < t.len() ==> t[i] == s[i + 1]);
    }
}

/// A successful parse consumes at least one and at most `k + 1` bytes,
/// never more than are present.
pub proof fn lemma_parse_var_int_len(s: Seq<u8>, k: nat)
    ensures
        parse_var_int(s, k) is Some ==> {
            let n = (parse_var_int(s, k)->0).1;
            1 <= n <= s.len() && n <= k + 1
        },
    decreases k,
{
    if s.len() != 0 && s[0] >= 0x80 && k > 0 {
        lemma_parse_var_int_len(s.skip(1), (k - 1) as nat);
    }
}

/// Parsing the encoding of `x`, with anything at all after it, yields
/// `x` and consumes exactly the encoding.
pub proof fn lemma_parse_var_int_of_encoding(x: u32, rest: Seq<u8>, k: nat)
    requires
        var_int_bytes(x).len() <= k + 1,
    ensures
        parse_var_int(var_int_bytes(x) + rest, k) == Some((x, var_int_bytes(x).len() as int)),
    decreases x,
{
    let s = var_int_bytes(x) + rest;
    if x < 0x80 {
        assert(s[0] == x as u8);
    } else {
        let head = (x % 0x80 + 0x80) as u8;
        assert(s[0] == head);
        assert(head >= 0x80);
        lemma_var_int_bytes_len(x / 0x80);
        assert(var_int_bytes(x).len() == 1 + var_int_bytes(x / 0x80).len());
        assert(k >= 1);
        assert_seqs_equal!(s.skip(1) == var_int_bytes(x / 0x80) + rest);
        lemma_parse_var_int_of_encoding(x / 0x80, rest, (k - 1) as nat);
        lemma_fundamental_div_mod(x as int, 0x80);
        assert((((x / 0x80) as int) * 0x80 + (head - 0x80)) == x as int);
    }
}

/// Concatenation of byte sequences is associative.
pub proof fn lemma_concat_assoc(a: Seq<u8>, b: Seq<u8>, c: Seq<u8>)
    ensures
        (a + b) + c == a + (b + c),
{
    assert_seqs_equal!((a + b) + c == a + (b + c));
}

/// Skipping a concatenation's first part leaves its second.
pub proof fn lemma_concat_skip(a: Seq<u8>, b: Seq<u8>)
    ensures
        (a + b).skip(a.len() as int) == b,
{
    assert_seqs_equal!((a + b).skip(a.len() as int) == b);
}

pub proof fn lemma_i32_u32_cast(x: i32)
    ensures
        (x as u32) as i32 == x,
{
    assert((x as u32) as i32 == x) by (bit_vector);
}

pub proof fn lemma_u32_i32_cast(x: u32)
    ensures
        (x as i32) as u32 == x,
{
    assert((x as i32) as u32 == x) by (bit_vector);
}

pub proof fn lemma_i16_u16_cast(x: i16)
    ensures
        (x as u16) as i16 == x,
{
    assert((x as u16) as i16 == x) by (bit_vector);
}

pub proof fn lemma_i64_u64_cast(x: i64)
    ensures
        (x as u64) as i64 == x,
{
    assert((x as u64) as i64 == x) by (bit_vector);
}

} // verus!

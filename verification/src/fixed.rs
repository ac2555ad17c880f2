//! Fixed-point world coordinates.
//!
//! Relative entity movement travels as signed deltas in units of
//! 1/4096 block, while absolute positions travel as IEEE-754 binary64
//! words. This module keeps coordinates as signed integers in 1/4096
//! units, so accumulating deltas is exact integer arithmetic, and
//! converts between that form and the binary64 bit pattern: reading a
//! word truncates toward zero onto the 1/4096 grid, and writing a
//! grid value produces its exact binary64 representation.

use vstd::prelude::*;

verus! {

/// Scale of a fixed-point coordinate: 4096 units per block.
pub const FIXED_SCALE: i64 = 4096;

/// Largest magnitude a fixed-point coordinate may take. Values up to
/// this bound convert to binary64 exactly.
pub const FIXED_LIMIT: i64 = 0x8000000000000;

/// The index of the highest set bit.
pub open spec fn msb(n: u64) -> u64
    recommends
        n >= 1,
    decreases n,
{
    if n < 2 {
        0
    } else {
        (1 + msb(n / 2)) as u64
    }
}

/// The highest set bit of a positive number is within the word, and
/// shifting it out leaves exactly one.
pub proof fn lemma_msb_bounds(n: u64)
    requires
        n >= 1,
    ensures
        msb(n) <= 63,
        n >> msb(n) == 1,
    decreases n,
{
    if n < 2 {
        assert(n >> 0 == n) by (bit_vector);
    } else {
        lemma_msb_bounds(n / 2);
        let k = msb(n / 2);
        assert(msb(n) == k + 1);
        assert(n / 2 == n >> 1) by (bit_vector);
        assert((n >> 1) >> k == n >> (k + 1)) by (bit_vector)
            requires
                k <= 63,
        ;
        assert(n >> (k + 1) == 1);
        assert(!(n >> 64 == 1 && n >> 63 == 1)) by (bit_vector);
        if k + 1 > 63 {
            assert(k == 63);
            assert((n >> 1) >> 63 == 0) by (bit_vector);
        }
    }
}

/// The fixed-point value read from a binary64 bit pattern, truncated
/// toward zero; nothing for non-finite words or magnitudes past
/// [`FIXED_LIMIT`].
pub open spec fn spec_fixed_of_bits(bits: u64) -> Option<i64> {
    let sign = bits >> 63;
    let e = (bits >> 52) & 0x7ff;
    let m = bits & 0xfffffffffffff;
    if e == 0x7ff {
        None
    } else if e == 0 {
        Some(0)
    } else if e >= 1063 {
        None
    } else {
        let full = (m + 0x10000000000000) as u64;
        let s = (1063 - e) as u64;
        let mag = if s >= 53 {
            0u64
        } else {
            full >> s
        };
        if mag > FIXED_LIMIT as u64 {
            None
        } else if sign == 1 {
            Some((-(mag as i64)) as i64)
        } else {
            Some(mag as i64)
        }
    }
}

/// The binary64 bit pattern of a fixed-point value; exact for every
/// magnitude up to [`FIXED_LIMIT`].
pub open spec fn spec_bits_of_fixed(fp: i64) -> u64 {
    if fp == 0 {
        0
    } else {
        let sign: u64 = if fp < 0 {
            1
        } else {
            0
        };
        let mag = (if fp < 0 {
            -fp
        } else {
            fp as int
        }) as u64;
        let k = msb(mag);
        let e: u64 = (k + 1011) as u64;
        let mfield: u64 = (((mag << ((52 - k) as u64)) - 0x10000000000000)) as u64;
        ((sign << 63) | (e << 52) | mfield) as u64
    }
}

/// Reads a binary64 word as a fixed-point coordinate, truncating
/// toward zero; refuses non-finite words and out-of-range magnitudes.
pub fn fixed_of_bits(bits: u64) -> (r: Option<i64>)
    ensures
        r == spec_fixed_of_bits(bits),
        r is Some ==> -FIXED_LIMIT <= r->0 <= FIXED_LIMIT,
{
    let sign = bits >> 63;
    let e = (bits >> 52) & 0x7ff;
    let m = bits & 0xfffffffffffff;
    proof {
        assert((bits & 0xfffffffffffff) < 0x10000000000000 && ((bits >> 52) & 0x7ff) < 0x800 && (
        bits >> 63) <= 1) by (bit_vector);
    }
    if e == 0x7ff {
        None
    } else if e == 0 {
        Some(0)
    } else if e >= 1063 {
        None
    } else {
        let full: u64 = m + 0x10000000000000;
        let s: u64 = 1063 - e;
        let mag: u64 = if s >= 53 {
            0
        } else {
            full >> s
        };
        proof {
            let ss = s;
            let ff = full;
            assert(ss < 53 ==> (ff >> ss) <= ff) by (bit_vector);
        }
        if mag > FIXED_LIMIT as u64 {
            None
        } else if sign == 1 {
            Some(-(mag as i64))
        } else {
            Some(mag as i64)
        }
    }
}

/// Writes a fixed-point coordinate as its exact binary64 word.
pub fn bits_of_fixed(fp: i64) -> (r: u64)
    requires
        -FIXED_LIMIT <= fp <= FIXED_LIMIT,
    ensures
        r == spec_bits_of_fixed(fp),
{
    if fp == 0 {
        return 0;
    }
    let sign: u64 = if fp < 0 {
        1
    } else {
        0
    };
    let mag: u64 = if fp < 0 {
        (-fp) as u64
    } else {
        fp as u64
    };
    let k = exec_msb(mag);
    proof {
        lemma_msb_bounds(mag);
        let kk = k;
        let mm = mag;
        assert(mm >> kk == 1 && mm <= 0x8000000000000 ==> kk <= 51) by (bit_vector);
        assert(mm >> kk == 1 && kk <= 51 ==> (mm << ((52 - kk) as u64)) >= 0x10000000000000
            && (mm << ((52 - kk) as u64)) < 0x20000000000000) by (bit_vector);
    }
    let e: u64 = k + 1011;
    let mfield: u64 = (mag << (52 - k)) - 0x10000000000000;
    (sign << 63) | (e << 52) | mfield
}

/// The highest set bit of a positive number, computed by halving.
fn exec_msb(n: u64) -> (k: u64)
    requires
        n >= 1,
    ensures
        k == msb(n),
{
    let mut v: u64 = n;
    let mut k: u64 = 0;
    while v >= 2
        invariant
            v >= 1,
            k <= 63,
            msb(n) == k + msb(v),
        decreases v,
    {
        proof {
            lemma_msb_bounds(v / 2);
            assert(msb(v) == 1 + msb(v / 2));
            lemma_msb_bounds(n);
        }
        v = v / 2;
        k = k + 1;
    }
    k
}

/// Writing a fixed-point coordinate and reading it back is the
/// identity: the grid embeds exactly into binary64.
pub proof fn lemma_fixed_bits_round_trip(fp: i64)
    requires
        -FIXED_LIMIT <= fp <= FIXED_LIMIT,
    ensures
        spec_fixed_of_bits(spec_bits_of_fixed(fp)) == Some(fp),
{
    if fp == 0 {
        assert(spec_bits_of_fixed(0) == 0);
        assert(0u64 >> 63 == 0 && (0u64 >> 52) & 0x7ff == 0) by (bit_vector);
    } else {
        let sign: u64 = if fp < 0 {
            1
        } else {
            0
        };
        let mag = (if fp < 0 {
            -fp
        } else {
            fp as int
        }) as u64;
        lemma_msb_bounds(mag);
        let k = msb(mag);
        assert(mag >> k == 1 && mag <= 0x8000000000000 ==> k <= 51) by (bit_vector);
        let e: u64 = (k + 1011) as u64;
        let d: u64 = (52 - k) as u64;
        let shifted: u64 = (mag << d) as u64;
        assert(mag >> k == 1 && k <= 51 && d == 52 - k ==> shifted >= 0x10000000000000 && shifted
            < 0x20000000000000 && (shifted >> d) == mag) by (bit_vector)
            requires
                shifted == (mag << d),
        ;
        let mfield: u64 = (shifted - 0x10000000000000) as u64;
        let bits = spec_bits_of_fixed(fp);
        assert(bits == ((sign << 63) | (e << 52) | mfield));
        assert(sign <= 1 && 1011 <= e < 1063 && mfield < 0x10000000000000 ==> {
            let b = ((sign << 63) | (e << 52) | mfield) as u64;
            b >> 63 == sign && ((b >> 52) & 0x7ff) == e && (b & 0xfffffffffffff) == mfield
        }) by (bit_vector);
        assert(1063 - e == d);
        assert((mfield + 0x10000000000000) as u64 == shifted);
        assert(spec_fixed_of_bits(bits) == if sign == 1 {
            Some((-(mag as i64)) as i64)
        } else {
            Some(mag as i64)
        });
    }
}

} // verus!

//! The fixed-point angle encoding: one byte per angle, read back as
//! `byte / 255 * 360` degrees.
//!
//! Angles are handled here in units of 1/255 degree, so that both
//! directions are exact integer arithmetic: a byte decodes to exactly
//! `byte * 360` such units, and a value encodes, after reduction
//! modulo the full turn, to the nearest byte, halves rounded up. A
//! full turn therefore encodes to byte 0, exactly as an angle of zero
//! does.

use vstd::prelude::*;
use vstd::arithmetic::div_mod::lemma_fundamental_div_mod;

verus! {

/// A full turn, in units of 1/255 degree.
pub const FULL_TURN_D255: u32 = 91800;

/// The angle a wire byte stands for, in units of 1/255 degree.
pub fn angle_to_d255(b: u8) -> (d: u32)
    ensures
        d == b as u32 * 360,
        d <= FULL_TURN_D255,
{
    (b as u32) * 360
}

/// The wire byte nearest to an angle given in units of 1/255 degree:
/// the angle is reduced modulo the full turn, then rounded to the
/// nearest byte step, halves up.
pub fn angle_from_d255(d: u32) -> (b: u8)
    ensures
        b == (d as int % FULL_TURN_D255 as int + 180) / 360,
{
    let reduced = d % FULL_TURN_D255;
    ((reduced + 180) / 360) as u8
}

/// Wire angles below the full-turn step survive a decode-encode cycle
/// unchanged; the full-turn byte canonicalizes to zero, the same
/// angle.
pub proof fn lemma_angle_byte_round_trip(b: u8)
    ensures
        b < 255 ==> (b as int * 360 % FULL_TURN_D255 as int + 180) / 360 == b,
        b == 255 ==> (b as int * 360 % FULL_TURN_D255 as int + 180) / 360 == 0,
{
    if b < 255 {
        assert(b as int * 360 % FULL_TURN_D255 as int == b as int * 360) by (nonlinear_arith)
            requires
                0 <= b < 255,
        ;
        lemma_fundamental_div_mod(b as int * 360 + 180, 360);
    }
}

/// Encoding an angle then decoding it lands within 180 units of 1/255
/// degree of the reduced angle — under the wire resolution of 360/256
/// degrees. Every whole number of turns, zero included, encodes to
/// byte 0.
pub proof fn lemma_angle_quantization(d: u32)
    ensures
        ({
            let reduced = d as int % FULL_TURN_D255 as int;
            let b = (reduced + 180) / 360;
            &&& 0 <= b <= 255
            &&& b * 360 - reduced <= 180
            &&& reduced - b * 360 < 180
        }),
        d as int % FULL_TURN_D255 as int == 0 ==> (d as int % FULL_TURN_D255 as int + 180) / 360
            == 0,
{
    let reduced = d as int % FULL_TURN_D255 as int;
    lemma_fundamental_div_mod(reduced + 180, 360);
}

} // verus!

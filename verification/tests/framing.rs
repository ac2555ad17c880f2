//! Framing primitives: VarInts, strings, angles, packed positions and
//! fixed-point coordinate words.

use minecraft_quic_proxy::angle::{angle_from_d255, angle_to_d255};
use minecraft_quic_proxy::decoder::Decoder;
use minecraft_quic_proxy::encoder::Encoder;
use minecraft_quic_proxy::error::DecodeError;
use minecraft_quic_proxy::fixed::{bits_of_fixed, fixed_of_bits, FIXED_LIMIT};
use minecraft_quic_proxy::position::{
    pack_block_position, unpack_block_position, BlockPosition,
};
use minecraft_quic_proxy::text::{McString, MAX_STRING_LENGTH};

fn var_int_round_trip(x: i32) {
    let mut enc = Encoder::new();
    let n = enc.write_var_int(x);
    let bytes = enc.into_bytes();
    assert_eq!(bytes.len(), n);
    let mut dec = Decoder::new(&bytes);
    let (value, size) = dec.read_var_int_with_size().unwrap();
    assert_eq!(value, x);
    assert_eq!(size, n);
    assert!(dec.is_finished());
}

#[test]
fn var_int_round_trips_at_boundaries() {
    for x in [-1, 0, 1, i32::MIN, i32::MAX, 127, 128, 255, 25565, -25565] {
        var_int_round_trip(x);
    }
}

#[test]
fn var_int_known_encodings() {
    let mut enc = Encoder::new();
    enc.write_var_int(0);
    enc.write_var_int(1);
    enc.write_var_int(128);
    enc.write_var_int(255);
    enc.write_var_int(-1);
    let bytes = enc.into_bytes();
    let expected: Vec<u8> = vec![
        0x00, 0x01, 0x80, 0x01, 0xff, 0x01, 0xff, 0xff, 0xff, 0xff, 0x0f,
    ];
    assert_eq!(bytes, expected);
}

#[test]
fn var_int_too_long_is_rejected() {
    let bytes = vec![0x80u8, 0x80, 0x80, 0x80, 0x80, 0x01];
    let mut dec = Decoder::new(&bytes);
    assert_eq!(dec.read_var_int().unwrap_err(), DecodeError::VarIntTooLong);
}

#[test]
fn var_int_incomplete_wants_more() {
    let bytes = vec![0x80u8, 0x80];
    let mut dec = Decoder::new(&bytes);
    assert!(matches!(
        dec.read_var_int().unwrap_err(),
        DecodeError::EndOfStream(_)
    ));
}

#[test]
fn string_round_trips() {
    let s = McString::new(b"example".to_vec()).unwrap();
    let mut enc = Encoder::new();
    enc.write_string(&s);
    let bytes = enc.into_bytes();
    assert_eq!(bytes[0], 7);
    let mut dec = Decoder::new(&bytes);
    let back = dec.read_string().unwrap();
    assert_eq!(back.as_bytes().as_slice(), b"example");
    assert!(dec.is_finished());
}

#[test]
fn string_at_max_length_round_trips() {
    let s = McString::new(vec![b'a'; MAX_STRING_LENGTH]).unwrap();
    let mut enc = Encoder::new();
    enc.write_string(&s);
    let bytes = enc.into_bytes();
    let mut dec = Decoder::new(&bytes);
    let back = dec.read_string().unwrap();
    assert_eq!(back.byte_len(), MAX_STRING_LENGTH);
}

#[test]
fn string_past_max_length_fails() {
    assert!(McString::new(vec![b'a'; MAX_STRING_LENGTH + 1]).is_none());
    // A wire string declaring 32768 bytes must fail to decode.
    let mut enc = Encoder::new();
    enc.write_var_int(32768);
    enc.write_slice(&vec![b'a'; 32768]);
    let bytes = enc.into_bytes();
    let mut dec = Decoder::new(&bytes);
    assert_eq!(dec.read_string().unwrap_err(), DecodeError::StringTooLong);
}

#[test]
fn string_rejects_invalid_utf8() {
    assert!(McString::new(vec![0xff, 0xfe]).is_none());
    let mut enc = Encoder::new();
    enc.write_var_int(2);
    enc.write_slice(&[0xffu8, 0xfe]);
    let bytes = enc.into_bytes();
    let mut dec = Decoder::new(&bytes);
    assert_eq!(dec.read_string().unwrap_err(), DecodeError::Utf8);
}

#[test]
fn angle_bytes_round_trip() {
    // Every byte below the full-turn step survives a decode-encode
    // cycle; the full-turn byte canonicalizes to zero, the same angle.
    for b in 0..=254u8 {
        assert_eq!(angle_from_d255(angle_to_d255(b)), b);
    }
    assert_eq!(angle_to_d255(255), 91800);
    assert_eq!(angle_from_d255(angle_to_d255(255)), 0);
}

#[test]
fn angle_quantization_error_is_small() {
    // Zero degrees and a full turn both map to byte 0, and every
    // encoding is within 360/256 degrees of the reduced angle.
    assert_eq!(angle_from_d255(0), 0);
    assert_eq!(angle_from_d255(91800), 0);
    for d in (0..91800u32).step_by(73) {
        let b = angle_from_d255(d);
        let back = angle_to_d255(b) as i64;
        let diff = (back - d as i64).abs();
        // 180 units of 1/255 degree is about 0.71 degrees.
        assert!(diff <= 180, "d={d} byte={b} back={back}");
    }
}

#[test]
fn block_position_round_trips() {
    let cases = [
        (0, 0, 0),
        (1, 2, 3),
        (-1, -1, -1),
        (33554431, 2047, 33554431),
        (-33554432, -2048, -33554432),
        (100, -60, -100),
    ];
    for (x, y, z) in cases {
        let p = BlockPosition { x, y, z };
        let packed = pack_block_position(p);
        assert_eq!(unpack_block_position(packed), p);
    }
}

#[test]
fn block_position_repacks_identically() {
    for v in [0i64, 1, -1, i64::MAX, i64::MIN, 0x123456789abcdef0u64 as i64] {
        let p = unpack_block_position(v);
        assert_eq!(pack_block_position(p), v);
    }
}

#[test]
fn fixed_point_matches_binary64() {
    // 64.0 blocks is 64 * 4096 grid units.
    assert_eq!(fixed_of_bits(64.0f64.to_bits()), Some(64 * 4096));
    assert_eq!(fixed_of_bits(0.0f64.to_bits()), Some(0));
    assert_eq!(fixed_of_bits((-1.0f64).to_bits()), Some(-4096));
    assert_eq!(fixed_of_bits(0.25f64.to_bits()), Some(1024));
    // Truncation toward zero below the grid.
    assert_eq!(fixed_of_bits(1e-9f64.to_bits()), Some(0));
    // Non-finite and oversized words are refused.
    assert_eq!(fixed_of_bits(f64::NAN.to_bits()), None);
    assert_eq!(fixed_of_bits(f64::INFINITY.to_bits()), None);
    assert_eq!(fixed_of_bits(1e300f64.to_bits()), None);
}

#[test]
fn fixed_point_round_trips_through_binary64() {
    for fp in [0i64, 1, -1, 4096, -4096, 123456789, FIXED_LIMIT, -FIXED_LIMIT] {
        let bits = bits_of_fixed(fp);
        assert_eq!(fixed_of_bits(bits), Some(fp), "fp={fp}");
        // The word really is the IEEE-754 value fp / 4096.
        assert_eq!(f64::from_bits(bits), fp as f64 / 4096.0);
    }
}

//! The two framing codecs, run against the real compression and
//! cipher crates.

use minecraft_quic_proxy::optimized_codec::OptimizedCodec;
use minecraft_quic_proxy::vanilla_codec::{
    CompressionThreshold, EncryptionKey, VanillaCodec,
};

#[test]
fn native_plain_round_trips() {
    let mut sender = VanillaCodec::new();
    let mut receiver = VanillaCodec::new();
    let payload = b"\x00hello world".to_vec();
    let wire = sender.encode_packet(&payload).unwrap();
    receiver.give_data(&wire);
    let got = receiver.decode_packet().unwrap().unwrap();
    assert_eq!(got, payload);
    assert!(receiver.decode_packet().unwrap().is_none());
}

#[test]
fn native_partial_frame_waits_for_more() {
    let mut sender = VanillaCodec::new();
    let mut receiver = VanillaCodec::new();
    let payload = vec![7u8; 100];
    let wire = sender.encode_packet(&payload).unwrap();
    receiver.give_data(&wire[..40]);
    assert!(receiver.decode_packet().unwrap().is_none());
    receiver.give_data(&wire[40..]);
    assert_eq!(receiver.decode_packet().unwrap().unwrap(), payload);
}

#[test]
fn native_below_threshold_is_marked_uncompressed() {
    let mut sender = VanillaCodec::new();
    sender.enable_compression(CompressionThreshold::new(256));
    let payload = vec![3u8; 100];
    let wire = sender.encode_packet(&payload).unwrap();
    // Frame: VarInt(block len), then VarInt(0) marker, then the plain
    // payload untouched.
    assert_eq!(wire[0] as usize, 1 + payload.len());
    assert_eq!(wire[1], 0);
    assert_eq!(&wire[2..], &payload[..]);
    let mut receiver = VanillaCodec::new();
    receiver.enable_compression(CompressionThreshold::new(256));
    receiver.give_data(&wire);
    assert_eq!(receiver.decode_packet().unwrap().unwrap(), payload);
}

#[test]
fn native_above_threshold_compresses_and_round_trips() {
    let mut sender = VanillaCodec::new();
    sender.enable_compression(CompressionThreshold::new(256));
    let payload = vec![9u8; 300];
    let wire = sender.encode_packet(&payload).unwrap();
    // The data-length prefix inside the frame is non-zero, and a very
    // repetitive payload compresses below its plain size.
    assert!(wire.len() < payload.len());
    let mut receiver = VanillaCodec::new();
    receiver.enable_compression(CompressionThreshold::new(256));
    receiver.give_data(&wire);
    assert_eq!(receiver.decode_packet().unwrap().unwrap(), payload);
}

#[test]
fn native_encryption_round_trips() {
    let key = EncryptionKey::new([0u8; 16]);
    let mut sender = VanillaCodec::new();
    sender.enable_encryption(&key);
    let mut receiver = VanillaCodec::new();
    receiver.enable_encryption(&EncryptionKey::new([0u8; 16]));
    for payload in [b"first packet".to_vec(), b"second packet".to_vec()] {
        let wire = sender.encode_packet(&payload).unwrap();
        // The ciphertext differs from the plain frame.
        assert_ne!(&wire[1..], &payload[..]);
        receiver.give_data(&wire);
        assert_eq!(receiver.decode_packet().unwrap().unwrap(), payload);
    }
}

#[test]
fn native_wrong_key_garbles_the_stream() {
    let mut sender = VanillaCodec::new();
    sender.enable_encryption(&EncryptionKey::new([1u8; 16]));
    let mut receiver = VanillaCodec::new();
    receiver.enable_encryption(&EncryptionKey::new([2u8; 16]));
    let payload = vec![0x55u8; 64];
    let wire = sender.encode_packet(&payload).unwrap();
    receiver.give_data(&wire);
    // Decoding the garbled bytes must not yield the payload: it either
    // errors, wants more data, or produces something else.
    match receiver.decode_packet() {
        Ok(Some(got)) => assert_ne!(got, payload),
        Ok(None) => {},
        Err(_) => {},
    }
}

#[test]
fn native_rejects_oversized_frames_up_front() {
    let mut receiver = VanillaCodec::new();
    // Declared length just above one mebibyte, no payload at all.
    let mut enc = minecraft_quic_proxy::encoder::Encoder::new();
    enc.write_var_int(1048577);
    receiver.give_data(&enc.into_bytes());
    assert!(receiver.decode_packet().is_err());
}

#[test]
fn quic_small_payloads_stay_plain() {
    let mut sender = OptimizedCodec::new();
    let payload = vec![5u8; 60];
    let wire = sender.encode_packet(&payload).unwrap();
    // One VarInt length byte, then a clear flag byte, then the payload.
    assert_eq!(wire[0], 61);
    assert_eq!(wire[1], 0);
    assert_eq!(&wire[2..], &payload[..]);
    let mut receiver = OptimizedCodec::new();
    receiver.give_data(&wire);
    assert_eq!(receiver.decode_packet().unwrap().unwrap(), payload);
}

#[test]
fn quic_large_payloads_set_the_compressed_flag() {
    let mut sender = OptimizedCodec::new();
    let payload = vec![5u8; 128];
    let wire = sender.encode_packet(&payload).unwrap();
    assert_eq!(wire[1], 1);
    let mut receiver = OptimizedCodec::new();
    receiver.give_data(&wire);
    assert_eq!(receiver.decode_packet().unwrap().unwrap(), payload);
}

#[test]
fn quic_several_frames_in_one_buffer() {
    let mut sender = OptimizedCodec::new();
    let a = vec![1u8; 10];
    let b = vec![2u8; 300];
    let mut wire = sender.encode_packet(&a).unwrap();
    wire.extend_from_slice(&sender.encode_packet(&b).unwrap());
    let mut receiver = OptimizedCodec::new();
    receiver.give_data(&wire);
    assert_eq!(receiver.decode_packet().unwrap().unwrap(), a);
    assert_eq!(receiver.decode_packet().unwrap().unwrap(), b);
    assert!(receiver.decode_packet().unwrap().is_none());
}

#[test]
fn quic_rejects_oversized_frames_up_front() {
    let mut receiver = OptimizedCodec::new();
    let mut enc = minecraft_quic_proxy::encoder::Encoder::new();
    enc.write_var_int(1048577);
    receiver.give_data(&enc.into_bytes());
    assert!(receiver.decode_packet().is_err());
}

#[test]
fn quic_rejects_unknown_flags() {
    let mut receiver = OptimizedCodec::new();
    let mut enc = minecraft_quic_proxy::encoder::Encoder::new();
    enc.write_var_int(2);
    enc.write_u8(0x04);
    enc.write_u8(0xaa);
    receiver.give_data(&enc.into_bytes());
    assert!(receiver.decode_packet().is_err());
}

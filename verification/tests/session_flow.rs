//! The packet catalog, the control stream, authentication, and the
//! protocol state machine driven through whole-session scenarios.

use minecraft_quic_proxy::control::{
    decode_client_message, decode_gateway_message, encode_client_message,
    encode_gateway_message, split_control_frame, AuthenticationKey, ClientMessage, ConnectTo,
    EnableTerminalEncryption, GatewayMessage, SocketAddress,
};
use minecraft_quic_proxy::decoder::Decoder;
use minecraft_quic_proxy::encoder::Encoder;
use minecraft_quic_proxy::packet::client::handshake as hs;
use minecraft_quic_proxy::packet::client::login as cl;
use minecraft_quic_proxy::packet::client::configuration as cc;
use minecraft_quic_proxy::packet::client::play as cp;
use minecraft_quic_proxy::packet::client::status as cs;
use minecraft_quic_proxy::packet::server::login as sl;
use minecraft_quic_proxy::packet::server::play as sp;
use minecraft_quic_proxy::session::{ProtocolStage, SessionAction, SessionState};
use minecraft_quic_proxy::text::McString;
use minecraft_quic_proxy::vanilla_codec::VanillaCodec;
use minecraft_quic_proxy::PROTOCOL_VERSION;

fn handshake(next: hs::NextState) -> hs::Packet {
    hs::Packet::Handshake(hs::Handshake {
        protocol_version: PROTOCOL_VERSION as u32,
        server_address: McString::new(b"example".to_vec()).unwrap(),
        server_port: 25565,
        next_state: next,
    })
}

fn encode_packet_bytes(encode: impl FnOnce(&mut Encoder)) -> Vec<u8> {
    let mut enc = Encoder::new();
    encode(&mut enc);
    enc.into_bytes()
}

#[test]
fn handshake_packet_round_trips() {
    let bytes = encode_packet_bytes(|e| handshake(hs::NextState::Status).encode(e));
    // Discriminant 0, VarInt 765, string "example", port, next = 1.
    assert_eq!(bytes[0], 0x00);
    let mut dec = Decoder::new(&bytes);
    let back = hs::Packet::decode(&mut dec).unwrap();
    let hs::Packet::Handshake(h) = back;
    assert_eq!(h.protocol_version, 765);
    assert_eq!(h.server_address.as_bytes().as_slice(), b"example");
    assert_eq!(h.server_port, 25565);
    assert_eq!(h.next_state, hs::NextState::Status);
}

#[test]
fn handshake_rejects_unknown_next_state() {
    let mut enc = Encoder::new();
    enc.write_var_int(0x00);
    enc.write_var_int(765);
    let s = McString::new(b"a".to_vec()).unwrap();
    enc.write_string(&s);
    enc.write_u16(1);
    enc.write_var_int(3);
    let bytes = enc.into_bytes();
    let mut dec = Decoder::new(&bytes);
    assert!(hs::Packet::decode(&mut dec).is_err());
}

#[test]
fn play_packets_round_trip_bytewise() {
    let packets = vec![
        sp::Packet::KeepAlive(sp::KeepAlive { ignored_data: vec![1, 2, 3, 4, 5, 6, 7, 8] }),
        sp::Packet::UnloadChunk(sp::UnloadChunk { chunk_z: -7, chunk_x: 12 }),
        sp::Packet::SetEntityVelocity(sp::SetEntityVelocity {
            entity_id: 300,
            velocity_x: -1,
            velocity_y: 0,
            velocity_z: 1,
        }),
        sp::Packet::RemoveEntities(sp::RemoveEntities { entities: vec![1, -2, 300] }),
        sp::Packet::UpdateEntityPositionAndRotation(sp::UpdateEntityPositionAndRotation {
            entity_id: 7,
            delta_x: 4096,
            delta_y: -1,
            delta_z: 0,
            yaw: 100,
            pitch: 200,
            on_ground: true,
        }),
        sp::Packet::UpdateSectionBlocks(sp::UpdateSectionBlocks {
            chunk_section_position: (5i64 << 42) | (3i64 << 20) | 4,
            ignored_data: vec![9, 9],
        }),
    ];
    for p in packets {
        let bytes = encode_packet_bytes(|e| p.encode(e));
        let mut dec = Decoder::new(&bytes);
        let back = sp::Packet::decode(&mut dec).unwrap();
        let rebytes = encode_packet_bytes(|e| back.encode(e));
        assert_eq!(bytes, rebytes);
    }
}

#[test]
fn unknown_play_discriminant_is_rejected() {
    let mut enc = Encoder::new();
    enc.write_var_int(0x75);
    let bytes = enc.into_bytes();
    let mut dec = Decoder::new(&bytes);
    assert!(sp::Packet::decode(&mut dec).is_err());
}

#[test]
fn control_messages_round_trip() {
    let connect = ClientMessage::ConnectTo(ConnectTo {
        authentication_key: McString::new(b"sesame".to_vec()).unwrap(),
        destination_server: SocketAddress::V4([127, 0, 0, 1], 25565),
    });
    let framed = encode_client_message(&connect);
    let (body, consumed) = split_control_frame(&framed).unwrap().unwrap();
    assert_eq!(consumed, framed.len());
    match decode_client_message(&body).unwrap() {
        ClientMessage::ConnectTo(c) => {
            assert_eq!(c.authentication_key.as_bytes().as_slice(), b"sesame");
            match c.destination_server {
                SocketAddress::V4(ip, port) => {
                    assert_eq!(ip, [127, 0, 0, 1]);
                    assert_eq!(port, 25565);
                },
                other => panic!("wrong address: {:?}", other),
            }
        },
        other => panic!("wrong message: {:?}", other),
    }

    let enable = ClientMessage::EnableTerminalEncryption(EnableTerminalEncryption {
        key: [9u8; 16],
    });
    let framed = encode_client_message(&enable);
    let (body, _) = split_control_frame(&framed).unwrap().unwrap();
    match decode_client_message(&body).unwrap() {
        ClientMessage::EnableTerminalEncryption(e) => assert_eq!(e.key, [9u8; 16]),
        other => panic!("wrong message: {:?}", other),
    }

    for ack in [
        GatewayMessage::AcknowledgeConnectTo,
        GatewayMessage::AcknowledgeEnableTerminalEncryption,
        GatewayMessage::AcknowledgeTransitionPlayToConfig,
    ] {
        let framed = encode_gateway_message(&ack);
        let (body, _) = split_control_frame(&framed).unwrap().unwrap();
        assert_eq!(decode_gateway_message(&body).unwrap(), ack);
    }
}

#[test]
fn control_frames_arrive_in_pieces() {
    let framed = encode_gateway_message(&GatewayMessage::AcknowledgeConnectTo);
    assert!(split_control_frame(&framed[..3]).unwrap().is_none());
    assert!(split_control_frame(&framed[..4]).unwrap().is_none());
    assert!(split_control_frame(&framed).unwrap().is_some());
}

#[test]
fn plaintext_credentials_compare_directly() {
    let key = AuthenticationKey::classify(b"open sesame".to_vec());
    assert!(matches!(key, AuthenticationKey::Plaintext(_)));
    assert!(key.is_correct(b"open sesame"));
    assert!(!key.is_correct(b"wrong"));
}

#[test]
fn hashed_credentials_verify_with_argon2() {
    // Hash the password "sesame" with the default Argon2id parameters,
    // then hand the PHC string to the gateway as its credential.
    let salt = argon2::password_hash::SaltString::encode_b64(b"a test salt").unwrap();
    let phc = argon2::password_hash::PasswordHasher::hash_password(
        &argon2::Argon2::default(),
        b"sesame",
        &salt,
    )
    .unwrap()
    .to_string();
    let key = AuthenticationKey::classify(phc.into_bytes());
    assert!(matches!(key, AuthenticationKey::Hashed(_)));
    assert!(key.is_correct(b"sesame"));
    assert!(!key.is_correct(b"not sesame"));
}

#[test]
fn status_handshake_scenario() {
    // Handshake{protocol=765, addr="example", port=25565, next=Status},
    // then StatusRequest, then PingRequest{payload=0x0123456789ABCDEF}.
    let mut session = SessionState::new();
    session.on_handshake(&handshake(hs::NextState::Status));
    assert_eq!(session.stage(), ProtocolStage::Status);

    // Both status packets survive the native framing verbatim.
    let mut sender = VanillaCodec::new();
    let mut receiver = VanillaCodec::new();
    let ping = cs::Packet::PingRequest(cs::PingRequest {
        ignored_data: 0x0123456789ABCDEFu64.to_be_bytes().to_vec(),
    });
    let request = cs::Packet::StatusRequest(cs::StatusRequest { ignored_data: vec![] });
    for p in [request, ping] {
        let payload = encode_packet_bytes(|e| p.encode(e));
        let wire = sender.encode_packet(&payload).unwrap();
        receiver.give_data(&wire);
        let got = receiver.decode_packet().unwrap().unwrap();
        assert_eq!(got, payload);
    }
}

#[test]
fn offline_login_scenario() {
    // Handshake{next=Login}, LoginStart, LoginAcknowledged, with no
    // SetCompression and no EncryptionRequest from the server: the
    // session reaches Configuration with neither switch thrown.
    let mut session = SessionState::new();
    session.on_handshake(&handshake(hs::NextState::Login));
    assert_eq!(session.stage(), ProtocolStage::Login);
    let start = cl::Packet::LoginStart(cl::LoginStart { ignored_data: vec![] });
    assert_eq!(
        session.on_client_login_packet(&start),
        SessionAction::Continue
    );
    let success = sl::Packet::LoginSuccess(sl::LoginSuccess { ignored_data: vec![] });
    assert_eq!(
        session.on_server_login_packet(&success),
        SessionAction::Continue
    );
    let ack = cl::Packet::LoginAcknowledged(cl::LoginAcknowledged { ignored_data: vec![] });
    assert_eq!(session.on_client_login_packet(&ack), SessionAction::Continue);
    assert_eq!(session.stage(), ProtocolStage::Configuration);
}

#[test]
fn online_login_scenario() {
    // The client's EncryptionResponse calls for the terminal key; once
    // the host supplies [0; 16], the gateway-side codec enciphers the
    // TCP bytes.
    let mut session = SessionState::new();
    session.on_handshake(&handshake(hs::NextState::Login));
    let response = cl::Packet::EncryptionResponse(cl::EncryptionResponse {
        ignored_data: vec![],
    });
    assert_eq!(
        session.on_client_login_packet(&response),
        SessionAction::AwaitEncryptionKey
    );
    session.on_encryption_enabled();

    let key = minecraft_quic_proxy::vanilla_codec::EncryptionKey::new([0u8; 16]);
    let mut gateway_side = VanillaCodec::new();
    gateway_side.enable_encryption(&key);
    let mut server_side = VanillaCodec::new();
    server_side.enable_encryption(&minecraft_quic_proxy::vanilla_codec::EncryptionKey::new(
        [0u8; 16],
    ));
    let payload = b"\x02login payload".to_vec();
    let wire = gateway_side.encode_packet(&payload).unwrap();
    assert_ne!(&wire[1..], &payload[..]);
    server_side.give_data(&wire);
    assert_eq!(server_side.decode_packet().unwrap().unwrap(), payload);
}

#[test]
fn compression_negotiation_scenario() {
    // SetCompression{threshold=256} during Login: afterwards a 300-byte
    // PluginMessage crosses the TCP side zlib-framed and round-trips.
    let mut session = SessionState::new();
    session.on_handshake(&handshake(hs::NextState::Login));
    let set = sl::Packet::SetCompression(sl::SetCompression { threshold: 256 });
    let threshold = match session.on_server_login_packet(&set) {
        SessionAction::EnableCompression(t) => t,
        other => panic!("expected a compression switch, got {:?}", other),
    };
    assert_eq!(threshold.value(), 256);

    let mut sender = VanillaCodec::new();
    sender.enable_compression(threshold);
    let mut receiver = VanillaCodec::new();
    receiver.enable_compression(threshold);
    let plugin = sp::Packet::PluginMessage(sp::PluginMessage { ignored_data: vec![6u8; 300] });
    let payload = encode_packet_bytes(|e| plugin.encode(e));
    assert!(payload.len() >= 256);
    let wire = sender.encode_packet(&payload).unwrap();
    receiver.give_data(&wire);
    assert_eq!(receiver.decode_packet().unwrap().unwrap(), payload);
}

#[test]
fn mid_session_configuration_reentry_scenario() {
    // During Play, a client-side AcknowledgeConfiguration returns the
    // session to Configuration; FinishConfiguration re-enters Play.
    let mut session = SessionState::new();
    session.on_handshake(&handshake(hs::NextState::Login));
    let ack = cl::Packet::LoginAcknowledged(cl::LoginAcknowledged { ignored_data: vec![] });
    session.on_client_login_packet(&ack);
    let finish = cc::Packet::FinishConfiguration(cc::FinishConfiguration {
        ignored_data: vec![],
    });
    session.on_client_configuration_packet(&finish);
    assert_eq!(session.stage(), ProtocolStage::Play);

    let reenter = cp::Packet::AcknowledgeConfiguration(cp::AcknowledgeConfiguration {
        ignored_data: vec![],
    });
    assert_eq!(
        session.on_client_play_packet(&reenter),
        SessionAction::ReenterConfiguration
    );
    assert_eq!(session.stage(), ProtocolStage::Configuration);
    session.on_client_configuration_packet(&finish);
    assert_eq!(session.stage(), ProtocolStage::Play);
}

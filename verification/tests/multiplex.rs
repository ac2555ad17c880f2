//! The multiplexing layers: sequenced datagrams, the stream
//! allocation policy, and the relative-motion translator.

use minecraft_quic_proxy::allocator::{Allocation, StreamAllocator, StreamId};
use minecraft_quic_proxy::entity_id::EntityId;
use minecraft_quic_proxy::packet::server::play as sp;
use minecraft_quic_proxy::sequence::{
    decode_datagram, encode_datagram, SequenceKey, SequenceTable,
};
use minecraft_quic_proxy::stream_priority;
use minecraft_quic_proxy::translator::{PacketTranslator, Translation};

#[test]
fn sequence_drops_stale_ordinals() {
    // Ordinals sent 0..4 but arriving as 0, 2, 1, 3: the stale 1 is
    // dropped, the rest are delivered.
    let mut table = SequenceTable::new();
    let key = SequenceKey::EntityPosition(EntityId::new(7));
    let mut delivered = Vec::new();
    for ordinal in [0u64, 2, 1, 3] {
        if table.receive_packet(key, ordinal) {
            delivered.push(ordinal);
        }
    }
    assert_eq!(delivered, vec![0, 2, 3]);
}

#[test]
fn sequences_are_independent() {
    let mut table = SequenceTable::new();
    let a = SequenceKey::EntityPosition(EntityId::new(1));
    let b = SequenceKey::EntityPosition(EntityId::new(2));
    assert!(table.receive_packet(a, 5));
    // A stale drop on key A...
    assert!(!table.receive_packet(a, 2));
    // ...never affects delivery on key B, which still accepts from 0.
    assert!(table.receive_packet(b, 0));
    assert!(table.receive_packet(b, 1));
}

#[test]
fn send_ordinals_count_up_per_key() {
    let mut table = SequenceTable::new();
    let a = SequenceKey::EntityVelocity(EntityId::new(9));
    let b = SequenceKey::ThePlayerPosition;
    assert_eq!(table.next_send_ordinal(a), 0);
    assert_eq!(table.next_send_ordinal(a), 1);
    assert_eq!(table.next_send_ordinal(b), 0);
    assert_eq!(table.next_send_ordinal(a), 2);
}

#[test]
fn datagrams_round_trip() {
    let key = SequenceKey::EntityVelocity(EntityId::new(-3));
    let body = vec![0x58u8, 1, 2, 3];
    let wire = encode_datagram(key, 41, &body);
    let (k, ordinal, got) = decode_datagram(&wire).unwrap();
    assert_eq!(k, key);
    assert_eq!(ordinal, 41);
    assert_eq!(got, body);
}

fn keep_alive() -> sp::Packet {
    sp::Packet::KeepAlive(sp::KeepAlive { ignored_data: vec![0; 8] })
}

fn chat_message() -> sp::Packet {
    sp::Packet::SystemChatMessage(sp::SystemChatMessage { ignored_data: vec![1, 2] })
}

fn entity_event(id: i32) -> sp::Packet {
    sp::Packet::EntityEvent(sp::EntityEvent { entity_id: id, ignored_data: vec![4] })
}

fn motion(id: i32) -> sp::Packet {
    sp::Packet::UpdateEntityPosition(sp::UpdateEntityPosition {
        entity_id: id,
        delta_x: 1,
        delta_y: 0,
        delta_z: 0,
        on_ground: true,
    })
}

#[test]
fn same_entity_keeps_the_same_stream() {
    let mut alloc = StreamAllocator::new();
    let first = alloc.allocate_stream_for_server(&entity_event(12));
    let second = alloc.allocate_stream_for_server(&sp::Packet::HurtAnimation(
        sp::HurtAnimation { entity_id: 12, ignored_data: vec![] },
    ));
    assert_eq!(first, second);
    assert_eq!(first, Allocation::Stream(StreamId::Entity(12, 0)));
    // After idle eviction the entity gets a new stream identity.
    alloc.evict_entity_stream(12);
    let third = alloc.allocate_stream_for_server(&entity_event(12));
    assert_ne!(first, third);
}

#[test]
fn chat_and_keepalives_never_share_streams() {
    let mut alloc = StreamAllocator::new();
    let chat = alloc.allocate_stream_for_server(&chat_message());
    let ka1 = alloc.allocate_stream_for_server(&keep_alive());
    let ka2 = alloc.allocate_stream_for_server(&keep_alive());
    let misc = alloc.allocate_stream_for_server(&sp::Packet::GameEvent(sp::GameEvent {
        ignored_data: vec![],
    }));
    assert_eq!(chat, Allocation::Stream(StreamId::Chat));
    // Each keep-alive gets its own one-shot stream, shared with nothing.
    assert_ne!(ka1, ka2);
    assert_ne!(ka1, chat);
    assert_ne!(ka1, misc);
    assert_eq!(misc, Allocation::Stream(StreamId::Misc));
}

#[test]
fn motion_always_goes_to_a_sequence() {
    let mut alloc = StreamAllocator::new();
    let m = alloc.allocate_stream_for_server(&motion(5));
    assert_eq!(
        m,
        Allocation::UnreliableSequence(SequenceKey::EntityPosition(EntityId::new(5)))
    );
    let v = alloc.allocate_stream_for_server(&sp::Packet::SetEntityVelocity(
        sp::SetEntityVelocity {
            entity_id: 5,
            velocity_x: 1,
            velocity_y: 2,
            velocity_z: 3,
        },
    ));
    assert_eq!(
        v,
        Allocation::UnreliableSequence(SequenceKey::EntityVelocity(EntityId::new(5)))
    );
}

#[test]
fn singleton_remove_entities_uses_the_entity_stream() {
    let mut alloc = StreamAllocator::new();
    let one = alloc.allocate_stream_for_server(&sp::Packet::RemoveEntities(
        sp::RemoveEntities { entities: vec![4] },
    ));
    assert_eq!(one, Allocation::Stream(StreamId::Entity(4, 0)));
    let many = alloc.allocate_stream_for_server(&sp::Packet::RemoveEntities(
        sp::RemoveEntities { entities: vec![4, 5] },
    ));
    assert_eq!(many, Allocation::Stream(StreamId::Misc));
}

#[test]
fn stream_priorities_rank_keepalives_first() {
    assert_eq!(stream_priority::priority_of(StreamId::Fresh(0)), 10);
    assert_eq!(stream_priority::priority_of(StreamId::Entity(1, 0)), 7);
    assert_eq!(stream_priority::priority_of(StreamId::Chat), 6);
    assert_eq!(stream_priority::priority_of(StreamId::Misc), 5);
    assert_eq!(stream_priority::priority_of(StreamId::Chunks), 0);
}

fn spawn(id: i32, x: f64, y: f64, z: f64) -> sp::Packet {
    sp::Packet::SpawnEntity(sp::SpawnEntity {
        entity_id: id,
        uuid: 0,
        kind: 1,
        x_bits: x.to_bits(),
        y_bits: y.to_bits(),
        z_bits: z.to_bits(),
        pitch: 0,
        yaw: 0,
        head_yaw: 0,
        data: 0,
        velocity_x: 0,
        velocity_y: 0,
        velocity_z: 0,
    })
}

fn delta(id: i32, dx: i16, dy: i16, dz: i16) -> sp::Packet {
    sp::Packet::UpdateEntityPosition(sp::UpdateEntityPosition {
        entity_id: id,
        delta_x: dx,
        delta_y: dy,
        delta_z: dz,
        on_ground: true,
    })
}

#[test]
fn relative_updates_become_absolute_teleports() {
    // Spawn at (0, 64, 0); a full-block step east is dx = 4096.
    let mut tr = PacketTranslator::new();
    assert!(matches!(
        tr.translate_packet(&spawn(7, 0.0, 64.0, 0.0)),
        Translation::Forward
    ));
    match tr.translate_packet(&delta(7, 4096, 0, 0)) {
        Translation::Replace(sp::Packet::TeleportEntity(t)) => {
            assert_eq!(t.entity_id, 7);
            assert_eq!(f64::from_bits(t.x_bits), 1.0);
            assert_eq!(f64::from_bits(t.y_bits), 64.0);
            assert_eq!(f64::from_bits(t.z_bits), 0.0);
        },
        other => panic!("expected a teleport, got {:?}", other),
    }
    // Deltas accumulate: another half block gives x = 1.5.
    match tr.translate_packet(&delta(7, 2048, 0, 0)) {
        Translation::Replace(sp::Packet::TeleportEntity(t)) => {
            assert_eq!(f64::from_bits(t.x_bits), 1.5);
        },
        other => panic!("expected a teleport, got {:?}", other),
    }
}

#[test]
fn removed_entities_drop_their_updates() {
    let mut tr = PacketTranslator::new();
    tr.translate_packet(&spawn(7, 0.0, 64.0, 0.0));
    tr.translate_packet(&sp::Packet::RemoveEntities(sp::RemoveEntities {
        entities: vec![7],
    }));
    // The next relative update for the removed entity is dropped: no
    // teleport is emitted and nothing is forwarded.
    assert!(matches!(
        tr.translate_packet(&delta(7, 4096, 0, 0)),
        Translation::Drop
    ));
    assert!(tr.entity_position(7).is_none());
}

#[test]
fn respawn_clears_all_entities() {
    let mut tr = PacketTranslator::new();
    tr.translate_packet(&spawn(1, 0.0, 0.0, 0.0));
    tr.translate_packet(&spawn(2, 8.0, 8.0, 8.0));
    tr.translate_packet(&sp::Packet::Respawn(sp::Respawn { ignored_data: vec![] }));
    assert!(tr.entity_position(1).is_none());
    assert!(tr.entity_position(2).is_none());
    assert!(matches!(
        tr.translate_packet(&delta(1, 1, 0, 0)),
        Translation::Drop
    ));
}

#[test]
fn rotation_updates_carry_into_teleports() {
    let mut tr = PacketTranslator::new();
    tr.translate_packet(&spawn(3, 0.0, 0.0, 0.0));
    let moved = tr.translate_packet(&sp::Packet::UpdateEntityPositionAndRotation(
        sp::UpdateEntityPositionAndRotation {
            entity_id: 3,
            delta_x: 0,
            delta_y: 4096,
            delta_z: 0,
            yaw: 64,
            pitch: 32,
            on_ground: false,
        },
    ));
    match moved {
        Translation::Replace(sp::Packet::TeleportEntity(t)) => {
            assert_eq!(t.yaw, 64);
            assert_eq!(t.pitch, 32);
            assert_eq!(f64::from_bits(t.y_bits), 1.0);
            assert!(!t.on_ground);
        },
        other => panic!("expected a teleport, got {:?}", other),
    }
}

#[test]
fn unknown_coordinates_forget_the_entity() {
    let mut tr = PacketTranslator::new();
    tr.translate_packet(&spawn(4, f64::NAN, 0.0, 0.0));
    assert!(tr.entity_position(4).is_none());
    assert!(matches!(
        tr.translate_packet(&delta(4, 1, 0, 0)),
        Translation::Drop
    ));
}

#[test]
fn recorded_positions_use_the_fixed_grid() {
    let mut tr = PacketTranslator::new();
    tr.translate_packet(&spawn(9, 2.5, -3.25, 100.0));
    let st = tr.entity_position(9).unwrap();
    assert_eq!(st.x, 2 * 4096 + 2048);
    assert_eq!(st.y, -(3 * 4096 + 1024));
    assert_eq!(st.z, 100 * 4096);
}

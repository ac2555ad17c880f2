//! Core logic of a proxy that carries the Minecraft protocol (version 765)
//! over QUIC: framing primitives, the packet catalog, the two framing
//! codecs, the control-stream protocol, sequenced-datagram bookkeeping,
//! the stream-allocation policy, the relative-motion translator and the
//! protocol state machine.
//!
//! Network I/O, TLS and task plumbing live outside this crate; everything
//! here is pure logic over bytes and plain values, with contracts.

pub mod error;
pub mod wire;
pub mod encoder;
pub mod decoder;
pub mod text;
pub mod angle;
pub mod position;
pub mod entity_id;
pub mod fields;
pub mod packet;
pub mod fixed;
pub mod translator;
pub mod sequence;
pub mod allocator;
pub mod stream_priority;
pub mod cipher;
pub mod compress;
pub mod vanilla_codec;
pub mod optimized_codec;
pub mod control;
pub mod session;

use vstd::prelude::*;

verus! {

/// Protocol version carried in the Handshake packet (Minecraft 1.20.4).
pub const PROTOCOL_VERSION: i32 = 765;

/// Upper bound on frame and payload sizes, to resist memory-exhaustion
/// attacks: one mebibyte.
pub const BUFFER_LIMIT: usize = 1048576;

} // verus!

//! The packet catalog: one tagged union per (side, state)
//! pair, each variant carrying either the typed fields the
//! multiplexer inspects or an opaque byte payload.

pub mod client;
pub mod server;

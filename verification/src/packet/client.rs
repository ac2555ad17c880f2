//! Packets sent by the game client.

pub mod handshake;
pub mod status;
pub mod login;
pub mod configuration;
pub mod play;

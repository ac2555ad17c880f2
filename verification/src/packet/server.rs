//! Packets sent by the game server.

pub mod status;
pub mod login;
pub mod configuration;
pub mod play;

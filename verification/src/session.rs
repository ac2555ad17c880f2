//! The protocol state machine, run symmetrically on both peers.
//!
//! A session starts in Handshake; the one Handshake packet selects
//! Status or Login. During Login the peers watch the traffic: a
//! server-side `SetCompression` turns compression on, a client-side
//! `EncryptionResponse` calls for the terminal key, and the client's
//! `LoginAcknowledged` moves the session to Configuration. The
//! client's `FinishConfiguration` moves it to Play, and a client-side
//! `AcknowledgeConfiguration` during Play moves it back to
//! Configuration. The loop around the sockets performs the actions;
//! this module decides them.

use vstd::prelude::*;
use crate::packet::client;
use crate::packet::client::handshake::NextState;
use crate::packet::server;
use crate::vanilla_codec::CompressionThreshold;

verus! {

/// The protocol state a session is in.
#[derive(Copy, Clone, Debug, PartialEq, Eq, Structural)]
pub enum ProtocolStage {
    Handshake,
    Status,
    Login,
    Configuration,
    Play,
}

/// What a peer must do after seeing one packet.
#[derive(Copy, Clone, Debug, PartialEq, Eq, Structural)]
pub enum SessionAction {
    /// Keep proxying.
    Continue,
    /// Enable compression on the server-side native codec at the given
    /// threshold.
    EnableCompression(CompressionThreshold),
    /// Wait for the terminal encryption key, then enable encryption
    /// and acknowledge it on the control stream.
    AwaitEncryptionKey,
    /// Re-enter the Configuration state and acknowledge the transition
    /// on the control stream.
    ReenterConfiguration,
}

/// Tracks the protocol stage and the one-shot codec switches of a
/// session.
pub struct SessionState {
    stage: ProtocolStage,
    compression_enabled: bool,
    encryption_enabled: bool,
}

impl SessionState {
    /// The stage the session is in.
    pub closed spec fn spec_stage(&self) -> ProtocolStage {
        self.stage
    }

    /// Whether compression has been negotiated.
    pub closed spec fn spec_compression(&self) -> bool {
        self.compression_enabled
    }

    /// Whether terminal encryption has been enabled.
    pub closed spec fn spec_encryption(&self) -> bool {
        self.encryption_enabled
    }

    /// The stage the session is in.
    pub fn stage(&self) -> (r: ProtocolStage)
        ensures
            r == self.spec_stage(),
    {
        self.stage
    }

    /// A fresh session: in Handshake, nothing negotiated.
    pub fn new() -> (r: SessionState)
        ensures
            r.spec_stage() == ProtocolStage::Handshake,
            !r.spec_compression(),
            !r.spec_encryption(),
    {
        SessionState {
            stage: ProtocolStage::Handshake,
            compression_enabled: false,
            encryption_enabled: false,
        }
    }

    /// The one Handshake packet selects the next stage.
    pub fn on_handshake(&mut self, packet: &client::handshake::Packet)
        requires
            old(self).spec_stage() == ProtocolStage::Handshake,
        ensures
            final(self).spec_stage() == match packet {
                client::handshake::Packet::Handshake(h) => match h.next_state {
                    NextState::Status => ProtocolStage::Status,
                    NextState::Login => ProtocolStage::Login,
                },
            },
            final(self).spec_compression() == old(self).spec_compression(),
            final(self).spec_encryption() == old(self).spec_encryption(),
    {
        match packet {
            client::handshake::Packet::Handshake(h) => {
                self.stage = match h.next_state {
                    NextState::Status => ProtocolStage::Status,
                    NextState::Login => ProtocolStage::Login,
                };
            },
        }
    }

    /// A client-to-server Login packet: `LoginAcknowledged` finishes
    /// Login, `EncryptionResponse` calls for the terminal key,
    /// anything else proxies on.
    pub fn on_client_login_packet(&mut self, packet: &client::login::Packet) -> (r: SessionAction)
        requires
            old(self).spec_stage() == ProtocolStage::Login,
        ensures
            final(self).spec_compression() == old(self).spec_compression(),
            final(self).spec_encryption() == old(self).spec_encryption(),
            match packet {
                client::login::Packet::LoginAcknowledged(_) => r == SessionAction::Continue
                    && final(self).spec_stage() == ProtocolStage::Configuration,
                client::login::Packet::EncryptionResponse(_) => r
                    == SessionAction::AwaitEncryptionKey && final(self).spec_stage()
                    == ProtocolStage::Login,
                _ => r == SessionAction::Continue && final(self).spec_stage()
                    == ProtocolStage::Login,
            },
    {
        match packet {
            client::login::Packet::LoginAcknowledged(_) => {
                self.stage = ProtocolStage::Configuration;
                SessionAction::Continue
            },
            client::login::Packet::EncryptionResponse(_) => SessionAction::AwaitEncryptionKey,
            _ => SessionAction::Continue,
        }
    }

    /// A server-to-client Login packet: `SetCompression` with a
    /// positive threshold turns compression on, once; anything else
    /// proxies on.
    pub fn on_server_login_packet(&mut self, packet: &server::login::Packet) -> (r: SessionAction)
        requires
            old(self).spec_stage() == ProtocolStage::Login,
        ensures
            final(self).spec_stage() == old(self).spec_stage(),
            final(self).spec_encryption() == old(self).spec_encryption(),
            match packet {
                server::login::Packet::SetCompression(p) => if p.threshold >= 1 && !old(
                    self,
                ).spec_compression() {
                    &&& (r matches SessionAction::EnableCompression(t) && t.spec_value()
                        == p.threshold)
                    &&& final(self).spec_compression()
                } else {
                    r == SessionAction::Continue && final(self).spec_compression() == old(
                        self,
                    ).spec_compression()
                },
                _ => r == SessionAction::Continue && final(self).spec_compression() == old(
                    self,
                ).spec_compression(),
            },
    {
        match packet {
            server::login::Packet::SetCompression(p) => {
                if p.threshold >= 1 && !self.compression_enabled {
                    self.compression_enabled = true;
                    SessionAction::EnableCompression(CompressionThreshold::new(
                        p.threshold as usize,
                    ))
                } else {
                    SessionAction::Continue
                }
            },
            _ => SessionAction::Continue,
        }
    }

    /// The host delivered the terminal key and encryption is now on.
    /// One-shot: a second delivery is a programming error, kept out by
    /// the precondition.
    pub fn on_encryption_enabled(&mut self)
        requires
            !old(self).spec_encryption(),
        ensures
            final(self).spec_encryption(),
            final(self).spec_stage() == old(self).spec_stage(),
            final(self).spec_compression() == old(self).spec_compression(),
    {
        self.encryption_enabled = true;
    }

    /// A client-to-server Configuration packet: `FinishConfiguration`
    /// enters Play.
    pub fn on_client_configuration_packet(&mut self, packet: &client::configuration::Packet)
        requires
            old(self).spec_stage() == ProtocolStage::Configuration,
        ensures
            final(self).spec_compression() == old(self).spec_compression(),
            final(self).spec_encryption() == old(self).spec_encryption(),
            final(self).spec_stage() == match packet {
                client::configuration::Packet::FinishConfiguration(_) => ProtocolStage::Play,
                _ => ProtocolStage::Configuration,
            },
    {
        match packet {
            client::configuration::Packet::FinishConfiguration(_) => {
                self.stage = ProtocolStage::Play;
            },
            _ => {},
        }
    }

    /// A client-to-server Play packet: `AcknowledgeConfiguration`
    /// re-enters Configuration, to be acknowledged on the control
    /// stream; anything else proxies on.
    pub fn on_client_play_packet(&mut self, packet: &client::play::Packet) -> (r: SessionAction)
        requires
            old(self).spec_stage() == ProtocolStage::Play,
        ensures
            final(self).spec_compression() == old(self).spec_compression(),
            final(self).spec_encryption() == old(self).spec_encryption(),
            match packet {
                client::play::Packet::AcknowledgeConfiguration(_) => r
                    == SessionAction::ReenterConfiguration && final(self).spec_stage()
                    == ProtocolStage::Configuration,
                _ => r == SessionAction::Continue && final(self).spec_stage()
                    == ProtocolStage::Play,
            },
    {
        match packet {
            client::play::Packet::AcknowledgeConfiguration(_) => {
                self.stage = ProtocolStage::Configuration;
                SessionAction::ReenterConfiguration
            },
            _ => SessionAction::Continue,
        }
    }
}

} // verus!

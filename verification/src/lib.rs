//! Core of a WebRTC peer-connection runtime: typed transport and connection
//! state enumerations, the codec registry and fuzzy matcher, transceiver
//! codec-preference negotiation, ICE candidate modelling, and the aggregate
//! connection state machine.

use vstd::prelude::*;

pub mod codec_negotiation;
pub mod connection_state;
pub mod dtls_transport_state;
pub mod error;
pub mod fmtp;
pub mod ice_candidate;
pub mod ice_gathering_state;
pub mod ice_transport_state;
pub mod media_engine;
pub mod negotiation;
pub mod peer_connection_state;
pub mod rtp_codec;
pub mod rtp_transceiver;
pub mod strutil;

verus! {

/// Canonical token rendered for every `Unspecified` enum variant.
pub const UNSPECIFIED_STR: &'static str = "Unspecified";

} // verus!

//! Lifecycle controller for a real-time audio client.
//!
//! The crate revolves around a tri-state client state machine
//! (`Inactive`, `Active`, `Transitioning`) that owns the single
//! audio-server client handle and decides when port topology may be
//! mutated.  All server effects are expressed as an explicit
//! request/reply protocol, so the decision logic is verified for every
//! possible server outcome; a thin unverified driver performs the real
//! calls against the audio server.

pub mod callbacks;
pub mod engine;
pub mod ops;
pub mod protocol;
pub mod server;
pub mod types;

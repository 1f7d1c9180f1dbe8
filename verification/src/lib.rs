//! Play-completion detection and score recording for an osu! companion.
//!
//! The library watches the telemetry that a local game-state server streams,
//! decides when a play has ended, and drives the single write of its score
//! into the store. Every decision is a verified function; the socket and the
//! database stay with the caller, which performs the actions that the
//! [`session::Session`] asks for and hands back what happened.

pub mod text;
pub mod state;
pub mod number;
pub mod json;
pub mod snapshot;
pub mod classifier;
pub mod timestamp;
pub mod store;
pub mod recorder;
pub mod session;
pub mod trace;
pub mod endpoint;

//! Bridges a live game-telemetry feed to a physical feedback device.
//!
//! Raw telemetry documents are decoded into [`state::GameState`] snapshots,
//! successive snapshots are diffed by [`translate::Translator`] into wire
//! [`state::Command`]s, and each command is encoded by [`codec`] into the
//! fixed binary protocol the device firmware expects. [`session`] holds the
//! reconnect state machine shared by the two link-owning loops.

pub mod codec;
pub mod decode;
pub mod session;
pub mod sink;
pub mod state;
pub mod translate;

pub use state::Command;
pub use state::DecodeError;
pub use state::GameState;

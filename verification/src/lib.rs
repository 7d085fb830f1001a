//! Per-guild audio playback orchestration: voice sessions with ordered play
//! queues, automatic advancement on track completion, and named, persisted
//! playlists whose edits are gated by a time-bounded confirmation vote.
//!
//! The crate holds the decision logic only. Network resolution of a query
//! into a playable source, the voice transport, and the chat gateway are
//! collaborators: a driver performs those effects and hands plain values
//! (events, resolved tracks) back to the functions here.

pub mod confirm;
pub mod errors;
pub mod model;
pub mod queue;
pub mod resolver;
pub mod session;
pub mod shuffle;
pub mod store;
pub mod utils;

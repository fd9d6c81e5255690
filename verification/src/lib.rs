//! Core of a real-time state-synchronization relay for a multiplayer session.
//!
//! The library holds the verified heart of the server: the player registry
//! (`GameState`), the bounded lossy broadcast hub (`BroadcastHub`), and the
//! per-connection session state machine (`session`). Transport, encoding and
//! task plumbing live outside the library and hand it plain values.

pub mod game_state;
pub mod hub;
pub mod session;
pub mod types;

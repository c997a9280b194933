//! Lobby rendezvous relay: the lobby registry, the per-lobby client table,
//! the fan-out channels, and the host/client protocol decisions that route
//! signaling envelopes between a host and its clients.
pub mod appstate;
pub mod key;
pub mod lobby;
pub mod message;
pub mod protocol;
pub mod relay;

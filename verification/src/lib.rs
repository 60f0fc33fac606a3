//! Core of a WebSocket-to-TCP relay: the per-session pairing of one
//! WebSocket endpoint with one TCP endpoint, the two directional byte
//! copiers, and the coordinated single-fire shutdown of both directions.
//!
//! The surrounding service (listener, routing, dialing, the actual I/O
//! loops) drives these state machines event by event; everything the relay
//! decides — what to forward, when to stop, how the session lifecycle
//! advances — is verified here.

mod history;
mod listener;
mod model;
mod relay;
mod signal;

pub use history::concat_payloads;
pub use history::forwarded_messages;
pub use history::lemma_concat_len;
pub use history::lemma_concat_push;
pub use history::lemma_forwarded_push;
pub use history::lemma_forwarding_exact;
pub use listener::Listener;
pub use model::RelayModel;
pub use model::SessionState;
pub use model::lemma_downstream_exact;
pub use model::lemma_drain_bounded_by_one_read;
pub use model::lemma_drain_bounded_by_one_write;
pub use model::lemma_drain_after_downstream_exit;
pub use model::lemma_drain_after_upstream_exit;
pub use model::lemma_failure_isolation;
pub use model::lemma_shutdown_idempotent;
pub use model::lemma_upstream_exact;
pub use relay::DownstreamAction;
pub use relay::Relay;
pub use relay::WsMessage;
pub use signal::ShutdownSignal;
pub use signal::lemma_fire_idempotent;

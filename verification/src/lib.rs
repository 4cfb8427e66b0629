//! Adapter core for running a multiaddr-based peer-to-peer framework over a
//! QUIC endpoint library with its own identity and connection model.
//!
//! The crate holds the verified heart of the adapter: identity and address
//! translation, the per-substream half-close state machine, the multiplexed
//! connection's accept/open/close state machine with its one-byte handshake,
//! and the transport facade's listener and event-queue state machine. The
//! asynchronous shell that drives these machines against the real endpoint
//! lives outside the verified library.

pub mod identity;
pub mod address;
pub mod stream;
pub mod connection;
pub mod transport;

//! A pull-based generator: a computation body emits values through a yielder,
//! and a consumer retrieves them one at a time, in emission order, through a
//! fused pull interface. A handshake counter bounds the producer to at most one
//! value ahead of the consumer's requests, and an ordered delivery channel
//! carries the values. The coordination protocol is verified here over a
//! sequential model of the two sides; the thread-backed deployment drives the
//! same protocol.

pub mod channel;
pub mod generator;
pub mod handshake;
pub mod rendezvous;

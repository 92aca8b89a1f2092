//! A node runtime for a message-passing distributed-systems test harness.
//!
//! The crate provides the pieces a node process is built from: the message
//! envelope model and the handshake that assigns a node its identity, a
//! monotonic message-identifier generator, line-delimited byte framing for
//! the transport, keyed stores shared with the concurrent handlers, and the
//! gossip-based broadcast service that converges all nodes on a common value
//! set. The hosting process supplies the byte streams, the task scheduler and
//! the JSON value codec; everything that decides or computes lives here.

pub mod broadcast;
pub mod counter;
pub mod echo;
pub mod error;
pub mod framing;
pub mod message;
pub mod node;
pub mod stores;
pub mod unique_ids;

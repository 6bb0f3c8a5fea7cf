//! Core of a blockchain node's peer-to-peer layer.
//!
//! - `chunk_cache`: gathers the erasure-coded parts and receipts of chunks
//!   that arrive out of order, indexes incomplete chunks by previous block,
//!   and drops chunks that fall behind the height horizon.
//! - `peer_actor`: the per-connection state machine (handshake, encoding,
//!   duplicate and rate filters, routing of received messages), with
//!   `dispatch` deciding which client handles what, `tracker` recording the
//!   blocks exchanged, and `routed_cache` remembering recent routed messages.
//! - `frame`, `rate`, `connection_pool`: length-prefixed framing, the token
//!   bucket that limits inbound bytes, and admission of connections.
//! - `protocol`, `primitives`, `events`: the data exchanged and reported.

pub mod primitives;
pub mod clock;
pub mod chunk_cache;
pub mod routed_cache;
pub mod protocol;
pub mod dispatch;
pub mod events;
pub mod tracker;
pub mod peer_actor;
pub mod frame;
pub mod rate;
pub mod connection_pool;

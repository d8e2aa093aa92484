//! Media-transport core of a real-time communication peer.
//!
//! The library binds a local media source to a negotiated network stream,
//! enforces a one-shot send / idempotent stop lifecycle, and wires each
//! stream through a pluggable transform chain before packets reach an
//! encrypted transport.  Supporting value types cover transceiver
//! directions, the wire form of the priority attribute, and long-term
//! credential derivation.

pub mod auth;
pub mod direction;
pub mod errors;
pub mod priority;
pub mod sender;
pub mod stream;
pub mod track;

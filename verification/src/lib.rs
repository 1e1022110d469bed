//! Connection-admission and protocol-demultiplexing core of a UDP relay
//! server.
//!
//! The library owns the logic that decides what happens to every datagram a
//! relay server receives: admission of new transport sessions (stateless
//! retry tokens, deterministic session-id derivation), the per-session table
//! with its garbage collection, the per-session sub-protocol state machine,
//! and the defensive parser for the out-of-band client indication message.
//! The transport protocol itself (packet framing, encryption, retransmission)
//! is out of scope and is treated as an opaque transport session driven by
//! the surrounding event loop.

pub mod admission;
pub mod codec;
pub mod indication;
pub mod qlog;
pub mod session;
pub mod session_id;
pub mod table;
pub mod token;

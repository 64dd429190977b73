//! Core of a realtime chatroom relay: a registry of rooms, each with its
//! member set and its broadcast channel, the texts that travel on the wire,
//! and the decisions that drive one connection through its handshake and
//! its two pumps.

pub mod text;
pub mod broadcast;
pub mod registry;
pub mod session;
pub mod laws;
pub mod paging;
pub mod notify;

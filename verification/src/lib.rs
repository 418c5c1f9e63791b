//! Verified core of a small MMO client and server: the wire encoding of
//! ping messages, the client's connection life cycle, the server's reply
//! rule and its registries of listeners and connections.

pub mod binary;
pub mod ping;
pub mod listeners;
pub mod message;
pub mod connections;
pub mod client;

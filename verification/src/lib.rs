//! The core of a SOCKS5 relay, as functions on plain values: the wire codec,
//! the address resolver, the handshake negotiator and the relay engine.
//!
//! Nothing here reads or writes a socket. The negotiator and the copy loops
//! say what is to be done next; a driver does it and reports what came of
//! it.

pub mod address;
pub mod decimal;
pub mod error;
pub mod negotiator;
pub mod relay;
pub mod text;
pub mod wire;

//! The core of a SOCKS5 proxy relay, free of I/O.
//!
//! The crate holds the wire format (addresses, greetings, requests, replies),
//! the per-connection negotiation as a step function, and the decisions that
//! follow a negotiated request. A driver owns the sockets: it reads and writes
//! what the steps ask for and hands the bytes it read back in.

pub mod server;
pub mod socks5;
pub mod tcpman;

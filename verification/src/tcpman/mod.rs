//! The messages of a second way in, the "tcpman" transport: a client asks for
//! a TCP or UDP flow to a named host and may send the first bytes along.

pub mod client;

pub use self::client::{BlankConnection, EstablishedConnection};

use vstd::prelude::*;

verus! {

/// What a client asks of the far end.
#[derive(Clone, Debug, PartialEq, Eq)]
pub enum Request {
    Tcp { addr: String, port: u16, initial_data: Option<Vec<u8>> },
    Udp { addr: String, port: u16, initial_data: Vec<u8> },
}

} // verus!

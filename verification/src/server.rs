//! What a proxy does with a negotiated request: the decisions between the
//! negotiation, the upstream connection and the relay.
//!
//! The driver performs the action it is given and comes back with what
//! happened. It connects and relays; nothing here does.

use crate::socks5::acceptor::{failure_reply, success_reply, Acceptor};
use crate::socks5::address::Address;
use crate::socks5::error::ProtocolError;
use crate::socks5::request::{Command, Request};
use crate::socks5::status::{ConnectError, FailStatus};
use vstd::prelude::*;

verus! {

/// What the driver of a connection does next.
#[derive(Debug)]
pub enum Action<S> {
    /// Connect to the address and port of the request, then call
    /// [`on_upstream`] with the session given here and the outcome.
    Dial(Acceptor<S>),
    /// Write the reply to the client. If that succeeds, relay between the
    /// client's stream and the upstream connection until either side ends;
    /// if it fails, give the connection up.
    Relay(S, Vec<u8>),
    /// Write the reply to the client as well as that goes, then close. The
    /// status is the one the reply reports.
    Reject(S, Vec<u8>, FailStatus),
    /// Close without a reply.
    Abort(ProtocolError),
}

/// Takes up a negotiated request.
///
/// Only a connect request is served. Any other is answered with "command not
/// supported", and no upstream connection is attempted.
pub fn on_request<S>(request: &Request, acceptor: Acceptor<S>) -> (action: Action<S>)
    ensures
        match action {
            Action::Dial(a) => request@.command == Command::Connect && a == acceptor,
            Action::Reject(stream, reply, status) => {
                &&& request@.command != Command::Connect
                &&& status == FailStatus::CommandNotSupported
                &&& stream == acceptor@.stream
                &&& reply@ == failure_reply(status, acceptor@.is_v6)
            },
            _ => false,
        },
{
    match request.command() {
        Command::Connect => Action::Dial(acceptor),
        _ => {
            let status: FailStatus = FailStatus::CommandNotSupported;
            let (stream, reply) = acceptor.reply_failure(status);
            Action::Reject(stream, reply, status)
        },
    }
}

/// Takes up the outcome of the attempt to connect upstream.
///
/// A connection gets the success reply with the address and port it is bound
/// to, and is then relayed. A failure is classified and reported to the
/// client in a failure reply.
pub fn on_upstream<S>(acceptor: Acceptor<S>, outcome: Result<(Address, u16), ConnectError>) -> (action:
    Action<S>)
    ensures
        match outcome {
            Ok((bound, port)) => if bound@.wf() {
                &&& action matches Action::Relay(stream, reply)
                &&& stream == acceptor@.stream
                &&& reply@ == success_reply(bound@, port)
            } else {
                action == Action::<S>::Abort(ProtocolError::DomainTooLong)
            },
            Err(error) => {
                &&& action matches Action::Reject(stream, reply, status)
                &&& status == FailStatus::spec_classify(error)
                &&& stream == acceptor@.stream
                &&& reply@ == failure_reply(status, acceptor@.is_v6)
            },
        },
{
    match outcome {
        Ok((bound, port)) => match acceptor.reply_success(&bound, port) {
            Ok((stream, reply)) => Action::Relay(stream, reply),
            Err(e) => Action::Abort(e),
        },
        Err(error) => {
            let status: FailStatus = error.into();
            let (stream, reply) = acceptor.reply_failure(status);
            Action::Reject(stream, reply, status)
        },
    }
}

} // verus!

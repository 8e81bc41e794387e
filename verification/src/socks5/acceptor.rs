//! The acceptor: the negotiation of one client connection, and the reply that
//! ends it.
//!
//! Nothing here reads or writes a socket. [`Acceptor::accept`] is one step of
//! the negotiation: it takes the bytes the driver has just read and says what
//! the driver does next. The stream passes through every step untouched, and
//! the acceptor that a finished negotiation gives holds it until the one reply
//! is made.

use super::address::{Address, AddressView, MAX_ADDRESS_LEN};
use super::buffer::{be16, put_slice, put_u16};
use super::error::{ParseError, ProtocolError};
use super::greeting::{
    greeting_wire, lemma_greeting_round_trip, spec_parse_greeting, Greeting, NO_AUTH,
    SOCKS_VERSION,
};
use super::request::{
    lemma_parse_request_exact, lemma_request_round_trip, request_wire, spec_parse_request,
    Request, RequestView,
};
use super::status::{FailStatus, STATUS_SUCCEEDED};
use vstd::prelude::*;
use vstd::slice::slice_subrange;

verus! {

/// A negotiation that is not finished: the bytes received so far, and whether
/// the greeting has been answered.
#[derive(Debug)]
pub struct Pending {
    received: Vec<u8>,
    greeted: bool,
}

/// What a [`Pending`] stands for.
pub struct PendingView {
    pub received: Seq<u8>,
    pub greeted: bool,
}

impl View for Pending {
    type V = PendingView;

    closed spec fn view(&self) -> PendingView {
        PendingView { received: self.received@, greeted: self.greeted }
    }
}

/// A negotiated session. It holds the client's stream and remembers whether
/// the request named an IPv6 address. It is used up by the one reply that
/// answers the request, which gives the stream back.
#[derive(Debug)]
pub struct Acceptor<S> {
    stream: S,
    is_v6: bool,
}

/// What an [`Acceptor`] stands for.
pub struct AcceptorView<S> {
    pub stream: S,
    pub is_v6: bool,
}

impl<S> View for Acceptor<S> {
    type V = AcceptorView<S>;

    closed spec fn view(&self) -> AcceptorView<S> {
        AcceptorView { stream: self.stream, is_v6: self.is_v6 }
    }
}

/// What the driver of a negotiation does next.
#[derive(Debug)]
pub enum Step<S> {
    /// Read exactly this many bytes from the client, then call
    /// [`Acceptor::accept`] with them and with the stream and state given
    /// here.
    Read(S, Pending, usize),
    /// Write these bytes to the client, then call [`Acceptor::accept`] with no
    /// bytes and with the stream and state given here.
    Write(S, Pending, Vec<u8>),
    /// The negotiation is over: the client's request, and the session that
    /// answers it.
    Accepted(Request, Acceptor<S>),
    /// The client broke the protocol. No reply is due; the stream is dropped.
    Refused(ProtocolError),
}

/// The step that follows from the bytes received, without the values that
/// travel with it.
pub enum Next {
    Read(usize),
    Write,
    Accepted(RequestView),
    Refused(ProtocolError),
}

/// The answer to a greeting: version 5, method "no authentication".
pub open spec fn method_selection() -> Seq<u8> {
    seq![SOCKS_VERSION, NO_AUTH]
}

/// The step that follows once `received` has come in from the client.
///
/// The greeting comes first. It must offer "no authentication", at any place
/// among its methods. Once it is whole it is answered, and the request
/// follows it.
pub open spec fn spec_next(greeted: bool, received: Seq<u8>) -> Next {
    match spec_parse_greeting(received) {
        Err(ParseError::Incomplete(n)) => Next::Read(n),
        Err(ParseError::Invalid(e)) => Next::Refused(e),
        Ok((methods, used)) => {
            if !methods.contains(NO_AUTH) {
                Next::Refused(ProtocolError::UnsupportedAuth)
            } else if !greeted {
                Next::Write
            } else {
                match spec_parse_request(received.subrange(used as int, received.len() as int)) {
                    Err(ParseError::Incomplete(n)) => Next::Read(n),
                    Err(ParseError::Invalid(e)) => Next::Refused(e),
                    Ok((request, _)) => Next::Accepted(request),
                }
            }
        },
    }
}

/// The number of bytes in `received` that lie past the end of the request;
/// 0 as long as the request is not whole.
pub open spec fn spec_surplus(received: Seq<u8>) -> nat {
    match spec_parse_greeting(received) {
        Ok((_, used)) => match spec_parse_request(
            received.subrange(used as int, received.len() as int),
        ) {
            Ok((_, taken)) => (received.len() - used - taken) as nat,
            Err(_) => 0,
        },
        Err(_) => 0,
    }
}

/// A reply: version, status, a reserved zero, an address and a port.
pub open spec fn spec_reply(status: u8, address: AddressView, port: u16) -> Seq<u8> {
    seq![SOCKS_VERSION, status, 0u8] + address.wire() + be16(port)
}

/// The reply to a request that was satisfied, with the address and port that
/// the upstream connection is bound to.
pub open spec fn success_reply(bound: AddressView, port: u16) -> Seq<u8> {
    spec_reply(STATUS_SUCCEEDED, bound, port)
}

/// The reply to a request that failed: the status, the unspecified address of
/// the request's family, and port 0.
pub open spec fn failure_reply(status: FailStatus, v6: bool) -> Seq<u8> {
    spec_reply(status.spec_code(), AddressView::unspecified(v6), 0)
}

fn encode_reply(status: u8, address: &Address, port: u16) -> (reply: Vec<u8>)
    requires
        address@.wf(),
    ensures
        reply@ == spec_reply(status, address@, port),
{
    let mut reply: Vec<u8> = Vec::with_capacity(3 + MAX_ADDRESS_LEN + 2);
    let head: [u8; 3] = [SOCKS_VERSION, status, 0];
    put_slice(&mut reply, head.as_slice());
    let _ = address.write(&mut reply);
    put_u16(&mut reply, port);
    assert(reply@ =~= spec_reply(status, address@, port));
    reply
}

impl Pending {
    /// A negotiation of which nothing has happened yet.
    pub fn new() -> (pending: Pending)
        ensures
            pending@ == (PendingView { received: Seq::empty(), greeted: false }),
    {
        Pending { received: Vec::new(), greeted: false }
    }
}

impl<S> Acceptor<S> {
    /// One step of the negotiation.
    ///
    /// `bytes` are the bytes read from the client since the step before; the
    /// first step takes none. The result follows from all bytes received so
    /// far: a protocol violation refuses the client as soon as the byte that
    /// shows it is in; a whole greeting that offers "no authentication" is
    /// answered once; a whole request after that ends the negotiation; and
    /// until then the step asks for the bytes that the next field takes.
    pub fn accept(stream: S, pending: Pending, bytes: &[u8]) -> (step: Step<S>)
        ensures
            ({
                let greeted = pending@.greeted;
                let received = pending@.received + bytes@;
                match step {
                    Step::Read(s, p, n) => {
                        &&& spec_next(greeted, received) == Next::Read(n)
                        &&& s == stream
                        &&& p@ == (PendingView { received, greeted })
                    },
                    Step::Write(s, p, reply) => {
                        &&& spec_next(greeted, received) == Next::Write
                        &&& s == stream
                        &&& p@ == (PendingView { received, greeted: true })
                        &&& reply@ == method_selection()
                    },
                    Step::Accepted(request, acceptor) => {
                        &&& spec_next(greeted, received) == Next::Accepted(request@)
                        &&& acceptor@ == (AcceptorView {
                            stream,
                            is_v6: request@.address.is_v6(),
                        })
                    },
                    Step::Refused(e) => spec_next(greeted, received) == Next::Refused(e),
                }
            }),
    {
        let mut state = pending;
        state.received.extend_from_slice(bytes);
        assert(state.received@ =~= pending@.received + bytes@);
        let received: &[u8] = state.received.as_slice();
        match Greeting::parse(received) {
            Err(ParseError::Incomplete(n)) => Step::Read(stream, state, n),
            Err(ParseError::Invalid(e)) => Step::Refused(e),
            Ok((greeting, used)) => {
                if !greeting.offers(NO_AUTH) {
                    Step::Refused(ProtocolError::UnsupportedAuth)
                } else if !state.greeted {
                    state.greeted = true;
                    let reply: Vec<u8> = vec![SOCKS_VERSION, NO_AUTH];
                    assert(reply@ =~= method_selection());
                    Step::Write(stream, state, reply)
                } else {
                    match Request::parse(slice_subrange(received, used, received.len())) {
                        Err(ParseError::Incomplete(n)) => Step::Read(stream, state, n),
                        Err(ParseError::Invalid(e)) => Step::Refused(e),
                        Ok((request, _)) => {
                            let is_v6: bool = request.address().is_v6();
                            Step::Accepted(request, Acceptor { stream, is_v6 })
                        },
                    }
                }
            },
        }
    }

    /// Whether the request named an IPv6 address.
    pub fn is_v6(&self) -> (v6: bool)
        ensures
            v6 == self@.is_v6,
    {
        self.is_v6
    }

    /// Ends the session with success: gives the stream back, and the reply to
    /// write to it before any relayed byte.
    ///
    /// The reply reports the address and port that the upstream connection is
    /// bound to. A domain name of more than 255 bytes cannot be reported; the
    /// session then ends without a reply.
    pub fn reply_success(self, bound: &Address, port: u16) -> (r: Result<
        (S, Vec<u8>),
        ProtocolError,
    >)
        ensures
            match r {
                Ok((stream, reply)) => {
                    &&& bound@.wf()
                    &&& stream == self@.stream
                    &&& reply@ == success_reply(bound@, port)
                },
                Err(e) => !bound@.wf() && e == ProtocolError::DomainTooLong,
            },
    {
        match self.reply(None, Some(bound), Some(port)) {
            Ok(reply) => Ok((self.stream, reply)),
            Err(e) => Err(e),
        }
    }

    /// Ends the session with a failure: gives the stream back, and the reply
    /// to write to it before it is closed.
    ///
    /// The reply carries the status, the unspecified address of the family
    /// that the request named, and port 0.
    pub fn reply_failure(self, status: FailStatus) -> (r: (S, Vec<u8>))
        ensures
            r.0 == self@.stream,
            r.1@ == failure_reply(status, self@.is_v6),
    {
        match self.reply(Some(status), None, None) {
            Ok(reply) => (self.stream, reply),
            Err(_) => (self.stream, Vec::new()),
        }
    }

    /// The bytes of a reply. No status stands for success, no address for the
    /// unspecified address of the session's family, no port for port 0.
    fn reply(&self, status: Option<FailStatus>, bound: Option<&Address>, port: Option<u16>) -> (r:
        Result<Vec<u8>, ProtocolError>)
        ensures
            ({
                let code = match status {
                    Some(s) => s.spec_code(),
                    None => STATUS_SUCCEEDED,
                };
                let address = match bound {
                    Some(a) => a@,
                    None => AddressView::unspecified(self@.is_v6),
                };
                let number = match port {
                    Some(p) => p,
                    None => 0u16,
                };
                match r {
                    Ok(reply) => address.wf() && reply@ == spec_reply(code, address, number),
                    Err(e) => !address.wf() && e == ProtocolError::DomainTooLong,
                }
            }),
    {
        let code: u8 = match status {
            Some(s) => s.into(),
            None => STATUS_SUCCEEDED,
        };
        let number: u16 = match port {
            Some(p) => p,
            None => 0,
        };
        match bound {
            Some(address) => {
                if address.encodable() {
                    Ok(encode_reply(code, address, number))
                } else {
                    Err(ProtocolError::DomainTooLong)
                }
            },
            None => {
                let address: Address = Address::default(self.is_v6);
                Ok(encode_reply(code, &address, number))
            },
        }
    }
}

/// Whatever the status, a failure reply to a session that named an IPv6
/// address carries the 16 zero octets of `::`, any other the 4 zero octets of
/// `0.0.0.0`; the port that ends it is always `0x0000`.
pub proof fn lemma_failure_reply_shape(status: FailStatus, v6: bool)
    ensures
        v6 ==> failure_reply(status, v6) == seq![SOCKS_VERSION, status.spec_code(), 0u8, 4u8]
            + Seq::new(16, |i: int| 0u8) + seq![0u8, 0u8],
        !v6 ==> failure_reply(status, v6) == seq![SOCKS_VERSION, status.spec_code(), 0u8, 1u8]
            + Seq::new(4, |i: int| 0u8) + seq![0u8, 0u8],
        failure_reply(status, v6).len() == if v6 { 22nat } else { 10nat },
{
    if v6 {
        assert(failure_reply(status, v6) =~= seq![SOCKS_VERSION, status.spec_code(), 0u8, 4u8]
            + Seq::new(16, |i: int| 0u8) + seq![0u8, 0u8]);
    } else {
        assert(failure_reply(status, v6) =~= seq![SOCKS_VERSION, status.spec_code(), 0u8, 1u8]
            + Seq::new(4, |i: int| 0u8) + seq![0u8, 0u8]);
    }
}

/// A greeting is answered exactly when it offers "no authentication", at
/// whatever place among its methods; any other greeting is refused.
pub proof fn lemma_greeting_needs_no_auth(methods: Seq<u8>)
    requires
        methods.len() <= 255,
    ensures
        spec_next(false, greeting_wire(methods)) == if methods.contains(NO_AUTH) {
            Next::Write
        } else {
            Next::Refused(ProtocolError::UnsupportedAuth)
        },
{
    lemma_greeting_round_trip(methods, Seq::empty());
    assert(greeting_wire(methods) + Seq::<u8>::empty() =~= greeting_wire(methods));
}

/// A greeting that offers "no authentication", once answered, and a request
/// after it end the negotiation with that request.
pub proof fn lemma_negotiation_accepts(methods: Seq<u8>, request: RequestView)
    requires
        methods.len() <= 255,
        methods.contains(NO_AUTH),
        request.address.wf(),
    ensures
        spec_next(true, greeting_wire(methods) + request_wire(request)) == Next::Accepted(request),
        spec_surplus(greeting_wire(methods) + request_wire(request)) == 0,
{
    let received = greeting_wire(methods) + request_wire(request);
    lemma_greeting_round_trip(methods, request_wire(request));
    let used = 2 + methods.len() as int;
    assert(received.subrange(used, received.len() as int) =~= request_wire(request));
    lemma_request_round_trip(request, Seq::empty());
    assert(request_wire(request) + Seq::<u8>::empty() =~= request_wire(request));
}

/// A driver that reads exactly what each step asks for never takes a byte
/// that follows the request: when the step is `Read(n)` and `n` bytes arrive,
/// nothing received lies past the end of the request.
pub proof fn lemma_reads_are_exact(greeted: bool, received: Seq<u8>, more: Seq<u8>)
    requires
        spec_next(greeted, received) == Next::Read(more.len() as usize),
        more.len() <= usize::MAX,
    ensures
        spec_surplus(received + more) == 0,
{
    let all = received + more;
    match spec_parse_greeting(received) {
        Ok((_, used)) => {
            assert(all[0] == received[0]);
            assert(all[1] == received[1]);
            assert(all.subrange(2, 2 + all[1]) =~= received.subrange(2, 2 + received[1]));
            let tail = received.subrange(used as int, received.len() as int);
            assert(all.subrange(used as int, all.len() as int) =~= tail + more);
            lemma_parse_request_exact(tail, more);
        },
        Err(_) => {
            if received.len() >= 1 {
                assert(all[0] == received[0]);
            }
            if received.len() >= 2 {
                assert(all[1] == received[1]);
            }
        },
    }
}

} // verus!

//! The request: the message in which a client names a command and a
//! destination.

use super::address::{
    lemma_address_round_trip, lemma_parse_address_exact, lemma_parse_address_stable,
    spec_parse_address, Address, AddressView,
};
use super::buffer::be16;
use super::error::{ParseError, ProtocolError};
use super::greeting::SOCKS_VERSION;
use vstd::prelude::*;
use vstd::slice::slice_subrange;

verus! {

/// Command byte of a connect request.
pub const CMD_CONNECT: u8 = 0x01;

/// Command byte of a bind request.
pub const CMD_BIND: u8 = 0x02;

/// Command byte of a UDP associate request.
pub const CMD_UDP_ASSOCIATE: u8 = 0x03;

/// What a request asks for.
#[derive(Clone, Copy, Debug, PartialEq, Eq, Structural)]
pub enum Command {
    Connect,
    Bind,
    UdpAssociate,
}

/// A client's request: a command, with the address and port it is about.
#[derive(Clone, Debug, PartialEq, Eq)]
pub enum Request {
    Connect(Address, u16),
    Bind(Address, u16),
    UdpAssociate(Address, u16),
}

/// What a [`Request`] stands for.
pub struct RequestView {
    pub command: Command,
    pub address: AddressView,
    pub port: u16,
}

impl View for Request {
    type V = RequestView;

    open spec fn view(&self) -> RequestView {
        match *self {
            Request::Connect(address, port) => RequestView {
                command: Command::Connect,
                address: address@,
                port,
            },
            Request::Bind(address, port) => RequestView {
                command: Command::Bind,
                address: address@,
                port,
            },
            Request::UdpAssociate(address, port) => RequestView {
                command: Command::UdpAssociate,
                address: address@,
                port,
            },
        }
    }
}

impl Command {
    /// The command that a byte on the wire stands for, if it stands for one.
    pub open spec fn spec_from_code(code: u8) -> Option<Command> {
        if code == CMD_CONNECT {
            Some(Command::Connect)
        } else if code == CMD_BIND {
            Some(Command::Bind)
        } else if code == CMD_UDP_ASSOCIATE {
            Some(Command::UdpAssociate)
        } else {
            None
        }
    }

    /// The command byte on the wire.
    pub open spec fn spec_code(self) -> u8 {
        match self {
            Command::Connect => CMD_CONNECT,
            Command::Bind => CMD_BIND,
            Command::UdpAssociate => CMD_UDP_ASSOCIATE,
        }
    }

    /// The command that a byte on the wire stands for; `None` for every byte
    /// but `0x01`, `0x02` and `0x03`.
    pub fn from_code(code: u8) -> (command: Option<Command>)
        ensures
            command == Command::spec_from_code(code),
    {
        if code == CMD_CONNECT {
            Some(Command::Connect)
        } else if code == CMD_BIND {
            Some(Command::Bind)
        } else if code == CMD_UDP_ASSOCIATE {
            Some(Command::UdpAssociate)
        } else {
            None
        }
    }
}

/// The port that two bytes in network order stand for.
pub open spec fn spec_port(high: u8, low: u8) -> u16 {
    (high * 256 + low) as u16
}

/// The request that `s` starts with and the number of bytes it takes.
///
/// The fields are taken in order: the version byte, which must be `0x05`; the
/// command byte, which must name a command; one reserved byte, whatever it
/// holds; the address; two bytes of port. Input that ends inside a field is
/// `Incomplete` by what that field still lacks.
pub open spec fn spec_parse_request(s: Seq<u8>) -> Result<(RequestView, nat), ParseError> {
    if s.len() < 1 {
        Err(ParseError::Incomplete(1))
    } else if s[0] != SOCKS_VERSION {
        Err(ParseError::Invalid(ProtocolError::InvalidVersion))
    } else if s.len() < 2 {
        Err(ParseError::Incomplete(1))
    } else if Command::spec_from_code(s[1]) is None {
        Err(ParseError::Invalid(ProtocolError::UnsupportedCommand))
    } else if s.len() < 3 {
        Err(ParseError::Incomplete(1))
    } else {
        match spec_parse_address(s.subrange(3, s.len() as int)) {
            Err(e) => Err(e),
            Ok((address, used)) => {
                if s.len() < 3 + used + 2 {
                    Err(ParseError::Incomplete((3 + used + 2 - s.len()) as usize))
                } else {
                    Ok(
                        (
                            RequestView {
                                command: Command::spec_from_code(s[1])->Some_0,
                                address,
                                port: spec_port(s[3 + used as int], s[3 + used as int + 1]),
                            },
                            (3 + used + 2) as nat,
                        ),
                    )
                }
            },
        }
    }
}

/// A request as a client sends it: version, command, a reserved zero, the
/// address, and the port in network order.
pub open spec fn request_wire(request: RequestView) -> Seq<u8> {
    seq![SOCKS_VERSION, request.command.spec_code(), 0u8] + request.address.wire() + be16(
        request.port,
    )
}

impl Request {
    /// Puts a command, an address and a port together.
    pub fn new(command: Command, address: Address, port: u16) -> (request: Request)
        ensures
            request@ == (RequestView { command, address: address@, port }),
    {
        match command {
            Command::Connect => Request::Connect(address, port),
            Command::Bind => Request::Bind(address, port),
            Command::UdpAssociate => Request::UdpAssociate(address, port),
        }
    }

    /// What the request asks for.
    pub fn command(&self) -> (command: Command)
        ensures
            command == self@.command,
    {
        match self {
            Request::Connect(_, _) => Command::Connect,
            Request::Bind(_, _) => Command::Bind,
            Request::UdpAssociate(_, _) => Command::UdpAssociate,
        }
    }

    /// The address the request is about.
    pub fn address(&self) -> (address: &Address)
        ensures
            address@ == self@.address,
    {
        match self {
            Request::Connect(address, _) => address,
            Request::Bind(address, _) => address,
            Request::UdpAssociate(address, _) => address,
        }
    }

    /// The port the request is about.
    pub fn port(&self) -> (port: u16)
        ensures
            port == self@.port,
    {
        match self {
            Request::Connect(_, port) => *port,
            Request::Bind(_, port) => *port,
            Request::UdpAssociate(_, port) => *port,
        }
    }

    /// Reads the request that `input` starts with, and says how many bytes
    /// it takes. Bytes after the request are not looked at.
    pub fn parse(input: &[u8]) -> (r: Result<(Request, usize), ParseError>)
        ensures
            match r {
                Ok((request, used)) => spec_parse_request(input@) == Ok::<
                    (RequestView, nat),
                    ParseError,
                >((request@, used as nat)),
                Err(e) => spec_parse_request(input@) == Err::<(RequestView, nat), ParseError>(e),
            },
    {
        let len: usize = input.len();
        if len < 1 {
            return Err(ParseError::Incomplete(1));
        }
        if input[0] != SOCKS_VERSION {
            return Err(ParseError::Invalid(ProtocolError::InvalidVersion));
        }
        if len < 2 {
            return Err(ParseError::Incomplete(1));
        }
        let command: Command = match Command::from_code(input[1]) {
            Some(command) => command,
            None => {
                return Err(ParseError::Invalid(ProtocolError::UnsupportedCommand));
            },
        };
        if len < 3 {
            return Err(ParseError::Incomplete(1));
        }
        match Address::parse(slice_subrange(input, 3, len)) {
            Err(e) => Err(e),
            Ok((address, used)) => {
                let end: usize = 3 + used + 2;
                if len < end {
                    return Err(ParseError::Incomplete(end - len));
                }
                let high: u8 = input[3 + used];
                let low: u8 = input[3 + used + 1];
                let port: u16 = high as u16 * 256 + low as u16;
                Ok((Request::new(command, address, port), end))
            },
        }
    }
}

/// A request is read back as the command, address and port it was made of,
/// whatever follows it.
pub proof fn lemma_request_round_trip(request: RequestView, rest: Seq<u8>)
    requires
        request.address.wf(),
    ensures
        spec_parse_request(request_wire(request) + rest) == Ok::<(RequestView, nat), ParseError>(
            (request, request_wire(request).len()),
        ),
{
    let s = request_wire(request) + rest;
    let address = request.address.wire();
    let used = address.len() as int;
    let tail = be16(request.port) + rest;
    assert(s.subrange(3, s.len() as int) =~= address + tail);
    lemma_address_round_trip(request.address, tail);
    assert(s[3 + used] == be16(request.port)[0]);
    assert(s[3 + used + 1] == be16(request.port)[1]);
}

/// Reading exactly what is missing never reads too far: when the input is
/// `Incomplete` by `n` and `n` bytes arrive, a request that is then whole
/// ends where the input ends.
pub proof fn lemma_parse_request_exact(s: Seq<u8>, more: Seq<u8>)
    requires
        spec_parse_request(s) == Err::<(RequestView, nat), ParseError>(
            ParseError::Incomplete(more.len() as usize),
        ),
        more.len() <= usize::MAX,
    ensures
        spec_parse_request(s + more) matches Ok((_, used)) ==> used == (s + more).len(),
{
    let t = s + more;
    if s.len() >= 1 {
        assert(t[0] == s[0]);
    }
    if s.len() >= 2 {
        assert(t[1] == s[1]);
    }
    if s.len() >= 3 {
        let head = s.subrange(3, s.len() as int);
        assert(t.subrange(3, t.len() as int) =~= head + more);
        if spec_parse_address(head) is Ok {
            lemma_parse_address_stable(head, more);
        } else {
            lemma_parse_address_exact(head, more);
        }
    }
}

} // verus!

//! The three address encodings: IPv4, IPv6 and domain name.

use super::buffer::{put_slice, put_u8};
use super::error::{ParseError, ProtocolError};
use vstd::prelude::*;
use vstd::slice::{slice_subrange, slice_to_vec};
use vstd::utf8::{
    decode_utf8, encode_utf8, encode_utf8_decode_utf8, encode_utf8_valid_utf8, valid_utf8,
};

verus! {

/// Address type byte of an IPv4 address.
pub const ATYP_IPV4: u8 = 0x01;

/// Address type byte of a domain name.
pub const ATYP_DOMAIN: u8 = 0x03;

/// Address type byte of an IPv6 address.
pub const ATYP_IPV6: u8 = 0x04;

/// The longest domain name, in bytes, whose length fits the one length byte.
pub const MAX_DOMAIN_LEN: usize = 255;

/// The most bytes an encoded address takes: type, length and 255 name bytes.
pub const MAX_ADDRESS_LEN: usize = 257;

/// An IP address as its octets in network order.
#[derive(Clone, Copy, Debug, PartialEq, Eq)]
pub enum IpAddr {
    V4([u8; 4]),
    V6([u8; 16]),
}

/// The destination of a request, or the address a reply reports.
#[derive(Clone, Debug, PartialEq, Eq)]
pub enum Address {
    IP(IpAddr),
    Domain(String),
}

/// What an [`Address`] stands for: the octets of an IP address, or the
/// characters of a domain name.
pub enum AddressView {
    V4(Seq<u8>),
    V6(Seq<u8>),
    Domain(Seq<char>),
}

impl AddressView {
    /// The address can be encoded: an IP address has its 4 or 16 octets, and
    /// a domain name takes at most 255 bytes of UTF-8.
    pub open spec fn wf(self) -> bool {
        match self {
            AddressView::V4(octets) => octets.len() == 4,
            AddressView::V6(octets) => octets.len() == 16,
            AddressView::Domain(name) => encode_utf8(name).len() <= MAX_DOMAIN_LEN,
        }
    }

    pub open spec fn is_v6(self) -> bool {
        self is V6
    }

    /// The encoding: the type byte, then the octets; for a domain name the
    /// type byte, one length byte and the name in UTF-8.
    pub open spec fn wire(self) -> Seq<u8> {
        match self {
            AddressView::V4(octets) => seq![ATYP_IPV4] + octets,
            AddressView::V6(octets) => seq![ATYP_IPV6] + octets,
            AddressView::Domain(name) => seq![ATYP_DOMAIN, encode_utf8(name).len() as u8]
                + encode_utf8(name),
        }
    }

    /// The unspecified address of a family: `0.0.0.0`, or `::`.
    pub open spec fn unspecified(v6: bool) -> AddressView {
        if v6 {
            AddressView::V6(Seq::new(16, |i: int| 0u8))
        } else {
            AddressView::V4(Seq::new(4, |i: int| 0u8))
        }
    }
}

impl View for Address {
    type V = AddressView;

    open spec fn view(&self) -> AddressView {
        match *self {
            Address::IP(IpAddr::V4(octets)) => AddressView::V4(octets@),
            Address::IP(IpAddr::V6(octets)) => AddressView::V6(octets@),
            Address::Domain(name) => AddressView::Domain(name@),
        }
    }
}

/// The address that `s` starts with and the number of bytes it takes.
///
/// The fields are taken in order: the type byte; for a domain name the length
/// byte; then the octets or the name. Input that ends inside a field is
/// `Incomplete` by what that field still lacks.
pub open spec fn spec_parse_address(s: Seq<u8>) -> Result<(AddressView, nat), ParseError> {
    if s.len() < 1 {
        Err(ParseError::Incomplete(1))
    } else if s[0] == ATYP_IPV4 {
        if s.len() < 5 {
            Err(ParseError::Incomplete((5 - s.len()) as usize))
        } else {
            Ok((AddressView::V4(s.subrange(1, 5)), 5))
        }
    } else if s[0] == ATYP_IPV6 {
        if s.len() < 17 {
            Err(ParseError::Incomplete((17 - s.len()) as usize))
        } else {
            Ok((AddressView::V6(s.subrange(1, 17)), 17))
        }
    } else if s[0] == ATYP_DOMAIN {
        if s.len() < 2 {
            Err(ParseError::Incomplete(1))
        } else if s.len() < 2 + s[1] {
            Err(ParseError::Incomplete((2 + s[1] - s.len()) as usize))
        } else if valid_utf8(s.subrange(2, 2 + s[1])) {
            Ok((AddressView::Domain(decode_utf8(s.subrange(2, 2 + s[1]))), (2 + s[1]) as nat))
        } else {
            Err(ParseError::Invalid(ProtocolError::InvalidDomain))
        }
    } else {
        Err(ParseError::Invalid(ProtocolError::UnsupportedAddressType))
    }
}

fn octets4(input: &[u8], at: usize) -> (octets: [u8; 4])
    requires
        at + 4 <= input@.len(),
    ensures
        octets@ == input@.subrange(at as int, at + 4),
{
    let octets: [u8; 4] = [input[at], input[at + 1], input[at + 2], input[at + 3]];
    assert(octets@ =~= input@.subrange(at as int, at + 4));
    octets
}

fn octets16(input: &[u8], at: usize) -> (octets: [u8; 16])
    requires
        at + 16 <= input@.len(),
    ensures
        octets@ == input@.subrange(at as int, at + 16),
{
    let octets: [u8; 16] = [
        input[at],
        input[at + 1],
        input[at + 2],
        input[at + 3],
        input[at + 4],
        input[at + 5],
        input[at + 6],
        input[at + 7],
        input[at + 8],
        input[at + 9],
        input[at + 10],
        input[at + 11],
        input[at + 12],
        input[at + 13],
        input[at + 14],
        input[at + 15],
    ];
    assert(octets@ =~= input@.subrange(at as int, at + 16));
    octets
}

impl Address {
    /// The unspecified address of a family. A reply that has no bound address
    /// to report carries it.
    pub fn default(v6: bool) -> (address: Address)
        ensures
            address@ == AddressView::unspecified(v6),
    {
        if v6 {
            let octets: [u8; 16] = [0u8; 16];
            assert(octets@ =~= Seq::new(16, |i: int| 0u8));
            Address::IP(IpAddr::V6(octets))
        } else {
            let octets: [u8; 4] = [0u8; 4];
            assert(octets@ =~= Seq::new(4, |i: int| 0u8));
            Address::IP(IpAddr::V4(octets))
        }
    }

    /// Whether the address is an IPv6 address.
    pub fn is_v6(&self) -> (v6: bool)
        ensures
            v6 == self@.is_v6(),
    {
        match self {
            Address::IP(IpAddr::V6(_)) => true,
            _ => false,
        }
    }

    /// Whether the address can be encoded. Only a domain name of more than
    /// 255 bytes cannot.
    pub fn encodable(&self) -> (ok: bool)
        ensures
            ok == self@.wf(),
    {
        match self {
            Address::IP(IpAddr::V4(_)) => true,
            Address::IP(IpAddr::V6(_)) => true,
            Address::Domain(name) => name.as_str().as_bytes().len() <= MAX_DOMAIN_LEN,
        }
    }

    /// Appends the encoding of the address to `w`.
    ///
    /// A domain name of more than 255 bytes is refused and `w` is left as it
    /// was.
    pub fn write(&self, w: &mut Vec<u8>) -> (r: Result<(), ProtocolError>)
        requires
            old(w)@.len() + MAX_ADDRESS_LEN <= isize::MAX,
        ensures
            match r {
                Ok(_) => self@.wf() && final(w)@ == old(w)@ + self@.wire(),
                Err(e) => !self@.wf() && e == ProtocolError::DomainTooLong && final(w)@ == old(
                    w,
                )@,
            },
    {
        match self {
            Address::IP(IpAddr::V4(octets)) => {
                put_u8(w, ATYP_IPV4);
                put_slice(w, octets.as_slice());
                assert(w@ =~= old(w)@ + self@.wire());
                Ok(())
            },
            Address::IP(IpAddr::V6(octets)) => {
                put_u8(w, ATYP_IPV6);
                put_slice(w, octets.as_slice());
                assert(w@ =~= old(w)@ + self@.wire());
                Ok(())
            },
            Address::Domain(name) => {
                let bytes: &[u8] = name.as_str().as_bytes();
                let len: usize = bytes.len();
                if len > MAX_DOMAIN_LEN {
                    return Err(ProtocolError::DomainTooLong);
                }
                put_u8(w, ATYP_DOMAIN);
                put_u8(w, len as u8);
                put_slice(w, bytes);
                assert(w@ =~= old(w)@ + self@.wire());
                Ok(())
            },
        }
    }

    /// Reads the address that `input` starts with, and says how many bytes
    /// it takes.
    ///
    /// Bytes after the address are not looked at. Input that ends inside the
    /// address is `Incomplete`; a type byte other than `0x01`, `0x03`, `0x04`
    /// and a domain name that is not UTF-8 are `Invalid`.
    pub fn parse(input: &[u8]) -> (r: Result<(Address, usize), ParseError>)
        ensures
            match r {
                Ok((address, used)) => spec_parse_address(input@) == Ok::<
                    (AddressView, nat),
                    ParseError,
                >((address@, used as nat)),
                Err(e) => spec_parse_address(input@) == Err::<(AddressView, nat), ParseError>(e),
            },
    {
        let len: usize = input.len();
        if len < 1 {
            return Err(ParseError::Incomplete(1));
        }
        let tag: u8 = input[0];
        if tag == ATYP_IPV4 {
            if len < 5 {
                Err(ParseError::Incomplete(5 - len))
            } else {
                Ok((Address::IP(IpAddr::V4(octets4(input, 1))), 5))
            }
        } else if tag == ATYP_IPV6 {
            if len < 17 {
                Err(ParseError::Incomplete(17 - len))
            } else {
                Ok((Address::IP(IpAddr::V6(octets16(input, 1))), 17))
            }
        } else if tag == ATYP_DOMAIN {
            if len < 2 {
                return Err(ParseError::Incomplete(1));
            }
            let end: usize = 2 + input[1] as usize;
            if len < end {
                return Err(ParseError::Incomplete(end - len));
            }
            let name: Vec<u8> = slice_to_vec(slice_subrange(input, 2, end));
            match String::from_utf8(name) {
                Ok(text) => {
                    proof {
                        encode_utf8_decode_utf8(text@);
                    }
                    Ok((Address::Domain(text), end))
                },
                Err(_) => Err(ParseError::Invalid(ProtocolError::InvalidDomain)),
            }
        } else {
            Err(ParseError::Invalid(ProtocolError::UnsupportedAddressType))
        }
    }
}

/// Encoding an address and parsing the bytes back gives the address again,
/// whatever follows the encoding: every IPv4 and IPv6 address, and every
/// domain name of 0 to 255 bytes.
pub proof fn lemma_address_round_trip(address: AddressView, rest: Seq<u8>)
    requires
        address.wf(),
    ensures
        spec_parse_address(address.wire() + rest) == Ok::<(AddressView, nat), ParseError>(
            (address, address.wire().len()),
        ),
{
    let s = address.wire() + rest;
    match address {
        AddressView::V4(octets) => {
            assert(s.subrange(1, 5) =~= octets);
        },
        AddressView::V6(octets) => {
            assert(s.subrange(1, 17) =~= octets);
        },
        AddressView::Domain(name) => {
            let bytes = encode_utf8(name);
            assert(s[1] == bytes.len());
            assert(s.subrange(2, 2 + s[1]) =~= bytes);
            encode_utf8_valid_utf8(name);
            encode_utf8_decode_utf8(name);
        },
    }
}

/// A domain name whose declared length the input cannot satisfy is never
/// parsed: the result says how many bytes are missing.
pub proof fn lemma_short_domain_is_incomplete(s: Seq<u8>)
    requires
        s.len() >= 2,
        s[0] == ATYP_DOMAIN,
        s.len() < 2 + s[1],
    ensures
        spec_parse_address(s) == Err::<(AddressView, nat), ParseError>(
            ParseError::Incomplete((2 + s[1] - s.len()) as usize),
        ),
{
}

/// What a parser has decided stays decided: once the input holds a whole
/// address, or cannot start one, bytes that follow change nothing.
pub proof fn lemma_parse_address_stable(s: Seq<u8>, more: Seq<u8>)
    requires
        !(spec_parse_address(s) matches Err(ParseError::Incomplete(_))),
    ensures
        spec_parse_address(s + more) == spec_parse_address(s),
{
    let t = s + more;
    assert(t[0] == s[0]);
    if s[0] == ATYP_IPV4 {
        assert(t.subrange(1, 5) =~= s.subrange(1, 5));
    } else if s[0] == ATYP_IPV6 {
        assert(t.subrange(1, 17) =~= s.subrange(1, 17));
    } else if s[0] == ATYP_DOMAIN {
        assert(t[1] == s[1]);
        assert(t.subrange(2, 2 + t[1]) =~= s.subrange(2, 2 + s[1]));
    }
}

/// Reading exactly what is missing never reads too far: when the input is
/// `Incomplete` by `n` and `n` bytes arrive, an address that is then whole
/// ends where the input ends.
pub proof fn lemma_parse_address_exact(s: Seq<u8>, more: Seq<u8>)
    requires
        spec_parse_address(s) == Err::<(AddressView, nat), ParseError>(
            ParseError::Incomplete(more.len() as usize),
        ),
        more.len() <= usize::MAX,
    ensures
        spec_parse_address(s + more) matches Ok((_, used)) ==> used == (s + more).len(),
{
    let t = s + more;
    if s.len() >= 1 {
        assert(t[0] == s[0]);
        if s[0] == ATYP_DOMAIN && s.len() >= 2 {
            assert(t[1] == s[1]);
        }
    }
}

} // verus!

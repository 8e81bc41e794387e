use vstd::prelude::*;

verus! {

/// A violation of the protocol: bytes from the peer that no message allows,
/// or a value that no message can carry.
#[derive(Clone, Copy, Debug, PartialEq, Eq, Structural)]
pub enum ProtocolError {
    /// A message does not start with the version byte `0x05`.
    InvalidVersion,
    /// The greeting does not offer the method "no authentication".
    UnsupportedAuth,
    /// The command byte is none of connect, bind and UDP associate.
    UnsupportedCommand,
    /// The address type byte is none of IPv4, domain name and IPv6.
    UnsupportedAddressType,
    /// The bytes of a domain name are not UTF-8.
    InvalidDomain,
    /// A domain name takes more than 255 bytes, so its length has no encoding.
    DomainTooLong,
}

/// Why a parser did not produce a value.
#[derive(Clone, Copy, Debug, PartialEq, Eq, Structural)]
pub enum ParseError {
    /// The input ends inside the message. The next field takes this many
    /// bytes more than the input holds; nothing after it has been looked at.
    Incomplete(usize),
    /// The input cannot be the start of any message.
    Invalid(ProtocolError),
}

} // verus!

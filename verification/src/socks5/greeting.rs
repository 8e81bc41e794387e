//! The greeting: the first message of a client, which offers authentication
//! methods.

use super::error::{ParseError, ProtocolError};
use smallvec::SmallVec;
use vstd::prelude::*;
use vstd::slice::slice_subrange;

verus! {

/// The protocol version byte that starts every message.
pub const SOCKS_VERSION: u8 = 0x05;

/// The authentication method "no authentication required".
pub const NO_AUTH: u8 = 0x00;

/// The method ids of one greeting, in the order the client sent them. Most
/// greetings offer one method; that many are held without an allocation.
#[verifier::external_body]
#[derive(Debug)]
pub struct AuthMethods {
    inner: SmallVec<[u8; 1]>,
}

/// The method ids that `methods` holds.
pub uninterp spec fn offered(methods: AuthMethods) -> Seq<u8>;

/// Calls `SmallVec::from_slice`. Trusted: the new vector holds a copy of the
/// slice, item for item.
#[verifier::external_body]
fn collect_methods(ids: &[u8]) -> (methods: AuthMethods)
    ensures
        offered(methods) == ids@,
{
    AuthMethods { inner: SmallVec::from_slice(ids) }
}

/// Calls `SmallVec::as_slice`. Trusted: the slice is the whole vector.
#[verifier::external_body]
fn methods_as_slice(methods: &AuthMethods) -> (ids: &[u8])
    ensures
        ids@ == offered(*methods),
{
    methods.inner.as_slice()
}

/// A client's greeting.
#[derive(Debug)]
pub struct Greeting {
    methods: AuthMethods,
}

impl View for Greeting {
    type V = Seq<u8>;

    /// The method ids the greeting offers, in order.
    closed spec fn view(&self) -> Seq<u8> {
        offered(self.methods)
    }
}

/// The method ids of the greeting that `s` starts with and the number of
/// bytes the greeting takes: the version byte, a count, and that many ids.
pub open spec fn spec_parse_greeting(s: Seq<u8>) -> Result<(Seq<u8>, nat), ParseError> {
    if s.len() < 1 {
        Err(ParseError::Incomplete(1))
    } else if s[0] != SOCKS_VERSION {
        Err(ParseError::Invalid(ProtocolError::InvalidVersion))
    } else if s.len() < 2 {
        Err(ParseError::Incomplete(1))
    } else if s.len() < 2 + s[1] {
        Err(ParseError::Incomplete((2 + s[1] - s.len()) as usize))
    } else {
        Ok((s.subrange(2, 2 + s[1]), (2 + s[1]) as nat))
    }
}

/// A greeting of the given methods, as a client sends it.
pub open spec fn greeting_wire(methods: Seq<u8>) -> Seq<u8> {
    seq![SOCKS_VERSION, methods.len() as u8] + methods
}

impl Greeting {
    /// Reads the greeting that `input` starts with, and says how many bytes
    /// it takes. Bytes after the greeting are not looked at.
    pub fn parse(input: &[u8]) -> (r: Result<(Greeting, usize), ParseError>)
        ensures
            match r {
                Ok((greeting, used)) => spec_parse_greeting(input@) == Ok::<
                    (Seq<u8>, nat),
                    ParseError,
                >((greeting@, used as nat)),
                Err(e) => spec_parse_greeting(input@) == Err::<(Seq<u8>, nat), ParseError>(e),
            },
    {
        let len: usize = input.len();
        if len < 1 {
            return Err(ParseError::Incomplete(1));
        }
        if input[0] != SOCKS_VERSION {
            return Err(ParseError::Invalid(ProtocolError::InvalidVersion));
        }
        if len < 2 {
            return Err(ParseError::Incomplete(1));
        }
        let end: usize = 2 + input[1] as usize;
        if len < end {
            return Err(ParseError::Incomplete(end - len));
        }
        let methods: AuthMethods = collect_methods(slice_subrange(input, 2, end));
        Ok((Greeting { methods }, end))
    }

    /// Whether the greeting offers `method`, at any place in its list.
    pub fn offers(&self, method: u8) -> (found: bool)
        ensures
            found == self@.contains(method),
    {
        let ids: &[u8] = methods_as_slice(&self.methods);
        let mut i: usize = 0;
        while i < ids.len()
            invariant
                i <= ids@.len(),
                ids@ == self@,
                forall|j: int| 0 <= j < i ==> ids@[j] != method,
            decreases ids@.len() - i,
        {
            if ids[i] == method {
                return true;
            }
            i += 1;
        }
        false
    }
}

/// A greeting is read back as the methods it was made of, in their order,
/// whatever follows it.
pub proof fn lemma_greeting_round_trip(methods: Seq<u8>, rest: Seq<u8>)
    requires
        methods.len() <= 255,
    ensures
        spec_parse_greeting(greeting_wire(methods) + rest) == Ok::<(Seq<u8>, nat), ParseError>(
            (methods, 2 + methods.len()),
        ),
{
    let s = greeting_wire(methods) + rest;
    assert(s[1] == methods.len());
    assert(s.subrange(2, 2 + s[1]) =~= methods);
}

} // verus!

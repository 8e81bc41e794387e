//! Appending to a byte buffer, and turning received bytes into text.

use bytes::BufMut;
use std::string::FromUtf8Error;
use vstd::prelude::*;
use vstd::utf8::{encode_utf8, valid_utf8};

verus! {

/// The two bytes of `n`, most significant first.
pub open spec fn be16(n: u16) -> Seq<u8> {
    seq![(n / 256) as u8, (n % 256) as u8]
}

/// Calls `bytes::BufMut::put_u8` on a `Vec<u8>`. Trusted: the byte is appended
/// and nothing else changes. The vector grows as needed; a vector can hold no
/// more than `isize::MAX` bytes, and beyond that the call panics.
#[verifier::external_body]
pub(crate) fn put_u8(buf: &mut Vec<u8>, n: u8)
    requires
        old(buf)@.len() < isize::MAX,
    ensures
        final(buf)@ == old(buf)@.push(n),
{
    buf.put_u8(n)
}

/// Calls `bytes::BufMut::put_u16` on a `Vec<u8>`. Trusted: the two bytes of
/// `n` are appended in big-endian order and nothing else changes.
#[verifier::external_body]
pub(crate) fn put_u16(buf: &mut Vec<u8>, n: u16)
    requires
        old(buf)@.len() + 2 <= isize::MAX,
    ensures
        final(buf)@ == old(buf)@ + be16(n),
{
    buf.put_u16(n)
}

/// Calls `bytes::BufMut::put_slice` on a `Vec<u8>`. Trusted: the bytes of
/// `src` are appended in order and nothing else changes.
#[verifier::external_body]
pub(crate) fn put_slice(buf: &mut Vec<u8>, src: &[u8])
    requires
        old(buf)@.len() + src@.len() <= isize::MAX,
    ensures
        final(buf)@ == old(buf)@ + src@,
{
    buf.put_slice(src)
}

#[verifier::external_type_specification]
#[verifier::external_body]
pub struct ExFromUtf8Error(FromUtf8Error);

/// Trusted of `String::from_utf8`: it succeeds exactly on well-formed UTF-8,
/// and the string it returns is made of the very bytes it was given.
pub assume_specification[ String::from_utf8 ](vec: Vec<u8>) -> (res: Result<String, FromUtf8Error>)
    ensures
        res is Ok <==> valid_utf8(vec@),
        res matches Ok(s) ==> encode_utf8(s@) == vec@,
;

} // verus!

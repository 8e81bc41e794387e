//! Reply status codes, and how a failed upstream connection maps to one.

use vstd::prelude::*;
use vstd::std_specs::convert::FromSpecImpl;

verus! {

/// The status byte of a reply that reports success.
pub const STATUS_SUCCEEDED: u8 = 0x00;

/// Why a request could not be satisfied, as a reply reports it.
#[derive(Clone, Copy, Debug, PartialEq, Eq, Structural)]
pub enum FailStatus {
    GeneralFailure,
    NotAllowed,
    NetworkUnreachable,
    HostUnreachable,
    ConnectionRefused,
    TtlExpired,
    CommandNotSupported,
    AddressTypeNotSupported,
}

/// How an attempt to connect upstream failed, as far as replies tell it apart.
#[derive(Clone, Copy, Debug, PartialEq, Eq, Structural)]
pub enum ConnectError {
    /// The destination refused the connection.
    ConnectionRefused,
    /// The destination host cannot be reached.
    HostUnreachable,
    /// The destination network cannot be reached.
    NetworkUnreachable,
    /// Any other failure.
    Other,
}

impl FailStatus {
    /// The status byte on the wire, `1` to `8` in the order of the variants.
    pub open spec fn spec_code(self) -> u8 {
        match self {
            FailStatus::GeneralFailure => 1,
            FailStatus::NotAllowed => 2,
            FailStatus::NetworkUnreachable => 3,
            FailStatus::HostUnreachable => 4,
            FailStatus::ConnectionRefused => 5,
            FailStatus::TtlExpired => 6,
            FailStatus::CommandNotSupported => 7,
            FailStatus::AddressTypeNotSupported => 8,
        }
    }

    /// The status that a byte on the wire stands for, if it stands for one.
    pub open spec fn spec_from_code(code: u8) -> Option<FailStatus> {
        if code == 1 {
            Some(FailStatus::GeneralFailure)
        } else if code == 2 {
            Some(FailStatus::NotAllowed)
        } else if code == 3 {
            Some(FailStatus::NetworkUnreachable)
        } else if code == 4 {
            Some(FailStatus::HostUnreachable)
        } else if code == 5 {
            Some(FailStatus::ConnectionRefused)
        } else if code == 6 {
            Some(FailStatus::TtlExpired)
        } else if code == 7 {
            Some(FailStatus::CommandNotSupported)
        } else if code == 8 {
            Some(FailStatus::AddressTypeNotSupported)
        } else {
            None
        }
    }

    /// The status that reports a failure to connect upstream.
    pub open spec fn spec_classify(error: ConnectError) -> FailStatus {
        match error {
            ConnectError::ConnectionRefused => FailStatus::ConnectionRefused,
            ConnectError::HostUnreachable => FailStatus::HostUnreachable,
            ConnectError::NetworkUnreachable => FailStatus::NetworkUnreachable,
            ConnectError::Other => FailStatus::GeneralFailure,
        }
    }

    /// The status byte on the wire.
    #[verifier::when_used_as_spec(spec_code)]
    pub fn code(self) -> (code: u8)
        ensures
            code == self.spec_code(),
    {
        match self {
            FailStatus::GeneralFailure => 1,
            FailStatus::NotAllowed => 2,
            FailStatus::NetworkUnreachable => 3,
            FailStatus::HostUnreachable => 4,
            FailStatus::ConnectionRefused => 5,
            FailStatus::TtlExpired => 6,
            FailStatus::CommandNotSupported => 7,
            FailStatus::AddressTypeNotSupported => 8,
        }
    }

    /// The status that a byte on the wire stands for; `None` for `0` and for
    /// every byte above `8`.
    pub fn from_code(code: u8) -> (status: Option<FailStatus>)
        ensures
            status == FailStatus::spec_from_code(code),
    {
        match code {
            1 => Some(FailStatus::GeneralFailure),
            2 => Some(FailStatus::NotAllowed),
            3 => Some(FailStatus::NetworkUnreachable),
            4 => Some(FailStatus::HostUnreachable),
            5 => Some(FailStatus::ConnectionRefused),
            6 => Some(FailStatus::TtlExpired),
            7 => Some(FailStatus::CommandNotSupported),
            8 => Some(FailStatus::AddressTypeNotSupported),
            _ => None,
        }
    }
}

impl From<FailStatus> for u8 {
    fn from(status: FailStatus) -> (code: u8) {
        status.code()
    }
}

impl FromSpecImpl<FailStatus> for u8 {
    open spec fn obeys_from_spec() -> bool {
        true
    }

    open spec fn from_spec(status: FailStatus) -> u8 {
        status.spec_code()
    }
}

impl From<ConnectError> for FailStatus {
    fn from(error: ConnectError) -> (status: FailStatus) {
        match error {
            ConnectError::ConnectionRefused => FailStatus::ConnectionRefused,
            ConnectError::HostUnreachable => FailStatus::HostUnreachable,
            ConnectError::NetworkUnreachable => FailStatus::NetworkUnreachable,
            ConnectError::Other => FailStatus::GeneralFailure,
        }
    }
}

impl FromSpecImpl<ConnectError> for FailStatus {
    open spec fn obeys_from_spec() -> bool {
        true
    }

    open spec fn from_spec(error: ConnectError) -> FailStatus {
        FailStatus::spec_classify(error)
    }
}

/// Every status comes back from its own status byte, and that byte lies
/// between 1 and 8.
pub proof fn lemma_status_round_trip(status: FailStatus)
    ensures
        1 <= status.spec_code() <= 8,
        FailStatus::spec_from_code(status.spec_code()) == Some(status),
{
}

/// A byte stands for a status exactly when it lies between 1 and 8, and the
/// status it stands for has that byte as its own.
pub proof fn lemma_code_round_trip(code: u8)
    ensures
        FailStatus::spec_from_code(code) is Some <==> 1 <= code <= 8,
        FailStatus::spec_from_code(code) matches Some(status) ==> status.spec_code() == code,
{
}

} // verus!

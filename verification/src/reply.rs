//! Reply codes of a SOCKS5 response, and how failures map to them.

use vstd::prelude::*;

verus! {

/// The `REP` field of a response.
#[derive(Clone, Copy, Debug, PartialEq, Eq, Structural)]
pub enum Replies {
    Succeeded,
    GeneralFailure,
    ConnectionNotAllowed,
    NetworkUnreachable,
    HostUnreachable,
    ConnectionRefused,
    TtlExpired,
    CommandNotSupported,
    AddressTypeNotSupported,
    /// A code without an assigned meaning, kept as it is.
    OtherReply(u8),
}

/// Why no connection to the destination came about.
#[derive(Clone, Copy, Debug, PartialEq, Eq, Structural)]
pub enum ConnectError {
    /// The destination refused the connection.
    Refused,
    /// The connection was aborted while it was set up.
    Aborted,
    /// The server does not serve the destination's address family.
    FamilyNotAllowed,
    /// Name resolution gave no address.
    Unresolved,
    /// Any other I/O failure while connecting.
    Io,
}

impl Replies {
    /// The wire byte of a reply.
    pub open spec fn spec_as_u8(self) -> u8 {
        match self {
            Replies::Succeeded => 0x00,
            Replies::GeneralFailure => 0x01,
            Replies::ConnectionNotAllowed => 0x02,
            Replies::NetworkUnreachable => 0x03,
            Replies::HostUnreachable => 0x04,
            Replies::ConnectionRefused => 0x05,
            Replies::TtlExpired => 0x06,
            Replies::CommandNotSupported => 0x07,
            Replies::AddressTypeNotSupported => 0x08,
            Replies::OtherReply(c) => c,
        }
    }

    /// The reply that a wire byte stands for.
    pub open spec fn spec_from_u8(code: u8) -> Replies {
        if code == 0x00 {
            Replies::Succeeded
        } else if code == 0x01 {
            Replies::GeneralFailure
        } else if code == 0x02 {
            Replies::ConnectionNotAllowed
        } else if code == 0x03 {
            Replies::NetworkUnreachable
        } else if code == 0x04 {
            Replies::HostUnreachable
        } else if code == 0x05 {
            Replies::ConnectionRefused
        } else if code == 0x06 {
            Replies::TtlExpired
        } else if code == 0x07 {
            Replies::CommandNotSupported
        } else if code == 0x08 {
            Replies::AddressTypeNotSupported
        } else {
            Replies::OtherReply(code)
        }
    }

    /// The reply owed to the client when connecting to the destination failed.
    pub open spec fn spec_from_connect_error(e: ConnectError) -> Replies {
        match e {
            ConnectError::Refused => Replies::ConnectionRefused,
            ConnectError::Aborted => Replies::HostUnreachable,
            ConnectError::FamilyNotAllowed => Replies::NetworkUnreachable,
            ConnectError::Unresolved => Replies::HostUnreachable,
            ConnectError::Io => Replies::NetworkUnreachable,
        }
    }

    /// The wire byte of the reply.
    pub fn as_u8(&self) -> (code: u8)
        ensures
            code == self.spec_as_u8(),
    {
        match self {
            Replies::Succeeded => 0x00,
            Replies::GeneralFailure => 0x01,
            Replies::ConnectionNotAllowed => 0x02,
            Replies::NetworkUnreachable => 0x03,
            Replies::HostUnreachable => 0x04,
            Replies::ConnectionRefused => 0x05,
            Replies::TtlExpired => 0x06,
            Replies::CommandNotSupported => 0x07,
            Replies::AddressTypeNotSupported => 0x08,
            Replies::OtherReply(c) => *c,
        }
    }

    /// The reply of a wire byte.
    pub fn from_u8(code: u8) -> (r: Replies)
        ensures
            r == Replies::spec_from_u8(code),
            r.spec_as_u8() == code,
    {
        match code {
            0x00 => Replies::Succeeded,
            0x01 => Replies::GeneralFailure,
            0x02 => Replies::ConnectionNotAllowed,
            0x03 => Replies::NetworkUnreachable,
            0x04 => Replies::HostUnreachable,
            0x05 => Replies::ConnectionRefused,
            0x06 => Replies::TtlExpired,
            0x07 => Replies::CommandNotSupported,
            0x08 => Replies::AddressTypeNotSupported,
            c => Replies::OtherReply(c),
        }
    }

    /// The reply owed to the client when connecting to the destination failed.
    pub fn from_connect_error(e: ConnectError) -> (r: Replies)
        ensures
            r == Replies::spec_from_connect_error(e),
    {
        match e {
            ConnectError::Refused => Replies::ConnectionRefused,
            ConnectError::Aborted => Replies::HostUnreachable,
            ConnectError::FamilyNotAllowed => Replies::NetworkUnreachable,
            ConnectError::Unresolved => Replies::HostUnreachable,
            ConnectError::Io => Replies::NetworkUnreachable,
        }
    }

    /// Every byte is the byte of the reply that it stands for.
    pub proof fn lemma_byte_round_trip(code: u8)
        ensures
            Replies::spec_from_u8(code).spec_as_u8() == code,
    {
    }

    /// A reply is the one that its byte stands for, unless it is an
    /// `OtherReply` that holds a code with an assigned meaning.
    pub proof fn lemma_value_round_trip(r: Replies)
        requires
            !(r matches Replies::OtherReply(c) && c <= 0x08),
        ensures
            Replies::spec_from_u8(r.spec_as_u8()) == r,
    {
    }

    /// A failed connection attempt never maps to `Succeeded`.
    pub proof fn lemma_connect_error_is_failure(e: ConnectError)
        ensures
            Replies::spec_from_connect_error(e) != Replies::Succeeded,
            Replies::spec_from_connect_error(e).spec_as_u8() != 0,
    {
    }
}

} // verus!

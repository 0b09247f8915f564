//! Authentication methods offered in the SOCKS5 handshake.

use vstd::prelude::*;

verus! {

/// One authentication method code of the handshake.
#[derive(Clone, Copy, Debug, PartialEq, Eq, Structural)]
pub enum Method {
    /// No authentication required (`0x00`).
    NoAuth,
    /// GSSAPI (`0x01`).
    GssApi,
    /// Username and password (`0x02`).
    Password,
    /// No acceptable method (`0xff`).
    NotAcceptable,
    /// Any code without an assigned meaning, kept as it came.
    InvalidMethod(u8),
}

impl Method {
    /// The method that a wire byte stands for.
    pub open spec fn spec_from_u8(code: u8) -> Method {
        if code == 0x00 {
            Method::NoAuth
        } else if code == 0x01 {
            Method::GssApi
        } else if code == 0x02 {
            Method::Password
        } else if code == 0xff {
            Method::NotAcceptable
        } else {
            Method::InvalidMethod(code)
        }
    }

    /// The wire byte of a method.
    pub open spec fn spec_as_u8(self) -> u8 {
        match self {
            Method::NoAuth => 0x00,
            Method::GssApi => 0x01,
            Method::Password => 0x02,
            Method::NotAcceptable => 0xff,
            Method::InvalidMethod(c) => c,
        }
    }

    /// Whether the method is one without an assigned meaning.
    pub open spec fn spec_is_invalid_method(self) -> bool {
        self is InvalidMethod
    }

    /// The method of a wire byte.
    pub fn from_u8(code: u8) -> (m: Method)
        ensures
            m == Method::spec_from_u8(code),
            m.spec_as_u8() == code,
    {
        match code {
            0x00 => Method::NoAuth,
            0x01 => Method::GssApi,
            0x02 => Method::Password,
            0xff => Method::NotAcceptable,
            c => Method::InvalidMethod(c),
        }
    }

    /// The wire byte of the method.
    pub fn as_u8(&self) -> (code: u8)
        ensures
            code == self.spec_as_u8(),
    {
        match self {
            Method::NoAuth => 0x00,
            Method::GssApi => 0x01,
            Method::Password => 0x02,
            Method::NotAcceptable => 0xff,
            Method::InvalidMethod(c) => *c,
        }
    }

    /// Whether the method is one without an assigned meaning.
    pub fn is_invalid_method(&self) -> (b: bool)
        ensures
            b == self.spec_is_invalid_method(),
    {
        match self {
            Method::InvalidMethod(_) => true,
            _ => false,
        }
    }

    /// A method is the one that its byte stands for, unless it is an
    /// `InvalidMethod` that holds a code with an assigned meaning.
    pub proof fn lemma_value_round_trip(m: Method)
        requires
            !(m matches Method::InvalidMethod(c) && (c <= 0x02 || c == 0xff)),
        ensures
            Method::spec_from_u8(m.spec_as_u8()) == m,
    {
    }

    /// Every byte is the byte of the method that it stands for: a code without
    /// an assigned meaning is kept in `InvalidMethod`.
    pub proof fn lemma_byte_round_trip(code: u8)
        ensures
            Method::spec_from_u8(code).spec_as_u8() == code,
            Method::spec_from_u8(code).spec_is_invalid_method() <==> !(code == 0x00 || code == 0x01
                || code == 0x02 || code == 0xff),
    {
    }
}

} // verus!

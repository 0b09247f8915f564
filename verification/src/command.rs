//! Commands of a SOCKS5 request.

use vstd::prelude::*;

verus! {

/// What the client asks the proxy to do.
#[derive(Clone, Copy, Debug, PartialEq, Eq, Structural)]
pub enum Command {
    /// Open a TCP connection to the destination (`0x01`).
    Connect,
    /// Wait for an inbound connection (`0x02`).
    Bind,
    /// Set up a UDP relay (`0x03`).
    UdpAssociate,
}

impl Command {
    /// The command that a wire byte stands for, if any.
    pub open spec fn spec_from_u8(code: u8) -> Option<Command> {
        if code == 0x01 {
            Some(Command::Connect)
        } else if code == 0x02 {
            Some(Command::Bind)
        } else if code == 0x03 {
            Some(Command::UdpAssociate)
        } else {
            None
        }
    }

    /// The wire byte of a command.
    pub open spec fn spec_as_u8(self) -> u8 {
        match self {
            Command::Connect => 0x01,
            Command::Bind => 0x02,
            Command::UdpAssociate => 0x03,
        }
    }

    /// The command of a wire byte, if it is one.
    pub fn from_u8(code: u8) -> (c: Option<Command>)
        ensures
            c == Command::spec_from_u8(code),
    {
        match code {
            0x01 => Some(Command::Connect),
            0x02 => Some(Command::Bind),
            0x03 => Some(Command::UdpAssociate),
            _ => None,
        }
    }

    /// The wire byte of the command.
    pub fn as_u8(&self) -> (code: u8)
        ensures
            code == self.spec_as_u8(),
    {
        match self {
            Command::Connect => 0x01,
            Command::Bind => 0x02,
            Command::UdpAssociate => 0x03,
        }
    }

    /// A byte stands for a command exactly when it is the byte of that command.
    pub proof fn lemma_byte_round_trip(code: u8, c: Command)
        ensures
            Command::spec_from_u8(code) == Some(c) <==> c.spec_as_u8() == code,
    {
    }
}

} // verus!

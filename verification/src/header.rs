//! The request that follows the method negotiation, and the response to it.

use crate::address::{spec_read_address, Address, AddressView};
use crate::auth::{version_message, VERSION};
use crate::buf::{put_slice, put_u8};
use crate::command::Command;
use crate::error::{outcome, DecodeError, Decoded, Error};
use crate::reply::Replies;
use crate::text::{hex_text, with_hex};
use vstd::prelude::*;
use vstd::slice::slice_subrange;

verus! {

/// The message of the error for an unknown command byte.
pub open spec fn command_message(code: u8) -> Seq<char> {
    "unsupported command "@ + hex_text(code)
}

/// TCP request header after authentication
///
/// ```plain
/// +----+-----+-------+------+----------+----------+
/// |VER | CMD |  RSV  | ATYP | DST.ADDR | DST.PORT |
/// +----+-----+-------+------+----------+----------+
/// | 1  |  1  | X'00' |  1   | Variable |    2     |
/// +----+-----+-------+------+----------+----------+
/// ```
#[derive(Debug)]
pub struct TcpRequestHeader {
    /// SOCKS5 command
    pub command: Command,
    /// Remote address
    pub address: Address,
}

/// What a request header holds.
pub struct TcpRequestHeaderView {
    pub command: Command,
    pub address: AddressView,
}

impl View for TcpRequestHeader {
    type V = TcpRequestHeaderView;

    open spec fn view(&self) -> TcpRequestHeaderView {
        TcpRequestHeaderView { command: self.command, address: self.address@ }
    }
}

impl TcpRequestHeaderView {
    /// The wire form, with a zero reserved byte.
    pub open spec fn wire(self) -> Seq<u8> {
        seq![VERSION, self.command.spec_as_u8(), 0u8] + self.address.wire()
    }
}

/// What decoding a request header makes of `b`: the version is checked
/// first, then the command, the reserved byte is passed over, and the
/// address is decoded from what follows.
pub open spec fn spec_read_request(b: Seq<u8>) -> Decoded<TcpRequestHeaderView> {
    if b.len() < 1 {
        Decoded::Incomplete(1)
    } else if b[0] != VERSION {
        Decoded::Rejected(Replies::ConnectionRefused, version_message(b[0]))
    } else if b.len() < 2 {
        Decoded::Incomplete(1)
    } else if Command::spec_from_u8(b[1]) is None {
        Decoded::Rejected(Replies::CommandNotSupported, command_message(b[1]))
    } else if b.len() < 3 {
        Decoded::Incomplete(1)
    } else {
        match spec_read_address(b.skip(3)) {
            Decoded::Complete(address, n) => Decoded::Complete(
                TcpRequestHeaderView { command: Command::spec_from_u8(b[1])->0, address },
                3 + n,
            ),
            Decoded::Incomplete(needed) => Decoded::Incomplete(needed),
            Decoded::Rejected(reply, message) => Decoded::Rejected(reply, message),
        }
    }
}

impl TcpRequestHeader {
    /// Decodes one request header from the front of `source`. On success
    /// the header comes with the number of bytes it took.
    pub fn read_from(source: &[u8]) -> (r: Result<(TcpRequestHeader, usize), DecodeError>)
        ensures
            outcome(r) == spec_read_request(source@),
            r matches Ok((h, _)) ==> h.address.wf(),
    {
        if source.len() < 1 {
            return Err(DecodeError::UnexpectedEof { needed: 1 });
        }
        let ver = source[0];
        if ver != VERSION {
            let message = with_hex("unsupported socks version ", ver);
            return Err(
                DecodeError::Protocol(Error::new(Replies::ConnectionRefused, message.as_str())),
            );
        }
        if source.len() < 2 {
            return Err(DecodeError::UnexpectedEof { needed: 1 });
        }
        let command = source[1];
        let command = match Command::from_u8(command) {
            Some(c) => c,
            None => {
                let message = with_hex("unsupported command ", command);
                return Err(
                    DecodeError::Protocol(
                        Error::new(Replies::CommandNotSupported, message.as_str()),
                    ),
                );
            },
        };
        // the RSV field is passed over
        if source.len() < 3 {
            return Err(DecodeError::UnexpectedEof { needed: 1 });
        }
        let rest = slice_subrange(source, 3, source.len());
        assert(rest@ =~= source@.skip(3));
        match Address::read_from(rest) {
            Ok((address, n)) => {
                proof {
                    crate::address::lemma_decoded_address(rest@);
                }
                Ok((TcpRequestHeader { command, address }, 3 + n))
            },
            Err(e) => Err(e),
        }
    }
}

/// TCP response header
///
/// ```plain
/// +----+-----+-------+------+----------+----------+
/// |VER | REP |  RSV  | ATYP | BND.ADDR | BND.PORT |
/// +----+-----+-------+------+----------+----------+
/// | 1  |  1  | X'00' |  1   | Variable |    2     |
/// +----+-----+-------+------+----------+----------+
/// ```
#[derive(Debug)]
pub struct TcpResponseHeader {
    /// SOCKS5 reply
    pub reply: Replies,
    /// Reply address
    pub address: Address,
}

/// The wire form of the response with this reply and this address.
pub open spec fn response_wire(reply: Replies, address: AddressView) -> Seq<u8> {
    seq![VERSION, reply.spec_as_u8(), 0u8] + address.wire()
}

impl TcpResponseHeader {
    /// Creates a response header
    pub fn new(reply: Replies, address: Address) -> (h: TcpResponseHeader)
        ensures
            h.reply == reply,
            h.address == address,
    {
        TcpResponseHeader { reply, address }
    }

    /// The length of the wire form: three bytes and the address.
    pub fn len(&self) -> (n: usize)
        requires
            self.address.wf(),
        ensures
            n == 3 + self.address@.wire_len(),
            n == response_wire(self.reply, self.address@).len(),
    {
        proof {
            crate::address::lemma_wire_len(self.address@);
        }
        3 + self.address.len()
    }

    /// The wire form: the version, the reply's byte, a zero, the address.
    pub fn to_bytes(&self) -> (buffer: Vec<u8>)
        requires
            self.address.wf(),
        ensures
            buffer@ == response_wire(self.reply, self.address@),
    {
        let mut buffer = Vec::with_capacity(3 + self.address.len());
        put_u8(&mut buffer, VERSION);
        put_u8(&mut buffer, self.reply.as_u8());
        put_u8(&mut buffer, 0);
        let address = self.address.to_bytes();
        put_slice(&mut buffer, address.as_slice());
        assert(buffer@ =~= response_wire(self.reply, self.address@));
        buffer
    }
}

impl Replies {
    /// The response that carries this reply and `address`.
    pub fn into_response(self, address: Address) -> (h: TcpResponseHeader)
        ensures
            h.reply == self,
            h.address == address,
    {
        TcpResponseHeader::new(self, address)
    }
}

/// The wire form of a request with a known command and a well-formed
/// address decodes to that command and address and takes exactly its bytes,
/// whatever the reserved byte holds and whatever follows.
pub proof fn lemma_request_round_trip(h: TcpRequestHeaderView, reserved: u8, rest: Seq<u8>)
    requires
        h.address.wf(),
    ensures
        spec_read_request(
            seq![VERSION, h.command.spec_as_u8(), reserved] + h.address.wire() + rest,
        ) == Decoded::Complete(h, 3 + h.address.wire_len()),
{
    let b = seq![VERSION, h.command.spec_as_u8(), reserved] + h.address.wire() + rest;
    assert(b.skip(3) =~= h.address.wire() + rest);
    crate::address::lemma_address_round_trip(h.address, rest);
}

/// A request whose version byte is not 5 is rejected with
/// `ConnectionRefused`, whatever follows.
pub proof fn lemma_bad_version_refused(b: Seq<u8>)
    requires
        b.len() >= 1,
        b[0] != VERSION,
    ensures
        spec_read_request(b) == Decoded::<TcpRequestHeaderView>::Rejected(
            Replies::ConnectionRefused,
            version_message(b[0]),
        ),
{
}

/// A request whose command byte is none of 1, 2 and 3 is rejected with
/// `CommandNotSupported`, whatever follows.
pub proof fn lemma_unknown_command(b: Seq<u8>)
    requires
        b.len() >= 2,
        b[0] == VERSION,
        b[1] != 1 && b[1] != 2 && b[1] != 3,
    ensures
        spec_read_request(b) == Decoded::<TcpRequestHeaderView>::Rejected(
            Replies::CommandNotSupported,
            command_message(b[1]),
        ),
{
}

/// A failure to decode the address comes out of the request decoder as it
/// is, with the reply that it carries.
pub proof fn lemma_address_failure_propagates(b: Seq<u8>)
    requires
        b.len() >= 3,
        b[0] == VERSION,
        Command::spec_from_u8(b[1]) is Some,
    ensures
        spec_read_address(b.skip(3)) matches Decoded::Rejected(reply, message)
            ==> spec_read_request(b) == Decoded::<TcpRequestHeaderView>::Rejected(reply, message),
{
}

/// A response starts with the version, the reply's byte and a zero, and the
/// address follows: its length is three more than the address's.
pub proof fn lemma_response_shape(reply: Replies, address: AddressView)
    requires
        address.wf(),
    ensures
        response_wire(reply, address).len() == 3 + address.wire_len(),
        response_wire(reply, address)[0] == VERSION,
        response_wire(reply, address)[1] == reply.spec_as_u8(),
        response_wire(reply, address)[2] == 0,
        response_wire(reply, address).skip(3) == address.wire(),
{
    crate::address::lemma_wire_len(address);
    assert(response_wire(reply, address).skip(3) =~= address.wire());
}

/// What was decoded has a well-formed address and took three bytes more
/// than the address; while bytes are missing, at least one is asked for and
/// never more than the longest request could still need.
pub proof fn lemma_request_bounds(b: Seq<u8>)
    ensures
        spec_read_request(b) matches Decoded::Complete(h, n) ==> h.address.wf() && n == 3
            + h.address.wire_len() && n <= b.len(),
        spec_read_request(b) matches Decoded::Incomplete(needed) ==> 1 <= needed && b.len()
            + needed <= 262,
{
    if b.len() >= 3 {
        crate::address::lemma_decoded_address(b.skip(3));
        crate::address::lemma_address_needed_bounds(b.skip(3));
    }
}

} // verus!

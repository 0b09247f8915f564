//! The SOCKS5 address: an IPv4 or IPv6 socket address, or a domain name with
//! a port, and its wire encoding.

use crate::buf::{be16, be16_seq, from_be16, get_u16, put_slice, put_u16, put_u8};
use crate::error::{outcome, DecodeError, Decoded, Error};
use crate::reply::{ConnectError, Replies};
use crate::text::{hex_text, string_from_utf8, with_hex};
use vstd::prelude::*;
use vstd::slice::{slice_subrange, slice_to_vec};
use vstd::utf8::{decode_utf8, encode_utf8, valid_utf8};

verus! {

/// An IP address with a port: four octets, or eight 16-bit segments.
#[derive(Clone, Copy, Debug, PartialEq, Eq, Hash)]
pub enum SocketAddr {
    V4([u8; 4], u16),
    V6([u16; 8], u16),
}

/// What a `SocketAddr` holds, as sequences.
pub enum SocketAddrView {
    V4(Seq<u8>, u16),
    V6(Seq<u16>, u16),
}

impl View for SocketAddr {
    type V = SocketAddrView;

    open spec fn view(&self) -> SocketAddrView {
        match *self {
            SocketAddr::V4(octets, port) => SocketAddrView::V4(octets@, port),
            SocketAddr::V6(segments, port) => SocketAddrView::V6(segments@, port),
        }
    }
}

impl SocketAddrView {
    /// Four octets, or eight segments.
    pub open spec fn wf(self) -> bool {
        match self {
            SocketAddrView::V4(octets, _) => octets.len() == 4,
            SocketAddrView::V6(segments, _) => segments.len() == 8,
        }
    }
}

impl SocketAddr {
    /// Whether the address is an IPv4 address.
    pub fn is_ipv4(&self) -> (b: bool)
        ensures
            b == (self@ is V4),
    {
        match self {
            SocketAddr::V4(..) => true,
            SocketAddr::V6(..) => false,
        }
    }

    /// Whether the address is an IPv6 address.
    pub fn is_ipv6(&self) -> (b: bool)
        ensures
            b == (self@ is V6),
    {
        match self {
            SocketAddr::V4(..) => false,
            SocketAddr::V6(..) => true,
        }
    }

    /// The port.
    pub fn port(&self) -> (p: u16)
        ensures
            p == match self@ {
                SocketAddrView::V4(_, port) => port,
                SocketAddrView::V6(_, port) => port,
            },
    {
        match self {
            SocketAddr::V4(_, port) => *port,
            SocketAddr::V6(_, port) => *port,
        }
    }

    /// Every socket address has four octets or eight segments.
    pub proof fn lemma_wf(self)
        ensures
            self@.wf(),
    {
    }
}

/// SOCKS5 address type
#[derive(Debug, PartialEq, Eq, Hash)]
pub enum Address {
    /// Socket address (IP Address)
    SocketAddress(SocketAddr),
    /// Domain name address
    DomainNameAddress(String, u16),
}

/// What an `Address` holds: the domain name as its characters.
pub enum AddressView {
    SocketAddress(SocketAddrView),
    DomainNameAddress(Seq<char>, u16),
}

impl View for Address {
    type V = AddressView;

    open spec fn view(&self) -> AddressView {
        match *self {
            Address::SocketAddress(addr) => AddressView::SocketAddress(addr@),
            Address::DomainNameAddress(name, port) => AddressView::DomainNameAddress(name@, port),
        }
    }
}

/// The longest domain name, in bytes of UTF-8, that the wire format can carry.
pub const MAX_DOMAIN_LEN: usize = 255;

impl AddressView {
    /// A socket address is well formed as such; a domain name is if its UTF-8
    /// form fits the one length byte of the wire format.
    pub open spec fn wf(self) -> bool {
        match self {
            AddressView::SocketAddress(addr) => addr.wf(),
            AddressView::DomainNameAddress(name, _) => encode_utf8(name).len() <= MAX_DOMAIN_LEN,
        }
    }

    /// The wire form: the type byte, the address, the port in network order.
    pub open spec fn wire(self) -> Seq<u8> {
        match self {
            AddressView::SocketAddress(SocketAddrView::V4(octets, port)) => seq![1u8] + octets
                + be16(port),
            AddressView::SocketAddress(SocketAddrView::V6(segments, port)) => seq![4u8] + be16_seq(
                segments,
            ) + be16(port),
            AddressView::DomainNameAddress(name, port) => seq![
                3u8,
                encode_utf8(name).len() as u8,
            ] + encode_utf8(name) + be16(port),
        }
    }

    /// The length of the wire form.
    pub open spec fn wire_len(self) -> nat {
        match self {
            AddressView::SocketAddress(SocketAddrView::V4(..)) => 7,
            AddressView::SocketAddress(SocketAddrView::V6(..)) => 19,
            AddressView::DomainNameAddress(name, _) => 4 + encode_utf8(name).len(),
        }
    }
}

/// The message of the error for a domain name that is not UTF-8.
pub open spec fn invalid_encoding_message() -> Seq<char> {
    "invalid address encoding"@
}

/// The message of the error for an unknown address type byte.
pub open spec fn address_type_message(code: u8) -> Seq<char> {
    "not supported address type "@ + hex_text(code)
}

/// The eight segments stored in network order in `b[at..at + 16]`.
pub open spec fn segments_at(b: Seq<u8>, at: int) -> Seq<u16> {
    Seq::new(8, |i: int| from_be16(b[at + 2 * i], b[at + 2 * i + 1]))
}

/// What decoding makes of `b`, field by field in wire order: each field is
/// examined as soon as its bytes are there, and so long as bytes are missing
/// the result says how many.
pub open spec fn spec_read_address(b: Seq<u8>) -> Decoded<AddressView> {
    if b.len() < 1 {
        Decoded::Incomplete(1)
    } else if b[0] == 1 {
        if b.len() < 7 {
            Decoded::Incomplete((7 - b.len()) as nat)
        } else {
            Decoded::Complete(
                AddressView::SocketAddress(
                    SocketAddrView::V4(b.subrange(1, 5), from_be16(b[5], b[6])),
                ),
                7,
            )
        }
    } else if b[0] == 4 {
        if b.len() < 19 {
            Decoded::Incomplete((19 - b.len()) as nat)
        } else {
            Decoded::Complete(
                AddressView::SocketAddress(
                    SocketAddrView::V6(segments_at(b, 1), from_be16(b[17], b[18])),
                ),
                19,
            )
        }
    } else if b[0] == 3 {
        if b.len() < 2 {
            Decoded::Incomplete(1)
        } else if b.len() < 2 + b[1] {
            Decoded::Incomplete((2 + b[1] - b.len()) as nat)
        } else if !valid_utf8(b.subrange(2, 2 + b[1])) {
            Decoded::Rejected(Replies::GeneralFailure, invalid_encoding_message())
        } else if b.len() < 4 + b[1] {
            Decoded::Incomplete((4 + b[1] - b.len()) as nat)
        } else {
            Decoded::Complete(
                AddressView::DomainNameAddress(
                    decode_utf8(b.subrange(2, 2 + b[1])),
                    from_be16(b[2 + b[1]], b[3 + b[1]]),
                ),
                (4 + b[1]) as nat,
            )
        }
    } else {
        Decoded::Rejected(Replies::AddressTypeNotSupported, address_type_message(b[0]))
    }
}

impl Clone for Address {
    fn clone(&self) -> (a: Address)
        ensures
            a@ == self@,
    {
        match self {
            Address::SocketAddress(addr) => Address::SocketAddress(*addr),
            Address::DomainNameAddress(name, port) => Address::DomainNameAddress(
                name.clone(),
                *port,
            ),
        }
    }
}

impl Address {
    /// Whether the address can be put on the wire.
    pub open spec fn wf(&self) -> bool {
        self@.wf()
    }

    /// The address of a domain name and a port, unless the name is longer
    /// than the wire format can carry.
    pub fn domain(name: &str, port: u16) -> (a: Option<Address>)
        ensures
            a is Some <==> encode_utf8(name@).len() <= MAX_DOMAIN_LEN,
            a matches Some(addr) ==> addr@ == AddressView::DomainNameAddress(name@, port)
                && addr.wf(),
    {
        if name.as_bytes().len() <= MAX_DOMAIN_LEN {
            Some(Address::DomainNameAddress(name.to_owned(), port))
        } else {
            None
        }
    }

    /// Whether `to_bytes`, `len` and the other encoders accept the address.
    pub fn is_wf(&self) -> (b: bool)
        ensures
            b == self.wf(),
    {
        match self {
            Address::SocketAddress(_) => true,
            Address::DomainNameAddress(name, _) => name.as_str().as_bytes().len()
                <= MAX_DOMAIN_LEN,
        }
    }

    /// Whether the address is an IPv6 socket address. A domain name is not,
    /// whatever it resolves to.
    pub fn is_ipv6(&self) -> (b: bool)
        ensures
            b == (self@ matches AddressView::SocketAddress(addr) && addr is V6),
    {
        match self {
            Address::SocketAddress(addr) => addr.is_ipv6(),
            Address::DomainNameAddress(..) => false,
        }
    }

    /// Decodes one address from the front of `source`. On success the
    /// address comes with the number of bytes it took.
    pub fn read_from(source: &[u8]) -> (r: Result<(Address, usize), DecodeError>)
        ensures
            outcome(r) == spec_read_address(source@),
            r matches Ok((a, _)) ==> a.wf(),
    {
        if source.len() < 1 {
            return Err(DecodeError::UnexpectedEof { needed: 1 });
        }
        let addr_type = source[0];
        let addr_type = match AddressType::from_u8(addr_type) {
            Some(addr) => addr,
            None => {
                let message = with_hex("not supported address type ", addr_type);
                return Err(
                    DecodeError::Protocol(
                        Error::new(Replies::AddressTypeNotSupported, message.as_str()),
                    ),
                );
            },
        };
        match addr_type {
            AddressType::Ipv4 => {
                if source.len() < 7 {
                    return Err(DecodeError::UnexpectedEof { needed: 7 - source.len() });
                }
                let octets: [u8; 4] = [source[1], source[2], source[3], source[4]];
                let port = get_u16(source, 5);
                assert(octets@ =~= source@.subrange(1, 5));
                Ok((Address::SocketAddress(SocketAddr::V4(octets, port)), 7))
            },
            AddressType::Ipv6 => {
                if source.len() < 19 {
                    return Err(DecodeError::UnexpectedEof { needed: 19 - source.len() });
                }
                let segments: [u16; 8] = [
                    get_u16(source, 1),
                    get_u16(source, 3),
                    get_u16(source, 5),
                    get_u16(source, 7),
                    get_u16(source, 9),
                    get_u16(source, 11),
                    get_u16(source, 13),
                    get_u16(source, 15),
                ];
                let port = get_u16(source, 17);
                assert(segments@ =~= segments_at(source@, 1));
                Ok((Address::SocketAddress(SocketAddr::V6(segments, port)), 19))
            },
            AddressType::DomainName => {
                if source.len() < 2 {
                    return Err(DecodeError::UnexpectedEof { needed: 1 });
                }
                let domain_len: usize = source[1] as usize;
                if source.len() < 2 + domain_len {
                    return Err(
                        DecodeError::UnexpectedEof { needed: 2 + domain_len - source.len() },
                    );
                }
                let domain = slice_to_vec(slice_subrange(source, 2, 2 + domain_len));
                let domain = match string_from_utf8(domain) {
                    Some(domain) => domain,
                    None => {
                        return Err(
                            DecodeError::Protocol(
                                Error::new(Replies::GeneralFailure, "invalid address encoding"),
                            ),
                        );
                    },
                };
                if source.len() < 4 + domain_len {
                    return Err(
                        DecodeError::UnexpectedEof { needed: 4 + domain_len - source.len() },
                    );
                }
                let port = get_u16(source, 2 + domain_len);
                proof {
                    vstd::utf8::encode_utf8_decode_utf8(domain@);
                }
                Ok((Address::DomainNameAddress(domain, port), 4 + domain_len))
            },
        }
    }

    /// The wire form of the address.
    pub fn to_bytes(&self) -> (buffer: Vec<u8>)
        requires
            self.wf(),
        ensures
            buffer@ == self@.wire(),
    {
        let mut buffer = Vec::with_capacity(self.len());
        write_address(self, &mut buffer);
        assert(Seq::<u8>::empty() + self@.wire() =~= self@.wire());
        buffer
    }

    /// The length of the wire form, without encoding: 7 for IPv4, 19 for
    /// IPv6, 4 and the length of the name for a domain name.
    pub fn len(&self) -> (n: usize)
        requires
            self.wf(),
        ensures
            n == self@.wire_len(),
    {
        match self {
            Address::SocketAddress(SocketAddr::V4(..)) => 1 + 4 + 2,
            Address::SocketAddress(SocketAddr::V6(..)) => 1 + 8 * 2 + 2,
            Address::DomainNameAddress(d, _) => 1 + 1 + d.as_str().len() + 2,
        }
    }

    /// The socket address to connect to: the address itself where it is
    /// one; for a domain name the first of the addresses that resolving the
    /// name gave, and `Unresolved` where it gave none.
    pub fn to_socket_addrs(&self, resolved: &[SocketAddr]) -> (r: Result<SocketAddr, ConnectError>)
        ensures
            r == spec_to_socket_addrs(*self, resolved@),
    {
        match self {
            Address::SocketAddress(addr) => Ok(*addr),
            Address::DomainNameAddress(..) => {
                if resolved.len() > 0 {
                    Ok(resolved[0])
                } else {
                    Err(ConnectError::Unresolved)
                }
            },
        }
    }
}

/// The socket address that stands for `a`, given what resolving its name gave.
pub open spec fn spec_to_socket_addrs(a: Address, resolved: Seq<SocketAddr>) -> Result<
    SocketAddr,
    ConnectError,
> {
    match a {
        Address::SocketAddress(addr) => Ok(addr),
        Address::DomainNameAddress(..) => if resolved.len() > 0 {
            Ok(resolved[0])
        } else {
            Err(ConnectError::Unresolved)
        },
    }
}

impl From<SocketAddr> for Address {
    fn from(s: SocketAddr) -> (a: Address)
        ensures
            a == Address::SocketAddress(s),
    {
        Address::SocketAddress(s)
    }
}

impl vstd::std_specs::convert::FromSpecImpl<SocketAddr> for Address {
    open spec fn obeys_from_spec() -> bool {
        true
    }

    open spec fn from_spec(s: SocketAddr) -> Address {
        Address::SocketAddress(s)
    }
}

/// The `ATYP` field of a request or response.
#[derive(Copy, Clone, Debug, PartialEq, Eq, Structural)]
pub enum AddressType {
    Ipv4,
    DomainName,
    Ipv6,
}

impl AddressType {
    /// The address type that a wire byte stands for, if any.
    pub open spec fn spec_from_u8(code: u8) -> Option<AddressType> {
        if code == 1 {
            Some(AddressType::Ipv4)
        } else if code == 3 {
            Some(AddressType::DomainName)
        } else if code == 4 {
            Some(AddressType::Ipv6)
        } else {
            None
        }
    }

    /// The wire byte of an address type.
    pub open spec fn spec_as_u8(self) -> u8 {
        match self {
            AddressType::Ipv4 => 1,
            AddressType::DomainName => 3,
            AddressType::Ipv6 => 4,
        }
    }

    /// The address type of a wire byte, if it is one.
    pub fn from_u8(code: u8) -> (t: Option<AddressType>)
        ensures
            t == AddressType::spec_from_u8(code),
    {
        match code {
            1 => Some(AddressType::Ipv4),
            3 => Some(AddressType::DomainName),
            4 => Some(AddressType::Ipv6),
            _ => None,
        }
    }

    /// The wire byte of the address type.
    pub fn as_u8(self) -> (code: u8)
        ensures
            code == self.spec_as_u8(),
    {
        match self {
            AddressType::Ipv4 => 1,
            AddressType::DomainName => 3,
            AddressType::Ipv6 => 4,
        }
    }

    /// A byte stands for an address type exactly when it is the byte of
    /// that type.
    pub proof fn lemma_byte_round_trip(code: u8, t: AddressType)
        ensures
            AddressType::spec_from_u8(code) == Some(t) <==> t.spec_as_u8() == code,
    {
    }
}

/// Appends the wire form of an IPv4 socket address to `buf`.
pub fn write_ipv4_address(octets: &[u8; 4], port: u16, buf: &mut Vec<u8>)
    ensures
        final(buf)@ == old(buf)@ + AddressView::SocketAddress(
            SocketAddrView::V4(octets@, port),
        ).wire(),
{
    put_u8(buf, AddressType::Ipv4.as_u8());
    put_slice(buf, octets.as_slice());
    put_u16(buf, port);
    assert(buf@ =~= old(buf)@ + (seq![1u8] + octets@ + be16(port)));
}

/// Appends the wire form of an IPv6 socket address to `buf`.
pub fn write_ipv6_address(segments: &[u16; 8], port: u16, buf: &mut Vec<u8>)
    ensures
        final(buf)@ == old(buf)@ + AddressView::SocketAddress(
            SocketAddrView::V6(segments@, port),
        ).wire(),
{
    put_u8(buf, AddressType::Ipv6.as_u8());
    let mut i: usize = 0;
    while i < 8
        invariant
            i <= 8,
            buf@ == old(buf)@ + seq![4u8] + be16_seq(segments@.take(i as int)),
        decreases 8 - i,
    {
        put_u16(buf, segments[i]);
        proof {
            let next = segments@.take(i + 1);
            assert(next.drop_last() =~= segments@.take(i as int));
            assert(next.last() == segments@[i as int]);
        }
        i += 1;
    }
    put_u16(buf, port);
    assert(segments@.take(8) =~= segments@);
    assert(buf@ =~= old(buf)@ + (seq![4u8] + be16_seq(segments@) + be16(port)));
}

/// Appends the wire form of a domain name and port to `buf`.
pub fn write_domain_name_address(dnaddr: &str, port: u16, buf: &mut Vec<u8>)
    requires
        encode_utf8(dnaddr@).len() <= MAX_DOMAIN_LEN,
    ensures
        final(buf)@ == old(buf)@ + AddressView::DomainNameAddress(dnaddr@, port).wire(),
{
    put_u8(buf, AddressType::DomainName.as_u8());
    put_u8(buf, dnaddr.len() as u8);
    put_slice(buf, dnaddr.as_bytes());
    put_u16(buf, port);
    assert(buf@ =~= old(buf)@ + (seq![3u8, encode_utf8(dnaddr@).len() as u8] + encode_utf8(
        dnaddr@,
    ) + be16(port)));
}

/// Appends the wire form of a socket address to `buf`.
pub fn write_socket_address(addr: &SocketAddr, buf: &mut Vec<u8>)
    ensures
        final(buf)@ == old(buf)@ + AddressView::SocketAddress(addr@).wire(),
{
    match addr {
        SocketAddr::V4(octets, port) => write_ipv4_address(octets, *port, buf),
        SocketAddr::V6(segments, port) => write_ipv6_address(segments, *port, buf),
    }
}

/// Appends the wire form of an address to `buf`.
pub fn write_address(addr: &Address, buf: &mut Vec<u8>)
    requires
        addr.wf(),
    ensures
        final(buf)@ == old(buf)@ + addr@.wire(),
{
    match addr {
        Address::SocketAddress(addr) => write_socket_address(addr, buf),
        Address::DomainNameAddress(dnaddr, port) => {
            write_domain_name_address(dnaddr.as_str(), *port, buf)
        },
    }
}

/// The wire form of a well-formed address has the length that `wire_len`
/// gives: 7 for IPv4, 19 for IPv6, 4 and the name's length for a domain name.
pub proof fn lemma_wire_len(a: AddressView)
    requires
        a.wf(),
    ensures
        a.wire().len() == a.wire_len(),
        4 <= a.wire_len() <= 259,
{
    match a {
        AddressView::SocketAddress(SocketAddrView::V6(segments, _)) => {
            crate::buf::lemma_be16_seq_len(segments);
        },
        _ => {},
    }
}

/// Round trip: decoding the wire form of a well-formed address gives the
/// address back and takes exactly its bytes, whatever follows them.
pub proof fn lemma_address_round_trip(a: AddressView, rest: Seq<u8>)
    requires
        a.wf(),
    ensures
        spec_read_address(a.wire() + rest) == Decoded::Complete(a, a.wire_len()),
{
    let b = a.wire() + rest;
    lemma_wire_len(a);
    match a {
        AddressView::SocketAddress(SocketAddrView::V4(octets, port)) => {
            assert(b.subrange(1, 5) =~= octets);
            assert(from_be16(b[5], b[6]) == port);
        },
        AddressView::SocketAddress(SocketAddrView::V6(segments, port)) => {
            assert forall|i: int| 0 <= i < 8 implies segments_at(b, 1)[i] == segments[i] by {
                crate::buf::lemma_be16_seq_index(segments, i);
                assert(b[1 + 2 * i] == be16_seq(segments)[2 * i]);
                assert(b[1 + 2 * i + 1] == be16_seq(segments)[2 * i + 1]);
            }
            assert(segments_at(b, 1) =~= segments);
            assert(from_be16(b[17], b[18]) == port);
        },
        AddressView::DomainNameAddress(name, port) => {
            let bytes = encode_utf8(name);
            let n = bytes.len() as int;
            assert(b[1] == n);
            assert(b.subrange(2, 2 + n) =~= bytes);
            vstd::utf8::encode_utf8_valid_utf8(name);
            vstd::utf8::encode_utf8_decode_utf8(name);
            assert(from_be16(b[2 + n], b[3 + n]) == port);
        },
    }
}

/// What was decoded is well formed, and its wire form is the bytes that
/// decoding took: encoding undoes decoding.
pub proof fn lemma_decoded_address(b: Seq<u8>)
    ensures
        spec_read_address(b) matches Decoded::Complete(a, n) ==> a.wf() && n == a.wire_len() && n
            <= b.len() && a.wire() == b.take(n as int),
{
    if let Decoded::Complete(a, n) = spec_read_address(b) {
        if b[0] == 1 {
            crate::buf::lemma_from_be16_round_trip(b[5], b[6]);
            assert(a.wire() =~= b.take(7));
        } else if b[0] == 4 {
            let segments = segments_at(b, 1);
            crate::buf::lemma_be16_seq_len(segments);
            assert forall|j: int| 0 <= j < 16 implies be16_seq(segments)[j] == b[1 + j] by {
                let i = j / 2;
                crate::buf::lemma_be16_seq_index(segments, i);
                crate::buf::lemma_from_be16_round_trip(b[1 + 2 * i], b[1 + 2 * i + 1]);
                assert(be16(segments[i])[0] == b[1 + 2 * i]);
                assert(be16(segments[i])[1] == b[1 + 2 * i + 1]);
            }
            crate::buf::lemma_from_be16_round_trip(b[17], b[18]);
            assert(a.wire() =~= b.take(19));
        } else {
            let len = b[1] as int;
            let bytes = b.subrange(2, 2 + len);
            vstd::utf8::decode_utf8_encode_utf8(bytes);
            crate::buf::lemma_from_be16_round_trip(b[2 + len], b[3 + len]);
            assert(a.wire() =~= b.take(4 + len));
        }
    }
}

/// Bytes after a decoded address do not matter: with more bytes behind
/// them, the same bytes decode to the same address.
pub proof fn lemma_decoded_address_ignores_rest(b: Seq<u8>, rest: Seq<u8>)
    ensures
        spec_read_address(b) is Complete ==> spec_read_address(b + rest) == spec_read_address(b),
{
    if let Decoded::Complete(a, n) = spec_read_address(b) {
        lemma_decoded_address(b);
        lemma_address_round_trip(a, b.skip(n as int) + rest);
        assert(a.wire() + (b.skip(n as int) + rest) =~= b + rest);
    }
}

/// A proper prefix of an address on the wire is incomplete, and asks for no
/// more bytes than the address still has.
pub proof fn lemma_address_prefix_incomplete(a: AddressView, k: int)
    requires
        a.wf(),
        0 <= k < a.wire_len(),
    ensures
        spec_read_address(a.wire().take(k)) matches Decoded::Incomplete(needed) && 1 <= needed
            <= a.wire_len() - k,
{
    lemma_wire_len(a);
    let p = a.wire().take(k);
    match a {
        AddressView::DomainNameAddress(name, port) => {
            let bytes = encode_utf8(name);
            let n = bytes.len() as int;
            if k >= 2 + n {
                assert(p[1] == n);
                assert(p.subrange(2, 2 + n) =~= bytes);
                vstd::utf8::encode_utf8_valid_utf8(name);
            }
        },
        _ => {},
    }
}

/// A domain name whose declared length is more than the bytes that follow
/// is incomplete by exactly the bytes that are missing: decoding reports a
/// short read and makes nothing of the part that is there.
pub proof fn lemma_short_domain_incomplete(b: Seq<u8>)
    requires
        b.len() >= 2,
        b[0] == 3,
        b.len() - 2 < b[1],
    ensures
        spec_read_address(b) == Decoded::<AddressView>::Incomplete((2 + b[1] - b.len()) as nat),
{
}

/// An address type byte other than 1, 3 and 4 is rejected with
/// `AddressTypeNotSupported`, whatever follows it.
pub proof fn lemma_unknown_address_type(b: Seq<u8>)
    requires
        b.len() >= 1,
        b[0] != 1 && b[0] != 3 && b[0] != 4,
    ensures
        spec_read_address(b) == Decoded::<AddressView>::Rejected(
            Replies::AddressTypeNotSupported,
            address_type_message(b[0]),
        ),
{
}

/// Decoding never asks for zero bytes, and never for more than the longest
/// address could still need.
pub proof fn lemma_address_needed_bounds(b: Seq<u8>)
    ensures
        spec_read_address(b) matches Decoded::Incomplete(needed) ==> 1 <= needed && b.len()
            + needed <= 259,
{
}

} // verus!

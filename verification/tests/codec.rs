use socks5::address::{
    write_address, write_domain_name_address, write_ipv4_address, write_ipv6_address,
    write_socket_address, MAX_DOMAIN_LEN,
};
use socks5::{
    Address, AddressType, AuthenticationRequest, AuthenticationResponse, Command, ConnectError,
    DecodeError, Error, Method, Replies, SocketAddr, TcpRequestHeader, TcpResponseHeader,
};

fn protocol_error<T: std::fmt::Debug>(r: Result<T, DecodeError>) -> Error {
    match r {
        Err(DecodeError::Protocol(e)) => e,
        other => panic!("expected a protocol error, got {:?}", other),
    }
}

fn needed<T: std::fmt::Debug>(r: Result<T, DecodeError>) -> usize {
    match r {
        Err(DecodeError::UnexpectedEof { needed }) => needed,
        other => panic!("expected a short read, got {:?}", other),
    }
}

#[test]
fn method_from_u8_names_the_assigned_codes() {
    assert_eq!(Method::from_u8(0x00), Method::NoAuth);
    assert_eq!(Method::from_u8(0x01), Method::GssApi);
    assert_eq!(Method::from_u8(0x02), Method::Password);
    assert_eq!(Method::from_u8(0xff), Method::NotAcceptable);
    assert_eq!(Method::from_u8(0x03), Method::InvalidMethod(0x03));
    assert_eq!(Method::from_u8(0xfe), Method::InvalidMethod(0xfe));
}

#[test]
fn method_bytes_round_trip() {
    for code in 0..=255u8 {
        let method = Method::from_u8(code);
        assert_eq!(method.as_u8(), code);
        let assigned = code == 0 || code == 1 || code == 2 || code == 0xff;
        assert_eq!(method.is_invalid_method(), !assigned);
    }
}

#[test]
fn command_from_u8_knows_three_commands() {
    assert_eq!(Command::from_u8(1), Some(Command::Connect));
    assert_eq!(Command::from_u8(2), Some(Command::Bind));
    assert_eq!(Command::from_u8(3), Some(Command::UdpAssociate));
    assert_eq!(Command::from_u8(0), None);
    assert_eq!(Command::from_u8(4), None);
    for code in 0..=255u8 {
        match Command::from_u8(code) {
            Some(c) => assert_eq!(c.as_u8(), code),
            None => assert!(code == 0 || code > 3),
        }
    }
}

#[test]
fn reply_bytes() {
    assert_eq!(Replies::Succeeded.as_u8(), 0x00);
    assert_eq!(Replies::GeneralFailure.as_u8(), 0x01);
    assert_eq!(Replies::ConnectionNotAllowed.as_u8(), 0x02);
    assert_eq!(Replies::NetworkUnreachable.as_u8(), 0x03);
    assert_eq!(Replies::HostUnreachable.as_u8(), 0x04);
    assert_eq!(Replies::ConnectionRefused.as_u8(), 0x05);
    assert_eq!(Replies::TtlExpired.as_u8(), 0x06);
    assert_eq!(Replies::CommandNotSupported.as_u8(), 0x07);
    assert_eq!(Replies::AddressTypeNotSupported.as_u8(), 0x08);
    assert_eq!(Replies::OtherReply(0x42).as_u8(), 0x42);
    for code in 0..=255u8 {
        assert_eq!(Replies::from_u8(code).as_u8(), code);
    }
    assert_eq!(Replies::from_u8(9), Replies::OtherReply(9));
}

#[test]
fn connect_errors_map_to_replies() {
    assert_eq!(
        Replies::from_connect_error(ConnectError::Refused),
        Replies::ConnectionRefused
    );
    assert_eq!(
        Replies::from_connect_error(ConnectError::Aborted),
        Replies::HostUnreachable
    );
    assert_eq!(
        Replies::from_connect_error(ConnectError::FamilyNotAllowed),
        Replies::NetworkUnreachable
    );
    assert_eq!(
        Replies::from_connect_error(ConnectError::Unresolved),
        Replies::HostUnreachable
    );
    assert_eq!(
        Replies::from_connect_error(ConnectError::Io),
        Replies::NetworkUnreachable
    );
}

#[test]
fn address_type_bytes() {
    assert_eq!(AddressType::from_u8(1), Some(AddressType::Ipv4));
    assert_eq!(AddressType::from_u8(3), Some(AddressType::DomainName));
    assert_eq!(AddressType::from_u8(4), Some(AddressType::Ipv6));
    assert_eq!(AddressType::from_u8(0), None);
    assert_eq!(AddressType::from_u8(2), None);
    assert_eq!(AddressType::from_u8(5), None);
    assert_eq!(AddressType::Ipv4.as_u8(), 1);
    assert_eq!(AddressType::DomainName.as_u8(), 3);
    assert_eq!(AddressType::Ipv6.as_u8(), 4);
}

#[test]
fn error_new_keeps_reply_and_message() {
    let e = Error::new(Replies::HostUnreachable, "nobody home");
    assert_eq!(e.reply, Replies::HostUnreachable);
    assert_eq!(e.message(), "nobody home");
    assert_eq!(e.to_string(), "nobody home");
    let copy = e.clone();
    assert_eq!(copy.reply, Replies::HostUnreachable);
    assert_eq!(copy.message(), "nobody home");
    let io = Error::from_io("broken pipe");
    assert_eq!(io.reply, Replies::GeneralFailure);
    assert_eq!(io.message(), "broken pipe");
}

#[test]
fn ipv4_address_encodes_to_seven_bytes() {
    let a = Address::SocketAddress(SocketAddr::V4([127, 0, 0, 1], 8080));
    assert_eq!(a.len(), 7);
    assert_eq!(a.to_bytes(), vec![0x01, 0x7f, 0x00, 0x00, 0x01, 0x1f, 0x90]);
    assert!(!a.is_ipv6());
    assert!(a.is_wf());
}

#[test]
fn ipv6_address_encodes_to_nineteen_bytes() {
    let a = Address::SocketAddress(SocketAddr::V6(
        [0x2001, 0x0db8, 0, 0, 0, 0, 0x00ff, 0x0001],
        443,
    ));
    assert_eq!(a.len(), 19);
    assert_eq!(
        a.to_bytes(),
        vec![
            0x04, 0x20, 0x01, 0x0d, 0xb8, 0, 0, 0, 0, 0, 0, 0, 0, 0x00, 0xff, 0x00, 0x01, 0x01,
            0xbb
        ]
    );
    assert!(a.is_ipv6());
}

#[test]
fn domain_address_encodes_with_its_length() {
    let a = Address::domain("example.com", 80).expect("a short name");
    assert_eq!(a.len(), 4 + 11);
    let mut expected = vec![0x03, 11];
    expected.extend_from_slice(b"example.com");
    expected.extend_from_slice(&[0x00, 0x50]);
    assert_eq!(a.to_bytes(), expected);
    assert!(!a.is_ipv6());
}

#[test]
fn domain_length_counts_bytes_not_characters() {
    let a = Address::domain("bücher.example", 8443).expect("a short name");
    assert_eq!(a.len(), 4 + 15);
    let bytes = a.to_bytes();
    assert_eq!(bytes[1], 15);
    assert_eq!(&bytes[2..17], "bücher.example".as_bytes());
    assert_eq!(&bytes[17..], &[0x20, 0xfb]);
}

#[test]
fn address_round_trips() {
    let addresses = vec![
        Address::SocketAddress(SocketAddr::V4([0, 0, 0, 0], 0)),
        Address::SocketAddress(SocketAddr::V4([255, 255, 255, 255], 65535)),
        Address::SocketAddress(SocketAddr::V4([192, 168, 1, 20], 1080)),
        Address::SocketAddress(SocketAddr::V6([0, 0, 0, 0, 0, 0, 0, 1], 22)),
        Address::SocketAddress(SocketAddr::V6(
            [0xffff, 0x1234, 0xabcd, 0x00ff, 0xff00, 1, 256, 0x8000],
            0xfffe,
        )),
        Address::domain("", 1).unwrap(),
        Address::domain("localhost", 3000).unwrap(),
        Address::domain("ünïcödé.example", 65535).unwrap(),
        Address::domain(&"a".repeat(255), 9).unwrap(),
    ];
    for a in addresses {
        let bytes = a.to_bytes();
        assert_eq!(bytes.len(), a.len());
        let (decoded, taken) = Address::read_from(&bytes).expect("decodes");
        assert_eq!(decoded, a);
        assert_eq!(taken, bytes.len());
        let mut longer = bytes.clone();
        longer.extend_from_slice(&[9, 9, 9]);
        let (decoded, taken) = Address::read_from(&longer).expect("decodes");
        assert_eq!(decoded, a);
        assert_eq!(taken, bytes.len());
        for k in 0..bytes.len() {
            let missing = needed(Address::read_from(&bytes[..k]));
            assert!(missing >= 1 && missing <= bytes.len() - k);
        }
    }
}

#[test]
fn address_decodes_the_port_big_endian() {
    let (a, n) = Address::read_from(&[1, 10, 20, 30, 40, 0x12, 0x34]).unwrap();
    assert_eq!(a, Address::SocketAddress(SocketAddr::V4([10, 20, 30, 40], 0x1234)));
    assert_eq!(n, 7);
    let mut v6 = vec![4u8];
    for i in 0..16u8 {
        v6.push(i);
    }
    v6.extend_from_slice(&[0xab, 0xcd]);
    let (a, n) = Address::read_from(&v6).unwrap();
    assert_eq!(
        a,
        Address::SocketAddress(SocketAddr::V6(
            [0x0001, 0x0203, 0x0405, 0x0607, 0x0809, 0x0a0b, 0x0c0d, 0x0e0f],
            0xabcd
        ))
    );
    assert_eq!(n, 19);
}

#[test]
fn address_needs_more_bytes() {
    assert_eq!(needed(Address::read_from(&[])), 1);
    assert_eq!(needed(Address::read_from(&[1])), 6);
    assert_eq!(needed(Address::read_from(&[1, 1, 2, 3, 4, 0])), 1);
    assert_eq!(needed(Address::read_from(&[4])), 18);
    assert_eq!(needed(Address::read_from(&[4, 0, 0, 0])), 15);
    assert_eq!(needed(Address::read_from(&[3])), 1);
    assert_eq!(needed(Address::read_from(&[3, 5])), 5);
    assert_eq!(needed(Address::read_from(&[3, 5, b'a', b'b', b'c', b'd', b'e'])), 2);
    assert_eq!(needed(Address::read_from(&[3, 5, b'a', b'b', b'c', b'd', b'e', 0])), 1);
    assert_eq!(needed(Address::read_from(&[3, 0])), 2);
}

#[test]
fn short_domain_is_a_short_read() {
    let mut bytes = vec![3u8, 200];
    bytes.extend_from_slice(&[b'x'; 150]);
    assert_eq!(needed(Address::read_from(&bytes)), 50);
    let mut bytes = vec![3u8, 255];
    bytes.extend_from_slice(&[b'x'; 254]);
    assert_eq!(needed(Address::read_from(&bytes)), 1);
}

#[test]
fn unknown_address_type_is_rejected() {
    for code in 0..=255u8 {
        if code == 1 || code == 3 || code == 4 {
            continue;
        }
        let e = protocol_error(Address::read_from(&[code, 1, 2, 3, 4, 5, 6, 7]));
        assert_eq!(e.reply, Replies::AddressTypeNotSupported);
        assert_eq!(
            e.message(),
            format!("not supported address type {:#x}", code)
        );
    }
    let e = protocol_error(Address::read_from(&[0]));
    assert_eq!(e.message(), "not supported address type 0x0");
    let e = protocol_error(Address::read_from(&[5]));
    assert_eq!(e.message(), "not supported address type 0x5");
    let e = protocol_error(Address::read_from(&[0x10]));
    assert_eq!(e.message(), "not supported address type 0x10");
    let e = protocol_error(Address::read_from(&[0xff]));
    assert_eq!(e.message(), "not supported address type 0xff");
}

#[test]
fn invalid_utf8_domain_is_a_general_failure() {
    let e = protocol_error(Address::read_from(&[3, 2, 0xff, 0xfe, 0, 80]));
    assert_eq!(e.reply, Replies::GeneralFailure);
    assert_eq!(e.message(), "invalid address encoding");
    // the name is examined as soon as it is there, before the port
    let e = protocol_error(Address::read_from(&[3, 2, 0xc3, 0x28]));
    assert_eq!(e.reply, Replies::GeneralFailure);
    // a truncated multi-byte character
    let e = protocol_error(Address::read_from(&[3, 1, 0xc3, 0, 80]));
    assert_eq!(e.reply, Replies::GeneralFailure);
}

#[test]
fn utf8_domain_decodes_to_its_text() {
    let mut bytes = vec![3u8, 7];
    bytes.extend_from_slice("zürich".as_bytes());
    bytes.extend_from_slice(&[0x01, 0x00]);
    let (a, n) = Address::read_from(&bytes).unwrap();
    assert_eq!(a, Address::DomainNameAddress("zürich".to_string(), 256));
    assert_eq!(n, 11);
}

#[test]
fn overlong_domain_is_not_constructed() {
    assert!(Address::domain(&"a".repeat(MAX_DOMAIN_LEN), 80).is_some());
    assert!(Address::domain(&"a".repeat(MAX_DOMAIN_LEN + 1), 80).is_none());
    // 128 two-byte characters are 256 bytes
    assert!(Address::domain(&"é".repeat(128), 80).is_none());
    assert!(Address::domain(&"é".repeat(127), 80).is_some());
    let long = Address::DomainNameAddress("a".repeat(256), 80);
    assert!(!long.is_wf());
}

#[test]
fn address_from_socket_address() {
    let s = SocketAddr::V4([1, 2, 3, 4], 5);
    assert_eq!(Address::from(s), Address::SocketAddress(s));
    assert!(s.is_ipv4());
    assert!(!s.is_ipv6());
    assert_eq!(s.port(), 5);
    let s6 = SocketAddr::V6([0; 8], 6);
    assert!(s6.is_ipv6());
    assert_eq!(s6.port(), 6);
}

#[test]
fn resolution_picks_the_first_address() {
    let first = SocketAddr::V4([93, 184, 216, 34], 80);
    let second = SocketAddr::V6([1, 2, 3, 4, 5, 6, 7, 8], 80);
    let name = Address::domain("example.com", 80).unwrap();
    assert_eq!(name.to_socket_addrs(&[first, second]), Ok(first));
    assert_eq!(name.to_socket_addrs(&[second, first]), Ok(second));
    assert_eq!(name.to_socket_addrs(&[]), Err(ConnectError::Unresolved));
    let ip = Address::SocketAddress(second);
    assert_eq!(ip.to_socket_addrs(&[first]), Ok(second));
    assert_eq!(ip.to_socket_addrs(&[]), Ok(second));
}

#[test]
fn writers_append_to_the_buffer() {
    let mut buf = vec![0xaa];
    write_ipv4_address(&[1, 2, 3, 4], 0x0506, &mut buf);
    assert_eq!(buf, vec![0xaa, 1, 1, 2, 3, 4, 5, 6]);
    let mut buf = vec![0xbb];
    write_ipv6_address(&[0x0102, 0, 0, 0, 0, 0, 0, 0x0f10], 0x0708, &mut buf);
    assert_eq!(
        buf,
        vec![0xbb, 4, 1, 2, 0, 0, 0, 0, 0, 0, 0, 0, 0, 0, 0, 0, 0x0f, 0x10, 7, 8]
    );
    let mut buf = vec![0xcc];
    write_domain_name_address("ab", 0x0102, &mut buf);
    assert_eq!(buf, vec![0xcc, 3, 2, b'a', b'b', 1, 2]);
    let mut buf = Vec::new();
    write_socket_address(&SocketAddr::V4([9, 8, 7, 6], 1), &mut buf);
    write_address(&Address::domain("x", 2).unwrap(), &mut buf);
    assert_eq!(buf, vec![1, 9, 8, 7, 6, 0, 1, 3, 1, b'x', 0, 2]);
}

#[test]
fn authentication_request_decodes_the_offered_methods() {
    let (req, n) = AuthenticationRequest::read_from(&[5, 3, 0, 1, 2]).unwrap();
    assert_eq!(req.methods, vec![Method::NoAuth, Method::GssApi, Method::Password]);
    assert_eq!(n, 5);
    assert!(!req.required_authentication());
}

#[test]
fn authentication_request_drops_unassigned_methods() {
    let (req, n) = AuthenticationRequest::read_from(&[5, 5, 0x80, 2, 0x03, 2, 0xff, 7, 7]).unwrap();
    assert_eq!(
        req.methods,
        vec![Method::Password, Method::Password, Method::NotAcceptable]
    );
    assert_eq!(n, 7);
    assert!(req.required_authentication());
}

#[test]
fn authentication_is_required_without_no_auth() {
    let none = AuthenticationRequest { methods: vec![] };
    assert!(none.required_authentication());
    let password = AuthenticationRequest { methods: vec![Method::Password, Method::GssApi] };
    assert!(password.required_authentication());
    let last = AuthenticationRequest { methods: vec![Method::Password, Method::NoAuth] };
    assert!(!last.required_authentication());
    let twice = AuthenticationRequest { methods: vec![Method::NoAuth, Method::NoAuth] };
    assert!(!twice.required_authentication());
    let (empty, n) = AuthenticationRequest::read_from(&[5, 0]).unwrap();
    assert_eq!(n, 2);
    assert!(empty.required_authentication());
    for codes in [vec![1u8, 2, 0], vec![0], vec![2, 0, 2], vec![1, 2, 3], vec![0xff]] {
        let mut bytes = vec![5u8, codes.len() as u8];
        bytes.extend_from_slice(&codes);
        let (req, _) = AuthenticationRequest::read_from(&bytes).unwrap();
        assert_eq!(req.required_authentication(), !codes.contains(&0));
    }
}

#[test]
fn authentication_request_needs_more_bytes() {
    assert_eq!(needed(AuthenticationRequest::read_from(&[])), 1);
    assert_eq!(needed(AuthenticationRequest::read_from(&[5])), 1);
    assert_eq!(needed(AuthenticationRequest::read_from(&[5, 3])), 3);
    assert_eq!(needed(AuthenticationRequest::read_from(&[5, 3, 0, 1])), 1);
    assert_eq!(needed(AuthenticationRequest::read_from(&[5, 255])), 255);
}

#[test]
fn authentication_request_rejects_other_versions() {
    let e = protocol_error(AuthenticationRequest::read_from(&[4, 1, 0]));
    assert_eq!(e.reply, Replies::GeneralFailure);
    assert_eq!(e.message(), "unsupported socks version 0x4");
    let e = protocol_error(AuthenticationRequest::read_from(&[0x47]));
    assert_eq!(e.message(), "unsupported socks version 0x47");
}

#[test]
fn authentication_response_is_two_bytes() {
    let chosen: AuthenticationResponse = Method::NoAuth.into();
    assert_eq!(chosen.to_bytes(), vec![0x05, 0x00]);
    let refused: AuthenticationResponse = Method::NotAcceptable.into();
    assert_eq!(refused.to_bytes(), vec![0x05, 0xff]);
    let other = AuthenticationResponse::from(Method::InvalidMethod(0x42));
    assert_eq!(other.to_bytes(), vec![0x05, 0x42]);
}

#[test]
fn request_header_decodes_connect() {
    let bytes = [0x05, 0x01, 0x00, 0x01, 0x7f, 0x00, 0x00, 0x01, 0x1f, 0x90];
    let (h, n) = TcpRequestHeader::read_from(&bytes).unwrap();
    assert_eq!(h.command, Command::Connect);
    assert_eq!(h.address, Address::SocketAddress(SocketAddr::V4([127, 0, 0, 1], 8080)));
    assert_eq!(n, 10);
}

#[test]
fn request_header_passes_over_the_reserved_byte() {
    let mut bytes = vec![0x05, 0x03, 0x77, 0x03, 2];
    bytes.extend_from_slice(b"ab");
    bytes.extend_from_slice(&[0, 53, 1, 2, 3]);
    let (h, n) = TcpRequestHeader::read_from(&bytes).unwrap();
    assert_eq!(h.command, Command::UdpAssociate);
    assert_eq!(h.address, Address::DomainNameAddress("ab".to_string(), 53));
    assert_eq!(n, 9);
}

#[test]
fn request_header_needs_more_bytes() {
    assert_eq!(needed(TcpRequestHeader::read_from(&[])), 1);
    assert_eq!(needed(TcpRequestHeader::read_from(&[5])), 1);
    assert_eq!(needed(TcpRequestHeader::read_from(&[5, 1])), 1);
    assert_eq!(needed(TcpRequestHeader::read_from(&[5, 1, 0])), 1);
    assert_eq!(needed(TcpRequestHeader::read_from(&[5, 1, 0, 1])), 6);
    assert_eq!(needed(TcpRequestHeader::read_from(&[5, 2, 0, 3, 4, b'a'])), 3);
    assert_eq!(needed(TcpRequestHeader::read_from(&[5, 2, 0, 4, 0])), 17);
}

#[test]
fn request_header_rejects_other_versions() {
    let e = protocol_error(TcpRequestHeader::read_from(&[4, 1, 0, 1, 1, 2, 3, 4, 0, 80]));
    assert_eq!(e.reply, Replies::ConnectionRefused);
    assert_eq!(e.message(), "unsupported socks version 0x4");
    let e = protocol_error(TcpRequestHeader::read_from(&[0]));
    assert_eq!(e.reply, Replies::ConnectionRefused);
}

#[test]
fn request_header_rejects_unknown_commands() {
    let e = protocol_error(TcpRequestHeader::read_from(&[5, 4, 0, 1, 1, 2, 3, 4, 0, 80]));
    assert_eq!(e.reply, Replies::CommandNotSupported);
    assert_eq!(e.message(), "unsupported command 0x4");
    let e = protocol_error(TcpRequestHeader::read_from(&[5, 0]));
    assert_eq!(e.reply, Replies::CommandNotSupported);
    assert_eq!(e.message(), "unsupported command 0x0");
}

#[test]
fn request_header_hands_on_address_failures() {
    let e = protocol_error(TcpRequestHeader::read_from(&[5, 1, 0, 2, 1, 2, 3]));
    assert_eq!(e.reply, Replies::AddressTypeNotSupported);
    assert_eq!(e.message(), "not supported address type 0x2");
    let e = protocol_error(TcpRequestHeader::read_from(&[5, 1, 0, 3, 1, 0x80, 0, 1]));
    assert_eq!(e.reply, Replies::GeneralFailure);
    assert_eq!(e.message(), "invalid address encoding");
}

#[test]
fn response_header_encodes_reply_and_address() {
    let h = TcpResponseHeader::new(
        Replies::ConnectionRefused,
        Address::SocketAddress(SocketAddr::V4([127, 0, 0, 1], 8080)),
    );
    assert_eq!(h.len(), 10);
    assert_eq!(
        h.to_bytes(),
        vec![0x05, 0x05, 0x00, 0x01, 0x7f, 0x00, 0x00, 0x01, 0x1f, 0x90]
    );
    let h = Replies::Succeeded.into_response(Address::domain("a.b", 0x0102).unwrap());
    assert_eq!(h.reply, Replies::Succeeded);
    assert_eq!(h.len(), 3 + 4 + 3);
    assert_eq!(h.to_bytes(), vec![5, 0, 0, 3, 3, b'a', b'.', b'b', 1, 2]);
    let h = Replies::OtherReply(0x99).into_response(Address::SocketAddress(SocketAddr::V6(
        [0, 0, 0, 0, 0, 0, 0, 1],
        1,
    )));
    let bytes = h.to_bytes();
    assert_eq!(bytes.len(), 22);
    assert_eq!(&bytes[..4], &[5, 0x99, 0, 4]);
}

use socks5_relay::socks5::{Acceptor, Address, FailStatus, IpAddr, Pending, ProtocolError, Step};

/// Negotiates a connect request to the address that `address` encodes, port
/// 80, over the stream `stream`.
fn session<S: std::fmt::Debug>(stream: S, address: &[u8]) -> Acceptor<S> {
    let mut script = vec![5, 1, 0, 5, 1, 0];
    script.extend_from_slice(address);
    script.extend_from_slice(&[0, 80]);
    let (stream, pending) = match Acceptor::accept(stream, Pending::new(), &script) {
        Step::Write(stream, pending, _) => (stream, pending),
        other => panic!("unexpected step: {:?}", other),
    };
    match Acceptor::accept(stream, pending, &[]) {
        Step::Accepted(_, acceptor) => acceptor,
        other => panic!("unexpected step: {:?}", other),
    }
}

const V4: [u8; 5] = [1, 93, 184, 216, 34];
const V6: [u8; 17] = [4, 0x26, 0x06, 0x28, 0, 0x02, 0x20, 0, 1, 0x02, 0x48, 0x18, 0x93, 0x25, 0xc8, 0x19, 0x46];
const DOMAIN: [u8; 13] = [3, 11, b'e', b'x', b'a', b'm', b'p', b'l', b'e', b'.', b'c', b'o', b'm'];

#[test]
fn success_reply_reports_the_bound_address() {
    let (stream, reply) = session("client", &V4)
        .reply_success(&Address::IP(IpAddr::V4([192, 168, 0, 17])), 54321)
        .expect("an IP address can be reported");
    assert_eq!(stream, "client");
    assert_eq!(reply, vec![0x05, 0x00, 0x00, 0x01, 192, 168, 0, 17, 0xd4, 0x31]);
}

#[test]
fn success_reply_with_ipv6_bound_address() {
    let bound = [0xfe, 0x80, 0, 0, 0, 0, 0, 0, 0, 0, 0, 0, 0, 0, 0, 9];
    let (_, reply) = session((), &V4)
        .reply_success(&Address::IP(IpAddr::V6(bound)), 1080)
        .expect("an IP address can be reported");
    let mut expected = vec![0x05, 0x00, 0x00, 0x04];
    expected.extend_from_slice(&bound);
    expected.extend_from_slice(&[0x04, 0x38]);
    assert_eq!(reply, expected);
}

#[test]
fn success_reply_with_domain_bound_address() {
    let (_, reply) = session((), &V6)
        .reply_success(&Address::Domain("gw".to_string()), 1)
        .expect("a short name can be reported");
    assert_eq!(reply, vec![0x05, 0x00, 0x00, 0x03, 2, b'g', b'w', 0x00, 0x01]);
}

#[test]
fn success_reply_port_is_big_endian() {
    for (port, bytes) in [(0u16, [0u8, 0u8]), (1, [0, 1]), (255, [0, 255]), (256, [1, 0]), (0xabcd, [0xab, 0xcd]), (65535, [255, 255])] {
        let (_, reply) = session((), &V4)
            .reply_success(&Address::IP(IpAddr::V4([0, 0, 0, 0])), port)
            .expect("an IP address can be reported");
        assert_eq!(&reply[reply.len() - 2..], &bytes);
    }
}

#[test]
fn success_reply_rejects_overlong_domain() {
    let r = session("client", &V4).reply_success(&Address::Domain("x".repeat(256)), 80);
    assert_eq!(r, Err(ProtocolError::DomainTooLong));
    let (_, reply) = session("client", &V4)
        .reply_success(&Address::Domain("x".repeat(255)), 80)
        .expect("255 bytes can be reported");
    assert_eq!(reply.len(), 3 + 257 + 2);
}

#[test]
fn failure_reply_to_ipv4_session() {
    let (stream, reply) = session(7u8, &V4).reply_failure(FailStatus::ConnectionRefused);
    assert_eq!(stream, 7);
    assert_eq!(reply, vec![0x05, 0x05, 0x00, 0x01, 0, 0, 0, 0, 0x00, 0x00]);
}

#[test]
fn failure_reply_to_ipv6_session() {
    let (stream, reply) = session(7u8, &V6).reply_failure(FailStatus::HostUnreachable);
    assert_eq!(stream, 7);
    let mut expected = vec![0x05, 0x04, 0x00, 0x04];
    expected.extend_from_slice(&[0; 16]);
    expected.extend_from_slice(&[0x00, 0x00]);
    assert_eq!(reply, expected);
    assert_eq!(reply.len(), 22);
}

#[test]
fn failure_reply_to_domain_session() {
    let (_, reply) = session((), &DOMAIN).reply_failure(FailStatus::GeneralFailure);
    assert_eq!(reply, vec![0x05, 0x01, 0x00, 0x01, 0, 0, 0, 0, 0x00, 0x00]);
}

#[test]
fn failure_reply_carries_every_status() {
    let all = [
        (FailStatus::GeneralFailure, 1u8),
        (FailStatus::NotAllowed, 2),
        (FailStatus::NetworkUnreachable, 3),
        (FailStatus::HostUnreachable, 4),
        (FailStatus::ConnectionRefused, 5),
        (FailStatus::TtlExpired, 6),
        (FailStatus::CommandNotSupported, 7),
        (FailStatus::AddressTypeNotSupported, 8),
    ];
    for (status, code) in all {
        let (_, reply) = session((), &V4).reply_failure(status);
        assert_eq!(reply, vec![0x05, code, 0x00, 0x01, 0, 0, 0, 0, 0x00, 0x00]);
        let (_, reply) = session((), &V6).reply_failure(status);
        assert_eq!(reply.len(), 22);
        assert_eq!(&reply[..4], &[0x05, code, 0x00, 0x04]);
        assert!(reply[4..].iter().all(|b| *b == 0));
    }
}

use socks5_relay::socks5::{Address, IpAddr, ParseError, ProtocolError};

fn encode(address: &Address) -> Vec<u8> {
    let mut buf = Vec::new();
    address.write(&mut buf).expect("the address can be encoded");
    buf
}

fn round_trip(address: Address) {
    let bytes = encode(&address);
    assert_eq!(Address::parse(&bytes), Ok((address.clone(), bytes.len())));
    let mut longer = bytes.clone();
    longer.extend_from_slice(&[0xde, 0xad]);
    assert_eq!(Address::parse(&longer), Ok((address, bytes.len())));
}

#[test]
fn parses_ipv4() {
    assert_eq!(
        Address::parse(&[0x01, 127, 0, 0, 1]),
        Ok((Address::IP(IpAddr::V4([127, 0, 0, 1])), 5))
    );
}

#[test]
fn parses_ipv6() {
    let mut input = vec![0x04];
    input.extend_from_slice(&[0x20, 0x01, 0x0d, 0xb8, 0, 0, 0, 0, 0, 0, 0, 0, 0, 0, 0, 1]);
    assert_eq!(
        Address::parse(&input),
        Ok((
            Address::IP(IpAddr::V6([0x20, 0x01, 0x0d, 0xb8, 0, 0, 0, 0, 0, 0, 0, 0, 0, 0, 0, 1])),
            17
        ))
    );
}

#[test]
fn parses_domain() {
    let mut input = vec![0x03, 11];
    input.extend_from_slice(b"example.com");
    assert_eq!(
        Address::parse(&input),
        Ok((Address::Domain("example.com".to_string()), 13))
    );
}

#[test]
fn parses_empty_domain() {
    assert_eq!(Address::parse(&[0x03, 0]), Ok((Address::Domain(String::new()), 2)));
}

#[test]
fn parses_domain_of_multibyte_characters() {
    let name = "bücher.example";
    let mut input = vec![0x03, name.len() as u8];
    input.extend_from_slice(name.as_bytes());
    assert_eq!(name.len(), 15);
    assert_eq!(Address::parse(&input), Ok((Address::Domain(name.to_string()), 17)));
}

#[test]
fn parse_ignores_what_follows_the_address() {
    assert_eq!(
        Address::parse(&[0x01, 10, 0, 0, 7, 0x1f, 0x90, 0xff]),
        Ok((Address::IP(IpAddr::V4([10, 0, 0, 7])), 5))
    );
    assert_eq!(
        Address::parse(&[0x03, 1, b'a', b'b', b'c']),
        Ok((Address::Domain("a".to_string()), 3))
    );
}

#[test]
fn parse_rejects_unknown_address_type() {
    for tag in [0x00u8, 0x02, 0x05, 0x7f, 0xff] {
        assert_eq!(
            Address::parse(&[tag, 1, 2, 3, 4, 5, 6, 7, 8, 9, 10, 11, 12, 13, 14, 15, 16]),
            Err(ParseError::Invalid(ProtocolError::UnsupportedAddressType))
        );
    }
    assert_eq!(
        Address::parse(&[0x02]),
        Err(ParseError::Invalid(ProtocolError::UnsupportedAddressType))
    );
}

#[test]
fn parse_rejects_domain_that_is_not_utf8() {
    assert_eq!(
        Address::parse(&[0x03, 2, 0xc3, 0x28]),
        Err(ParseError::Invalid(ProtocolError::InvalidDomain))
    );
    assert_eq!(
        Address::parse(&[0x03, 1, 0xff, 0, 80]),
        Err(ParseError::Invalid(ProtocolError::InvalidDomain))
    );
}

#[test]
fn parse_says_how_much_is_missing() {
    assert_eq!(Address::parse(&[]), Err(ParseError::Incomplete(1)));
    assert_eq!(Address::parse(&[0x01]), Err(ParseError::Incomplete(4)));
    assert_eq!(Address::parse(&[0x01, 127, 0]), Err(ParseError::Incomplete(2)));
    assert_eq!(Address::parse(&[0x04]), Err(ParseError::Incomplete(16)));
    assert_eq!(Address::parse(&[0x04, 0, 0, 0, 0, 0, 0, 0, 0, 0, 0, 0, 0, 0, 0, 0]), Err(ParseError::Incomplete(1)));
    assert_eq!(Address::parse(&[0x03]), Err(ParseError::Incomplete(1)));
    assert_eq!(Address::parse(&[0x03, 5]), Err(ParseError::Incomplete(5)));
    assert_eq!(Address::parse(&[0x03, 255]), Err(ParseError::Incomplete(255)));
}

#[test]
fn parse_rejects_domain_shorter_than_declared() {
    assert_eq!(Address::parse(&[0x03, 5, b'a']), Err(ParseError::Incomplete(4)));
    assert_eq!(
        Address::parse(&[0x03, 11, b'e', b'x', b'a', b'm', b'p', b'l', b'e', b'.', b'c', b'o']),
        Err(ParseError::Incomplete(1))
    );
    let mut input = vec![0x03, 255];
    input.extend_from_slice(&[b'x'; 254]);
    assert_eq!(Address::parse(&input), Err(ParseError::Incomplete(1)));
    // Bytes that are not UTF-8 do not matter before the name is whole.
    assert_eq!(Address::parse(&[0x03, 3, 0xff]), Err(ParseError::Incomplete(2)));
}

#[test]
fn writes_ipv4() {
    assert_eq!(encode(&Address::IP(IpAddr::V4([192, 168, 1, 20]))), vec![0x01, 192, 168, 1, 20]);
}

#[test]
fn writes_ipv6() {
    let octets = [0xfe, 0x80, 0, 0, 0, 0, 0, 0, 1, 2, 3, 4, 5, 6, 7, 8];
    let mut expected = vec![0x04];
    expected.extend_from_slice(&octets);
    assert_eq!(encode(&Address::IP(IpAddr::V6(octets))), expected);
}

#[test]
fn writes_domain() {
    assert_eq!(
        encode(&Address::Domain("rust-lang.org".to_string())),
        vec![0x03, 13, b'r', b'u', b's', b't', b'-', b'l', b'a', b'n', b'g', b'.', b'o', b'r', b'g']
    );
    assert_eq!(encode(&Address::Domain(String::new())), vec![0x03, 0]);
}

#[test]
fn write_appends_to_what_the_buffer_holds() {
    let mut buf = vec![0x05, 0x00, 0x00];
    assert_eq!(Address::IP(IpAddr::V4([1, 2, 3, 4])).write(&mut buf), Ok(()));
    assert_eq!(buf, vec![0x05, 0x00, 0x00, 0x01, 1, 2, 3, 4]);
    assert_eq!(Address::Domain("ab".to_string()).write(&mut buf), Ok(()));
    assert_eq!(buf, vec![0x05, 0x00, 0x00, 0x01, 1, 2, 3, 4, 0x03, 2, b'a', b'b']);
}

#[test]
fn write_accepts_domain_of_255_bytes() {
    let name = "n".repeat(255);
    let address = Address::Domain(name.clone());
    assert!(address.encodable());
    let bytes = encode(&address);
    assert_eq!(bytes.len(), 257);
    assert_eq!(&bytes[..2], &[0x03, 255]);
    assert_eq!(&bytes[2..], name.as_bytes());
}

#[test]
fn write_rejects_domain_over_255_bytes() {
    let address = Address::Domain("n".repeat(256));
    assert!(!address.encodable());
    let mut buf = vec![9, 9];
    assert_eq!(address.write(&mut buf), Err(ProtocolError::DomainTooLong));
    assert_eq!(buf, vec![9, 9]);
    // The bound is on bytes, not on characters.
    let address = Address::Domain("ü".repeat(128));
    let mut buf = Vec::new();
    assert_eq!(address.write(&mut buf), Err(ProtocolError::DomainTooLong));
    assert!(buf.is_empty());
    assert!(Address::Domain("ü".repeat(127)).encodable());
}

#[test]
fn round_trip_ipv4() {
    round_trip(Address::IP(IpAddr::V4([0, 0, 0, 0])));
    round_trip(Address::IP(IpAddr::V4([127, 0, 0, 1])));
    round_trip(Address::IP(IpAddr::V4([255, 255, 255, 255])));
    round_trip(Address::IP(IpAddr::V4([1, 3, 4, 1])));
}

#[test]
fn round_trip_ipv6() {
    round_trip(Address::IP(IpAddr::V6([0; 16])));
    round_trip(Address::IP(IpAddr::V6([0xff; 16])));
    round_trip(Address::IP(IpAddr::V6([0, 0, 0, 0, 0, 0, 0, 0, 0, 0, 0, 0, 0, 0, 0, 1])));
    round_trip(Address::IP(IpAddr::V6([1, 2, 3, 4, 5, 6, 7, 8, 9, 10, 11, 12, 13, 14, 15, 16])));
}

#[test]
fn round_trip_domains() {
    round_trip(Address::Domain(String::new()));
    round_trip(Address::Domain("a".to_string()));
    round_trip(Address::Domain("example.com".to_string()));
    round_trip(Address::Domain("例え.テスト".to_string()));
    round_trip(Address::Domain("d".repeat(255)));
    round_trip(Address::Domain("ü".repeat(127)));
}

#[test]
fn default_address_is_unspecified() {
    assert_eq!(Address::default(false), Address::IP(IpAddr::V4([0, 0, 0, 0])));
    assert_eq!(Address::default(true), Address::IP(IpAddr::V6([0; 16])));
    assert_eq!(encode(&Address::default(false)), vec![0x01, 0, 0, 0, 0]);
    assert_eq!(encode(&Address::default(true)), vec![0x04, 0, 0, 0, 0, 0, 0, 0, 0, 0, 0, 0, 0, 0, 0, 0, 0]);
}

#[test]
fn only_ipv6_addresses_are_v6() {
    assert!(Address::IP(IpAddr::V6([0; 16])).is_v6());
    assert!(!Address::IP(IpAddr::V4([0; 4])).is_v6());
    assert!(!Address::Domain("::1".to_string()).is_v6());
}

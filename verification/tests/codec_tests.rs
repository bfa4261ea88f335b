use outbound_tunnel::codec::{decode_request, encode_request};
use outbound_tunnel::request::{Address, Command, InboundRequest, TransportProtocol};
use outbound_tunnel::token::derive_token;

fn sample_token() -> Vec<u8> {
    derive_token(&b"s3cr3t".to_vec())
}

#[test]
fn header_layout_ipv4() {
    let token = sample_token();
    let request = InboundRequest {
        transport_protocol: TransportProtocol::Tcp,
        command: Command::Connect,
        address: Address::IpV4 { octets: [127, 0, 0, 1] },
        port: 9001,
    };
    let header = encode_request(&token, &request);
    let mut expected = token.clone();
    expected.push(0x01); // command
    expected.push(0x01); // address type
    expected.extend_from_slice(&[127, 0, 0, 1]);
    expected.extend_from_slice(&[0x23, 0x29]); // 9001 in network byte order
    expected.extend_from_slice(&[0x0d, 0x0a]);
    assert_eq!(header, expected);
}

#[test]
fn round_trip_ipv4() {
    let token = sample_token();
    let request = InboundRequest {
        transport_protocol: TransportProtocol::Tcp,
        command: Command::Connect,
        address: Address::IpV4 { octets: [10, 1, 2, 3] },
        port: 443,
    };
    let header = encode_request(&token, &request);
    let (d, used) = decode_request(&header).expect("a well-formed header decodes");
    assert_eq!(used, header.len());
    assert_eq!(d.token, token);
    assert_eq!(d.command, Command::Connect);
    assert_eq!(d.address, Address::IpV4 { octets: [10, 1, 2, 3] });
    assert_eq!(d.port, 443);
}

#[test]
fn round_trip_domain_with_payload() {
    let token = sample_token();
    let request = InboundRequest {
        transport_protocol: TransportProtocol::Tcp,
        command: Command::UdpAssociate,
        address: Address::Domain { name: b"example.com".to_vec() },
        port: 65535,
    };
    let mut bytes = encode_request(&token, &request);
    let header_len = bytes.len();
    bytes.extend_from_slice(b"payload after the header");
    let (d, used) = decode_request(&bytes).expect("a well-formed header decodes");
    assert_eq!(used, header_len);
    assert_eq!(d.command, Command::UdpAssociate);
    assert_eq!(d.address, Address::Domain { name: b"example.com".to_vec() });
    assert_eq!(d.port, 65535);
}

#[test]
fn round_trip_ipv6() {
    let token = sample_token();
    let octets = [0u8, 1, 2, 3, 4, 5, 6, 7, 8, 9, 10, 11, 12, 13, 14, 15];
    let request = InboundRequest {
        transport_protocol: TransportProtocol::Udp,
        command: Command::Bind,
        address: Address::IpV6 { octets },
        port: 0,
    };
    let header = encode_request(&token, &request);
    let (d, used) = decode_request(&header).expect("a well-formed header decodes");
    assert_eq!(used, header.len());
    assert_eq!(d.command, Command::Bind);
    assert_eq!(d.address, Address::IpV6 { octets });
    assert_eq!(d.port, 0);
}

#[test]
fn decode_rejects_short_buffer() {
    assert!(decode_request(&b"too short".to_vec()).is_none());
}

#[test]
fn decode_rejects_bad_command() {
    let token = sample_token();
    let request = InboundRequest {
        transport_protocol: TransportProtocol::Tcp,
        command: Command::Connect,
        address: Address::IpV4 { octets: [1, 2, 3, 4] },
        port: 80,
    };
    let mut header = encode_request(&token, &request);
    header[56] = 0x07; // not a command byte
    assert!(decode_request(&header).is_none());
}

#[test]
fn decode_rejects_missing_terminator() {
    let token = sample_token();
    let request = InboundRequest {
        transport_protocol: TransportProtocol::Tcp,
        command: Command::Connect,
        address: Address::IpV4 { octets: [1, 2, 3, 4] },
        port: 80,
    };
    let mut header = encode_request(&token, &request);
    let n = header.len();
    header[n - 2] = 0x00; // clobber the CR
    assert!(decode_request(&header).is_none());
}

#[test]
fn decode_rejects_bad_address_type() {
    let token = sample_token();
    let request = InboundRequest {
        transport_protocol: TransportProtocol::Tcp,
        command: Command::Connect,
        address: Address::IpV4 { octets: [1, 2, 3, 4] },
        port: 80,
    };
    let mut header = encode_request(&token, &request);
    header[57] = 0x02; // not an address type
    assert!(decode_request(&header).is_none());
}

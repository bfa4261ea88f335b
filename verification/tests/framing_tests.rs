use outbound_tunnel::errors::SessionError;
use outbound_tunnel::framing::{decode_datagram, decode_datagrams, encode_datagram, encode_datagrams, Datagram};
use outbound_tunnel::request::Address;

fn sample_datagrams() -> Vec<Datagram> {
    vec![
        Datagram {
            address: Address::IpV4 { octets: [8, 8, 8, 8] },
            port: 53,
            payload: b"first datagram".to_vec(),
        },
        Datagram {
            address: Address::Domain { name: b"dns.example".to_vec() },
            port: 853,
            payload: Vec::new(),
        },
        Datagram {
            address: Address::IpV6 { octets: [0xfe, 0x80, 0, 0, 0, 0, 0, 0, 0, 0, 0, 0, 0, 0, 0, 1] },
            port: 4242,
            payload: vec![0u8; 1500],
        },
    ]
}

#[test]
fn record_layout_ipv4() {
    let d = Datagram {
        address: Address::IpV4 { octets: [1, 2, 3, 4] },
        port: 258,
        payload: b"hi".to_vec(),
    };
    let r = encode_datagram(&d);
    assert_eq!(r, vec![0x01, 1, 2, 3, 4, 0x01, 0x02, 0x00, 0x02, b'h', b'i']);
}

#[test]
fn framing_round_trip() {
    let ds = sample_datagrams();
    let stream = encode_datagrams(&ds);
    let back = decode_datagrams(&stream).expect("well-formed records decode");
    assert_eq!(back.len(), ds.len());
    for (a, b) in ds.iter().zip(back.iter()) {
        assert_eq!(a.address, b.address);
        assert_eq!(a.port, b.port);
        assert_eq!(a.payload, b.payload);
    }
}

#[test]
fn empty_stream_is_no_datagrams() {
    let back = decode_datagrams(&Vec::new()).expect("an empty stream decodes");
    assert!(back.is_empty());
}

#[test]
fn one_record_from_a_position() {
    let ds = sample_datagrams();
    let stream = encode_datagrams(&ds);
    let first = encode_datagram(&ds[0]);
    let (d, used) = decode_datagram(&stream, 0).expect("the first record decodes");
    assert_eq!(used, first.len());
    assert_eq!(d.address, ds[0].address);
    assert_eq!(d.port, ds[0].port);
    assert_eq!(d.payload, ds[0].payload);
    let (d2, _) = decode_datagram(&stream, used).expect("the second record decodes");
    assert_eq!(d2.address, ds[1].address);
}

#[test]
fn largest_record_round_trips() {
    // The widest payload the two-byte length field can carry, and the
    // longest domain name the one-byte prefix can carry.
    let d = Datagram {
        address: Address::Domain { name: vec![b'a'; 255] },
        port: 65535,
        payload: vec![0xabu8; 65535],
    };
    let stream = encode_datagram(&d);
    let (back, used) = decode_datagram(&stream, 0).expect("the largest record decodes");
    assert_eq!(used, stream.len());
    assert_eq!(back, d);
}

#[test]
fn truncated_record_is_a_framing_error() {
    let ds = sample_datagrams();
    let mut stream = encode_datagrams(&ds);
    stream.pop();
    assert_eq!(decode_datagrams(&stream), Err(SessionError::FramingError));
}

#[test]
fn bad_address_type_is_a_framing_error() {
    let d = Datagram {
        address: Address::IpV4 { octets: [1, 2, 3, 4] },
        port: 80,
        payload: b"x".to_vec(),
    };
    let mut stream = encode_datagram(&d);
    stream[0] = 0x09; // not an address type
    assert_eq!(decode_datagrams(&stream), Err(SessionError::FramingError));
}

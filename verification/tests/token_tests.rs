use outbound_tunnel::token::{derive_token, hex_encode, TOKEN_WIDTH};

#[test]
fn hex_encode_exact() {
    let r = hex_encode(&vec![0x00u8, 0xff, 0x1a, 0x09]);
    assert_eq!(r, b"00ff1a09".to_vec());
}

#[test]
fn hex_encode_empty() {
    let r = hex_encode(&Vec::new());
    assert_eq!(r, Vec::<u8>::new());
}

#[test]
fn token_of_empty_secret() {
    // The 224-bit digest of the empty input is a published test vector.
    let t = derive_token(&Vec::new());
    assert_eq!(
        t,
        b"d14a028c2a3a2bc9476102bb288234c415a2b01f828ea62ac5b3e42f".to_vec()
    );
}

#[test]
fn token_of_abc() {
    // The 224-bit digest of "abc" is a published test vector.
    let t = derive_token(&b"abc".to_vec());
    assert_eq!(
        t,
        b"23097d223405d8228642a477bda255b32aadbce4bda0b3f7e36c9da7".to_vec()
    );
}

#[test]
fn token_width_and_charset() {
    let t = derive_token(&b"s3cr3t".to_vec());
    assert_eq!(t.len(), TOKEN_WIDTH);
    for c in &t {
        assert!((b'0'..=b'9').contains(c) || (b'a'..=b'f').contains(c));
    }
}

#[test]
fn token_deterministic() {
    let a = derive_token(&b"same secret".to_vec());
    let b = derive_token(&b"same secret".to_vec());
    assert_eq!(a, b);
    let c = derive_token(&b"other secret".to_vec());
    assert_ne!(a, c);
}

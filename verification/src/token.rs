//! Secret derivation: a plaintext pre-shared secret becomes the fixed-width
//! authentication token sent in the handshake. The token is the 224-bit
//! digest of the secret rendered as 56 lowercase hexadecimal characters.

use sha2::Digest;
use vstd::prelude::*;

verus! {

/// The width in bytes of a derived authentication token.
pub const TOKEN_WIDTH: usize = 56;

/// The 224-bit digest of a byte sequence, as the digest function computes it.
/// The result depends on the input bytes alone.
pub uninterp spec fn sha224_of(input: Seq<u8>) -> Seq<u8>;

/// Relies on sha2::Sha224 (through digest::Digest::digest): a 224-bit, that
/// is 28-byte, digest that is a deterministic function of the input bytes.
#[verifier::external_body]
fn sha224_digest(input: &Vec<u8>) -> (r: Vec<u8>)
    ensures
        r@ == sha224_of(input@),
        r@.len() == 28,
{
    sha2::Sha224::digest(input.as_slice()).to_vec()
}

/// The lowercase hexadecimal character (as a byte) for a value below 16.
pub open spec fn hex_digit(n: u8) -> u8 {
    if n < 10 {
        (48 + n) as u8
    } else {
        (87 + n) as u8
    }
}

/// A byte that is an ASCII lowercase hexadecimal character.
pub open spec fn is_lower_hex(c: u8) -> bool {
    (48 <= c <= 57) || (97 <= c <= 102)
}

/// The lowercase hexadecimal rendering of a byte sequence: each byte becomes
/// two characters, high nibble first.
pub open spec fn hex_of(s: Seq<u8>) -> Seq<u8>
    decreases s.len(),
{
    if s.len() == 0 {
        Seq::empty()
    } else {
        hex_of(s.drop_last()) + seq![hex_digit(s.last() / 16), hex_digit(s.last() % 16)]
    }
}

/// The token derived from a plaintext secret: the hexadecimal rendering of
/// its 224-bit digest. A deterministic function of the secret.
pub open spec fn token_of(secret: Seq<u8>) -> Seq<u8> {
    hex_of(sha224_of(secret))
}

/// The hexadecimal rendering doubles the length and yields only lowercase
/// hexadecimal characters.
pub proof fn lemma_hex_of_props(s: Seq<u8>)
    ensures
        hex_of(s).len() == 2 * s.len(),
        forall|i: int| 0 <= i < hex_of(s).len() ==> is_lower_hex(#[trigger] hex_of(s)[i]),
    decreases s.len(),
{
    if s.len() > 0 {
        lemma_hex_of_props(s.drop_last());
    }
}

/// The derived token is a deterministic function of the plaintext secret
/// alone: equal secrets always derive equal tokens.
pub proof fn lemma_token_deterministic(s1: Seq<u8>, s2: Seq<u8>)
    requires
        s1 == s2,
    ensures
        token_of(s1) == token_of(s2),
{
}

/// Render a byte sequence as lowercase hexadecimal characters.
pub fn hex_encode(bytes: &Vec<u8>) -> (r: Vec<u8>)
    ensures
        r@ == hex_of(bytes@),
{
    let mut r: Vec<u8> = Vec::new();
    let mut i: usize = 0;
    while i < bytes.len()
        invariant
            i <= bytes.len(),
            r@ == hex_of(bytes@.take(i as int)),
        decreases bytes.len() - i,
    {
        let b = bytes[i];
        let hi: u8 = b / 16;
        let lo: u8 = b % 16;
        r.push(if hi < 10 { 48 + hi } else { 87 + hi });
        r.push(if lo < 10 { 48 + lo } else { 87 + lo });
        i = i + 1;
        proof {
            assert(bytes@.take(i as int).drop_last() =~= bytes@.take(i - 1));
            assert(bytes@.take(i as int).last() == bytes@[i - 1]);
        }
    }
    proof {
        assert(bytes@.take(bytes@.len() as int) =~= bytes@);
    }
    r
}

/// Derive the fixed-width authentication token from a plaintext secret:
/// exactly 56 lowercase hexadecimal characters, a deterministic function of
/// the secret alone.
pub fn derive_token(secret: &Vec<u8>) -> (r: Vec<u8>)
    ensures
        r@ == token_of(secret@),
        r@.len() == TOKEN_WIDTH,
        forall|i: int| 0 <= i < r@.len() ==> is_lower_hex(#[trigger] r@[i]),
{
    let digest = sha224_digest(secret);
    let r = hex_encode(&digest);
    proof {
        lemma_hex_of_props(digest@);
    }
    r
}

} // verus!

//! Handshake codec: the one-shot authenticated request header sent at the
//! start of a tunneled session, and the decoder a receiving peer uses. The
//! layout is token (fixed width) | command byte | address type byte | address
//! (type-determined, length-prefixed for domains) | port (2 bytes, network
//! byte order) | CRLF.

use vstd::prelude::*;
use vstd::slice::{slice_subrange, slice_to_vec};
use crate::request::{
    addr_chars, addr_wf, atype_byte_spec, command_byte_spec, valid_command_byte, Address, Command,
    InboundRequest,
};
use crate::token::TOKEN_WIDTH;

verus! {

/// A port in network byte order: high byte first.
pub open spec fn be16(p: u16) -> Seq<u8> {
    seq![(p / 256) as u8, (p % 256) as u8]
}

/// The wire encoding of an address: type byte, then the address bytes,
/// a domain name carrying its one-byte length prefix.
pub open spec fn addr_encoded(a: Address) -> Seq<u8> {
    match a {
        Address::IpV4 { octets } => seq![1u8] + octets@,
        Address::Domain { name } => seq![3u8, name@.len() as u8] + name@,
        Address::IpV6 { octets } => seq![4u8] + octets@,
    }
}

/// Parse one encoded address from the front of a byte sequence: the address
/// type byte, the address characters proper, and the bytes consumed.
pub open spec fn decode_addr_spec(b: Seq<u8>) -> Option<(u8, Seq<u8>, int)> {
    if b.len() < 1 {
        None
    } else if b[0] == 1 {
        if b.len() >= 5 {
            Some((1u8, b.subrange(1, 5), 5))
        } else {
            None
        }
    } else if b[0] == 3 {
        if b.len() >= 2 && b.len() >= 2 + b[1] as int {
            Some((3u8, b.subrange(2, 2 + b[1] as int), 2 + b[1] as int))
        } else {
            None
        }
    } else if b[0] == 4 {
        if b.len() >= 17 {
            Some((4u8, b.subrange(1, 17), 17))
        } else {
            None
        }
    } else {
        None
    }
}

/// Decoding an encoded well-formed address from the front of any stream
/// recovers its type and characters exactly and consumes exactly its bytes.
pub proof fn lemma_addr_round_trip(a: Address, rest: Seq<u8>)
    requires
        addr_wf(a),
    ensures
        decode_addr_spec(addr_encoded(a) + rest) == Some(
            (atype_byte_spec(a), addr_chars(a), addr_encoded(a).len() as int),
        ),
{
    let b = addr_encoded(a) + rest;
    match a {
        Address::IpV4 { octets } => {
            assert(b.subrange(1, 5) =~= octets@);
        }
        Address::Domain { name } => {
            assert(b[1] == name@.len() as u8);
            assert(b.subrange(2, 2 + name@.len() as int) =~= name@);
        }
        Address::IpV6 { octets } => {
            assert(b.subrange(1, 17) =~= octets@);
        }
    }
}

/// The full handshake header for a given token, command, address and port.
pub open spec fn header_spec(token: Seq<u8>, command: u8, a: Address, port: u16) -> Seq<u8> {
    token + seq![command] + addr_encoded(a) + be16(port) + seq![13u8, 10u8]
}

/// What a receiving peer recovers from a handshake header.
#[verifier::ext_equal]
pub struct HeaderModel {
    pub token: Seq<u8>,
    pub command: u8,
    pub atype: u8,
    pub addr: Seq<u8>,
    pub port: u16,
}

/// Parse a handshake header from the front of a byte sequence, as a
/// receiving peer does: the recovered fields and the bytes consumed, or
/// nothing when the sequence does not begin with a well-formed header.
pub open spec fn decode_header_spec(b: Seq<u8>) -> Option<(HeaderModel, int)> {
    if b.len() < 57 {
        None
    } else if !valid_command_byte(b[56]) {
        None
    } else {
        match decode_addr_spec(b.skip(57)) {
            None => None,
            Some((t, addr, used)) => {
                let p = 57 + used;
                if b.len() >= p + 4 && b[p + 2] == 13 && b[p + 3] == 10 {
                    Some(
                        (
                            HeaderModel {
                                token: b.subrange(0, TOKEN_WIDTH as int),
                                command: b[56],
                                atype: t,
                                addr: addr,
                                port: ((b[p] as int) * 256 + (b[p + 1] as int)) as u16,
                            },
                            p + 4,
                        ),
                    )
                } else {
                    None
                }
            }
        }
    }
}

/// Round trip of the handshake codec: a header encoded from a fixed-width
/// token, a command, a well-formed address and a port, followed by any
/// further stream bytes, decodes to exactly those fields and consumes
/// exactly the header.
pub proof fn lemma_header_round_trip(token: Seq<u8>, c: Command, a: Address, port: u16, rest: Seq<u8>)
    requires
        token.len() == TOKEN_WIDTH,
        addr_wf(a),
    ensures
        decode_header_spec(header_spec(token, command_byte_spec(c), a, port) + rest) == Some(
            (
                HeaderModel {
                    token: token,
                    command: command_byte_spec(c),
                    atype: atype_byte_spec(a),
                    addr: addr_chars(a),
                    port: port,
                },
                header_spec(token, command_byte_spec(c), a, port).len() as int,
            ),
        ),
{
    let h = header_spec(token, command_byte_spec(c), a, port);
    let b = h + rest;
    let alen = addr_encoded(a).len() as int;
    assert(b[56] == command_byte_spec(c));
    assert(b.skip(57) =~= addr_encoded(a) + (be16(port) + seq![13u8, 10u8] + rest));
    lemma_addr_round_trip(a, be16(port) + seq![13u8, 10u8] + rest);
    let p = 57 + alen;
    assert(b[p] == (port / 256) as u8);
    assert(b[p + 1] == (port % 256) as u8);
    assert(b[p + 2] == 13);
    assert(b[p + 3] == 10);
    assert(b.subrange(0, TOKEN_WIDTH as int) =~= token);
    assert(port / 256 <= 255) by {
        assert(port <= 65535);
    }
    assert(((b[p] as int) * 256 + (b[p + 1] as int)) as u16 == port);
    assert(h.len() == p + 4);
}

/// What the decoder hands back: the recovered token, command, address
/// and port of one handshake header.
pub struct DecodedRequest {
    pub token: Vec<u8>,
    pub command: Command,
    pub address: Address,
    pub port: u16,
}

/// Append the wire encoding of an address.
pub(crate) fn push_addr(out: &mut Vec<u8>, a: &Address)
    requires
        addr_wf(*a),
    ensures
        final(out)@ == old(out)@ + addr_encoded(*a),
{
    match a {
        Address::IpV4 { octets } => {
            out.push(1);
            out.push(octets[0]);
            out.push(octets[1]);
            out.push(octets[2]);
            out.push(octets[3]);
            proof {
                assert(out@ =~= old(out)@ + addr_encoded(*a));
            }
        }
        Address::Domain { name } => {
            out.push(3);
            out.push(name.len() as u8);
            let mut i: usize = 0;
            while i < name.len()
                invariant
                    i <= name@.len() <= 255,
                    out@ == old(out)@ + seq![3u8, name@.len() as u8] + name@.take(i as int),
                decreases name@.len() - i,
            {
                out.push(name[i]);
                i = i + 1;
                proof {
                    assert(name@.take(i as int) =~= name@.take(i - 1).push(name@[i - 1]));
                }
            }
            proof {
                assert(name@.take(name@.len() as int) =~= name@);
                assert(out@ =~= old(out)@ + addr_encoded(*a));
            }
        }
        Address::IpV6 { octets } => {
            out.push(4);
            let mut i: usize = 0;
            while i < 16
                invariant
                    i <= 16,
                    octets@.len() == 16,
                    out@ == old(out)@ + seq![4u8] + octets@.take(i as int),
                decreases 16 - i,
            {
                out.push(octets[i]);
                i = i + 1;
                proof {
                    assert(octets@.take(i as int) =~= octets@.take(i - 1).push(octets@[i - 1]));
                }
            }
            proof {
                assert(octets@.take(16) =~= octets@);
                assert(out@ =~= old(out)@ + addr_encoded(*a));
            }
        }
    }
}

/// Serialize the handshake header for one request under a given token.
pub fn encode_request(token: &Vec<u8>, request: &InboundRequest) -> (r: Vec<u8>)
    requires
        addr_wf(request.address),
    ensures
        r@ == header_spec(
            token@,
            command_byte_spec(request.command),
            request.address,
            request.port,
        ),
{
    let mut r = slice_to_vec(token.as_slice());
    r.push(request.command.to_byte());
    push_addr(&mut r, &request.address);
    r.push((request.port / 256) as u8);
    r.push((request.port % 256) as u8);
    r.push(13);
    r.push(10);
    proof {
        assert(r@ =~= header_spec(
            token@,
            command_byte_spec(request.command),
            request.address,
            request.port,
        ));
    }
    r
}

/// Parse one encoded address starting at a position in a buffer.
pub(crate) fn decode_addr(bytes: &Vec<u8>, from: usize) -> (r: Option<(Address, usize)>)
    requires
        from <= bytes@.len(),
    ensures
        match decode_addr_spec(bytes@.skip(from as int)) {
            Some((t, chars, used)) => {
                &&& r matches Some((a, u))
                &&& atype_byte_spec(a) == t
                &&& addr_chars(a) == chars
                &&& addr_wf(a)
                &&& u as int == used
            },
            None => r is None,
        },
{
    let ghost tail = bytes@.skip(from as int);
    if bytes.len() - from < 1 {
        return None;
    }
    let t = bytes[from];
    proof {
        assert(tail[0] == bytes@[from as int]);
    }
    if t == 1 {
        if bytes.len() - from < 5 {
            return None;
        }
        let octets: [u8; 4] = [bytes[from + 1], bytes[from + 2], bytes[from + 3], bytes[from + 4]];
        proof {
            assert(octets@ =~= tail.subrange(1, 5));
        }
        Some((Address::IpV4 { octets }, 5))
    } else if t == 3 {
        if bytes.len() - from < 2 {
            return None;
        }
        let n = bytes[from + 1] as usize;
        proof {
            assert(tail[1] == bytes@[from + 1]);
        }
        if bytes.len() - from - 2 < n {
            return None;
        }
        let name = slice_to_vec(slice_subrange(bytes.as_slice(), from + 2, from + 2 + n));
        proof {
            assert(name@ =~= tail.subrange(2, 2 + n as int));
        }
        Some((Address::Domain { name }, 2 + n))
    } else if t == 4 {
        if bytes.len() - from < 17 {
            return None;
        }
        let octets: [u8; 16] = [
            bytes[from + 1],
            bytes[from + 2],
            bytes[from + 3],
            bytes[from + 4],
            bytes[from + 5],
            bytes[from + 6],
            bytes[from + 7],
            bytes[from + 8],
            bytes[from + 9],
            bytes[from + 10],
            bytes[from + 11],
            bytes[from + 12],
            bytes[from + 13],
            bytes[from + 14],
            bytes[from + 15],
            bytes[from + 16],
        ];
        proof {
            assert(octets@ =~= tail.subrange(1, 17));
        }
        Some((Address::IpV6 { octets }, 17))
    } else {
        None
    }
}

/// Decode one handshake header from the front of a buffer, as a receiving
/// peer does: the recovered fields and the number of bytes the header took.
pub fn decode_request(bytes: &Vec<u8>) -> (r: Option<(DecodedRequest, usize)>)
    ensures
        match decode_header_spec(bytes@) {
            Some((m, used)) => {
                &&& r matches Some((d, u))
                &&& d.token@ == m.token
                &&& command_byte_spec(d.command) == m.command
                &&& atype_byte_spec(d.address) == m.atype
                &&& addr_chars(d.address) == m.addr
                &&& addr_wf(d.address)
                &&& d.port == m.port
                &&& u as int == used
            },
            None => r is None,
        },
{
    if bytes.len() < 57 {
        return None;
    }
    let token = slice_to_vec(slice_subrange(bytes.as_slice(), 0, TOKEN_WIDTH));
    let cmd_byte = bytes[56];
    let command = if cmd_byte == 1 {
        Command::Connect
    } else if cmd_byte == 2 {
        Command::Bind
    } else if cmd_byte == 3 {
        Command::UdpAssociate
    } else {
        return None;
    };
    let (address, used) = match decode_addr(bytes, 57) {
        Some(x) => x,
        None => {
            return None;
        }
    };
    let p = 57 + used;
    proof {
        assert(decode_addr_spec(bytes@.skip(57)) matches Some((t, chars, u)) && p as int == 57 + u);
    }
    if bytes.len() - p < 4 {
        return None;
    }
    if !(bytes[p + 2] == 13 && bytes[p + 3] == 10) {
        return None;
    }
    let port: u16 = (bytes[p] as u16) * 256 + (bytes[p + 1] as u16);
    Some((DecodedRequest { token, command, address, port }, p + 4))
}

} // verus!

//! Datagram framing adapters: discrete datagrams ride a byte-oriented tunnel
//! as self-describing records — address type + address + port + payload
//! length (2 bytes, network byte order) + payload. One direction turns each
//! datagram into a record; the other reads records back into datagrams and
//! treats a malformed record as fatal for the session.

use vstd::prelude::*;
use vstd::slice::{slice_subrange, slice_to_vec};
use crate::codec::{addr_encoded, be16, decode_addr_spec, lemma_addr_round_trip, push_addr};
use crate::errors::SessionError;
use crate::request::{addr_chars, addr_wf, atype_byte_spec, Address};

verus! {

/// One datagram with its destination metadata.
#[derive(Clone, Debug, PartialEq, Eq)]
pub struct Datagram {
    pub address: Address,
    pub port: u16,
    pub payload: Vec<u8>,
}

/// A datagram a record can carry: a well-formed address and a payload that
/// fits the two-byte length field.
pub open spec fn datagram_wf(d: Datagram) -> bool {
    addr_wf(d.address) && d.payload@.len() <= 65535
}

/// What a record carries, as the receiving adapter recovers it.
#[verifier::ext_equal]
pub struct DatagramModel {
    pub atype: u8,
    pub addr: Seq<u8>,
    pub port: u16,
    pub payload: Seq<u8>,
}

/// The recovered form of a datagram.
pub open spec fn dgram_model(d: Datagram) -> DatagramModel {
    DatagramModel {
        atype: atype_byte_spec(d.address),
        addr: addr_chars(d.address),
        port: d.port,
        payload: d.payload@,
    }
}

/// The record encoding of one datagram.
pub open spec fn record_spec(d: Datagram) -> Seq<u8> {
    addr_encoded(d.address) + be16(d.port) + be16(d.payload@.len() as u16) + d.payload@
}

/// The byte stream carrying a sequence of datagrams as records, in order.
pub open spec fn records_spec(ds: Seq<Datagram>) -> Seq<u8>
    decreases ds.len(),
{
    if ds.len() == 0 {
        Seq::empty()
    } else {
        record_spec(ds[0]) + records_spec(ds.drop_first())
    }
}

/// Parse one record from the front of a byte sequence: the recovered
/// datagram and the bytes consumed, or nothing when no well-formed record
/// begins there.
pub open spec fn decode_record_spec(b: Seq<u8>) -> Option<(DatagramModel, int)> {
    match decode_addr_spec(b) {
        None => None,
        Some((t, addr, used)) => {
            if b.len() >= used + 4 {
                let n = (b[used + 2] as int) * 256 + (b[used + 3] as int);
                if b.len() >= used + 4 + n {
                    Some(
                        (
                            DatagramModel {
                                atype: t,
                                addr: addr,
                                port: ((b[used] as int) * 256 + (b[used + 1] as int)) as u16,
                                payload: b.subrange(used + 4, used + 4 + n),
                            },
                            used + 4 + n,
                        ),
                    )
                } else {
                    None
                }
            } else {
                None
            }
        }
    }
}

/// Parse a whole byte stream as back-to-back records. Nothing is recovered
/// from a stream with a malformed or truncated record.
pub open spec fn decode_records_spec(b: Seq<u8>) -> Option<Seq<DatagramModel>>
    decreases b.len(),
{
    if b.len() == 0 {
        Some(Seq::empty())
    } else {
        match decode_record_spec(b) {
            None => None,
            Some((m, used)) => {
                if 0 < used <= b.len() {
                    match decode_records_spec(b.skip(used)) {
                        None => None,
                        Some(ms) => Some(seq![m] + ms),
                    }
                } else {
                    None
                }
            }
        }
    }
}

/// A record parse consumes at least one byte and never more than the stream.
pub proof fn lemma_decode_record_bounds(b: Seq<u8>)
    ensures
        decode_record_spec(b) matches Some((m, used)) ==> 0 < used <= b.len(),
{
}

/// Decoding the record of a well-formed datagram from the front of any
/// stream recovers the datagram exactly and consumes exactly its record.
pub proof fn lemma_record_round_trip(d: Datagram, rest: Seq<u8>)
    requires
        datagram_wf(d),
    ensures
        decode_record_spec(record_spec(d) + rest) == Some(
            (dgram_model(d), record_spec(d).len() as int),
        ),
{
    let b = record_spec(d) + rest;
    let tail = be16(d.port) + be16(d.payload@.len() as u16) + d.payload@ + rest;
    assert(b =~= addr_encoded(d.address) + tail);
    lemma_addr_round_trip(d.address, tail);
    let alen = addr_encoded(d.address).len() as int;
    let n = d.payload@.len() as int;
    assert(b[alen] == (d.port / 256) as u8);
    assert(b[alen + 1] == (d.port % 256) as u8);
    assert(b[alen + 2] == ((d.payload@.len() as u16) / 256) as u8);
    assert(b[alen + 3] == ((d.payload@.len() as u16) % 256) as u8);
    assert(((b[alen] as int) * 256 + (b[alen + 1] as int)) as u16 == d.port);
    assert((b[alen + 2] as int) * 256 + (b[alen + 3] as int) == n);
    assert(b.subrange(alen + 4, alen + 4 + n) =~= d.payload@);
    assert(record_spec(d).len() == alen + 4 + n);
}

/// Framing idempotence: a stream carrying the records of any sequence of
/// well-formed datagrams, back to back, decodes to exactly those datagrams,
/// in order, with identical payloads and destination metadata.
pub proof fn lemma_framing_round_trip(ds: Seq<Datagram>)
    requires
        forall|i: int| 0 <= i < ds.len() ==> datagram_wf(#[trigger] ds[i]),
    ensures
        decode_records_spec(records_spec(ds)) == Some(
            ds.map_values(|d: Datagram| dgram_model(d)),
        ),
    decreases ds.len(),
{
    let models = ds.map_values(|d: Datagram| dgram_model(d));
    if ds.len() == 0 {
        assert(models =~= Seq::<DatagramModel>::empty());
    } else {
        let b = records_spec(ds);
        let rest = records_spec(ds.drop_first());
        lemma_record_round_trip(ds[0], rest);
        let rlen = record_spec(ds[0]).len() as int;
        assert(b.len() == rlen + rest.len());
        assert(0 < rlen <= b.len()) by {
            lemma_decode_record_bounds(b);
        }
        assert(b.skip(rlen) =~= rest);
        assert(forall|i: int|
            0 <= i < ds.drop_first().len() ==> datagram_wf(#[trigger] ds.drop_first()[i]));
        lemma_framing_round_trip(ds.drop_first());
        assert(models =~= seq![dgram_model(ds[0])] + ds.drop_first().map_values(
            |d: Datagram| dgram_model(d),
        ));
    }
}

/// Appending a datagram to the sequence appends its record to the stream.
pub proof fn lemma_records_push(ds: Seq<Datagram>, d: Datagram)
    ensures
        records_spec(ds.push(d)) == records_spec(ds) + record_spec(d),
    decreases ds.len(),
{
    if ds.len() == 0 {
        assert(ds.push(d)[0] == d);
        assert(ds.push(d).drop_first() =~= Seq::<Datagram>::empty());
        assert(records_spec(Seq::<Datagram>::empty()) == Seq::<u8>::empty());
        assert(records_spec(ds.push(d)) == record_spec(d) + records_spec(
            ds.push(d).drop_first(),
        ));
        assert(records_spec(ds.push(d)) =~= records_spec(ds) + record_spec(d));
    } else {
        assert(ds.push(d)[0] == ds[0]);
        assert(ds.push(d).drop_first() =~= ds.drop_first().push(d));
        lemma_records_push(ds.drop_first(), d);
        assert(records_spec(ds.push(d)) == record_spec(ds[0]) + records_spec(
            ds.drop_first().push(d),
        ));
        assert(records_spec(ds) == record_spec(ds[0]) + records_spec(ds.drop_first()));
        assert(records_spec(ds.push(d)) =~= records_spec(ds) + record_spec(d));
    }
}

/// Encode one datagram as a self-describing record.
pub fn encode_datagram(d: &Datagram) -> (r: Vec<u8>)
    requires
        datagram_wf(*d),
    ensures
        r@ == record_spec(*d),
{
    let mut r: Vec<u8> = Vec::new();
    push_addr(&mut r, &d.address);
    r.push((d.port / 256) as u8);
    r.push((d.port % 256) as u8);
    let n = d.payload.len() as u16;
    r.push((n / 256) as u8);
    r.push((n % 256) as u8);
    let mut i: usize = 0;
    while i < d.payload.len()
        invariant
            i <= d.payload@.len(),
            r@ == addr_encoded(d.address) + be16(d.port) + be16(d.payload@.len() as u16)
                + d.payload@.take(i as int),
        decreases d.payload@.len() - i,
    {
        r.push(d.payload[i]);
        i = i + 1;
        proof {
            assert(d.payload@.take(i as int) =~= d.payload@.take(i - 1).push(
                d.payload@[i - 1],
            ));
        }
    }
    proof {
        assert(d.payload@.take(d.payload@.len() as int) =~= d.payload@);
        assert(r@ =~= record_spec(*d));
    }
    r
}

/// Encode a sequence of datagrams as back-to-back records, in order.
pub fn encode_datagrams(ds: &Vec<Datagram>) -> (r: Vec<u8>)
    requires
        forall|i: int| 0 <= i < ds@.len() ==> datagram_wf(#[trigger] ds@[i]),
    ensures
        r@ == records_spec(ds@),
{
    let mut r: Vec<u8> = Vec::new();
    let mut i: usize = 0;
    while i < ds.len()
        invariant
            i <= ds@.len(),
            forall|j: int| 0 <= j < ds@.len() ==> datagram_wf(#[trigger] ds@[j]),
            r@ == records_spec(ds@.take(i as int)),
        decreases ds@.len() - i,
    {
        let mut rec = encode_datagram(&ds[i]);
        r.append(&mut rec);
        i = i + 1;
        proof {
            assert(ds@.take(i as int) =~= ds@.take(i - 1).push(ds@[i - 1]));
            lemma_records_push(ds@.take(i - 1), ds@[i - 1]);
        }
    }
    proof {
        assert(ds@.take(ds@.len() as int) =~= ds@);
    }
    r
}

/// Decode one record starting at a position in a buffer: the datagram and
/// the bytes its record took.
pub fn decode_datagram(bytes: &Vec<u8>, from: usize) -> (r: Option<(Datagram, usize)>)
    requires
        from <= bytes@.len(),
    ensures
        match decode_record_spec(bytes@.skip(from as int)) {
            Some((m, used)) => {
                &&& r matches Some((d, u))
                &&& dgram_model(d) == m
                &&& datagram_wf(d)
                &&& u as int == used
            },
            None => r is None,
        },
{
    let ghost tail = bytes@.skip(from as int);
    let (address, aused) = match crate::codec::decode_addr(bytes, from) {
        Some(x) => x,
        None => {
            return None;
        }
    };
    let total = bytes.len();
    proof {
        let (t, chars, u) = decode_addr_spec(tail)->Some_0;
        assert(aused as int == u);
        assert(u <= tail.len());
        assert(tail.len() == bytes@.len() - from);
        assert(from + aused <= total);
    }
    let p = from + aused;
    if bytes.len() - p < 4 {
        return None;
    }
    let port: u16 = (bytes[p] as u16) * 256 + (bytes[p + 1] as u16);
    let n: usize = (bytes[p + 2] as usize) * 256 + (bytes[p + 3] as usize);
    proof {
        assert(tail[aused as int] == bytes@[p as int]);
        assert(tail[aused + 1] == bytes@[p + 1]);
        assert(tail[aused + 2] == bytes@[p + 2]);
        assert(tail[aused + 3] == bytes@[p + 3]);
    }
    if bytes.len() - p - 4 < n {
        return None;
    }
    let payload = slice_to_vec(slice_subrange(bytes.as_slice(), p + 4, p + 4 + n));
    proof {
        assert(payload@ =~= tail.subrange(aused + 4, aused + 4 + n as int));
    }
    let d = Datagram { address, port, payload };
    proof {
        let (m, used) = decode_record_spec(tail)->Some_0;
        assert(dgram_model(d) =~= m);
    }
    Some((d, aused + 4 + n))
}

/// Decode a whole buffer of back-to-back records into datagrams, in order.
/// Fails with the framing error, fatal for the session, exactly when the
/// buffer holds a malformed or truncated record.
pub fn decode_datagrams(bytes: &Vec<u8>) -> (r: Result<Vec<Datagram>, SessionError>)
    ensures
        match decode_records_spec(bytes@) {
            Some(ms) => {
                &&& r matches Ok(ds)
                &&& ds@.map_values(|d: Datagram| dgram_model(d)) == ms
                &&& forall|i: int| 0 <= i < ds@.len() ==> datagram_wf(#[trigger] ds@[i])
            },
            None => r matches Err(e) && e == SessionError::FramingError,
        },
{
    let mut out: Vec<Datagram> = Vec::new();
    let mut pos: usize = 0;
    proof {
        assert(bytes@.skip(0) =~= bytes@);
        assert(out@.map_values(|d: Datagram| dgram_model(d)) =~= Seq::<DatagramModel>::empty());
        if decode_records_spec(bytes@) is Some {
            assert(decode_records_spec(bytes@)->Some_0 =~= out@.map_values(
                |d: Datagram| dgram_model(d),
            ) + decode_records_spec(bytes@)->Some_0);
        }
    }
    while pos < bytes.len()
        invariant
            pos <= bytes@.len(),
            forall|i: int| 0 <= i < out@.len() ==> datagram_wf(#[trigger] out@[i]),
            decode_records_spec(bytes@) is Some <==> decode_records_spec(
                bytes@.skip(pos as int),
            ) is Some,
            decode_records_spec(bytes@) matches Some(all) ==> decode_records_spec(
                bytes@.skip(pos as int),
            ) matches Some(ms) && all == out@.map_values(|d: Datagram| dgram_model(d)) + ms,
        decreases bytes@.len() - pos,
    {
        let ghost tail = bytes@.skip(pos as int);
        match decode_datagram(bytes, pos) {
            None => {
                return Err(SessionError::FramingError);
            }
            Some((d, u)) => {
                proof {
                    lemma_decode_record_bounds(tail);
                    let (m, used) = decode_record_spec(tail)->Some_0;
                    assert(tail.skip(used) =~= bytes@.skip(pos + used));
                    assert(out@.push(d).map_values(|x: Datagram| dgram_model(x)) =~= out@
                        .map_values(|x: Datagram| dgram_model(x)).push(dgram_model(d)));
                    if decode_records_spec(bytes@) is Some {
                        let all = decode_records_spec(bytes@)->Some_0;
                        let ms = decode_records_spec(tail)->Some_0;
                        let ms2 = decode_records_spec(bytes@.skip(pos + used))->Some_0;
                        assert(ms =~= seq![m] + ms2);
                        assert(all =~= out@.push(d).map_values(|x: Datagram| dgram_model(x))
                            + ms2);
                    }
                }
                out.push(d);
                pos = pos + u;
            }
        }
    }
    proof {
        assert(bytes@.skip(pos as int) =~= Seq::<u8>::empty());
        assert(decode_records_spec(bytes@.skip(pos as int)) == Some(
            Seq::<DatagramModel>::empty(),
        ));
        if decode_records_spec(bytes@) is Some {
            assert(decode_records_spec(bytes@)->Some_0 =~= out@.map_values(
                |d: Datagram| dgram_model(d),
            ));
        }
    }
    Ok(out)
}

} // verus!

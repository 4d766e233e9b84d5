//! The envelope codec: a length-prefixed byte format that carries a request
//! or response envelope over the bus and preserves method, path, the full
//! header set and body bytes exactly. Encoding and decoding are verified
//! against one spec-level format, and decoding an encoding provably returns
//! the original envelope.
use vstd::bytes::{
    lemma_auto_spec_u16_to_from_le_bytes, lemma_auto_spec_u64_to_from_le_bytes,
    spec_u16_to_le_bytes, spec_u64_to_le_bytes, u16_from_le_bytes, u16_to_le_bytes,
    u64_from_le_bytes, u64_to_le_bytes,
};
use vstd::prelude::*;
use vstd::slice::{slice_subrange, slice_to_vec};

use crate::envelope::{
    RequestEnvelope, RequestEnvelopeView, ResponseEnvelope, ResponseEnvelopeView,
};

verus! {

/// A length field of the format: eight little-endian bytes.
pub open spec fn spec_encode_u64(n: u64) -> Seq<u8> {
    spec_u64_to_le_bytes(n)
}

/// A status field of the format: two little-endian bytes.
pub open spec fn spec_encode_u16(n: u16) -> Seq<u8> {
    spec_u16_to_le_bytes(n)
}

/// A byte string, prefixed with its length.
pub open spec fn spec_encode_blob(b: Seq<u8>) -> Seq<u8> {
    spec_encode_u64(b.len() as u64) + b
}

/// The header pairs, each name and value a blob, in order.
pub open spec fn spec_encode_pairs(hs: Seq<(Seq<u8>, Seq<u8>)>) -> Seq<u8>
    decreases hs.len(),
{
    if hs.len() == 0 {
        Seq::empty()
    } else {
        spec_encode_blob(hs[0].0) + spec_encode_blob(hs[0].1) + spec_encode_pairs(hs.drop_first())
    }
}

/// The encoded form of a request envelope: method, path, header count,
/// header pairs, body.
pub open spec fn spec_encode_request(e: RequestEnvelopeView) -> Seq<u8> {
    spec_encode_blob(e.method) + spec_encode_blob(e.path) + spec_encode_u64(e.headers.len() as u64)
        + spec_encode_pairs(e.headers) + spec_encode_blob(e.body)
}

/// The encoded form of a response envelope: status, header count, header
/// pairs, body.
pub open spec fn spec_encode_response(e: ResponseEnvelopeView) -> Seq<u8> {
    spec_encode_u16(e.status) + spec_encode_u64(e.headers.len() as u64) + spec_encode_pairs(
        e.headers,
    ) + spec_encode_blob(e.body)
}

fn push_u64(out: &mut Vec<u8>, n: u64)
    ensures
        final(out)@ == old(out)@ + spec_encode_u64(n),
{
    let mut bs = u64_to_le_bytes(n);
    out.append(&mut bs);
}

fn push_u16(out: &mut Vec<u8>, n: u16)
    ensures
        final(out)@ == old(out)@ + spec_encode_u16(n),
{
    let mut bs = u16_to_le_bytes(n);
    out.append(&mut bs);
}

fn push_blob(out: &mut Vec<u8>, b: &Vec<u8>)
    ensures
        final(out)@ == old(out)@ + spec_encode_blob(b@),
{
    push_u64(out, b.len() as u64);
    let mut copy = slice_to_vec(b.as_slice());
    out.append(&mut copy);
    proof {
        assert(final(out)@ =~= old(out)@ + spec_encode_blob(b@));
    }
}

/// Appending one pair to the sequence appends its encoding to the bytes.
proof fn lemma_pairs_snoc(hs: Seq<(Seq<u8>, Seq<u8>)>, x: (Seq<u8>, Seq<u8>))
    ensures
        spec_encode_pairs(hs.push(x)) == spec_encode_pairs(hs) + spec_encode_blob(x.0)
            + spec_encode_blob(x.1),
    decreases hs.len(),
{
    if hs.len() == 0 {
        assert(hs.push(x)[0] == x);
        let e = hs.push(x).drop_first();
        assert(e =~= Seq::<(Seq<u8>, Seq<u8>)>::empty());
        assert(spec_encode_pairs(e) == Seq::<u8>::empty());
        assert(spec_encode_pairs(hs) == Seq::<u8>::empty());
        assert(spec_encode_pairs(hs.push(x)) == spec_encode_blob(x.0) + spec_encode_blob(x.1)
            + spec_encode_pairs(e));
        assert(spec_encode_pairs(hs.push(x)) =~= spec_encode_pairs(hs) + spec_encode_blob(x.0)
            + spec_encode_blob(x.1));
    } else {
        assert(hs.push(x).drop_first() =~= hs.drop_first().push(x));
        lemma_pairs_snoc(hs.drop_first(), x);
        assert(hs.push(x)[0] == hs[0]);
        assert(spec_encode_pairs(hs.push(x)) =~= spec_encode_pairs(hs) + spec_encode_blob(x.0)
            + spec_encode_blob(x.1));
    }
}

fn push_pairs(out: &mut Vec<u8>, hs: &Vec<(Vec<u8>, Vec<u8>)>)
    ensures
        final(out)@ == old(out)@ + spec_encode_u64(hs@.len() as u64) + spec_encode_pairs(
            hs.deep_view(),
        ),
{
    push_u64(out, hs.len() as u64);
    let ghost base = out@;
    let mut i: usize = 0;
    while i < hs.len()
        invariant
            i <= hs.len(),
            out@ == base + spec_encode_pairs(hs.deep_view().take(i as int)),
        decreases hs.len() - i,
    {
        proof {
            assert(hs.deep_view().take(i + 1) =~= hs.deep_view().take(i as int).push(
                hs.deep_view()[i as int],
            ));
            lemma_pairs_snoc(hs.deep_view().take(i as int), hs.deep_view()[i as int]);
        }
        push_blob(out, &hs[i].0);
        push_blob(out, &hs[i].1);
        proof {
            assert(hs.deep_view()[i as int] == (hs@[i as int].0@, hs@[i as int].1@));
            assert(out@ =~= base + spec_encode_pairs(hs.deep_view().take(i + 1)));
        }
        i = i + 1;
    }
    proof {
        assert(hs.deep_view().take(hs@.len() as int) =~= hs.deep_view());
        assert(final(out)@ =~= old(out)@ + spec_encode_u64(hs@.len() as u64) + spec_encode_pairs(
            hs.deep_view(),
        ));
    }
}

/// Read a length field off the front of `b`.
pub open spec fn take_u64(b: Seq<u8>) -> Option<(u64, Seq<u8>)> {
    if b.len() >= 8 {
        Some((vstd::bytes::spec_u64_from_le_bytes(b.take(8)), b.skip(8)))
    } else {
        None
    }
}

/// Read a status field off the front of `b`.
pub open spec fn take_u16(b: Seq<u8>) -> Option<(u16, Seq<u8>)> {
    if b.len() >= 2 {
        Some((vstd::bytes::spec_u16_from_le_bytes(b.take(2)), b.skip(2)))
    } else {
        None
    }
}

/// Read a length-prefixed byte string off the front of `b`.
pub open spec fn take_blob(b: Seq<u8>) -> Option<(Seq<u8>, Seq<u8>)> {
    match take_u64(b) {
        Some((n, rest)) => if rest.len() >= n {
            Some((rest.take(n as int), rest.skip(n as int)))
        } else {
            None
        },
        None => None,
    }
}

/// Read `n` header pairs off the front of `b`.
pub open spec fn take_pairs(b: Seq<u8>, n: nat) -> Option<(Seq<(Seq<u8>, Seq<u8>)>, Seq<u8>)>
    decreases n,
{
    if n == 0 {
        Some((Seq::empty(), b))
    } else {
        match take_blob(b) {
            Some((k, r1)) => match take_blob(r1) {
                Some((v, r2)) => match take_pairs(r2, (n - 1) as nat) {
                    Some((tail, r3)) => Some((seq![(k, v)] + tail, r3)),
                    None => None,
                },
                None => None,
            },
            None => None,
        }
    }
}

/// What decoding yields on arbitrary bytes: the request envelope the bytes
/// spell, or nothing where they spell none (a short field, or trailing
/// garbage).
pub open spec fn spec_decode_request(b: Seq<u8>) -> Option<RequestEnvelopeView> {
    match take_blob(b) {
        Some((method, r1)) => match take_blob(r1) {
            Some((path, r2)) => match take_u64(r2) {
                Some((n, r3)) => match take_pairs(r3, n as nat) {
                    Some((headers, r4)) => match take_blob(r4) {
                        Some((body, r5)) => if r5.len() == 0 {
                            Some(RequestEnvelopeView { method, path, headers, body })
                        } else {
                            None
                        },
                        None => None,
                    },
                    None => None,
                },
                None => None,
            },
            None => None,
        },
        None => None,
    }
}

/// What decoding yields on arbitrary bytes, for a response envelope.
pub open spec fn spec_decode_response(b: Seq<u8>) -> Option<ResponseEnvelopeView> {
    match take_u16(b) {
        Some((status, r1)) => match take_u64(r1) {
            Some((n, r2)) => match take_pairs(r2, n as nat) {
                Some((headers, r3)) => match take_blob(r3) {
                    Some((body, r4)) => if r4.len() == 0 {
                        Some(ResponseEnvelopeView { status, headers, body })
                    } else {
                        None
                    },
                    None => None,
                },
                None => None,
            },
            None => None,
        },
        None => None,
    }
}

/// Every field of the header pairs fits a length field.
pub open spec fn pairs_wf(hs: Seq<(Seq<u8>, Seq<u8>)>) -> bool {
    forall|i: int|
        0 <= i < hs.len() ==> (#[trigger] hs[i]).0.len() <= u64::MAX && hs[i].1.len() <= u64::MAX
}

/// Every field of the envelope fits a length field of the format. The image
/// of any actual envelope value satisfies this.
pub open spec fn request_wf(e: RequestEnvelopeView) -> bool {
    &&& e.method.len() <= u64::MAX
    &&& e.path.len() <= u64::MAX
    &&& e.headers.len() <= u64::MAX
    &&& pairs_wf(e.headers)
    &&& e.body.len() <= u64::MAX
}

/// Every field of the response envelope fits a length field of the format.
pub open spec fn response_wf(e: ResponseEnvelopeView) -> bool {
    &&& e.headers.len() <= u64::MAX
    &&& pairs_wf(e.headers)
    &&& e.body.len() <= u64::MAX
}

proof fn lemma_take_u64_encode(n: u64, rest: Seq<u8>)
    ensures
        take_u64(spec_encode_u64(n) + rest) == Some((n, rest)),
{
    lemma_auto_spec_u64_to_from_le_bytes();
    let s = spec_encode_u64(n) + rest;
    assert(s.take(8) =~= spec_encode_u64(n));
    assert(s.skip(8) =~= rest);
}

proof fn lemma_take_u16_encode(n: u16, rest: Seq<u8>)
    ensures
        take_u16(spec_encode_u16(n) + rest) == Some((n, rest)),
{
    lemma_auto_spec_u16_to_from_le_bytes();
    let s = spec_encode_u16(n) + rest;
    assert(s.take(2) =~= spec_encode_u16(n));
    assert(s.skip(2) =~= rest);
}

proof fn lemma_take_blob_encode(bs: Seq<u8>, rest: Seq<u8>)
    requires
        bs.len() <= u64::MAX,
    ensures
        take_blob(spec_encode_blob(bs) + rest) == Some((bs, rest)),
{
    lemma_take_u64_encode(bs.len() as u64, bs + rest);
    assert(spec_encode_blob(bs) + rest =~= spec_encode_u64(bs.len() as u64) + (bs + rest));
    assert((bs + rest).take(bs.len() as int) =~= bs);
    assert((bs + rest).skip(bs.len() as int) =~= rest);
}

proof fn lemma_take_pairs_encode(hs: Seq<(Seq<u8>, Seq<u8>)>, rest: Seq<u8>)
    requires
        pairs_wf(hs),
    ensures
        take_pairs(spec_encode_pairs(hs) + rest, hs.len()) == Some((hs, rest)),
    decreases hs.len(),
{
    if hs.len() == 0 {
        assert(spec_encode_pairs(hs) + rest =~= rest);
        assert(hs =~= Seq::<(Seq<u8>, Seq<u8>)>::empty());
    } else {
        let k = hs[0].0;
        let v = hs[0].1;
        let tail = hs.drop_first();
        assert(pairs_wf(tail));
        lemma_take_pairs_encode(tail, rest);
        lemma_take_blob_encode(v, spec_encode_pairs(tail) + rest);
        lemma_take_blob_encode(k, spec_encode_blob(v) + (spec_encode_pairs(tail) + rest));
        assert(spec_encode_pairs(hs) + rest =~= spec_encode_blob(k) + (spec_encode_blob(v) + (
        spec_encode_pairs(tail) + rest)));
        assert((k, v) == hs[0]);
        assert(seq![(k, v)] + tail =~= hs);
    }
}

/// Decoding an encoded request envelope returns exactly the envelope that
/// was encoded: the codec preserves method, path, the full header set, and
/// body bytes.
pub proof fn lemma_request_round_trip(e: RequestEnvelopeView)
    requires
        request_wf(e),
    ensures
        spec_decode_request(spec_encode_request(e)) == Some(e),
{
    let n = e.headers.len() as u64;
    let tail_body = spec_encode_blob(e.body);
    let tail_pairs = spec_encode_pairs(e.headers) + tail_body;
    let tail_count = spec_encode_u64(n) + tail_pairs;
    let tail_path = spec_encode_blob(e.path) + tail_count;
    lemma_take_blob_encode(e.method, tail_path);
    lemma_take_blob_encode(e.path, tail_count);
    lemma_take_u64_encode(n, tail_pairs);
    lemma_take_pairs_encode(e.headers, tail_body);
    lemma_take_blob_encode(e.body, Seq::empty());
    assert(spec_encode_blob(e.body) + Seq::<u8>::empty() =~= tail_body);
    assert(spec_encode_request(e) =~= spec_encode_blob(e.method) + tail_path);
    assert(spec_decode_request(spec_encode_request(e)) matches Some(d) && d =~= e);
}

/// Decoding an encoded response envelope returns exactly the envelope that
/// was encoded.
pub proof fn lemma_response_round_trip(e: ResponseEnvelopeView)
    requires
        response_wf(e),
    ensures
        spec_decode_response(spec_encode_response(e)) == Some(e),
{
    let n = e.headers.len() as u64;
    let tail_body = spec_encode_blob(e.body);
    let tail_pairs = spec_encode_pairs(e.headers) + tail_body;
    let tail_count = spec_encode_u64(n) + tail_pairs;
    lemma_take_u16_encode(e.status, tail_count);
    lemma_take_u64_encode(n, tail_pairs);
    lemma_take_pairs_encode(e.headers, tail_body);
    lemma_take_blob_encode(e.body, Seq::empty());
    assert(spec_encode_blob(e.body) + Seq::<u8>::empty() =~= tail_body);
    assert(spec_encode_response(e) =~= spec_encode_u16(e.status) + tail_count);
    assert(spec_decode_response(spec_encode_response(e)) matches Some(d) && d =~= e);
}

/// The image of any actual request envelope is well-formed: a `Vec` never
/// outgrows a length field of the format.
pub proof fn lemma_request_envelope_wf(e: &RequestEnvelope)
    ensures
        request_wf(e@),
{
    vstd::std_specs::vec::axiom_spec_len(&e.method);
    vstd::std_specs::vec::axiom_spec_len(&e.path);
    vstd::std_specs::vec::axiom_spec_len(&e.headers);
    vstd::std_specs::vec::axiom_spec_len(&e.body);
    assert forall|i: int| 0 <= i < e@.headers.len() implies (#[trigger] e@.headers[i]).0.len()
        <= u64::MAX && e@.headers[i].1.len() <= u64::MAX by {
        let p = e.headers@[i];
        vstd::std_specs::vec::axiom_spec_len(&p.0);
        vstd::std_specs::vec::axiom_spec_len(&p.1);
    }
}

/// The image of any actual response envelope is well-formed.
pub proof fn lemma_response_envelope_wf(e: &ResponseEnvelope)
    ensures
        response_wf(e@),
{
    vstd::std_specs::vec::axiom_spec_len(&e.headers);
    vstd::std_specs::vec::axiom_spec_len(&e.body);
    assert forall|i: int| 0 <= i < e@.headers.len() implies (#[trigger] e@.headers[i]).0.len()
        <= u64::MAX && e@.headers[i].1.len() <= u64::MAX by {
        let p = e.headers@[i];
        vstd::std_specs::vec::axiom_spec_len(&p.0);
        vstd::std_specs::vec::axiom_spec_len(&p.1);
    }
}

/// Every actual request envelope survives the codec unchanged: decoding its
/// encoding yields it back, method, path, header set and body intact.
pub proof fn lemma_request_codec_total(e: &RequestEnvelope)
    ensures
        spec_decode_request(spec_encode_request(e@)) == Some(e@),
{
    lemma_request_envelope_wf(e);
    lemma_request_round_trip(e@);
}

/// Every actual response envelope survives the codec unchanged.
pub proof fn lemma_response_codec_total(e: &ResponseEnvelope)
    ensures
        spec_decode_response(spec_encode_response(e@)) == Some(e@),
{
    lemma_response_envelope_wf(e);
    lemma_response_round_trip(e@);
}

/// No two well-formed request envelopes share an encoding.
pub proof fn lemma_encode_request_injective(a: RequestEnvelopeView, b: RequestEnvelopeView)
    requires
        request_wf(a),
        request_wf(b),
        spec_encode_request(a) == spec_encode_request(b),
    ensures
        a == b,
{
    lemma_request_round_trip(a);
    lemma_request_round_trip(b);
}

/// No two well-formed response envelopes share an encoding.
pub proof fn lemma_encode_response_injective(a: ResponseEnvelopeView, b: ResponseEnvelopeView)
    requires
        response_wf(a),
        response_wf(b),
        spec_encode_response(a) == spec_encode_response(b),
    ensures
        a == b,
{
    lemma_response_round_trip(a);
    lemma_response_round_trip(b);
}

/// Serialize a request envelope. The envelope's content is preserved
/// exactly: the result is the spec-level encoding of the envelope's image.
pub fn encode_request(e: &RequestEnvelope) -> (r: Vec<u8>)
    ensures
        r@ == spec_encode_request(e@),
{
    let mut out: Vec<u8> = Vec::new();
    push_blob(&mut out, &e.method);
    push_blob(&mut out, &e.path);
    push_pairs(&mut out, &e.headers);
    push_blob(&mut out, &e.body);
    proof {
        assert(out@ =~= spec_encode_request(e@));
    }
    out
}

/// Serialize a response envelope.
pub fn encode_response(e: &ResponseEnvelope) -> (r: Vec<u8>)
    ensures
        r@ == spec_encode_response(e@),
{
    let mut out: Vec<u8> = Vec::new();
    push_u16(&mut out, e.status);
    push_pairs(&mut out, &e.headers);
    push_blob(&mut out, &e.body);
    proof {
        assert(out@ =~= spec_encode_response(e@));
    }
    out
}

fn read_u64(b: &Vec<u8>, pos: usize) -> (r: Option<(u64, usize)>)
    requires
        pos <= b@.len(),
    ensures
        match r {
            Some(p) => take_u64(b@.skip(pos as int)) == Some((p.0, b@.skip(p.1 as int))) && pos
                <= p.1 <= b@.len(),
            None => take_u64(b@.skip(pos as int)) is None,
        },
{
    if b.len() - pos >= 8 {
        let s = slice_subrange(b.as_slice(), pos, pos + 8);
        let x = u64_from_le_bytes(s);
        proof {
            assert(b@.skip(pos as int).take(8) =~= b@.subrange(pos as int, pos + 8));
            assert(b@.skip(pos as int).skip(8) =~= b@.skip(pos + 8));
        }
        Some((x, pos + 8))
    } else {
        None
    }
}

fn read_u16(b: &Vec<u8>, pos: usize) -> (r: Option<(u16, usize)>)
    requires
        pos <= b@.len(),
    ensures
        match r {
            Some(p) => take_u16(b@.skip(pos as int)) == Some((p.0, b@.skip(p.1 as int))) && pos
                <= p.1 <= b@.len(),
            None => take_u16(b@.skip(pos as int)) is None,
        },
{
    if b.len() - pos >= 2 {
        let s = slice_subrange(b.as_slice(), pos, pos + 2);
        let x = u16_from_le_bytes(s);
        proof {
            assert(b@.skip(pos as int).take(2) =~= b@.subrange(pos as int, pos + 2));
            assert(b@.skip(pos as int).skip(2) =~= b@.skip(pos + 2));
        }
        Some((x, pos + 2))
    } else {
        None
    }
}

fn read_blob(b: &Vec<u8>, pos: usize) -> (r: Option<(Vec<u8>, usize)>)
    requires
        pos <= b@.len(),
    ensures
        match r {
            Some(p) => take_blob(b@.skip(pos as int)) == Some((p.0@, b@.skip(p.1 as int))) && pos
                <= p.1 <= b@.len(),
            None => take_blob(b@.skip(pos as int)) is None,
        },
{
    match read_u64(b, pos) {
        Some((n, p1)) => {
            if n <= (b.len() - p1) as u64 {
                let ln = n as usize;
                let s = slice_subrange(b.as_slice(), p1, p1 + ln);
                let v = slice_to_vec(s);
                proof {
                    assert(b@.skip(p1 as int).take(n as int) =~= b@.subrange(p1 as int, p1 + ln));
                    assert(b@.skip(p1 as int).skip(n as int) =~= b@.skip(p1 + ln));
                }
                Some((v, p1 + ln))
            } else {
                None
            }
        },
        None => None,
    }
}

/// Deserialize a request envelope from bytes: returns exactly what the
/// spec-level decoder yields, `None` on any malformed input.
pub fn decode_request(b: &Vec<u8>) -> (r: Option<RequestEnvelope>)
    ensures
        match r {
            Some(e) => spec_decode_request(b@) == Some(e@),
            None => spec_decode_request(b@) is None,
        },
{
    proof {
        assert(b@.skip(0) =~= b@);
    }
    let (method, p1) = match read_blob(b, 0) {
        Some(p) => p,
        None => {
            return None;
        },
    };
    let (path, p2) = match read_blob(b, p1) {
        Some(p) => p,
        None => {
            return None;
        },
    };
    let (count, p3) = match read_u64(b, p2) {
        Some(p) => p,
        None => {
            return None;
        },
    };
    let (headers, p4) = match read_pairs(b, p3, count) {
        Some(p) => p,
        None => {
            return None;
        },
    };
    let (body, p5) = match read_blob(b, p4) {
        Some(p) => p,
        None => {
            return None;
        },
    };
    if p5 != b.len() {
        return None;
    }
    proof {
        assert(b@.skip(p5 as int).len() == 0);
    }
    let e = RequestEnvelope { method, path, headers, body };
    proof {
        assert(spec_decode_request(b@) matches Some(d) && d =~= e@);
    }
    Some(e)
}

/// Deserialize a response envelope from bytes: returns exactly what the
/// spec-level decoder yields, `None` on any malformed input.
pub fn decode_response(b: &Vec<u8>) -> (r: Option<ResponseEnvelope>)
    ensures
        match r {
            Some(e) => spec_decode_response(b@) == Some(e@),
            None => spec_decode_response(b@) is None,
        },
{
    proof {
        assert(b@.skip(0) =~= b@);
    }
    let (status, p1) = match read_u16(b, 0) {
        Some(p) => p,
        None => {
            return None;
        },
    };
    let (count, p2) = match read_u64(b, p1) {
        Some(p) => p,
        None => {
            return None;
        },
    };
    let (headers, p3) = match read_pairs(b, p2, count) {
        Some(p) => p,
        None => {
            return None;
        },
    };
    let (body, p4) = match read_blob(b, p3) {
        Some(p) => p,
        None => {
            return None;
        },
    };
    if p4 != b.len() {
        return None;
    }
    proof {
        assert(b@.skip(p4 as int).len() == 0);
    }
    let e = ResponseEnvelope { status, headers, body };
    proof {
        assert(spec_decode_response(b@) matches Some(d) && d =~= e@);
    }
    Some(e)
}

fn read_pairs(b: &Vec<u8>, pos: usize, n: u64) -> (r: Option<(Vec<(Vec<u8>, Vec<u8>)>, usize)>)
    requires
        pos <= b@.len(),
    ensures
        match r {
            Some(p) => take_pairs(b@.skip(pos as int), n as nat) == Some(
                (p.0.deep_view(), b@.skip(p.1 as int)),
            ) && pos <= p.1 <= b@.len(),
            None => take_pairs(b@.skip(pos as int), n as nat) is None,
        },
{
    let mut acc: Vec<(Vec<u8>, Vec<u8>)> = Vec::new();
    let mut i: u64 = 0;
    let mut p: usize = pos;
    while i < n
        invariant
            i <= n,
            pos <= p <= b@.len(),
            take_pairs(b@.skip(pos as int), n as nat) == (match take_pairs(
                b@.skip(p as int),
                (n - i) as nat,
            ) {
                Some(q) => Some((acc.deep_view() + q.0, q.1)),
                None => None::<(Seq<(Seq<u8>, Seq<u8>)>, Seq<u8>)>,
            }),
        decreases n - i,
    {
        let (k, p1) = match read_blob(b, p) {
            Some(q) => q,
            None => {
                return None;
            },
        };
        let (v, p2) = match read_blob(b, p1) {
            Some(q) => q,
            None => {
                return None;
            },
        };
        let ghost old_acc = acc.deep_view();
        acc.push((k, v));
        proof {
            assert(k.deep_view() =~= k@);
            assert(v.deep_view() =~= v@);
            assert(acc.deep_view() =~= old_acc.push((k@, v@)));
            let s_p = b@.skip(p as int);
            let s_p2 = b@.skip(p2 as int);
            assert(take_pairs(s_p, (n - i) as nat) == (match take_pairs(s_p2, (n - i - 1) as nat) {
                Some(q) => Some((seq![(k@, v@)] + q.0, q.1)),
                None => None::<(Seq<(Seq<u8>, Seq<u8>)>, Seq<u8>)>,
            }));
            if let Some(q) = take_pairs(s_p2, (n - i - 1) as nat) {
                assert(old_acc + (seq![(k@, v@)] + q.0) =~= acc.deep_view() + q.0);
            }
        }
        p = p2;
        i = i + 1;
    }
    proof {
        assert(take_pairs(b@.skip(p as int), 0) == Some(
            (Seq::<(Seq<u8>, Seq<u8>)>::empty(), b@.skip(p as int)),
        ));
        assert(acc.deep_view() + Seq::<(Seq<u8>, Seq<u8>)>::empty() =~= acc.deep_view());
    }
    Some((acc, p))
}

} // verus!

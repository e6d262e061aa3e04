use vstd::prelude::*;

use crate::codec::{cbor_of_request, cbor_of_response, decode_response, decoded_request, decoded_response, encode_request, encode_response, response_wire};
use crate::error::{RMIError, RMIResult};
use crate::transport::{RMIRequest, RMIResponse, ResponseView};

verus! {

// Every message on a stream travels as a frame: a 4-byte big-endian length,
// then exactly that many bytes of payload. The length leaves out the prefix.

/// The 4-byte big-endian form of `n`.
pub open spec fn be_bytes(n: u32) -> Seq<u8> {
    seq![(n >> 24u32) as u8, (n >> 16u32) as u8, (n >> 8u32) as u8, n as u8]
}

/// The number that 4 bytes give, read big-endian.
pub open spec fn be_value(b: Seq<u8>) -> u32 {
    ((b[0] as u32) << 24u32) | ((b[1] as u32) << 16u32) | ((b[2] as u32) << 8u32) | (b[3] as u32)
}

/// The frame that carries `p` (meaningful where its length fits in a `u32`).
pub open spec fn framed(p: Seq<u8>) -> Seq<u8> {
    be_bytes(p.len() as u32) + p
}

/// The payload of the frame at the start of `b`; none where `b` ends before
/// the prefix or before the length the prefix declares.
pub open spec fn frame_payload(b: Seq<u8>) -> Option<Seq<u8>> {
    if b.len() < 4 {
        None
    } else {
        let n = be_value(b.subrange(0, 4)) as int;
        if b.len() - 4 < n {
            None
        } else {
            Some(b.subrange(4, 4 + n))
        }
    }
}

proof fn lemma_be_value_of_bytes(n: u32)
    ensures
        be_value(be_bytes(n)) == n,
{
    let b = be_bytes(n);
    assert(b[0] == (n >> 24u32) as u8);
    assert(b[1] == (n >> 16u32) as u8);
    assert(b[2] == (n >> 8u32) as u8);
    assert(b[3] == n as u8);
    assert((((n >> 24u32) as u8 as u32) << 24u32) | (((n >> 16u32) as u8 as u32) << 16u32) | (
    ((n >> 8u32) as u8 as u32) << 8u32) | (n as u8 as u32) == n) by (bit_vector);
}

/// A frame followed by anything is read back as the payload it carries.
pub proof fn lemma_frame_round_trip(p: Seq<u8>, rest: Seq<u8>)
    requires
        p.len() <= u32::MAX,
    ensures
        frame_payload(framed(p) + rest) == Some(p),
{
    let b = framed(p) + rest;
    lemma_be_value_of_bytes(p.len() as u32);
    assert(b.subrange(0, 4) =~= be_bytes(p.len() as u32));
    assert(b.subrange(4, 4 + p.len() as int) =~= p);
}

/// A frame cut short anywhere, in its prefix or in its payload, yields no
/// payload at all.
pub proof fn lemma_truncated_frame_fails(p: Seq<u8>, k: int)
    requires
        p.len() <= u32::MAX,
        0 <= k < framed(p).len(),
    ensures
        frame_payload(framed(p).subrange(0, k)) is None,
{
    let b = framed(p).subrange(0, k);
    if k >= 4 {
        lemma_be_value_of_bytes(p.len() as u32);
        assert(b.subrange(0, 4) =~= be_bytes(p.len() as u32));
    }
}

/// The length that a 4-byte prefix declares; a transport error where fewer
/// or more than 4 bytes were read.
pub fn frame_length(prefix: &[u8]) -> (r: RMIResult<usize>)
    ensures
        prefix@.len() == 4 ==> r == Ok::<usize, RMIError>(be_value(prefix@) as usize),
        prefix@.len() != 4 ==> (r matches Err(e) && e is TransportError),
{
    if prefix.len() != 4 {
        return Err(RMIError::TransportError("incomplete frame length".to_owned()));
    }
    let n: u32 = ((prefix[0] as u32) << 24u32) | ((prefix[1] as u32) << 16u32) | ((prefix[2] as u32)
        << 8u32) | (prefix[3] as u32);
    Ok(n as usize)
}

/// The frame that carries `payload`; a transport error where its length
/// does not fit in the 4-byte prefix.
pub fn encode_frame(payload: &[u8]) -> (r: RMIResult<Vec<u8>>)
    ensures
        payload@.len() <= u32::MAX ==> (r matches Ok(f) && f@ == framed(payload@)),
        payload@.len() > u32::MAX ==> (r matches Err(e) && e is TransportError),
{
    if payload.len() > 0xffff_ffffusize {
        return Err(RMIError::TransportError("payload too long for one frame".to_owned()));
    }
    let n = payload.len() as u32;
    let mut out: Vec<u8> = Vec::new();
    out.push((n >> 24u32) as u8);
    out.push((n >> 16u32) as u8);
    out.push((n >> 8u32) as u8);
    out.push(n as u8);
    let ghost head = out@;
    assert(head =~= be_bytes(n));
    let mut i: usize = 0;
    while i < payload.len()
        invariant
            i <= payload@.len(),
            out@ == head + payload@.subrange(0, i as int),
        decreases payload@.len() - i,
    {
        out.push(payload[i]);
        i = i + 1;
        assert(out@ =~= head + payload@.subrange(0, i as int));
    }
    assert(payload@.subrange(0, i as int) =~= payload@);
    Ok(out)
}

/// The payload of the frame at the start of `bytes`; a transport error where
/// the bytes end before the prefix, or before the length it declares.
pub fn decode_frame(bytes: &[u8]) -> (r: RMIResult<Vec<u8>>)
    ensures
        match frame_payload(bytes@) {
            Some(p) => r matches Ok(q) && q@ == p,
            None => r matches Err(e) && e is TransportError,
        },
{
    if bytes.len() < 4 {
        return Err(RMIError::TransportError("stream ended inside a frame length".to_owned()));
    }
    let n: usize = ((bytes[0] as u32) << 24u32 | (bytes[1] as u32) << 16u32 | (bytes[2] as u32)
        << 8u32 | (bytes[3] as u32)) as usize;
    assert(bytes@.subrange(0, 4)[0] == bytes@[0]);
    assert(n == be_value(bytes@.subrange(0, 4)));
    if bytes.len() - 4 < n {
        return Err(RMIError::TransportError("stream ended inside a frame payload".to_owned()));
    }
    let len = bytes.len();
    let mut out: Vec<u8> = Vec::new();
    let mut i: usize = 0;
    while i < n
        invariant
            i <= n,
            len == bytes@.len(),
            4 + n <= bytes@.len(),
            out@ == bytes@.subrange(4, 4 + i),
        decreases n - i,
    {
        out.push(bytes[4 + i]);
        i = i + 1;
        assert(out@ =~= bytes@.subrange(4, 4 + i));
    }
    Ok(out)
}

/// The frame that carries a request on the wire; a transport error where
/// its encoding is too long for one frame. Reading the frame back gives the
/// request.
pub fn request_frame(req: &RMIRequest) -> (r: RMIResult<Vec<u8>>)
    ensures
        ({
            let p = cbor_of_request((req@.object_id, req@.method_name, req@.args));
            &&& p.len() <= u32::MAX ==> (r matches Ok(f) && f@ == framed(p))
            &&& p.len() > u32::MAX ==> (r matches Err(e) && e is TransportError)
        }),
        r matches Ok(f) ==> (frame_payload(f@) matches Some(p) && decoded_request(p) == Some(req@)),
{
    let payload = encode_request(req)?;
    let r = encode_frame(payload.as_slice());
    proof {
        if payload@.len() <= u32::MAX {
            lemma_frame_round_trip(payload@, Seq::empty());
            assert(framed(payload@) + Seq::<u8>::empty() =~= framed(payload@));
        }
    }
    r
}

/// `r` is the frame that carries the response `v`, or a transport error
/// where its encoding is too long for one frame. Reading the frame back
/// gives `v`, each kind of error with its detail.
pub open spec fn frames_response(v: ResponseView, r: RMIResult<Vec<u8>>) -> bool {
    let p = cbor_of_response(response_wire(v));
    &&& p.len() <= u32::MAX ==> (r matches Ok(f) && f@ == framed(p))
    &&& p.len() > u32::MAX ==> (r matches Err(e) && e is TransportError)
    &&& r matches Ok(f) ==> (frame_payload(f@) matches Some(q) && decoded_response(q) == Some(v))
}

/// The frame that carries a response on the wire; a transport error where
/// its encoding is too long for one frame. Reading the frame back gives the
/// response, each kind of error with its detail.
pub fn response_frame(resp: RMIResponse) -> (r: RMIResult<Vec<u8>>)
    ensures
        frames_response(resp@, r),
{
    let ghost v = resp@;
    let payload = encode_response(resp)?;
    let r = encode_frame(payload.as_slice());
    proof {
        if payload@.len() <= u32::MAX {
            lemma_frame_round_trip(payload@, Seq::empty());
            assert(framed(payload@) + Seq::<u8>::empty() =~= framed(payload@));
        }
    }
    r
}

/// The response that a frame received from a server carries: a transport
/// error where the bytes end before the length the prefix declares, a
/// serialization error where the payload holds no response. Reading back a
/// frame of `response_frame` gives its response, each kind of error with
/// its detail.
pub fn read_response(bytes: &[u8]) -> (r: RMIResult<RMIResponse>)
    ensures
        match frame_payload(bytes@) {
            None => r matches Err(e) && e is TransportError,
            Some(p) => match decoded_response(p) {
                Some(v) => r matches Ok(x) && x@ == v,
                None => r matches Err(e) && e is SerializationError,
            },
        },
{
    let payload = decode_frame(bytes)?;
    decode_response(payload.as_slice())
}

} // verus!

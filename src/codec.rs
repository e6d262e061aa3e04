use vstd::prelude::*;

use crate::error::{ErrorView, RMIError, RMIResult};
use crate::transport::{RMIRequest, RMIResponse, RequestView, ResponseView};

verus! {

// The encoding on the wire is CBOR. A request goes as the triple
// (object id, method name, argument bytes); a response as the quadruple
// (kind, result bytes, detail, object id), where the kind tells success
// from each kind of error and the fields a kind does not use are empty.

#[verifier::external_type_specification]
#[verifier::external_body]
pub struct ExCborError(serde_cbor::Error);

/// The CBOR head of major type `major` with argument `n`, in its shortest
/// form: the argument inside the first byte up to 23, else after it in 1, 2
/// or 4 big-endian bytes.
pub open spec fn cbor_head(major: int, n: int) -> Seq<u8> {
    if n <= 23 {
        seq![(major * 32 + n) as u8]
    } else if n <= 0xff {
        seq![(major * 32 + 24) as u8, n as u8]
    } else if n <= 0xffff {
        seq![(major * 32 + 25) as u8, (n / 0x100) as u8, (n % 0x100) as u8]
    } else {
        seq![
            (major * 32 + 26) as u8,
            (n / 0x1000000) as u8,
            (n / 0x10000 % 0x100) as u8,
            (n / 0x100 % 0x100) as u8,
            (n % 0x100) as u8,
        ]
    }
}

/// The CBOR encoding of an `i32`: an unsigned integer (major type 0) for
/// `x >= 0`, a negative one (major type 1) carrying `-1 - x` otherwise.
pub open spec fn cbor_of_i32(x: i32) -> Seq<u8> {
    if x >= 0 {
        cbor_head(0, x as int)
    } else {
        cbor_head(1, -1 - x)
    }
}

/// The `i32` that a byte sequence encodes, if it encodes one.
pub uninterp spec fn i32_of_cbor(b: Seq<u8>) -> Option<i32>;

/// The CBOR encoding of a request triple.
pub uninterp spec fn cbor_of_request(w: (u16, Seq<char>, Seq<u8>)) -> Seq<u8>;

/// The request triple that a byte sequence encodes, if it encodes one.
pub uninterp spec fn request_of_cbor(b: Seq<u8>) -> Option<(u16, Seq<char>, Seq<u8>)>;

/// The CBOR encoding of a response quadruple.
pub uninterp spec fn cbor_of_response(w: (u8, Seq<u8>, Seq<char>, u16)) -> Seq<u8>;

/// The response quadruple that a byte sequence encodes, if it encodes one.
pub uninterp spec fn response_of_cbor(b: Seq<u8>) -> Option<(u8, Seq<u8>, Seq<char>, u16)>;

/// Relies on serde_cbor::to_vec: the CBOR encoding of the value, which
/// depends on the value alone; writing into a `Vec` does not fail, and
/// serde_cbor reads an `i32` back from it.
#[verifier::external_body]
fn cbor_encode_i32(x: i32) -> (r: Result<Vec<u8>, serde_cbor::Error>)
    ensures
        r is Ok,
        r matches Ok(b) ==> b@ == cbor_of_i32(x),
        r matches Ok(b) ==> i32_of_cbor(b@) == Some(x),
{
    serde_cbor::to_vec(&x)
}

/// Relies on serde_cbor::from_slice: reads the whole slice as one `i32`,
/// and whether it succeeds, and with what, depends on the bytes alone.
#[verifier::external_body]
fn cbor_decode_i32(b: &[u8]) -> (r: Result<i32, serde_cbor::Error>)
    ensures
        r is Ok <==> i32_of_cbor(b@) is Some,
        r matches Ok(v) ==> i32_of_cbor(b@) == Some(v),
{
    serde_cbor::from_slice(b)
}

/// Relies on serde_cbor::to_vec: the CBOR encoding of the triple, which
/// depends on the values alone; writing into a `Vec` does not fail, and
/// serde_cbor reads the same triple back from it.
#[verifier::external_body]
fn cbor_encode_request(id: u16, method: &String, args: &Vec<u8>) -> (r: Result<Vec<u8>, serde_cbor::Error>)
    ensures
        r is Ok,
        r matches Ok(b) ==> b@ == cbor_of_request((id, method@, args@)),
        r matches Ok(b) ==> request_of_cbor(b@) == Some((id, method@, args@)),
{
    serde_cbor::to_vec(&(id, method, args))
}

/// Relies on serde_cbor::from_slice: reads the whole slice as one request
/// triple, and whether it succeeds, and with what, depends on the bytes alone.
#[verifier::external_body]
fn cbor_decode_request(b: &[u8]) -> (r: Result<(u16, String, Vec<u8>), serde_cbor::Error>)
    ensures
        r is Ok <==> request_of_cbor(b@) is Some,
        r matches Ok(t) ==> request_of_cbor(b@) == Some((t.0, t.1@, t.2@)),
{
    serde_cbor::from_slice(b)
}

/// Relies on serde_cbor::to_vec: the CBOR encoding of the quadruple, which
/// depends on the values alone; writing into a `Vec` does not fail, and
/// serde_cbor reads the same quadruple back from it.
#[verifier::external_body]
fn cbor_encode_response(w: &(u8, Vec<u8>, String, u16)) -> (r: Result<Vec<u8>, serde_cbor::Error>)
    ensures
        r is Ok,
        r matches Ok(b) ==> b@ == cbor_of_response((w.0, w.1@, w.2@, w.3)),
        r matches Ok(b) ==> response_of_cbor(b@) == Some((w.0, w.1@, w.2@, w.3)),
{
    serde_cbor::to_vec(w)
}

/// Relies on serde_cbor::from_slice: reads the whole slice as one response
/// quadruple, and whether it succeeds, and with what, depends on the bytes
/// alone.
#[verifier::external_body]
fn cbor_decode_response(b: &[u8]) -> (r: Result<(u8, Vec<u8>, String, u16), serde_cbor::Error>)
    ensures
        r is Ok <==> response_of_cbor(b@) is Some,
        r matches Ok(t) ==> response_of_cbor(b@) == Some((t.0, t.1@, t.2@, t.3)),
{
    serde_cbor::from_slice(b)
}

/// Relies on serde_cbor::Error's `Display`: a description of what failed.
#[verifier::external_body]
fn cbor_error_text(e: &serde_cbor::Error) -> (r: String) {
    e.to_string()
}

fn serialization_error(e: serde_cbor::Error) -> (r: RMIError)
    ensures
        r is SerializationError,
{
    RMIError::SerializationError(cbor_error_text(&e))
}

/// The wire quadruple of a response.
pub open spec fn response_wire(v: ResponseView) -> (u8, Seq<u8>, Seq<char>, u16) {
    let e = Seq::<u8>::empty();
    let n = Seq::<char>::empty();
    match v {
        Ok(d) => (0, d, n, 0),
        Err(ErrorView::Serialization(s)) => (1, e, s, 0),
        Err(ErrorView::Server(s)) => (2, e, s, 0),
        Err(ErrorView::Transport(s)) => (3, e, s, 0),
        Err(ErrorView::MethodNotFound(s)) => (4, e, s, 0),
        Err(ErrorView::BadArguments(s)) => (5, e, s, 0),
        Err(ErrorView::ObjectNotFound(id)) => (6, e, n, id),
        Err(ErrorView::NameNotFound(s)) => (7, e, s, 0),
        Err(ErrorView::EmptyRegistry) => (8, e, n, 0),
        Err(ErrorView::Io(s)) => (9, e, s, 0),
    }
}

/// The response that a wire quadruple stands for; none for an unknown kind.
pub open spec fn response_of_wire(w: (u8, Seq<u8>, Seq<char>, u16)) -> Option<ResponseView> {
    if w.0 == 0 {
        Some(Ok(w.1))
    } else if w.0 == 1 {
        Some(Err(ErrorView::Serialization(w.2)))
    } else if w.0 == 2 {
        Some(Err(ErrorView::Server(w.2)))
    } else if w.0 == 3 {
        Some(Err(ErrorView::Transport(w.2)))
    } else if w.0 == 4 {
        Some(Err(ErrorView::MethodNotFound(w.2)))
    } else if w.0 == 5 {
        Some(Err(ErrorView::BadArguments(w.2)))
    } else if w.0 == 6 {
        Some(Err(ErrorView::ObjectNotFound(w.3)))
    } else if w.0 == 7 {
        Some(Err(ErrorView::NameNotFound(w.2)))
    } else if w.0 == 8 {
        Some(Err(ErrorView::EmptyRegistry))
    } else if w.0 == 9 {
        Some(Err(ErrorView::Io(w.2)))
    } else {
        None
    }
}

/// The request that wire bytes hold, if any.
pub open spec fn decoded_request(b: Seq<u8>) -> Option<RequestView> {
    match request_of_cbor(b) {
        Some(t) => Some(RequestView { object_id: t.0, method_name: t.1, args: t.2 }),
        None => None,
    }
}

/// The response that wire bytes hold, if any: none where they hold no
/// quadruple, or one of an unknown kind.
pub open spec fn decoded_response(b: Seq<u8>) -> Option<ResponseView> {
    match response_of_cbor(b) {
        Some(w) => response_of_wire(w),
        None => None,
    }
}

/// Every response, each kind of error included, is given back unchanged by
/// reading its own wire quadruple.
pub proof fn lemma_response_wire_round_trip(v: ResponseView)
    ensures
        response_of_wire(response_wire(v)) == Some(v),
{
}

impl RMIResponse {
    /// The wire quadruple of this response.
    pub fn into_wire(self) -> (w: (u8, Vec<u8>, String, u16))
        ensures
            (w.0, w.1@, w.2@, w.3) == response_wire(self@),
    {
        match self.result {
            Ok(d) => (0, d, String::new(), 0),
            Err(RMIError::SerializationError(s)) => (1, Vec::new(), s, 0),
            Err(RMIError::ServerError(s)) => (2, Vec::new(), s, 0),
            Err(RMIError::TransportError(s)) => (3, Vec::new(), s, 0),
            Err(RMIError::MethodNotFound(s)) => (4, Vec::new(), s, 0),
            Err(RMIError::BadArguments(s)) => (5, Vec::new(), s, 0),
            Err(RMIError::ObjectNotFound(id)) => (6, Vec::new(), String::new(), id),
            Err(RMIError::NameNotFound(s)) => (7, Vec::new(), s, 0),
            Err(RMIError::EmptyRegistry()) => (8, Vec::new(), String::new(), 0),
            Err(RMIError::IoError(s)) => (9, Vec::new(), s, 0),
        }
    }

    /// The response that a wire quadruple stands for; none for an unknown
    /// kind.
    pub fn from_wire(w: (u8, Vec<u8>, String, u16)) -> (r: Option<RMIResponse>)
        ensures
            r is Some <==> response_of_wire((w.0, w.1@, w.2@, w.3)) is Some,
            r matches Some(x) ==> response_of_wire((w.0, w.1@, w.2@, w.3)) == Some(x@),
    {
        let (kind, data, detail, id) = w;
        let result = if kind == 0 {
            Ok(data)
        } else if kind == 1 {
            Err(RMIError::SerializationError(detail))
        } else if kind == 2 {
            Err(RMIError::ServerError(detail))
        } else if kind == 3 {
            Err(RMIError::TransportError(detail))
        } else if kind == 4 {
            Err(RMIError::MethodNotFound(detail))
        } else if kind == 5 {
            Err(RMIError::BadArguments(detail))
        } else if kind == 6 {
            Err(RMIError::ObjectNotFound(id))
        } else if kind == 7 {
            Err(RMIError::NameNotFound(detail))
        } else if kind == 8 {
            Err(RMIError::EmptyRegistry())
        } else if kind == 9 {
            Err(RMIError::IoError(detail))
        } else {
            return None;
        };
        Some(RMIResponse { result })
    }
}

/// The argument bytes of a call whose one argument is `x`.
/// Reading the bytes back gives `x`.
pub fn marshal_i32(x: i32) -> (r: RMIResult<Vec<u8>>)
    ensures
        r is Ok,
        r matches Ok(b) ==> b@ == cbor_of_i32(x),
        r matches Ok(b) ==> i32_of_cbor(b@) == Some(x),
{
    match cbor_encode_i32(x) {
        Ok(b) => Ok(b),
        Err(e) => Err(serialization_error(e)),
    }
}

/// The `i32` that the bytes encode; a serialization error where they encode
/// none.
pub fn unmarshal_i32(b: &[u8]) -> (r: RMIResult<i32>)
    ensures
        match i32_of_cbor(b@) {
            Some(v) => r == Ok::<i32, RMIError>(v),
            None => r matches Err(e) && e is SerializationError,
        },
{
    match cbor_decode_i32(b) {
        Ok(v) => Ok(v),
        Err(e) => Err(serialization_error(e)),
    }
}

/// The wire bytes of a request.
/// Decoding the bytes gives the request back.
pub fn encode_request(req: &RMIRequest) -> (r: RMIResult<Vec<u8>>)
    ensures
        r is Ok,
        r matches Ok(b) ==> b@ == cbor_of_request((req@.object_id, req@.method_name, req@.args)),
        r matches Ok(b) ==> decoded_request(b@) == Some(req@),
{
    match cbor_encode_request(req.object_id, &req.method_name, &req.serialized_args) {
        Ok(b) => Ok(b),
        Err(e) => Err(serialization_error(e)),
    }
}

/// The request that the wire bytes hold; a serialization error where they
/// hold none.
pub fn decode_request(b: &[u8]) -> (r: RMIResult<RMIRequest>)
    ensures
        match decoded_request(b@) {
            Some(v) => r matches Ok(q) && q@ == v,
            None => r matches Err(e) && e is SerializationError,
        },
{
    match cbor_decode_request(b) {
        Ok(t) => {
            let (object_id, method_name, serialized_args) = t;
            Ok(RMIRequest { object_id, method_name, serialized_args })
        },
        Err(e) => Err(serialization_error(e)),
    }
}

/// The wire bytes of a response.
/// Decoding the bytes gives the response back, each kind of error with its
/// detail.
pub fn encode_response(resp: RMIResponse) -> (r: RMIResult<Vec<u8>>)
    ensures
        r is Ok,
        r matches Ok(b) ==> b@ == cbor_of_response(response_wire(resp@)),
        r matches Ok(b) ==> decoded_response(b@) == Some(resp@),
{
    let ghost v = resp@;
    let w = resp.into_wire();
    match cbor_encode_response(&w) {
        Ok(b) => {
            proof {
                lemma_response_wire_round_trip(v);
            }
            Ok(b)
        },
        Err(e) => Err(serialization_error(e)),
    }
}

/// The response that the wire bytes hold; a serialization error where they
/// hold no quadruple, or one of an unknown kind.
pub fn decode_response(b: &[u8]) -> (r: RMIResult<RMIResponse>)
    ensures
        match decoded_response(b@) {
            Some(v) => r matches Ok(x) && x@ == v,
            None => r matches Err(e) && e is SerializationError,
        },
{
    match cbor_decode_response(b) {
        Ok(w) => match RMIResponse::from_wire(w) {
            Some(x) => Ok(x),
            None => Err(RMIError::SerializationError("unknown response kind".to_owned())),
        },
        Err(e) => Err(serialization_error(e)),
    }
}

} // verus!

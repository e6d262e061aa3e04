use vstd::prelude::*;

use crate::error::{ErrorView, RMIError, RMIResult, RMI_ID, result_view};

verus! {

/// A call addressed to one object: which object, which method, and the
/// encoded arguments.
#[derive(Debug, Clone, PartialEq)]
pub struct RMIRequest {
    pub object_id: RMI_ID,
    pub method_name: String,
    pub serialized_args: Vec<u8>,
}

/// Model of a request.
pub struct RequestView {
    pub object_id: RMI_ID,
    pub method_name: Seq<char>,
    pub args: Seq<u8>,
}

impl View for RMIRequest {
    type V = RequestView;

    open spec fn view(&self) -> RequestView {
        RequestView {
            object_id: self.object_id,
            method_name: self.method_name@,
            args: self.serialized_args@,
        }
    }
}

/// The answer to one request: the encoded result, or the error it ended in.
#[derive(Debug)]
pub struct RMIResponse {
    pub result: RMIResult<Vec<u8>>,
}

/// Model of a response.
pub type ResponseView = Result<Seq<u8>, ErrorView>;

impl View for RMIResponse {
    type V = ResponseView;

    open spec fn view(&self) -> ResponseView {
        result_view(self.result)
    }
}

impl RMIRequest {
    pub fn new(object_id: RMI_ID, method_handler: String, serialized_args: Vec<u8>) -> (r: RMIRequest)
        ensures
            r.object_id == object_id,
            r.method_name@ == method_handler@,
            r.serialized_args@ == serialized_args@,
    {
        RMIRequest { object_id, method_name: method_handler, serialized_args }
    }

    /// A fixed request, handy as sample data: object 42, method "test",
    /// arguments `[0, 1, 2]`.
    pub fn example() -> (r: RMIRequest)
        ensures
            r.object_id == 42,
            r.method_name@ == "test"@,
            r.serialized_args@ == seq![0u8, 1, 2],
    {
        let mut args: Vec<u8> = Vec::new();
        args.push(0);
        args.push(1);
        args.push(2);
        RMIRequest { object_id: 42, method_name: "test".to_owned(), serialized_args: args }
    }
}

impl Clone for RMIResponse {
    fn clone(&self) -> (r: Self)
        ensures
            r@ == self@,
    {
        match &self.result {
            Ok(data) => {
                let copy = data.clone();
                assert(copy@ =~= data@);
                RMIResponse { result: Ok(copy) }
            },
            Err(e) => RMIResponse { result: Err(e.duplicate()) },
        }
    }
}

impl RMIResponse {
    /// A response carrying the encoded result of a call.
    pub fn success(data: Vec<u8>) -> (r: Self)
        ensures
            r@ == Ok::<Seq<u8>, ErrorView>(data@),
    {
        RMIResponse { result: Ok(data) }
    }

    /// A response reporting that the exchange itself failed.
    pub fn error(msg: String) -> (r: Self)
        ensures
            r@ == Err::<Seq<u8>, ErrorView>(ErrorView::Transport(msg@)),
    {
        RMIResponse { result: Err(RMIError::TransportError(msg)) }
    }

    /// A response reporting the given error, whatever its kind.
    pub fn failure(e: RMIError) -> (r: Self)
        ensures
            r@ == Err::<Seq<u8>, ErrorView>(e@),
    {
        RMIResponse { result: Err(e) }
    }
}

/// Carries one request to the server that holds its object and brings back
/// the one response to it.
pub trait Transport {
    /// Whether `r` is an outcome that sending `req` may give. An
    /// implementation states here what it guarantees; one that states
    /// nothing admits every outcome.
    open spec fn may_answer(&self, req: RequestView, r: Result<ResponseView, ErrorView>) -> bool {
        true
    }

    fn send(&self, req: RMIRequest) -> (r: RMIResult<RMIResponse>)
        ensures
            self.may_answer(req@, result_view(r)),
    ;
}

} // verus!

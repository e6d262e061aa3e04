use vstd::prelude::*;

use crate::error::{ErrorView, RMIResult, result_view};
use crate::framing::{frames_response, response_frame};
use crate::transport::{RMIRequest, RMIResponse};

verus! {

/// An object that can be called remotely. It routes on the method name
/// itself and reports a failure as an error of its own choosing.
pub trait RemoteObject {
    /// Whether `r` is an outcome that running `method` on `args` may give.
    /// An implementation states here what its methods compute; one that
    /// states nothing admits every outcome.
    open spec fn may_give(&self, method: Seq<char>, args: Seq<u8>, r: Result<Seq<u8>, ErrorView>) -> bool {
        true
    }

    fn run(&self, method_name: &str, args: Vec<u8>) -> (r: RMIResult<Vec<u8>>)
        ensures
            self.may_give(method_name@, args@, result_view(r)),
    ;
}

/// The server side of a call: runs the method a request names on the object
/// it resolved to, and turns the outcome into a response. It holds no state
/// and can serve any number of calls at once.
pub struct Skeleton {}

impl Skeleton {
    pub fn new() -> (r: Self) {
        Skeleton {  }
    }

    /// The response that an object's outcome becomes: its result on success,
    /// else the error it raised, kind and detail kept.
    pub fn respond(&self, outcome: RMIResult<Vec<u8>>) -> (r: RMIResponse)
        ensures
            r@ == result_view(outcome),
    {
        match outcome {
            Ok(data) => RMIResponse::success(data),
            Err(e) => RMIResponse::failure(e),
        }
    }

    /// Runs the method that `request` names on `object` and answers with the
    /// outcome.
    pub fn handle_request<O: RemoteObject + ?Sized>(&self, request: RMIRequest, object: &O) -> (r: RMIResponse)
        ensures
            object.may_give(request@.method_name, request@.args, r@),
    {
        let outcome = object.run(request.method_name.as_str(), request.serialized_args);
        self.respond(outcome)
    }

    /// Answers `request` given what the registry returned for its object:
    /// the failure to find it, or the outcome of running the method on it.
    pub fn dispatch<O: RemoteObject + ?Sized>(&self, request: RMIRequest, found: RMIResult<&O>) -> (r: RMIResponse)
        ensures
            found matches Err(e) ==> r@ == Err::<Seq<u8>, ErrorView>(e@),
            found matches Ok(object) ==> object.may_give(request@.method_name, request@.args, r@),
    {
        match found {
            Ok(object) => self.handle_request(request, object),
            Err(e) => RMIResponse::failure(e),
        }
    }

    /// The frame a server writes back for `request`, given what the registry
    /// returned for its object: the failure to find it, or the outcome of
    /// running the method on it. Reading the frame back gives that response.
    pub fn answer<O: RemoteObject + ?Sized>(&self, request: RMIRequest, found: RMIResult<&O>) -> (r: RMIResult<Vec<u8>>)
        ensures
            found matches Err(e) ==> frames_response(Err(e@), r),
            found matches Ok(object) ==> exists|o: Result<Seq<u8>, ErrorView>|
                #[trigger] object.may_give(request@.method_name, request@.args, o) && frames_response(o, r),
    {
        let response = self.dispatch(request, found);
        let ghost v = response@;
        let r = response_frame(response);
        assert(frames_response(v, r));
        r
    }
}

} // verus!

use vstd::prelude::*;

use crate::codec::{cbor_of_i32, i32_of_cbor, marshal_i32, unmarshal_i32};
use crate::error::{ErrorView, RMIResult, RMI_ID, result_view};
use crate::transport::{RMIRequest, RMIResponse, RequestView, ResponseView, Transport};

verus! {

/// Where an object lives: the address of its server, written `host:port`,
/// and its id in that server's registry.
#[derive(Debug, Clone, PartialEq)]
pub struct RemoteRef {
    pub addr: String,
    pub id: RMI_ID,
}

/// A remote interface with one method on integers.
pub trait RemoteTrait {
    fn run_method(&self, arg: i32) -> RMIResult<i32>;
}

/// What a call on integers returns, given what the exchange gave back: the
/// error of the exchange, the error the server reported, or the decoded
/// result (none where the result bytes encode no `i32`).
pub open spec fn reply_of(outcome: Result<ResponseView, ErrorView>) -> Option<Result<i32, ErrorView>> {
    match outcome {
        Err(e) => Some(Err(e)),
        Ok(Err(e)) => Some(Err(e)),
        Ok(Ok(b)) => match i32_of_cbor(b) {
            Some(v) => Some(Ok(v)),
            None => None,
        },
    }
}

/// `r` is what a call on integers returns when the exchange gave back
/// `outcome`: a serialization error where the result bytes encode no `i32`.
pub open spec fn is_reply(outcome: Result<ResponseView, ErrorView>, r: RMIResult<i32>) -> bool {
    match reply_of(outcome) {
        Some(v) => result_view(r) == v,
        None => r matches Err(e) && e is SerializationError,
    }
}

/// The request that calls `method` with `arg` on the object `id`.
pub open spec fn call_request(id: RMI_ID, method: Seq<char>, arg: i32) -> RequestView {
    RequestView { object_id: id, method_name: method, args: cbor_of_i32(arg) }
}

/// The request that calls `method` with the single argument `arg` on the
/// object `id`.
pub fn build_request(id: RMI_ID, method: &str, arg: i32) -> (r: RMIResult<RMIRequest>)
    ensures
        r is Ok,
        r matches Ok(q) ==> q@ == call_request(id, method@, arg),
{
    let serialized_args = marshal_i32(arg)?;
    Ok(RMIRequest { object_id: id, method_name: method.to_owned(), serialized_args })
}

/// The result of a call on integers, from what the exchange gave back.
/// Transport and server errors come through as they are, each of its own
/// kind.
pub fn read_reply(outcome: RMIResult<RMIResponse>) -> (r: RMIResult<i32>)
    ensures
        is_reply(result_view(outcome), r),
{
    match outcome {
        Err(e) => Err(e),
        Ok(resp) => match resp.result {
            Err(e) => Err(e),
            Ok(bytes) => unmarshal_i32(bytes.as_slice()),
        },
    }
}

/// The client side of a remote object: marshals the argument, sends the
/// request through its transport, and unmarshals the result or error.
pub struct Stub<T> {
    remote: RemoteRef,
    transport: T,
}

impl<T: Transport> Stub<T> {
    pub fn new(remote: RemoteRef, transport: T) -> (r: Self)
        ensures
            r.remote() == remote,
            r.transport() == transport,
    {
        Stub { remote, transport }
    }

    pub closed spec fn remote(&self) -> RemoteRef {
        self.remote
    }

    pub closed spec fn transport(&self) -> T {
        self.transport
    }

    /// The object this stub is bound to.
    pub fn remote_ref(&self) -> (r: &RemoteRef)
        ensures
            *r == self.remote(),
    {
        &self.remote
    }

    /// Calls `method` with `arg` on the bound object: sends the one request
    /// that names the object, the method and the encoded argument, and reads
    /// the result from whatever the transport gave back.
    pub fn call(&self, method: &str, arg: i32) -> (r: RMIResult<i32>)
        ensures
            exists|outcome: Result<ResponseView, ErrorView>|
                #[trigger] self.transport().may_answer(call_request(self.remote().id, method@, arg), outcome)
                    && is_reply(outcome, r),
    {
        let req = match build_request(self.remote.id, method, arg) {
            Ok(q) => q,
            Err(e) => return Err(e),
        };
        let outcome = self.transport.send(req);
        let ghost o = result_view(outcome);
        let r = read_reply(outcome);
        assert(self.transport().may_answer(call_request(self.remote().id, method@, arg), o) && is_reply(o, r));
        r
    }
}

impl<T: Transport> RemoteTrait for Stub<T> {
    /// Calls the interface's agreed method, "method_name", with `arg`.
    fn run_method(&self, arg: i32) -> (r: RMIResult<i32>)
        ensures
            exists|outcome: Result<ResponseView, ErrorView>|
                #[trigger] self.transport().may_answer(call_request(self.remote().id, "method_name"@, arg), outcome)
                    && is_reply(outcome, r),
    {
        self.call("method_name", arg)
    }
}

} // verus!

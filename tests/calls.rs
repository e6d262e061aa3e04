use std::sync::{Arc, Mutex};

use rmi::codec::{decode_request, decode_response, marshal_i32, unmarshal_i32};
use rmi::error::{RMIError, RMIResult};
use rmi::framing::{decode_frame, request_frame};
use rmi::registry::Registry;
use rmi::skeleton::{RemoteObject, Skeleton};
use rmi::stub::{build_request, read_reply, RemoteRef, RemoteTrait, Stub};
use rmi::transport::{RMIRequest, RMIResponse, Transport};

type Handle = Arc<dyn RemoteObject + Send + Sync>;

struct Doubler {}

impl RemoteObject for Doubler {
    fn run(&self, method_name: &str, args: Vec<u8>) -> RMIResult<Vec<u8>> {
        if method_name != "double" && method_name != "method_name" {
            return Err(RMIError::MethodNotFound(method_name.to_string()));
        }
        let x = unmarshal_i32(&args).map_err(|_| RMIError::BadArguments("expected an i32".to_string()))?;
        marshal_i32(x * 2)
    }
}

struct Counter {
    value: Mutex<i32>,
}

impl RemoteObject for Counter {
    fn run(&self, _method_name: &str, _args: Vec<u8>) -> RMIResult<Vec<u8>> {
        let mut v = self.value.lock().unwrap();
        *v += 1;
        marshal_i32(*v)
    }
}

/// Carries each request through its full byte form, as a socket would, to
/// a registry in the same process.
struct Loopback {
    registry: Arc<Mutex<Registry<Handle>>>,
}

impl Transport for Loopback {
    fn send(&self, req: RMIRequest) -> RMIResult<RMIResponse> {
        let wire = request_frame(&req)?;
        let request = decode_request(&decode_frame(&wire)?)?;
        let found: RMIResult<Handle> = self.registry.lock().unwrap().get(request.object_id).cloned();
        let object: RMIResult<&(dyn RemoteObject + Send + Sync)> = match &found {
            Ok(h) => Ok(h.as_ref()),
            Err(e) => Err(e.clone()),
        };
        let wire = Skeleton::new().answer(request, object)?;
        decode_response(&decode_frame(&wire)?)
    }
}

/// A transport with no server behind it.
struct Unreachable {}

impl Transport for Unreachable {
    fn send(&self, _req: RMIRequest) -> RMIResult<RMIResponse> {
        Err(RMIError::TransportError("connection refused".to_string()))
    }
}

fn server_with(object: Handle) -> (Arc<Mutex<Registry<Handle>>>, u16) {
    let registry = Arc::new(Mutex::new(Registry::new()));
    let id = registry.lock().unwrap().register(object);
    (registry, id)
}

fn remote(id: u16) -> RemoteRef {
    RemoteRef { addr: "127.0.0.1:10999".to_string(), id }
}

#[test]
fn double_over_the_wire() {
    let (registry, id) = server_with(Arc::new(Doubler {}));
    let stub = Stub::new(remote(id), Loopback { registry });
    assert_eq!(stub.call("double", 21), Ok(42));
    assert_eq!(stub.run_method(-4), Ok(-8));
}

#[test]
fn unknown_object_is_reported_by_the_server() {
    let (registry, id) = server_with(Arc::new(Doubler {}));
    let stub = Stub::new(remote(id + 7), Loopback { registry });
    assert_eq!(stub.call("double", 21), Err(RMIError::ObjectNotFound(id + 7)));
}

#[test]
fn unknown_method_is_reported_by_the_server() {
    let (registry, id) = server_with(Arc::new(Doubler {}));
    let stub = Stub::new(remote(id), Loopback { registry });
    assert_eq!(stub.call("triple", 1), Err(RMIError::MethodNotFound("triple".to_string())));
}

#[test]
fn nothing_listening_is_a_transport_error() {
    let stub = Stub::new(remote(1), Unreachable {});
    assert!(matches!(stub.call("double", 21), Err(RMIError::TransportError(_))));
}

#[test]
fn two_clients_lose_no_update() {
    let counter: Handle = Arc::new(Counter { value: Mutex::new(0) });
    let (registry, id) = server_with(counter.clone());
    let first = Stub::new(remote(id), Loopback { registry: Arc::clone(&registry) });
    let second = Stub::new(remote(id), Loopback { registry: Arc::clone(&registry) });
    for _ in 0..100 {
        first.call("increment", 0).unwrap();
        second.call("increment", 0).unwrap();
    }
    let last = counter.run("increment", Vec::new()).unwrap();
    assert_eq!(unmarshal_i32(&last), Ok(201));
}

#[test]
fn skeleton_keeps_the_error_kind() {
    let s = Skeleton::new();
    assert_eq!(s.respond(Ok(vec![1])).result, Ok(vec![1]));
    assert_eq!(s.respond(Err(RMIError::BadArguments("x".to_string()))).result, Err(RMIError::BadArguments("x".to_string())));
    let resp = s.handle_request(RMIRequest::new(1, "double".to_string(), marshal_i32(5).unwrap()), &Doubler {});
    assert_eq!(resp.result, Ok(marshal_i32(10).unwrap()));
    let missing: RMIResult<&Doubler> = Err(RMIError::ObjectNotFound(3));
    assert_eq!(s.dispatch(RMIRequest::example(), missing).result, Err(RMIError::ObjectNotFound(3)));
}

#[test]
fn request_carries_the_encoded_argument() {
    let req = build_request(9, "double", 21).unwrap();
    assert_eq!(req, RMIRequest::new(9, "double".to_string(), vec![0x15]));
}

#[test]
fn reply_reading_tells_the_three_origins_apart() {
    let transport = Err(RMIError::TransportError("reset".to_string()));
    assert_eq!(read_reply(transport), Err(RMIError::TransportError("reset".to_string())));
    let server = Ok(RMIResponse::failure(RMIError::ServerError("boom".to_string())));
    assert_eq!(read_reply(server), Err(RMIError::ServerError("boom".to_string())));
    let shape = Ok(RMIResponse::success(serde_cbor::to_vec(&"text").unwrap()));
    assert!(matches!(read_reply(shape), Err(RMIError::SerializationError(_))));
    assert_eq!(read_reply(Ok(RMIResponse::success(vec![0x18, 0x2a]))), Ok(42));
}

#[test]
fn example_request_is_fixed() {
    let req = RMIRequest::example();
    assert_eq!(req.object_id, 42);
    assert_eq!(req.method_name, "test");
    assert_eq!(req.serialized_args, vec![0, 1, 2]);
}

#[test]
fn server_answers_a_missing_object_with_a_frame() {
    let missing: RMIResult<&Doubler> = Err(RMIError::ObjectNotFound(8));
    let frame = Skeleton::new().answer(RMIRequest::example(), missing).unwrap();
    let back = decode_response(&decode_frame(&frame).unwrap()).unwrap();
    assert_eq!(back.result, Err(RMIError::ObjectNotFound(8)));
}

#[test]
fn server_answers_with_the_object_outcome() {
    let req = RMIRequest::new(1, "double".to_string(), marshal_i32(21).unwrap());
    let frame = Skeleton::new().answer(req, Ok(&Doubler {})).unwrap();
    let back = decode_response(&decode_frame(&frame).unwrap()).unwrap();
    assert_eq!(unmarshal_i32(&back.result.unwrap()), Ok(42));
}

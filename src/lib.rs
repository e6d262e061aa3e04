//! Remote method invocation: a client calls a method of an object that a
//! server hosts, over a byte stream.
//!
//! - `error`: the error kinds that a call can end in.
//! - `transport`: requests, responses, and the transport trait.
//! - `codec`: the CBOR encoding of arguments, requests and responses.
//! - `framing`: length-prefixed frames on a byte stream.
//! - `registry`: the server's directory of objects by id.
//! - `skeleton`: runs a request on an object and builds the response.
//! - `stub`: the client-side proxy.

pub mod error;
pub mod transport;
pub mod codec;
pub mod framing;
pub mod registry;
pub mod skeleton;
pub mod stub;

//! The abstract transport: send one request, get one response.

use vstd::prelude::*;

use crate::api::Request;
use crate::api::Response;

verus! {

/// One request/response exchange with the engine.
///
/// An implementation turns a single request into a single response, failing
/// with a transport error message on process-spawn failure, pipe failure, or
/// a response that cannot be decoded. Nothing is assumed of the response: the
/// exploration engine classifies whatever comes back.
pub trait Requester {
    fn request(&mut self, req: &Request) -> Result<Response, String>;
}

} // verus!

use vstd::prelude::*;

verus! {

/// Metadata of a request: small, copyable, readable any number of times.
#[derive(Clone, Copy, PartialEq, Eq, Structural)]
pub struct RequestParts {
    pub count: u8,
}

/// A request: its metadata and a body payload that is consumed at most once.
#[derive(Clone)]
pub struct Request {
    pub parts: RequestParts,
    pub expensive: Vec<u8>,
}

/// The textual result of a handler.
pub struct Response {
    pub content: String,
}

/// Why a dispatch produced no response.
#[derive(Clone, Copy, Debug, PartialEq, Eq, Structural)]
pub enum Rejection {
    /// The body is not well-formed JSON.
    InvalidJson,
    /// The body is JSON but does not have the declared shape.
    InvalidShape,
}

impl Request {
    pub fn new(parts: RequestParts, expensive: Vec<u8>) -> (r: Request)
        ensures
            r.parts == parts,
            r.expensive@ == expensive@,
    {
        Request { parts, expensive }
    }
}

} // verus!

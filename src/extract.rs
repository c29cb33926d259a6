use vstd::prelude::*;

use crate::request::{Rejection, Request, RequestParts};
use crate::WithParts;

verus! {

/// An extractor that reads only the metadata of a request, never its body.
pub trait FromRequestParts<S>: Sized {
    /// The value extracted from `parts` under `state`.
    spec fn extract_parts(parts: RequestParts, state: S) -> Self;

    fn from_request_parts(parts: &mut RequestParts, state: S) -> (r: Self)
        ensures
            *final(parts) == *old(parts),
            r == Self::extract_parts(*old(parts), state),
    ;
}

/// An extractor that may consume the whole request, body included.
///
/// `X` only tells apart the blanket impl for parts extractors from the others.
pub trait FromRequest<S, X>: Sized {
    /// `r` is an outcome of extracting from a request with `parts` and `body`.
    spec fn extracted(parts: RequestParts, body: Seq<u8>, state: S, r: Result<Self, Rejection>) -> bool;

    fn from_request(req: Request, state: S) -> (r: Result<Self, Rejection>)
        ensures
            Self::extracted(req.parts, req.expensive@, state, r),
    ;
}

/// Every parts extractor is a body extractor that ignores the body.
impl<S, T: FromRequestParts<S>> FromRequest<S, WithParts> for T {
    open spec fn extracted(parts: RequestParts, body: Seq<u8>, state: S, r: Result<T, Rejection>) -> bool {
        r == Ok::<T, Rejection>(T::extract_parts(parts, state))
    }

    fn from_request(req: Request, state: S) -> (r: Result<T, Rejection>) {
        let mut parts = req.parts;
        Ok(T::from_request_parts(&mut parts, state))
    }
}

/// The extractor that yields nothing.
impl<S> FromRequestParts<S> for () {
    open spec fn extract_parts(parts: RequestParts, state: S) -> () {
        ()
    }

    fn from_request_parts(parts: &mut RequestParts, state: S) -> (r: ()) {
    }
}

/// The shared state, handed through unchanged.
pub struct State<S>(pub S);

impl<S> FromRequestParts<S> for State<S> {
    open spec fn extract_parts(parts: RequestParts, state: S) -> State<S> {
        State(state)
    }

    fn from_request_parts(parts: &mut RequestParts, state: S) -> (r: State<S>) {
        State(state)
    }
}

/// The `count` field of the request's metadata.
pub struct Count(pub u8);

impl<S> FromRequestParts<S> for Count {
    open spec fn extract_parts(parts: RequestParts, state: S) -> Count {
        Count(parts.count)
    }

    fn from_request_parts(parts: &mut RequestParts, state: S) -> (r: Count) {
        Count(parts.count)
    }
}

/// The raw body of the request, taken by value.
pub struct Expensive(pub Vec<u8>);

impl<S> FromRequest<S, crate::WithRequest> for Expensive {
    open spec fn extracted(parts: RequestParts, body: Seq<u8>, state: S, r: Result<Expensive, Rejection>) -> bool {
        &&& r is Ok
        &&& r->Ok_0.0@ == body
    }

    fn from_request(req: Request, state: S) -> (r: Result<Expensive, Rejection>) {
        Ok(Expensive(req.expensive))
    }
}

} // verus!

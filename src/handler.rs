use vstd::prelude::*;

use crate::extract::{FromRequest, FromRequestParts};
use crate::request::{Rejection, Request, Response};

verus! {

/// A function whose parameters are resolved from a request and a state.
///
/// `T` is the arity shape: the parameter types, and for the last one the
/// marker of how it is extracted.
pub trait Handler<T, S>: Sized {
    /// The function accepts every argument list that the extractors can produce.
    spec fn total(&self) -> bool;

    /// `r` is an outcome of dispatching a request with `parts` and `body` under `state`.
    spec fn dispatched(&self, parts: crate::request::RequestParts, body: Seq<u8>, state: S, r: Result<Response, Rejection>) -> bool;

    fn call(self, req: Request, state: S) -> (r: Result<Response, Rejection>)
        requires
            self.total(),
        ensures
            self.dispatched(req.parts, req.expensive@, state, r),
    ;
}

/// No parameter: the function is called without any extraction.
impl<S, F: Fn() -> Response> Handler<(), S> for F {
    open spec fn total(&self) -> bool {
        call_requires(*self, ())
    }

    open spec fn dispatched(&self, parts: crate::request::RequestParts, body: Seq<u8>, state: S, r: Result<Response, Rejection>) -> bool {
        &&& r is Ok
        &&& call_ensures(*self, (), r->Ok_0)
    }

    fn call(self, req: Request, state: S) -> (r: Result<Response, Rejection>) {
        Ok(self())
    }
}

/// One parameter, which may consume the body.
impl<S, F: FnOnce(T1) -> Response, M, T1: FromRequest<S, M>> Handler<(M, T1), S> for F {
    open spec fn total(&self) -> bool {
        forall|t1: T1| call_requires(*self, (t1,))
    }

    open spec fn dispatched(&self, parts: crate::request::RequestParts, body: Seq<u8>, state: S, r: Result<Response, Rejection>) -> bool {
        exists|e: Result<T1, Rejection>| {
            &&& T1::extracted(parts, body, state, e)
            &&& match e {
                Ok(t1) => r is Ok && call_ensures(*self, (t1,), r->Ok_0),
                Err(x) => r == Err::<Response, Rejection>(x),
            }
        }
    }

    fn call(self, req: Request, state: S) -> (r: Result<Response, Rejection>) {
        let e = T1::from_request(req, state);
        match e {
            Ok(t1) => Ok(self(t1)),
            Err(x) => Err(x),
        }
    }
}

/// Two parameters: the first reads only the metadata and a copy of the state;
/// the last may consume the body.
impl<S: Copy, F: FnOnce(T1, T2) -> Response, M, T1: FromRequestParts<S>, T2: FromRequest<S, M>> Handler<(M, T1, T2), S> for F {
    open spec fn total(&self) -> bool {
        forall|t1: T1, t2: T2| call_requires(*self, (t1, t2))
    }

    open spec fn dispatched(&self, parts: crate::request::RequestParts, body: Seq<u8>, state: S, r: Result<Response, Rejection>) -> bool {
        exists|e: Result<T2, Rejection>| {
            &&& T2::extracted(parts, body, state, e)
            &&& match e {
                Ok(t2) => r is Ok && call_ensures(*self, (T1::extract_parts(parts, state), t2), r->Ok_0),
                Err(x) => r == Err::<Response, Rejection>(x),
            }
        }
    }

    fn call(self, req: Request, state: S) -> (r: Result<Response, Rejection>) {
        let mut req = req;
        let t1 = T1::from_request_parts(&mut req.parts, state);
        let e = T2::from_request(req, state);
        match e {
            Ok(t2) => Ok(self(t1, t2)),
            Err(x) => Err(x),
        }
    }
}

/// Three parameters: the first two read only the metadata and a copy of the
/// state each; the last may consume the body.
impl<S: Copy, F: FnOnce(T1, T2, T3) -> Response, M, T1: FromRequestParts<S>, T2: FromRequestParts<S>, T3: FromRequest<S, M>> Handler<(M, T1, T2, T3), S> for F {
    open spec fn total(&self) -> bool {
        forall|t1: T1, t2: T2, t3: T3| call_requires(*self, (t1, t2, t3))
    }

    open spec fn dispatched(&self, parts: crate::request::RequestParts, body: Seq<u8>, state: S, r: Result<Response, Rejection>) -> bool {
        exists|e: Result<T3, Rejection>| {
            &&& T3::extracted(parts, body, state, e)
            &&& match e {
                Ok(t3) => r is Ok && call_ensures(*self, (T1::extract_parts(parts, state), T2::extract_parts(parts, state), t3), r->Ok_0),
                Err(x) => r == Err::<Response, Rejection>(x),
            }
        }
    }

    fn call(self, req: Request, state: S) -> (r: Result<Response, Rejection>) {
        let mut req = req;
        let t1 = T1::from_request_parts(&mut req.parts, state);
        let t2 = T2::from_request_parts(&mut req.parts, state);
        let e = T3::from_request(req, state);
        match e {
            Ok(t3) => Ok(self(t1, t2, t3)),
            Err(x) => Err(x),
        }
    }
}

/// Binds `handler` into a route: a callable of fixed shape that dispatches
/// each request it is given, independently of every other call.
pub fn get<S, H: Handler<T, S> + Copy, T>(handler: H) -> (route: impl Fn(Request, S) -> Result<Response, Rejection>)
    requires
        handler.total(),
    ensures
        forall|req: Request, state: S| call_requires(route, (req, state)),
        forall|req: Request, state: S, r: Result<Response, Rejection>|
            call_ensures(route, (req, state), r) ==> handler.dispatched(req.parts, req.expensive@, state, r),
{
    move |req: Request, state: S| -> (r: Result<Response, Rejection>)
        requires
            handler.total(),
        ensures
            handler.dispatched(req.parts, req.expensive@, state, r),
        { handler.call(req, state) }
}

} // verus!

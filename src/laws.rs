use vstd::prelude::*;

use crate::extract::{Count, FromRequest, FromRequestParts, State};
use crate::handler::{get, Handler};
use crate::json::{body_of, Body, FromJson, Json};
use crate::json_doc::json_well_formed;
use crate::request::{Rejection, Request, RequestParts, Response};
use crate::routes::{simple, with_count_and_state, with_json};
use crate::text::{decimal, repeated};
use crate::{WithParts, WithRequest};

verus! {

/// A handler without parameters answers with its own result whatever the
/// request and the state: neither the metadata nor the body is consulted.
pub proof fn lemma_no_parameter_ignores_request<S, F: Fn() -> Response>(
    f: F,
    parts1: RequestParts,
    body1: Seq<u8>,
    state1: S,
    parts2: RequestParts,
    body2: Seq<u8>,
    state2: S,
    r: Result<Response, Rejection>,
)
    ensures
        Handler::<(), S>::dispatched(&f, parts1, body1, state1, r) <==> (r is Ok && call_ensures(f, (), r->Ok_0)),
        Handler::<(), S>::dispatched(&f, parts1, body1, state1, r) <==> Handler::<(), S>::dispatched(&f, parts2, body2, state2, r),
{
}

/// With two parameters, the body reaches the outcome only through the last
/// extractor: two bodies that the last extractor cannot tell apart give the
/// same outcomes, and the first parameter is always the parts extraction.
pub proof fn lemma_body_reaches_only_last<S: Copy, F: FnOnce(T1, T2) -> Response, M, T1: FromRequestParts<S>, T2: FromRequest<S, M>>(
    f: F,
    parts: RequestParts,
    body1: Seq<u8>,
    body2: Seq<u8>,
    state: S,
    r: Result<Response, Rejection>,
)
    requires
        forall|e: Result<T2, Rejection>| T2::extracted(parts, body1, state, e) <==> T2::extracted(parts, body2, state, e),
    ensures
        Handler::<(M, T1, T2), S>::dispatched(&f, parts, body1, state, r)
            <==> Handler::<(M, T1, T2), S>::dispatched(&f, parts, body2, state, r),
        Handler::<(M, T1, T2), S>::dispatched(&f, parts, body1, state, r) && r is Ok ==>
            exists|t2: T2| call_ensures(f, (T1::extract_parts(parts, state), t2), r->Ok_0),
{
}

/// Every parts extractor of one dispatch sees the same state: a handler
/// taking the state twice receives two equal copies of it.
pub proof fn lemma_state_copies_equal<S: Copy, F: FnOnce(State<S>, State<S>) -> Response>(
    f: F,
    parts: RequestParts,
    body: Seq<u8>,
    state: S,
    r: Result<Response, Rejection>,
)
    requires
        Handler::<(WithParts, State<S>, State<S>), S>::dispatched(&f, parts, body, state, r),
    ensures
        r is Ok,
        call_ensures(f, (State(state), State(state)), r->Ok_0),
{
}

/// A two-parameter handler whose parameters both read only metadata has the
/// same outcomes for any two bodies.
pub proof fn lemma_parts_only_pair_ignores_body<S: Copy, F: FnOnce(T1, T2) -> Response, T1: FromRequestParts<S>, T2: FromRequestParts<S>>(
    f: F,
    parts: RequestParts,
    body1: Seq<u8>,
    body2: Seq<u8>,
    state: S,
    r: Result<Response, Rejection>,
)
    ensures
        Handler::<(WithParts, T1, T2), S>::dispatched(&f, parts, body1, state, r)
            <==> Handler::<(WithParts, T1, T2), S>::dispatched(&f, parts, body2, state, r),
{
    lemma_body_reaches_only_last::<S, F, WithParts, T1, T2>(f, parts, body1, body2, state, r);
}

/// With three parameters, the body likewise reaches the outcome only through
/// the last extractor, and the first two are the parts extractions.
pub proof fn lemma_body_reaches_only_last_of_three<S: Copy, F: FnOnce(T1, T2, T3) -> Response, M, T1: FromRequestParts<S>, T2: FromRequestParts<S>, T3: FromRequest<S, M>>(
    f: F,
    parts: RequestParts,
    body1: Seq<u8>,
    body2: Seq<u8>,
    state: S,
    r: Result<Response, Rejection>,
)
    requires
        forall|e: Result<T3, Rejection>| T3::extracted(parts, body1, state, e) <==> T3::extracted(parts, body2, state, e),
    ensures
        Handler::<(M, T1, T2, T3), S>::dispatched(&f, parts, body1, state, r)
            <==> Handler::<(M, T1, T2, T3), S>::dispatched(&f, parts, body2, state, r),
        Handler::<(M, T1, T2, T3), S>::dispatched(&f, parts, body1, state, r) && r is Ok ==>
            exists|t3: T3| call_ensures(f, (T1::extract_parts(parts, state), T2::extract_parts(parts, state), t3), r->Ok_0),
{
}

/// With three parameters, the two parts extractors and the last one all see
/// the same state.
pub proof fn lemma_state_copies_equal_of_three<S: Copy, F: FnOnce(State<S>, State<S>, State<S>) -> Response>(
    f: F,
    parts: RequestParts,
    body: Seq<u8>,
    state: S,
    r: Result<Response, Rejection>,
)
    requires
        Handler::<(WithParts, State<S>, State<S>, State<S>), S>::dispatched(&f, parts, body, state, r),
    ensures
        r is Ok,
        call_ensures(f, (State(state), State(state), State(state)), r->Ok_0),
{
}

/// A body that is not well-formed JSON, given to a handler that decodes it,
/// ends the dispatch with the typed rejection and without calling the handler.
pub proof fn lemma_malformed_json_rejected<S, T: FromJson, F: FnOnce(Json<T>) -> Response>(
    f: F,
    parts: RequestParts,
    body: Seq<u8>,
    state: S,
    r: Result<Response, Rejection>,
)
    requires
        Handler::<(WithRequest, Json<T>), S>::dispatched(&f, parts, body, state, r),
        !json_well_formed(body),
    ensures
        r == Err::<Response, Rejection>(Rejection::InvalidJson),
{
}

/// For every decodable shape, decoding depends on the body's bytes alone:
/// requests with equal bodies, whatever their metadata and states, decode
/// to values with equal views or are rejected alike.
pub proof fn lemma_json_decode_is_function_of_body<S, T: FromJson>(
    parts1: RequestParts,
    parts2: RequestParts,
    body: Seq<u8>,
    state1: S,
    state2: S,
    r1: Result<Json<T>, Rejection>,
    r2: Result<Json<T>, Rejection>,
)
    requires
        <Json<T> as FromRequest<S, WithRequest>>::extracted(parts1, body, state1, r1),
        <Json<T> as FromRequest<S, WithRequest>>::extracted(parts2, body, state2, r2),
    ensures
        r1 is Ok <==> r2 is Ok,
        r1 is Err ==> r1 == r2,
        r1 is Ok ==> r1->Ok_0.0@ == r2->Ok_0.0@,
{
}

/// Bytes from which serde_json reads exactly the members of `v` decode to a
/// body equal to `v`: encoding `v` and decoding it gives `v` back wherever
/// the encoding holds its members.
pub proof fn lemma_json_decodes_encoded_body<S>(
    v: Body,
    parts: RequestParts,
    bytes: Seq<u8>,
    state: S,
    r: Result<Json<Body>, Rejection>,
)
    requires
        json_well_formed(bytes),
        body_of(bytes) == Some(v@),
        <Json<Body> as FromRequest<S, WithRequest>>::extracted(parts, bytes, state, r),
    ensures
        r is Ok,
        r->Ok_0.0.repeat == v.repeat,
        r->Ok_0.0.text@ == v.text@,
{
}

/// Well-formed JSON reaches a handler that decodes it exactly when it has the
/// body's shape, and then with the members that serde_json reads from it;
/// otherwise the dispatch is rejected as a shape mismatch.
pub proof fn lemma_json_members_reach_handler<S, F: FnOnce(Json<Body>) -> Response>(
    f: F,
    parts: RequestParts,
    body: Seq<u8>,
    state: S,
    r: Result<Response, Rejection>,
)
    requires
        Handler::<(WithRequest, Json<Body>), S>::dispatched(&f, parts, body, state, r),
        json_well_formed(body),
    ensures
        body_of(body) is None <==> r == Err::<Response, Rejection>(Rejection::InvalidShape),
        body_of(body) is Some ==> r is Ok && exists|j: Json<Body>|
            body_of(body) == Some((j.0.repeat, j.0.text@)) && call_ensures(f, (j,), r->Ok_0),
{
}

fn serve_without_parameters<S, F: Fn() -> Response + Copy>(handler: F, req: Request, state: S) -> (r: Result<Response, Rejection>)
    requires
        call_requires(handler, ()),
    ensures
        r is Ok && call_ensures(handler, (), r->Ok_0),
{
    let route = get::<S, F, ()>(handler);
    let ghost parts = req.parts;
    let ghost body = req.expensive@;
    let r = route(req, state);
    proof {
        assert(call_ensures(route, (req, state), r));
        assert(Handler::<(), S>::dispatched(&handler, parts, body, state, r));
    }
    r
}

fn serve_parts_pair<S: Copy, F: Fn(T1, T2) -> Response + Copy, T1: FromRequestParts<S>, T2: FromRequestParts<S>>(
    handler: F,
    req: Request,
    state: S,
) -> (r: Result<Response, Rejection>)
    requires
        forall|t1: T1, t2: T2| call_requires(handler, (t1, t2)),
    ensures
        r is Ok,
        call_ensures(handler, (T1::extract_parts(req.parts, state), T2::extract_parts(req.parts, state)), r->Ok_0),
{
    let route = get::<S, F, (WithParts, T1, T2)>(handler);
    let ghost parts = req.parts;
    let ghost body = req.expensive@;
    let r = route(req, state);
    proof {
        assert(call_ensures(route, (req, state), r));
        assert(Handler::<(WithParts, T1, T2), S>::dispatched(&handler, parts, body, state, r));
    }
    r
}

fn serve_json<S, F: Fn(Json<Body>) -> Response + Copy>(handler: F, req: Request, state: S) -> (r: Result<Response, Rejection>)
    requires
        forall|j: Json<Body>| call_requires(handler, (j,)),
    ensures
        !json_well_formed(req.expensive@) ==> r == Err::<Response, Rejection>(Rejection::InvalidJson),
        json_well_formed(req.expensive@) && body_of(req.expensive@) is None ==> r == Err::<Response, Rejection>(Rejection::InvalidShape),
        json_well_formed(req.expensive@) && body_of(req.expensive@) is Some ==> r is Ok && exists|j: Json<Body>|
            body_of(req.expensive@) == Some((j.0.repeat, j.0.text@))
                && call_ensures(handler, (j,), r->Ok_0),
{
    let route = get::<S, F, (WithRequest, Json<Body>)>(handler);
    let ghost parts = req.parts;
    let ghost body = req.expensive@;
    let r = route(req, state);
    proof {
        assert(call_ensures(route, (req, state), r));
        assert(Handler::<(WithRequest, Json<Body>), S>::dispatched(&handler, parts, body, state, r));
    }
    r
}

/// The route bound from the greeting handler answers every request, whatever
/// its metadata, body and state, with the greeting.
pub fn hello_route<S>(req: Request, state: S) -> (r: Result<Response, Rejection>)
    ensures
        r is Ok,
        r->Ok_0.content@ == "Hello, world!"@,
{
    serve_without_parameters(simple, req, state)
}

/// The route bound from the state-and-count handler answers with the state
/// and the metadata's count, whatever the body.
pub fn count_route(req: Request, state: u8) -> (r: Result<Response, Rejection>)
    ensures
        r is Ok,
        r->Ok_0.content@ == "state: "@ + decimal(state as nat) + ", count: "@ + decimal(req.parts.count as nat),
{
    serve_parts_pair::<u8, _, State<u8>, Count>(with_count_and_state, req, state)
}

/// The route bound from the JSON handler repeats the decoded text, rejects
/// malformed JSON and JSON of another shape, and never panics.
pub fn json_route(req: Request, state: u8) -> (r: Result<Response, Rejection>)
    ensures
        !json_well_formed(req.expensive@) ==> r == Err::<Response, Rejection>(Rejection::InvalidJson),
        json_well_formed(req.expensive@) ==> match body_of(req.expensive@) {
            Some(b) => r is Ok && r->Ok_0.content@ == repeated(b.1, b.0 as nat),
            None => r == Err::<Response, Rejection>(Rejection::InvalidShape),
        },
{
    serve_json(with_json, req, state)
}

} // verus!

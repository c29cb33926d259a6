//! Binding of request extractors to handler parameters.
//!
//! A request is split into reusable metadata (`RequestParts`) and a one-shot
//! body. Handlers of several arities are dispatched by resolving each of their
//! parameters through an extractor; only the last parameter may consume the body.
use vstd::prelude::*;

pub mod request;
pub mod text;
pub mod extract;
pub mod handler;
pub mod json_doc;
pub mod json;
pub mod routes;
pub mod laws;

verus! {

/// Marker selecting the extraction of a parts-only extractor as a body extractor.
pub struct WithParts;

/// Marker selecting an extractor that consumes the whole request.
pub struct WithRequest;

} // verus!

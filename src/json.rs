use vstd::prelude::*;

use crate::extract::FromRequest;
use crate::json_doc::{
    json_has_member, json_member, json_root, json_str, json_str_at, json_u64, json_u64_at,
    json_well_formed, parse_json, JsonNode,
};
use crate::request::{Rejection, Request, RequestParts};
use crate::WithRequest;

verus! {

/// A shape that can be read out of a parsed JSON document.
pub trait FromJson: Sized + View {
    /// The view of what the JSON document read from `bytes` decodes to, or
    /// `None` where it does not have this shape: a function of the bytes.
    spec fn decoded(bytes: Seq<u8>) -> Option<Self::V>;

    fn from_json(doc: &JsonNode) -> (r: Option<Self>)
        requires
            json_well_formed(doc.source()),
            doc.path() == Seq::<Seq<char>>::empty(),
        ensures
            match r {
                Some(t) => Self::decoded(doc.source()) == Some(t@),
                None => Self::decoded(doc.source()) is None,
            },
    ;
}

/// The body decoded as JSON of shape `T`.
pub struct Json<T>(pub T);

impl<S, T: FromJson> FromRequest<S, WithRequest> for Json<T> {
    /// Malformed JSON is rejected as such; well-formed JSON is decoded, and
    /// rejected as a shape mismatch where it does not have the shape `T`.
    open spec fn extracted(parts: RequestParts, body: Seq<u8>, state: S, r: Result<Json<T>, Rejection>) -> bool {
        match r {
            Ok(j) => json_well_formed(body) && T::decoded(body) == Some(j.0@),
            Err(Rejection::InvalidJson) => !json_well_formed(body),
            Err(Rejection::InvalidShape) => json_well_formed(body) && T::decoded(body) is None,
        }
    }

    fn from_request(req: Request, state: S) -> (r: Result<Json<T>, Rejection>) {
        match parse_json(req.expensive.as_slice()) {
            Err(_) => Err(Rejection::InvalidJson),
            Ok(doc) => {
                let root = json_root(&doc);
                match T::from_json(&root) {
                    Some(t) => Ok(Json(t)),
                    None => Err(Rejection::InvalidShape),
                }
            },
        }
    }
}

/// A JSON object with a non-negative integer `repeat` and a string `text`.
pub struct Body {
    pub repeat: usize,
    pub text: String,
}

impl View for Body {
    type V = (usize, Seq<char>);

    open spec fn view(&self) -> (usize, Seq<char>) {
        (self.repeat, self.text@)
    }
}

/// The value of the top-level member `key` read as an unsigned integer.
pub open spec fn top_u64(bytes: Seq<u8>, key: Seq<char>) -> Option<u64> {
    if json_has_member(bytes, Seq::empty(), key) {
        json_u64_at(bytes, seq![key])
    } else {
        None
    }
}

/// The value of the top-level member `key` read as a string.
pub open spec fn top_str(bytes: Seq<u8>, key: Seq<char>) -> Option<Seq<char>> {
    if json_has_member(bytes, Seq::empty(), key) {
        json_str_at(bytes, seq![key])
    } else {
        None
    }
}

/// The `repeat` count and the `text` of the body in `bytes`, where both
/// members are present with the right types and the count fits in `usize`.
pub open spec fn body_of(bytes: Seq<u8>) -> Option<(usize, Seq<char>)> {
    let repeat = top_u64(bytes, seq!['r', 'e', 'p', 'e', 'a', 't']);
    let text = top_str(bytes, seq!['t', 'e', 'x', 't']);
    if repeat is Some && text is Some && repeat->0 <= usize::MAX {
        Some((repeat->0 as usize, text->0))
    } else {
        None
    }
}

/// The body made of a `repeat` member read as an unsigned integer and a
/// `text` member read as a string; `None` where either is missing or the
/// count does not fit in `usize`.
pub fn body_from_members(repeat: Option<u64>, text: Option<&str>) -> (r: Option<Body>)
    ensures
        r is Some <==> (repeat is Some && text is Some && repeat->0 <= usize::MAX),
        r is Some ==> r->0.repeat == repeat->0 && r->0.text@ == text->0@,
{
    match (repeat, text) {
        (Some(n), Some(t)) => {
            if n <= usize::MAX as u64 {
                Some(Body { repeat: n as usize, text: String::from_str(t) })
            } else {
                None
            }
        },
        _ => None,
    }
}

impl FromJson for Body {
    open spec fn decoded(bytes: Seq<u8>) -> Option<(usize, Seq<char>)> {
        body_of(bytes)
    }

    fn from_json(doc: &JsonNode) -> (r: Option<Body>) {
        let repeat_key = "repeat";
        let text_key = "text";
        proof {
            reveal_strlit("repeat");
            reveal_strlit("text");
        }
        let repeat = match json_member(doc, repeat_key) {
            Some(m) => json_u64(&m),
            None => None,
        };
        let text = match json_member(doc, text_key) {
            Some(m) => json_str(&m),
            None => None,
        };
        proof {
            assert(repeat_key@ =~= seq!['r', 'e', 'p', 'e', 'a', 't']);
            assert(text_key@ =~= seq!['t', 'e', 'x', 't']);
            assert(Seq::<Seq<char>>::empty().push(repeat_key@) =~= seq![repeat_key@]);
            assert(Seq::<Seq<char>>::empty().push(text_key@) =~= seq![text_key@]);
            assert(repeat == top_u64(doc.source(), repeat_key@));
            assert(text is Some == top_str(doc.source(), text_key@) is Some);
        }
        body_from_members(repeat, text)
    }
}

} // verus!

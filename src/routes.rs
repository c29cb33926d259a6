use vstd::prelude::*;

use crate::extract::{Count, Expensive, State};
use crate::json::{Body, Json};
use crate::request::Response;
use crate::text::{decimal, push_decimal, repeat_text, repeated};

verus! {

/// Answers with a fixed greeting.
pub fn simple() -> (r: Response)
    ensures
        r.content@ == "Hello, world!"@,
{
    Response { content: String::from_str("Hello, world!") }
}

/// Reports the state and the metadata's count.
pub fn with_count_and_state(state: State<u8>, count: Count) -> (r: Response)
    ensures
        r.content@ == "state: "@ + decimal(state.0 as nat) + ", count: "@ + decimal(count.0 as nat),
{
    let mut content = String::from_str("state: ");
    push_decimal(&mut content, state.0 as u64);
    content.append(", count: ");
    push_decimal(&mut content, count.0 as u64);
    Response { content }
}

/// Reports the state and the length of the body.
pub fn with_state_and_expensive(state: State<u8>, expensive: Expensive) -> (r: Response)
    ensures
        r.content@ == "state: "@ + decimal(state.0 as nat) + ", expensive: "@ + decimal(expensive.0@.len()),
{
    let mut content = String::from_str("state: ");
    push_decimal(&mut content, state.0 as u64);
    content.append(", expensive: ");
    push_decimal(&mut content, expensive.0.len() as u64);
    Response { content }
}

/// Repeats the decoded text as many times as the decoded count says.
pub fn with_json(body: Json<Body>) -> (r: Response)
    ensures
        r.content@ == repeated(body.0.text@, body.0.repeat as nat),
{
    Response { content: repeat_text(body.0.text.as_str(), body.0.repeat) }
}

} // verus!

use extract_dispatch::extract::{Count, Expensive, FromRequest, FromRequestParts, State};
use extract_dispatch::handler::{get, Handler};
use extract_dispatch::json::{body_from_members, Body, Json};
use extract_dispatch::request::{Rejection, Request, RequestParts, Response};
use extract_dispatch::laws::{count_route, hello_route, json_route};
use extract_dispatch::routes::{simple, with_count_and_state, with_json, with_state_and_expensive};
use extract_dispatch::text::{push_decimal, repeat_text};
use extract_dispatch::{WithParts, WithRequest};

fn sample_request() -> Request {
    Request::new(
        RequestParts { count: 10 },
        b"{\n\t\t\t\"repeat\": 6,\n\t\t\t\"text\": \"hi\"\n\t\t}".to_vec(),
    )
}

fn content(r: Result<Response, Rejection>) -> String {
    match r {
        Ok(resp) => resp.content,
        Err(e) => panic!("rejected: {:?}", e),
    }
}

#[test]
fn sample_body_is_37_bytes() {
    assert_eq!(sample_request().expensive.len(), 37);
}

#[test]
fn no_parameter_handler_says_hello() {
    let route = get(simple);
    assert_eq!(content(route(sample_request(), 42u8)), "Hello, world!");
}

#[test]
fn no_parameter_handler_ignores_request() {
    let route = get(simple);
    let req = Request::new(RequestParts { count: 0 }, b"not json".to_vec());
    assert_eq!(content(route(req, 7u8)), "Hello, world!");
}

#[test]
fn state_and_count() {
    let route = get(with_count_and_state);
    assert_eq!(content(route(sample_request(), 42u8)), "state: 42, count: 10");
}

#[test]
fn state_and_count_extremes() {
    let route = get(with_count_and_state);
    let req = Request::new(RequestParts { count: 255 }, Vec::new());
    assert_eq!(content(route(req, 0u8)), "state: 0, count: 255");
}

#[test]
fn state_and_body_length() {
    let route = get(with_state_and_expensive);
    assert_eq!(content(route(sample_request(), 42u8)), "state: 42, expensive: 37");
}

#[test]
fn state_and_empty_body() {
    let route = get(with_state_and_expensive);
    let req = Request::new(RequestParts { count: 1 }, Vec::new());
    assert_eq!(content(route(req, 9u8)), "state: 9, expensive: 0");
}

#[test]
fn json_body_repeats_text() {
    let route = get(with_json);
    assert_eq!(content(route(sample_request(), 42u8)), "hihihihihihi");
}

#[test]
fn json_zero_repeat_is_empty() {
    let route = get(with_json);
    let req = Request::new(RequestParts { count: 1 }, br#"{"repeat":0,"text":"abc"}"#.to_vec());
    assert_eq!(content(route(req, 1u8)), "");
}

#[test]
fn malformed_json_is_rejected() {
    let route = get(with_json);
    let req = Request::new(RequestParts { count: 1 }, br#"{"repeat":6,"text":"#.to_vec());
    assert!(matches!(route(req, 42u8), Err(Rejection::InvalidJson)));
}

#[test]
fn route_serves_after_rejection() {
    let route = get(with_json);
    let bad = Request::new(RequestParts { count: 1 }, b"{{".to_vec());
    assert!(matches!(route(bad, 42u8), Err(Rejection::InvalidJson)));
    assert_eq!(content(route(sample_request(), 42u8)), "hihihihihihi");
}

#[test]
fn missing_field_is_shape_error() {
    let route = get(with_json);
    let req = Request::new(RequestParts { count: 1 }, br#"{"repeat":6}"#.to_vec());
    assert!(matches!(route(req, 42u8), Err(Rejection::InvalidShape)));
}

#[test]
fn wrong_field_type_is_shape_error() {
    let route = get(with_json);
    let req = Request::new(RequestParts { count: 1 }, br#"{"repeat":"6","text":"hi"}"#.to_vec());
    assert!(matches!(route(req, 42u8), Err(Rejection::InvalidShape)));
    let req = Request::new(RequestParts { count: 1 }, br#"{"repeat":-1,"text":"hi"}"#.to_vec());
    assert!(matches!(route(req, 42u8), Err(Rejection::InvalidShape)));
    let req = Request::new(RequestParts { count: 1 }, br#"{"repeat":2,"text":5}"#.to_vec());
    assert!(matches!(route(req, 42u8), Err(Rejection::InvalidShape)));
}

#[test]
fn non_object_json_is_shape_error() {
    let route = get(with_json);
    let req = Request::new(RequestParts { count: 1 }, b"[6, \"hi\"]".to_vec());
    assert!(matches!(route(req, 42u8), Err(Rejection::InvalidShape)));
}

#[test]
fn encoded_body_decodes_to_same_value() {
    let mut map = serde_json::Map::new();
    map.insert("repeat".to_string(), serde_json::Value::from(3u64));
    map.insert("text".to_string(), serde_json::Value::from("a\"b\n"));
    let bytes = serde_json::to_vec(&serde_json::Value::Object(map)).unwrap();
    let req = Request::new(RequestParts { count: 0 }, bytes);
    match <Json<Body> as FromRequest<u8, WithRequest>>::from_request(req, 0u8) {
        Ok(Json(body)) => {
            assert_eq!(body.repeat, 3);
            assert_eq!(body.text, "a\"b\n");
        }
        Err(e) => panic!("rejected: {:?}", e),
    }
}

#[test]
fn state_copies_are_equal() {
    let f = |State(a): State<u8>, State(b): State<u8>| Response { content: format!("{a}/{b}") };
    let r = Handler::<(WithParts, State<u8>, State<u8>), u8>::call(f, sample_request(), 5u8);
    assert_eq!(content(r), "5/5");
}

#[test]
fn three_parameters_body_last() {
    let f = |State(s): State<u8>, Count(c): Count, Expensive(b): Expensive| Response {
        content: format!("{s} {c} {}", b.len()),
    };
    let r = Handler::<(WithRequest, State<u8>, Count, Expensive), u8>::call(f, sample_request(), 3u8);
    assert_eq!(content(r), "3 10 37");
}

#[test]
fn single_parts_parameter() {
    let f = |Count(c): Count| Response { content: format!("{c}") };
    let r = Handler::<(WithParts, Count), u8>::call(f, sample_request(), 3u8);
    assert_eq!(content(r), "10");
}

#[test]
fn parts_extractors_leave_parts_unchanged() {
    let mut parts = RequestParts { count: 77 };
    let Count(c) = <Count as FromRequestParts<u8>>::from_request_parts(&mut parts, 1u8);
    let State(s) = <State<u8> as FromRequestParts<u8>>::from_request_parts(&mut parts, 1u8);
    <() as FromRequestParts<u8>>::from_request_parts(&mut parts, 1u8);
    assert_eq!(c, 77);
    assert_eq!(s, 1);
    assert_eq!(parts.count, 77);
}

#[test]
fn body_extractor_takes_raw_bytes() {
    match <Expensive as FromRequest<u8, WithRequest>>::from_request(sample_request(), 0u8) {
        Ok(Expensive(b)) => assert_eq!(b, sample_request().expensive),
        Err(e) => panic!("rejected: {:?}", e),
    }
}

#[test]
fn route_is_reusable() {
    let route = get(with_count_and_state);
    let a = content(route(Request::new(RequestParts { count: 1 }, Vec::new()), 2u8));
    let b = content(route(Request::new(RequestParts { count: 3 }, Vec::new()), 4u8));
    let c = content(route(Request::new(RequestParts { count: 1 }, Vec::new()), 2u8));
    assert_eq!(a, "state: 2, count: 1");
    assert_eq!(b, "state: 4, count: 3");
    assert_eq!(a, c);
}

#[test]
fn decimal_digits() {
    let mut s = String::from("n=");
    push_decimal(&mut s, 0);
    assert_eq!(s, "n=0");
    let mut s = String::new();
    push_decimal(&mut s, 1234567890);
    assert_eq!(s, "1234567890");
    let mut s = String::new();
    push_decimal(&mut s, u64::MAX);
    assert_eq!(s, "18446744073709551615");
}

#[test]
fn repeat_text_counts() {
    assert_eq!(repeat_text("ab", 3), "ababab");
    assert_eq!(repeat_text("ab", 0), "");
    assert_eq!(repeat_text("", 5), "");
}

#[test]
fn body_from_members_exact() {
    match body_from_members(Some(6), Some("hi")) {
        Some(b) => {
            assert_eq!(b.repeat, 6);
            assert_eq!(b.text, "hi");
        }
        None => panic!("expected a body"),
    }
    assert!(body_from_members(None, Some("hi")).is_none());
    assert!(body_from_members(Some(6), None).is_none());
    assert!(body_from_members(None, None).is_none());
}

#[test]
fn body_from_members_largest_count() {
    let b = body_from_members(Some(u64::MAX), Some(""));
    assert_eq!(b.is_some(), u64::MAX as u128 <= usize::MAX as u128);
}

#[test]
fn hello_route_any_request() {
    let req = Request::new(RequestParts { count: 3 }, b"\xff not json".to_vec());
    assert_eq!(content(hello_route(req, 200u8)), "Hello, world!");
    assert_eq!(content(hello_route(sample_request(), 42u8)), "Hello, world!");
}

#[test]
fn count_route_ignores_body() {
    let a = Request::new(RequestParts { count: 10 }, b"first".to_vec());
    let b = Request::new(RequestParts { count: 10 }, b"{\"other\": true}".to_vec());
    assert_eq!(content(count_route(a, 42u8)), "state: 42, count: 10");
    assert_eq!(content(count_route(b, 42u8)), "state: 42, count: 10");
}

#[test]
fn json_route_compact_sample() {
    let req = Request::new(RequestParts { count: 10 }, br#"{"repeat":6,"text":"hi"}"#.to_vec());
    assert_eq!(content(json_route(req, 42u8)), "hihihihihihi");
}

#[test]
fn json_route_string_count_rejected() {
    let req = Request::new(RequestParts { count: 10 }, br#"{"repeat":"six","text":"hi"}"#.to_vec());
    assert!(matches!(json_route(req, 42u8), Err(Rejection::InvalidShape)));
}

#[test]
fn json_route_serves_after_malformed() {
    let bad = Request::new(RequestParts { count: 10 }, b"not json".to_vec());
    assert!(matches!(json_route(bad, 42u8), Err(Rejection::InvalidJson)));
    let good = Request::new(RequestParts { count: 10 }, br#"{"repeat":6,"text":"hi"}"#.to_vec());
    assert_eq!(content(json_route(good, 42u8)), "hihihihihihi");
}

#[test]
fn equal_bodies_decode_alike() {
    let bytes = br#"{"text":"xy","repeat":2,"extra":null}"#.to_vec();
    let a = Request::new(RequestParts { count: 1 }, bytes.clone());
    let b = Request::new(RequestParts { count: 200 }, bytes);
    let ra = <Json<Body> as FromRequest<u8, WithRequest>>::from_request(a, 1u8);
    let rb = <Json<Body> as FromRequest<u8, WithRequest>>::from_request(b, 99u8);
    match (ra, rb) {
        (Ok(Json(x)), Ok(Json(y))) => {
            assert_eq!((x.repeat, x.text.as_str()), (2, "xy"));
            assert_eq!((y.repeat, y.text.as_str()), (2, "xy"));
        }
        _ => panic!("expected both to decode"),
    }
}

#[test]
fn hello_route_any_state_type() {
    let req = Request::new(RequestParts { count: 0 }, Vec::new());
    assert_eq!(content(hello_route(req, String::from("shared"))), "Hello, world!");
}

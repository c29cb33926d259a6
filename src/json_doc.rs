use vstd::prelude::*;

verus! {

/// serde_json's parsed JSON value, carried through without looking inside.
#[verifier::external_type_specification]
#[verifier::external_body]
pub struct ExValue(serde_json::Value);

/// serde_json's error for input it cannot read.
#[verifier::external_type_specification]
#[verifier::external_body]
pub struct ExJsonError(serde_json::Error);

/// Whether serde_json reads `bytes` as one JSON value, surrounded by nothing
/// but whitespace.
pub uninterp spec fn json_well_formed(bytes: Seq<u8>) -> bool;

/// Whether, in the JSON value that serde_json reads from `bytes`, the value
/// reached through the object members named by `path` is an object with a
/// member named `key`.
pub uninterp spec fn json_has_member(bytes: Seq<u8>, path: Seq<Seq<char>>, key: Seq<char>) -> bool;

/// The unsigned integer that serde_json reads at `path` in `bytes`, if the
/// value there is a number that fits in `u64`.
pub uninterp spec fn json_u64_at(bytes: Seq<u8>, path: Seq<Seq<char>>) -> Option<u64>;

/// The text that serde_json reads at `path` in `bytes`, if the value there
/// is a string.
pub uninterp spec fn json_str_at(bytes: Seq<u8>, path: Seq<Seq<char>>) -> Option<Seq<char>>;

/// A parsed JSON document, with the bytes it was parsed from. Only the
/// parsing below makes one.
pub struct JsonDoc {
    value: serde_json::Value,
    source: Ghost<Seq<u8>>,
}

impl JsonDoc {
    /// The bytes the document was parsed from.
    pub closed spec fn source(&self) -> Seq<u8> {
        self.source@
    }
}

/// A value inside a parsed JSON document, with the bytes it was parsed from
/// and the member names that lead to it from the top. Only the accessors
/// below make one.
pub struct JsonNode<'a> {
    value: &'a serde_json::Value,
    source: Ghost<Seq<u8>>,
    path: Ghost<Seq<Seq<char>>>,
}

impl<'a> JsonNode<'a> {
    /// The bytes the document was parsed from.
    pub closed spec fn source(&self) -> Seq<u8> {
        self.source@
    }

    /// The member names that lead from the top of the document to this value.
    pub closed spec fn path(&self) -> Seq<Seq<char>> {
        self.path@
    }
}

/// Relies on serde_json::from_slice into a `Value`: whether it succeeds
/// depends on the bytes alone, and it returns an error rather than panic.
#[verifier::external_body]
pub(crate) fn parse_json(bytes: &[u8]) -> (r: Result<JsonDoc, serde_json::Error>)
    ensures
        r is Ok <==> json_well_formed(bytes@),
        r is Ok ==> r->Ok_0.source() == bytes@,
{
    match serde_json::from_slice::<serde_json::Value>(bytes) {
        Ok(v) => Ok(JsonDoc { value: v, source: Ghost(bytes@) }),
        Err(e) => Err(e),
    }
}

/// The top of a parsed document, reached through no member.
#[verifier::external_body]
pub(crate) fn json_root<'a>(doc: &'a JsonDoc) -> (r: JsonNode<'a>)
    ensures
        r.source() == doc.source(),
        r.path() == Seq::<Seq<char>>::empty(),
{
    JsonNode { value: &doc.value, source: doc.source, path: Ghost(Seq::empty()) }
}

/// Relies on serde_json::Value::get with a string key: the member of that
/// name of an object, and `None` for anything else.
#[verifier::external_body]
pub(crate) fn json_member<'a>(node: &JsonNode<'a>, key: &str) -> (r: Option<JsonNode<'a>>)
    ensures
        r is Some <==> json_has_member(node.source(), node.path(), key@),
        r is Some ==> r->0.source() == node.source() && r->0.path() == node.path().push(key@),
{
    match node.value.get(key) {
        Some(v) => Some(JsonNode { value: v, source: node.source, path: Ghost(node.path@.push(key@)) }),
        None => None,
    }
}

/// Relies on serde_json::Value::as_u64: the integer of a number that fits in
/// `u64`, `None` otherwise; it never panics.
#[verifier::external_body]
pub(crate) fn json_u64(node: &JsonNode) -> (r: Option<u64>)
    ensures
        r == json_u64_at(node.source(), node.path()),
{
    node.value.as_u64()
}

/// Relies on serde_json::Value::as_str: the text of a string value, `None`
/// otherwise; it never panics.
#[verifier::external_body]
pub(crate) fn json_str<'a>(node: &JsonNode<'a>) -> (r: Option<&'a str>)
    ensures
        r is Some == json_str_at(node.source(), node.path()) is Some,
        r is Some ==> r->0@ == json_str_at(node.source(), node.path())->0,
{
    node.value.as_str()
}

} // verus!

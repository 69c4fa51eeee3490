//! Access to JSON text through serde_json.
use vstd::prelude::*;

verus! {

/// Whether serde_json accepts the text as a JSON document.
pub uninterp spec fn parses_as_json(text: Seq<char>) -> bool;

/// The string member `key` of the top-level object of a JSON document.
pub uninterp spec fn json_member_str(text: Seq<char>, key: Seq<char>) -> Option<Seq<char>>;

/// The string member `key` of the object held under `outer` in a JSON document.
pub uninterp spec fn json_nested_str(text: Seq<char>, outer: Seq<char>, key: Seq<char>) -> Option<Seq<char>>;

/// The unsigned integer member `key` of the object held under `outer`.
pub uninterp spec fn json_nested_uint(text: Seq<char>, outer: Seq<char>, key: Seq<char>) -> Option<u64>;

/// Whether the object held under `outer` has a member `key`, of any value.
pub uninterp spec fn json_nested_has(text: Seq<char>, outer: Seq<char>, key: Seq<char>) -> bool;

/// The JSON string literal that serde_json writes for a string, if it writes one.
pub uninterp spec fn json_quoted(s: Seq<char>) -> Option<Seq<char>>;

pub open spec fn opt_view(o: Option<String>) -> Option<Seq<char>> {
    match o {
        Some(s) => Some(s@),
        None => None,
    }
}

#[verifier::external_type_specification]
#[verifier::external_body]
pub struct ExValue(serde_json::Value);

/// A parsed JSON document together with the text it was parsed from.
pub(crate) struct JsonDoc {
    value: serde_json::Value,
    source: Ghost<Seq<char>>,
}

impl JsonDoc {
    pub closed spec fn source(&self) -> Seq<char> {
        self.source@
    }
}

/// Relies on serde_json::from_str::<Value>: parses the text as one JSON document.
#[verifier::external_body]
pub(crate) fn parse_json(text: &str) -> (r: Option<JsonDoc>)
    ensures
        r is Some == parses_as_json(text@),
        r matches Some(d) ==> d.source() == text@,
{
    match serde_json::from_str::<serde_json::Value>(text) {
        Ok(value) => Some(JsonDoc { value, source: Ghost(text@) }),
        Err(_) => None,
    }
}

/// Relies on serde_json's Value::get and Value::as_str: a string member of the
/// top-level object.
#[verifier::external_body]
pub(crate) fn member_str(doc: &JsonDoc, key: &str) -> (r: Option<String>)
    ensures
        opt_view(r) == json_member_str(doc.source(), key@),
{
    doc.value.get(key).and_then(|v| v.as_str()).map(|s| s.to_string())
}

/// Relies on serde_json's Value::get and Value::as_str: a string member of the
/// object under `outer`.
#[verifier::external_body]
pub(crate) fn nested_str(doc: &JsonDoc, outer: &str, key: &str) -> (r: Option<String>)
    ensures
        opt_view(r) == json_nested_str(doc.source(), outer@, key@),
{
    doc.value.get(outer).and_then(|d| d.get(key)).and_then(|v| v.as_str()).map(|s| s.to_string())
}

/// Relies on serde_json's Value::get and Value::as_u64: an unsigned integer
/// member of the object under `outer`.
#[verifier::external_body]
pub(crate) fn nested_uint(doc: &JsonDoc, outer: &str, key: &str) -> (r: Option<u64>)
    ensures
        r == json_nested_uint(doc.source(), outer@, key@),
{
    doc.value.get(outer).and_then(|d| d.get(key)).and_then(|v| v.as_u64())
}

/// Relies on serde_json's Value::get: whether the object under `outer` has the member.
#[verifier::external_body]
pub(crate) fn nested_has(doc: &JsonDoc, outer: &str, key: &str) -> (r: bool)
    ensures
        r == json_nested_has(doc.source(), outer@, key@),
{
    doc.value.get(outer).and_then(|d| d.get(key)).is_some()
}

/// Relies on serde_json::to_string on a `str`: the quoted and escaped literal.
#[verifier::external_body]
pub(crate) fn quote_json(s: &str) -> (r: Option<String>)
    ensures
        opt_view(r) == json_quoted(s@),
{
    serde_json::to_string(s).ok()
}

} // verus!

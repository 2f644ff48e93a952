//! Trusted boundary to serde_json.
//!
//! JSON parsing and encoding are delegated to serde_json; each call stands
//! behind a wrapper whose contract speaks of uninterpreted names for the
//! call's result. Every name here denotes a function of the document text
//! (or of the encoded values) alone: serde_json reads nothing else.

use vstd::prelude::*;

verus! {

/// `serde_json::Value`, declared so that parsed documents can pass
/// through signatures of this crate. The value is opaque here: it is
/// handed back to the caller, never inspected.
#[verifier::external_type_specification]
#[verifier::external_body]
pub struct ExValue(serde_json::Value);

/// Whether the text parses as a JSON document (`serde_json::from_str`
/// for `Value` succeeds on it).
pub uninterp spec fn json_parse_ok(s: Seq<char>) -> bool;

/// The message `serde_json::from_str` reports when the text does not
/// parse as a JSON document.
pub uninterp spec fn json_parse_err(s: Seq<char>) -> Seq<char>;

/// The `"response"` field of the document, where the text parses and the
/// field is present and holds a string; `None` otherwise.
pub uninterp spec fn json_response_field(s: Seq<char>) -> Option<Seq<char>>;

/// The serde_json encoding of the object `{k1: s1, k2: s2, k3: b3}`
/// (three fields: two strings and a boolean).
pub uninterp spec fn json_object3(
    k1: Seq<char>,
    s1: Seq<char>,
    k2: Seq<char>,
    s2: Seq<char>,
    k3: Seq<char>,
    b3: bool,
) -> Seq<char>;

/// Relies on `serde_json::from_str::<Value>`: whether a text parses, the
/// parsed value, and the error message when it does not, depend on the
/// text alone.
#[verifier::external_body]
pub(crate) fn parse_json(s: &str) -> (r: Result<serde_json::Value, String>)
    ensures
        r is Ok <==> json_parse_ok(s@),
        r is Err ==> r->Err_0@ == json_parse_err(s@),
{
    match serde_json::from_str::<serde_json::Value>(s) {
        Ok(v) => Ok(v),
        Err(e) => Err(e.to_string()),
    }
}

/// Relies on `serde_json::from_str::<Value>`, `Value::get` and
/// `Value::as_str`: whether the text parses, and what its `"response"`
/// string field holds, depend on the text alone.
#[verifier::external_body]
pub(crate) fn parse_response_field(body: &str) -> (r: Result<Option<String>, String>)
    ensures
        r is Ok <==> json_parse_ok(body@),
        r is Err ==> r->Err_0@ == json_parse_err(body@),
        r is Ok ==> (r->Ok_0 is Some <==> json_response_field(body@) is Some),
        r is Ok && r->Ok_0 is Some ==> r->Ok_0->0@ == json_response_field(body@)->Some_0,
{
    match serde_json::from_str::<serde_json::Value>(body) {
        Ok(v) => match v.get("response").and_then(|f| f.as_str()) {
            Some(s) => Ok(Some(s.to_string())),
            None => Ok(None),
        },
        Err(e) => Err(e.to_string()),
    }
}

/// Relies on `serde_json::Map::insert` and `serde_json::to_string`: the
/// encoding of an object built from the given keys and values depends on
/// them alone. Serializing a `Value` whose maps have string keys cannot
/// fail (serde_json documents its `to_string` errors as coming only from
/// a failing `Serialize` impl or non-string map keys), so the fallback
/// arm is never taken.
#[verifier::external_body]
pub(crate) fn encode_json_object3(
    k1: &str,
    s1: &str,
    k2: &str,
    s2: &str,
    k3: &str,
    b3: bool,
) -> (r: String)
    ensures
        r@ == json_object3(k1@, s1@, k2@, s2@, k3@, b3),
{
    let mut m = serde_json::Map::new();
    m.insert(k1.to_string(), serde_json::Value::String(s1.to_string()));
    m.insert(k2.to_string(), serde_json::Value::String(s2.to_string()));
    m.insert(k3.to_string(), serde_json::Value::Bool(b3));
    match serde_json::to_string(&serde_json::Value::Object(m)) {
        Ok(s) => s,
        Err(_) => String::new(),
    }
}

} // verus!

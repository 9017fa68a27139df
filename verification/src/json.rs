use vstd::prelude::*;

verus! {

#[verifier::external_type_specification]
#[verifier::external_body]
pub struct ExValue(serde_json::Value);

/// The member named `key` of the top-level JSON object `v`, read as an
/// unsigned integer: `Some` exactly when `v` is an object, has the member,
/// and the member is a non-negative integer that fits in a `u64`.
pub uninterp spec fn json_u64_of(v: serde_json::Value, key: Seq<char>) -> Option<u64>;

/// Relies on serde_json::Value::get and Value::as_u64: looks `key` up in the
/// top-level object and reads the member as a `u64`.
#[verifier::external_body]
pub fn json_u64_member(v: &serde_json::Value, key: &str) -> (r: Option<u64>)
    ensures
        r == json_u64_of(*v, key@),
{
    match v.get(key) {
        Some(m) => m.as_u64(),
        None => None,
    }
}

/// As `json_u64_of`, one level down: the member `sub` of the object member
/// `key` of `v`, read as an unsigned integer.
pub uninterp spec fn json_u64_at(v: serde_json::Value, key: Seq<char>, sub: Seq<char>) -> Option<
    u64,
>;

/// Relies on serde_json::Value::get and Value::as_u64: looks `key`, then
/// `sub`, up and reads the member as a `u64`.
#[verifier::external_body]
pub fn json_u64_member2(v: &serde_json::Value, key: &str, sub: &str) -> (r: Option<u64>)
    ensures
        r == json_u64_at(*v, key@, sub@),
{
    match v.get(key) {
        Some(m) => match m.get(sub) {
            Some(n) => n.as_u64(),
            None => None,
        },
        None => None,
    }
}

/// The member `sub` of the object member `key` of `v`, read as a string:
/// `Some` of its characters exactly when both members exist and the inner
/// one is a JSON string.
pub uninterp spec fn json_str_at(v: serde_json::Value, key: Seq<char>, sub: Seq<char>) -> Option<
    Seq<char>,
>;

/// Relies on serde_json::Value::get and Value::as_str: looks `key`, then
/// `sub`, up and copies the member out as an owned string.
#[verifier::external_body]
pub fn json_str_member2(v: &serde_json::Value, key: &str, sub: &str) -> (r: Option<String>)
    ensures
        (match r {
            Some(s) => json_str_at(*v, key@, sub@) == Some(s@),
            None => json_str_at(*v, key@, sub@) is None,
        }),
{
    match v.get(key) {
        Some(m) => match m.get(sub) {
            Some(n) => match n.as_str() {
                Some(s) => Some(s.to_string()),
                None => None,
            },
            None => None,
        },
        None => None,
    }
}

/// Whether `serde_json::from_str` accepts `s` as one JSON document.
pub uninterp spec fn json_parses(s: Seq<char>) -> bool;

/// The document `serde_json::from_str` reads out of `s`; meaningful only
/// where `json_parses(s)` holds. The result depends on the characters
/// alone.
pub uninterp spec fn json_parse_of(s: Seq<char>) -> serde_json::Value;

/// Relies on serde_json::from_str: parses `s` as one JSON document, a
/// deterministic function of the characters; on failure the error is
/// rendered as a message.
#[verifier::external_body]
pub fn parse_json(s: &str) -> (r: Result<serde_json::Value, String>)
    ensures
        r matches Ok(v) ==> json_parses(s@) && v == json_parse_of(s@),
        r is Err ==> !json_parses(s@),
{
    match serde_json::from_str::<serde_json::Value>(s) {
        Ok(v) => Ok(v),
        Err(e) => Err(e.to_string()),
    }
}

/// Relies on serde_json::Value::clone: the clone equals the original.
#[verifier::external_body]
pub fn clone_json(v: &serde_json::Value) -> (r: serde_json::Value)
    ensures
        r == *v,
{
    v.clone()
}

} // verus!

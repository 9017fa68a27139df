use vstd::prelude::*;

verus! {

/// What `url::form_urlencoded::byte_serialize` makes of the UTF-8 bytes of
/// a string: its `application/x-www-form-urlencoded` percent-encoding. The
/// result depends on the characters alone.
pub uninterp spec fn urlencoded(s: Seq<char>) -> Seq<char>;

/// Relies on url::form_urlencoded::byte_serialize: percent-encodes a string
/// for use as one key or value of a form-encoded query.
#[verifier::external_body]
pub fn urlencode(s: &str) -> (r: String)
    ensures
        r@ == urlencoded(s@),
{
    url::form_urlencoded::byte_serialize(s.as_bytes()).collect()
}

} // verus!

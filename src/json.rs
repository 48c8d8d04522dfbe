//! The parts of `serde_json` that the response parsers rely on.
//!
//! A parsed document is opaque; what the parsers read of it is described by
//! two names: the JSON pointers that address a value in it, and the pointers
//! that address a string, with that string.
use vstd::prelude::*;

verus! {

#[verifier::external_type_specification]
#[verifier::external_body]
pub struct ExValue(serde_json::Value);

#[verifier::external_type_specification]
#[verifier::external_body]
pub struct ExError(serde_json::Error);

/// The JSON pointers (RFC 6901) at which `v` holds a value.
pub uninterp spec fn json_nodes(v: serde_json::Value) -> Set<Seq<char>>;

/// The JSON pointers at which `v` holds a string, each with that string.
pub uninterp spec fn json_strings(v: serde_json::Value) -> Map<Seq<char>, Seq<char>>;

/// The document that `serde_json` reads from a text, if the text is JSON.
pub uninterp spec fn json_parse(s: Seq<char>) -> Option<serde_json::Value>;

/// The JSON string literal, quotes and escapes included, that `serde_json`
/// writes for a text.
pub uninterp spec fn json_quoted(s: Seq<char>) -> Seq<char>;

/// Relies on `Value::pointer`: it returns the value addressed by the pointer,
/// if there is one; the empty pointer addresses the value itself.
pub assume_specification<'a>[ serde_json::Value::pointer ](
    v: &'a serde_json::Value,
    pointer: &str,
) -> (r: Option<&'a serde_json::Value>)
    ensures
        r is Some <==> json_nodes(*v).contains(pointer@),
        r is None ==> !json_strings(*v).contains_key(pointer@),
        r matches Some(w) ==> (json_strings(*w).contains_key(Seq::empty())
            <==> json_strings(*v).contains_key(pointer@)),
        r matches Some(w) ==> json_strings(*v).contains_key(pointer@) ==> json_strings(
            *w,
        )[Seq::empty()] == json_strings(*v)[pointer@],
;

/// Relies on `Value::as_str`: `Some` exactly when the value is a string.
pub assume_specification[ serde_json::Value::as_str ](v: &serde_json::Value) -> (r: Option<&str>)
    ensures
        r is Some <==> json_strings(*v).contains_key(Seq::empty()),
        r matches Some(s) ==> s@ == json_strings(*v)[Seq::empty()],
;

/// Relies on `serde_json::from_str`, read as a `Value`: it succeeds exactly
/// when the text is one JSON document.
#[verifier::external_body]
pub(crate) fn parse_document(s: &str) -> (r: Result<serde_json::Value, serde_json::Error>)
    ensures
        r is Ok <==> json_parse(s@) is Some,
        r matches Ok(v) ==> json_parse(s@) == Some(v),
{
    serde_json::from_str::<serde_json::Value>(s)
}

/// Relies on `serde_json::to_string` on a `str`: the text as a JSON string
/// literal. Serialising a `str` into the in-memory buffer that `to_string`
/// uses cannot fail, so the error arm is never taken.
#[verifier::external_body]
pub(crate) fn quote(s: &str) -> (r: String)
    ensures
        r@ == json_quoted(s@),
{
    match serde_json::to_string(s) {
        Ok(t) => t,
        Err(_) => String::new(),
    }
}

} // verus!

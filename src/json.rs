//! JSON text: strings are quoted by `serde_json`, objects are framed here.
use vstd::prelude::*;

verus! {

/// The JSON string literal that `serde_json` writes for the text `s`
/// (quoted, with the characters that JSON requires escaped).
pub uninterp spec fn json_quoted(s: Seq<char>) -> Seq<char>;

/// Relies on `serde_json::to_string` applied to a `str`, which writes the
/// text as one JSON string literal; it cannot fail on a string.
#[verifier::external_body]
pub(crate) fn json_string(s: &str) -> (r: String)
    ensures
        r@ == json_quoted(s@),
{
    serde_json::to_string(s).unwrap()
}

} // verus!

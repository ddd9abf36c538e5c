//! The JSON encoding and decoding of string-valued flash messages, done by
//! serde_json. Both directions are functions of the text alone, so their
//! results are given names that the rest of the library's contracts speak of.

use vstd::prelude::*;

verus! {

/// What `serde_json::to_string` returns for a string value: the JSON text
/// that encodes it. The encoding depends on the string's characters alone.
pub uninterp spec fn spec_json_encode_str(s: Seq<char>) -> Seq<char>;

/// What `serde_json::from_str::<String>` returns for a piece of text: the
/// string it decodes to, or nothing where the text is not valid JSON for a
/// string. The outcome depends on the text's characters alone.
pub uninterp spec fn spec_json_decode_str(s: Seq<char>) -> Option<Seq<char>>;

/// Relies on `serde_json::to_string`: encodes a string value as JSON text.
/// Its documentation has it fail only where the value's own `Serialize`
/// fails or the value holds a map with non-string keys; neither can hold of
/// a `String`, so the call cannot fail here.
#[verifier::external_body]
pub(crate) fn to_json_string(value: &String) -> (r: String)
    ensures
        r@ == spec_json_encode_str(value@),
{
    serde_json::to_string(value).expect("serializing a string cannot fail")
}

/// Relies on `serde_json::from_str`: parses JSON text as a `String`,
/// reporting failure without any of the parser's own detail.
#[verifier::external_body]
pub(crate) fn from_json_string(text: &str) -> (r: Option<String>)
    ensures
        r matches Some(s) ==> spec_json_decode_str(text@) == Some(s@),
        r is None ==> spec_json_decode_str(text@) is None,
{
    serde_json::from_str::<String>(text).ok()
}

} // verus!

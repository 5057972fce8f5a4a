//! Reading JSON reply bodies.
//!
//! JSON text is parsed by `serde_json`. What the parser finds in a body is a
//! function of the bytes of the body alone; the functions without a definition
//! in this module name it.

use vstd::prelude::*;

verus! {

/// What `serde_json` finds under `key` in the JSON object `body`: `None` where
/// `body` is no JSON object or has no such member, `Some(None)` where the
/// member is not a string, and its text where it is one.
pub uninterp spec fn json_text_member(body: Seq<u8>, key: Seq<char>) -> Option<Option<Seq<char>>>;

/// The member `key` of the JSON object `body` as `serde_json` reads it, where it
/// is an integer in the range of `i64`; `None` in every other case.
pub uninterp spec fn json_integer_member(body: Seq<u8>, key: Seq<char>) -> Option<i64>;

/// The elements of the JSON array `body`, each in the compact form that
/// `serde_json` prints, or the message of the parse error.
pub uninterp spec fn json_rows(body: Seq<u8>) -> Result<Seq<Seq<char>>, Seq<char>>;

/// Looks up a text member of a JSON object.
///
/// Parses with `serde_json::from_slice` into a `serde_json::Value`, looks the key
/// up with `Value::get` and reads the member with `Value::as_str`. Trusted: the
/// result depends on the bytes and the key alone, and an empty body is not JSON.
#[verifier::external_body]
pub(crate) fn text_member(body: &[u8], key: &str) -> (found: Option<Option<String>>)
    ensures
        found.deep_view() == json_text_member(body@, key@),
        body@.len() == 0 ==> found is None,
{
    let parsed = serde_json::from_slice::<serde_json::Value>(body).ok();
    let member = parsed.as_ref().and_then(|value| value.get(key));
    member.map(|value| value.as_str().map(|text| text.to_string()))
}

/// Looks up an integer member of a JSON object.
///
/// Parses with `serde_json::from_slice` into a `serde_json::Value`, looks the key
/// up with `Value::get` and reads the member with `Value::as_i64`. Trusted: the
/// result depends on the bytes and the key alone, and an empty body is not JSON.
#[verifier::external_body]
pub(crate) fn integer_member(body: &[u8], key: &str) -> (found: Option<i64>)
    ensures
        found == json_integer_member(body@, key@),
        body@.len() == 0 ==> found is None,
{
    let parsed = serde_json::from_slice::<serde_json::Value>(body).ok();
    parsed.as_ref().and_then(|value| value.get(key)).and_then(|value| value.as_i64())
}

/// Splits a JSON array into the compact texts of its elements.
///
/// Parses with `serde_json::from_slice` into a vector of `serde_json::Value` and
/// prints each element with `Value::to_string`. Trusted: the result, and the
/// message of a parse error, depend on the bytes alone, and an empty body is not
/// JSON.
#[verifier::external_body]
pub(crate) fn rows(body: &[u8]) -> (found: Result<Vec<String>, String>)
    ensures
        match found {
            Ok(texts) => json_rows(body@) == Ok::<Seq<Seq<char>>, Seq<char>>(texts.deep_view()),
            Err(message) => json_rows(body@) == Err::<Seq<Seq<char>>, Seq<char>>(message@),
        },
        body@.len() == 0 ==> found is Err,
{
    let parsed = serde_json::from_slice::<Vec<serde_json::Value>>(body);
    parsed.map(|values| values.iter().map(|value| value.to_string()).collect())
        .map_err(|error| error.to_string())
}

} // verus!

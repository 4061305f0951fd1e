//! The boundary to `serde_json`, which reads the frames that the server sends.

use vstd::prelude::*;

verus! {

/// `serde_json::Error`, the error of a failed parse. Nothing is known of its contents.
#[verifier::external_type_specification]
#[verifier::external_body]
pub struct ExJsonError(serde_json::Error);

/// What `serde_json` finds in `text` at a JSON pointer.
///
/// `None`: `serde_json` does not accept `text` as one JSON document.
/// `Some(None)`: it does, and the pointer leads to no value or to a value
/// that is not a string. `Some(Some(s))`: the pointer leads to the string `s`.
pub uninterp spec fn json_string_at(text: Seq<char>, pointer: Seq<char>) -> Option<Option<Seq<char>>>;

/// Parses `text` with `serde_json::from_str` into a `serde_json::Value`, follows
/// `pointer` with `Value::pointer` and reads the value found there with
/// `Value::as_str`.
///
/// Trusted: the three calls depend on `text` and `pointer` alone, so the result
/// is the same for the same arguments; the contract gives that result its name
/// and claims nothing else of it.
#[verifier::external_body]
pub(crate) fn string_at(text: &str, pointer: &str) -> (r: Result<Option<String>, serde_json::Error>)
    ensures
        match r {
            Ok(Some(s)) => json_string_at(text@, pointer@) == Some(Some(s@)),
            Ok(None) => json_string_at(text@, pointer@) == Some(None::<Seq<char>>),
            Err(_) => json_string_at(text@, pointer@) is None,
        },
{
    let value: serde_json::Value = serde_json::from_str(text)?;
    Ok(value.pointer(pointer).and_then(serde_json::Value::as_str).map(String::from))
}

} // verus!

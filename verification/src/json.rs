//! Reading string fields out of JSON documents with `serde_json`.

use vstd::prelude::*;

verus! {

#[verifier::external_type_specification]
#[verifier::external_body]
pub struct ExJsonError(serde_json::Error);

/// What `serde_json` reads from `text` at the JSON pointer `pointer`:
/// `None` when `text` is not a JSON document, `Some(None)` when the pointer
/// does not lead to a JSON string, `Some(Some(s))` when it leads to the string `s`.
pub uninterp spec fn json_string_at(text: Seq<char>, pointer: Seq<char>) -> Option<Option<Seq<char>>>;

/// Calls `serde_json::from_str::<serde_json::Value>` on `text`, then
/// `Value::pointer` with `pointer`, and keeps the target when it is a JSON string.
/// The contract claims only that the outcome is the named function of the two
/// arguments; the parse error is handed back as it came.
#[verifier::external_body]
pub(crate) fn lookup_json_string(text: &str, pointer: &str) -> (r: Result<Option<String>, serde_json::Error>)
    ensures
        r is Err <==> json_string_at(text@, pointer@) is None,
        r matches Ok(None) ==> json_string_at(text@, pointer@) == Some(None::<Seq<char>>),
        r matches Ok(Some(s)) ==> json_string_at(text@, pointer@) == Some(Some(s@)),
{
    match serde_json::from_str::<serde_json::Value>(text) {
        Ok(v) => match v.pointer(pointer) {
            Some(serde_json::Value::String(s)) => Ok(Some(s.clone())),
            _ => Ok(None),
        },
        Err(e) => Err(e),
    }
}

/// Whether `text` is a JSON document that holds an array at the JSON pointer
/// `pointer`, as `serde_json` reads it.
pub uninterp spec fn json_array_at(text: Seq<char>, pointer: Seq<char>) -> bool;

/// Calls `serde_json::from_str::<serde_json::Value>` on `text`, then
/// `Value::pointer` with `pointer`, and tells whether the target is a JSON
/// array. The contract claims only that the outcome is the named function of
/// the two arguments.
#[verifier::external_body]
pub(crate) fn is_json_array_at(text: &str, pointer: &str) -> (r: bool)
    ensures
        r == json_array_at(text@, pointer@),
{
    match serde_json::from_str::<serde_json::Value>(text) {
        Ok(v) => matches!(v.pointer(pointer), Some(serde_json::Value::Array(_))),
        Err(_) => false,
    }
}

} // verus!

//! Reading text fields out of a backend's JSON reply.
use vstd::prelude::*;

verus! {

/// The string that the JSON document `text` holds at the JSON Pointer
/// `pointer`, as `serde_json` reads it; `None` where `text` is not JSON or
/// no string stands there.
pub uninterp spec fn json_text_of(text: Seq<char>, pointer: Seq<char>) -> Option<Seq<char>>;

/// Relies on `serde_json::from_str::<Value>`, `Value::pointer` and
/// `Value::as_str`: the string at `pointer` depends on the two texts alone.
#[verifier::external_body]
pub(crate) fn json_text_at(text: &str, pointer: &str) -> (r: Option<String>)
    ensures
        r is Some <==> json_text_of(text@, pointer@) is Some,
        r matches Some(s) ==> json_text_of(text@, pointer@) == Some(s@),
{
    let doc: serde_json::Value = match serde_json::from_str(text) {
        Ok(v) => v,
        Err(_) => return None,
    };
    match doc.pointer(pointer).and_then(serde_json::Value::as_str) {
        Some(s) => Some(s.to_string()),
        None => None,
    }
}

} // verus!

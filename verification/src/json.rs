//! Reading the `name` of a JSON manifest (`package.json`, `composer.json`).

use vstd::prelude::*;

verus! {

/// What serde_json makes of `text` and `key`: `Err` with the message of the
/// parse error when `text` is not JSON; otherwise the value of the member
/// `key` of the top-level object when that value is a string, and `None`
/// when the top level is not an object, has no such member, or holds
/// something other than a string there.
pub uninterp spec fn json_string_member(text: Seq<char>, key: Seq<char>) -> Result<Option<Seq<char>>, Seq<char>>;

/// The view of what `json_member` returns.
pub open spec fn member_view(r: Result<Option<String>, String>) -> Result<Option<Seq<char>>, Seq<char>> {
    match r {
        Ok(Some(s)) => Ok(Some(s@)),
        Ok(None) => Ok(None),
        Err(m) => Err(m@),
    }
}

/// `serde_json::from_str::<serde_json::Value>(text)`, then the string held
/// by member `key` (`Value::get`, `Value::as_str`); a parse error becomes its
/// message. The contract names the result and claims nothing more of it.
#[verifier::external_body]
fn json_member(text: &str, key: &str) -> (r: Result<Option<String>, String>)
    ensures
        member_view(r) == json_string_member(text@, key@),
{
    match serde_json::from_str::<serde_json::Value>(text) {
        Ok(v) => Ok(v.get(key).and_then(serde_json::Value::as_str).map(String::from)),
        Err(e) => Err(e.to_string()),
    }
}

/// The string member `name` of the JSON text `data`, or the parse error's
/// message.
pub fn json_name(data: &str) -> (r: Result<Option<String>, String>)
    ensures
        member_view(r) == json_string_member(data@, "name"@),
{
    json_member(data, "name")
}

} // verus!

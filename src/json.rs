//! Reading one string member out of a line of JSON.

use vstd::prelude::*;

verus! {

/// The string held under `key` when `line` parses as a JSON object with a
/// string-valued member `key`; `None` when the line does not parse, is not
/// an object, lacks the member, or holds something other than a string there.
pub uninterp spec fn json_string_member(line: Seq<char>, key: Seq<char>) -> Option<Seq<char>>;

/// Relies on `serde_json::from_str` into a `serde_json::Value`, then
/// `Value::get` and `Value::as_str`: the outcome depends on the line and the
/// key alone.
#[verifier::external_body]
pub(crate) fn string_member(line: &str, key: &str) -> (r: Option<String>)
    ensures
        r.deep_view() == json_string_member(line@, key@),
{
    let value = serde_json::from_str::<serde_json::Value>(line).ok()?;
    let member = value.get(key)?;
    member.as_str().map(String::from)
}

} // verus!

//! Reading the members of a JSON document through `serde_json`.
use vstd::prelude::*;

verus! {

/// The string member `key` of the JSON object that `bytes` hold, if `bytes` are
/// a JSON object with such a member.
pub uninterp spec fn json_str_member(bytes: Seq<u8>, key: Seq<char>) -> Option<Seq<char>>;

/// The member `key` of the JSON object that `bytes` hold, if `bytes` are a JSON
/// object with such a member and it is a number that fits a `u64`.
pub uninterp spec fn json_u64_member(bytes: Seq<u8>, key: Seq<char>) -> Option<u64>;

/// Relies on `serde_json::from_slice` into a `serde_json::Value`, then
/// `Value::get` and `Value::as_str`: the result depends on the bytes and the key alone.
#[verifier::external_body]
pub(crate) fn json_text_member(bytes: &[u8], key: &str) -> (r: Option<String>)
    ensures
        match r {
            Some(s) => json_str_member(bytes@, key@) == Some(s@),
            None => json_str_member(bytes@, key@) is None,
        },
{
    let doc: serde_json::Value = serde_json::from_slice(bytes).ok()?;
    doc.get(key)?.as_str().map(String::from)
}

/// Relies on `serde_json::from_slice` into a `serde_json::Value`, then
/// `Value::get` and `Value::as_u64`: the result depends on the bytes and the key alone.
#[verifier::external_body]
pub(crate) fn json_number_member(bytes: &[u8], key: &str) -> (r: Option<u64>)
    ensures
        r == json_u64_member(bytes@, key@),
{
    let doc: serde_json::Value = serde_json::from_slice(bytes).ok()?;
    doc.get(key)?.as_u64()
}

} // verus!

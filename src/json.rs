use vstd::prelude::*;

verus! {

/// The string that a JSON document holds at a JSON pointer (`/a/b`), or
/// `None` when the text is no JSON, the pointer leads nowhere, or what it
/// leads to is not a string.
pub uninterp spec fn json_str_at(text: Seq<char>, pointer: Seq<char>) -> Option<Seq<char>>;

/// The unsigned integer that a JSON document holds at a JSON pointer, or
/// `None` when there is none there.
pub uninterp spec fn json_u64_at(text: Seq<char>, pointer: Seq<char>) -> Option<u64>;

/// A string written as a JSON string literal, quoted and escaped.
pub uninterp spec fn json_quoted(s: Seq<char>) -> Seq<char>;

/// Relies on `serde_json::from_str` into a `serde_json::Value`, then
/// `Value::pointer` and `Value::as_str`: the string at `pointer` in `text`.
#[verifier::external_body]
pub(crate) fn string_at(text: &str, pointer: &str) -> (r: Option<String>)
    ensures
        match r {
            Some(s) => json_str_at(text@, pointer@) == Some(s@),
            None => json_str_at(text@, pointer@) == None::<Seq<char>>,
        },
{
    let v: serde_json::Value = serde_json::from_str(text).ok()?;
    v.pointer(pointer).and_then(serde_json::Value::as_str).map(str::to_string)
}

/// Relies on `serde_json::from_str` into a `serde_json::Value`, then
/// `Value::pointer` and `Value::as_u64`: the unsigned integer at `pointer`
/// in `text`.
#[verifier::external_body]
pub(crate) fn u64_at(text: &str, pointer: &str) -> (r: Option<u64>)
    ensures
        r == json_u64_at(text@, pointer@),
{
    let v: serde_json::Value = serde_json::from_str(text).ok()?;
    v.pointer(pointer).and_then(serde_json::Value::as_u64)
}

/// Relies on `serde_json::to_string` on a `str`, which writes it as a JSON
/// string literal (serialising a string does not fail).
#[verifier::external_body]
pub(crate) fn quote(s: &str) -> (r: String)
    ensures
        r@ == json_quoted(s@),
{
    serde_json::to_string(s).unwrap_or_default()
}

} // verus!

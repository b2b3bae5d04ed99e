//! What the session layer takes from `serde_json` and from the URL parser
//! that `lsp_types` re-exports. Verus does not look inside these calls: their
//! results go by name, and the contracts of the callers speak of the names.

use vstd::prelude::*;

verus! {

/// The JSON string literal that `serde_json` writes for the text `s`: `s` in
/// double quotes, with the escapes that JSON asks for.
pub uninterp spec fn json_quoted(s: Seq<char>) -> Seq<char>;

/// The canonical text of the URL that `input` is parsed as, or `None` where
/// `input` is no URL.
pub uninterp spec fn uri_text(input: Seq<char>) -> Option<Seq<char>>;

/// The value that the JSON document `document` holds at the JSON pointer
/// `pointer`, written as JSON text; `None` when `document` is not JSON or
/// holds nothing there.
pub uninterp spec fn json_member(document: Seq<char>, pointer: Seq<char>) -> Option<Seq<char>>;

/// The integer that the JSON document `document` holds at `pointer`; `None`
/// when `document` is not JSON, or holds nothing there, or something other
/// than an integer of 64 bits.
pub uninterp spec fn json_integer(document: Seq<char>, pointer: Seq<char>) -> Option<i64>;

/// The string that the JSON document `document` holds at `pointer`, without
/// quotes and escapes; `None` when `document` is not JSON, or holds nothing
/// there, or something other than a string.
pub uninterp spec fn json_string(document: Seq<char>, pointer: Seq<char>) -> Option<Seq<char>>;

/// `serde_json::to_string` on a `str`: the JSON string literal for `s`. The
/// contract gives the result its name, [`json_quoted`], and claims only that
/// equal texts are written alike.
#[verifier::external_body]
pub(crate) fn quote(s: &str) -> (out: String)
    ensures
        out@ == json_quoted(s@),
{
    serde_json::to_string(s).unwrap_or_default()
}

/// `lsp_types::Url::parse`, then the parsed URL as a `String`. The contract
/// gives the result its name, [`uri_text`], and claims only that equal
/// inputs are parsed alike.
#[verifier::external_body]
pub(crate) fn canonical_uri(input: &str) -> (out: Option<String>)
    ensures
        match out {
            Some(uri) => uri_text(input@) == Some(uri@),
            None => uri_text(input@) is None,
        },
{
    lsp_types::Url::parse(input).ok().map(String::from)
}

/// `serde_json::from_str` into a `serde_json::Value`, `Value::pointer` on
/// it, and `serde_json::to_string` on what was found. The contract gives the
/// result its name, [`json_member`].
#[verifier::external_body]
pub(crate) fn member_at(document: &str, pointer: &str) -> (out: Option<String>)
    ensures
        match out {
            Some(member) => json_member(document@, pointer@) == Some(member@),
            None => json_member(document@, pointer@) is None,
        },
{
    let value: serde_json::Value = serde_json::from_str(document).ok()?;
    serde_json::to_string(value.pointer(pointer)?).ok()
}

/// `serde_json::from_str` into a `serde_json::Value`, `Value::pointer` on
/// it, and `Value::as_i64` on what was found. The contract gives the result
/// its name, [`json_integer`].
#[verifier::external_body]
pub(crate) fn integer_at(document: &str, pointer: &str) -> (out: Option<i64>)
    ensures
        out == json_integer(document@, pointer@),
{
    let value: serde_json::Value = serde_json::from_str(document).ok()?;
    value.pointer(pointer)?.as_i64()
}

/// `serde_json::from_str` into a `serde_json::Value`, `Value::pointer` on
/// it, and `Value::as_str` on what was found. The contract gives the result
/// its name, [`json_string`].
#[verifier::external_body]
pub(crate) fn string_at(document: &str, pointer: &str) -> (out: Option<String>)
    ensures
        match out {
            Some(s) => json_string(document@, pointer@) == Some(s@),
            None => json_string(document@, pointer@) is None,
        },
{
    let value: serde_json::Value = serde_json::from_str(document).ok()?;
    value.pointer(pointer)?.as_str().map(String::from)
}

} // verus!

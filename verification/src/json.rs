//! Reading and writing JSON documents.
use crate::number;
use crate::text;
use vstd::prelude::*;

verus! {

/// What `serde_json::from_str` says against a document; none where it is JSON.
pub uninterp spec fn json_fault(document: Seq<char>) -> Option<Seq<char>>;

/// What `serde_json::from_str` says against a document that is to be a JSON object; none
/// where it is one.
pub uninterp spec fn object_fault(document: Seq<char>) -> Option<Seq<char>>;

/// The text that a JSON document holds under a pointer, if it is JSON and holds one.
pub uninterp spec fn json_string_at(document: Seq<char>, pointer: Seq<char>) -> Option<Seq<char>>;

/// The count that a JSON document holds under a pointer, if it is JSON and holds one.
pub uninterp spec fn json_count_at(document: Seq<char>, pointer: Seq<char>) -> Option<u64>;

/// The flag that a JSON document holds under a pointer, if it is JSON and holds one.
pub uninterp spec fn json_flag_at(document: Seq<char>, pointer: Seq<char>) -> Option<bool>;

/// A character within a JSON string: the quote, the backslash and the control characters
/// are escaped, those without a letter of their own by their number.
pub open spec fn escaped(c: char) -> Seq<char> {
    if c == '"' || c == '\\' {
        seq!['\\', c]
    } else if c == '\u{8}' {
        seq!['\\', 'b']
    } else if c == '\t' {
        seq!['\\', 't']
    } else if c == '\n' {
        seq!['\\', 'n']
    } else if c == '\u{c}' {
        seq!['\\', 'f']
    } else if c == '\r' {
        seq!['\\', 'r']
    } else if (c as nat) < 32 {
        seq!['\\', 'u'] + number::hex_digits(c as nat, 4)
    } else {
        seq![c]
    }
}

/// A text within a JSON string.
pub open spec fn escaped_text(s: Seq<char>) -> Seq<char>
    decreases s.len(),
{
    if s.len() == 0 {
        Seq::empty()
    } else {
        escaped_text(s.drop_last()) + escaped(s.last())
    }
}

/// A text as a JSON string, quotes included.
pub open spec fn json_quoted(s: Seq<char>) -> Seq<char> {
    seq!['"'] + escaped_text(s) + seq!['"']
}

/// `serde_json::from_str` into a value that is dropped: whether the document is JSON, a
/// function of the document.
#[verifier::external_body]
pub(crate) fn check(document: &str) -> (r: Result<(), String>)
    ensures
        r is Ok <==> json_fault(document@) is None,
        r is Err ==> json_fault(document@) == Some(r->Err_0@),
{
    serde_json::from_str::<serde_json::Value>(document).map(|_| ()).map_err(|e| e.to_string())
}

/// `serde_json::from_str` into a map that is dropped: whether the document is a JSON
/// object, a function of the document.
#[verifier::external_body]
pub(crate) fn check_object(document: &str) -> (r: Result<(), String>)
    ensures
        r is Ok <==> object_fault(document@) is None,
        r is Err ==> object_fault(document@) == Some(r->Err_0@),
{
    let map = serde_json::from_str::<serde_json::Map<String, serde_json::Value>>(document);
    map.map(|_| ()).map_err(|e| e.to_string())
}

/// `serde_json::from_str`, `Value::pointer` and `Value::as_str`: the text under a
/// pointer, a function of the document and the pointer.
#[verifier::external_body]
pub(crate) fn string_at(document: &str, pointer: &str) -> (r: Option<String>)
    ensures
        text::opt_text(r) == json_string_at(document@, pointer@),
{
    let value = serde_json::from_str::<serde_json::Value>(document).ok()?;
    value.pointer(pointer)?.as_str().map(str::to_string)
}

/// `serde_json::from_str`, `Value::pointer` and `Value::as_u64`: the count under a
/// pointer, a function of the document and the pointer.
#[verifier::external_body]
pub(crate) fn count_at(document: &str, pointer: &str) -> (r: Option<u64>)
    ensures
        r == json_count_at(document@, pointer@),
{
    let value = serde_json::from_str::<serde_json::Value>(document).ok()?;
    value.pointer(pointer)?.as_u64()
}

/// `serde_json::from_str`, `Value::pointer` and `Value::as_bool`: the flag under a
/// pointer, a function of the document and the pointer.
#[verifier::external_body]
pub(crate) fn flag_at(document: &str, pointer: &str) -> (r: Option<bool>)
    ensures
        r == json_flag_at(document@, pointer@),
{
    let value = serde_json::from_str::<serde_json::Value>(document).ok()?;
    value.pointer(pointer)?.as_bool()
}

/// `serde_json::Value::String` in its compact form: the text between quotes, with the
/// quote, the backslash and the control characters escaped.
#[verifier::external_body]
pub(crate) fn quote(s: &str) -> (r: String)
    ensures
        r@ == json_quoted(s@),
{
    serde_json::Value::String(s.to_string()).to_string()
}

} // verus!
